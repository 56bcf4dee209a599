//! Text and path primitives: the few calls into std that the rest of the
//! library makes on strings, with what std documents of them, and a handful
//! of small verified string helpers.
use vstd::prelude::*;

verus! {

/// What `str::to_lowercase` makes of a string.
pub uninterp spec fn lower_of(s: Seq<char>) -> Seq<char>;

/// The final component of a path, as `Path::file_name` finds it
/// (`None` when the path ends in `..` or has no component).
pub uninterp spec fn file_name_of(p: Seq<char>) -> Option<Seq<char>>;

pub open spec fn is_digit(c: char) -> bool {
    '0' <= c && c <= '9'
}

pub open spec fn all_digits(s: Seq<char>) -> bool {
    forall|i: int| 0 <= i < s.len() ==> is_digit(#[trigger] s[i])
}

/// The value of a string of decimal digits.
pub open spec fn digits_value(s: Seq<char>) -> nat
    decreases s.len(),
{
    if s.len() == 0 {
        0
    } else {
        digits_value(s.drop_last()) * 10 + ((s.last() as u32) as int - ('0' as u32) as int) as nat
    }
}

/// The digits after an optional leading `+`.
pub open spec fn unsigned_digits(s: Seq<char>) -> Seq<char> {
    if s.len() > 0 && s[0] == '+' {
        s.drop_first()
    } else {
        s
    }
}

/// The value `str::parse::<usize>` reads from `s`, when it reads one:
/// an optional `+` followed by at least one decimal digit, within range.
pub open spec fn usize_parse(s: Seq<char>) -> Option<nat> {
    let d = unsigned_digits(s);
    if d.len() > 0 && all_digits(d) && digits_value(d) <= usize::MAX {
        Some(digits_value(d))
    } else {
        None
    }
}

/// The value `str::parse::<i32>` reads from `s`, when it reads one:
/// an optional sign followed by at least one decimal digit, within range.
pub open spec fn i32_parse(s: Seq<char>) -> Option<int> {
    if s.len() > 0 && s[0] == '-' {
        let d = s.drop_first();
        if d.len() > 0 && all_digits(d) && digits_value(d) <= 0x8000_0000 {
            Some(-(digits_value(d) as int))
        } else {
            None
        }
    } else {
        let d = unsigned_digits(s);
        if d.len() > 0 && all_digits(d) && digits_value(d) <= i32::MAX {
            Some(digits_value(d) as int)
        } else {
            None
        }
    }
}

/// Index of the last `.` in a name, or -1 when it holds none.
pub open spec fn last_dot(n: Seq<char>) -> int
    decreases n.len(),
{
    if n.len() == 0 {
        -1
    } else if n.last() == '.' {
        n.len() - 1
    } else {
        last_dot(n.drop_last())
    }
}

/// Whether a file name splits into stem and extension: it has a `.` that
/// is not its first character, and it is not `..`.
pub open spec fn has_extension(n: Seq<char>) -> bool {
    n != ".."@ && last_dot(n) > 0
}

/// The extension of a file name: what follows its last `.`.
pub open spec fn extension_of_name(n: Seq<char>) -> Option<Seq<char>> {
    if has_extension(n) {
        Some(n.subrange(last_dot(n) + 1, n.len() as int))
    } else {
        None
    }
}

/// The stem of a file name: what precedes its last `.`, or the whole name.
pub open spec fn stem_of_name(n: Seq<char>) -> Seq<char> {
    if has_extension(n) {
        n.subrange(0, last_dot(n))
    } else {
        n
    }
}

/// `Path::extension`, on the path's text.
pub open spec fn extension_of(p: Seq<char>) -> Option<Seq<char>> {
    match file_name_of(p) {
        Some(n) => extension_of_name(n),
        None => None,
    }
}

/// `Path::file_stem`, on the path's text.
pub open spec fn stem_of(p: Seq<char>) -> Option<Seq<char>> {
    match file_name_of(p) {
        Some(n) => Some(stem_of_name(n)),
        None => None,
    }
}

/// Relies on `str::to_lowercase`: the result depends on the characters alone.
#[verifier::external_body]
pub(crate) fn lowercase(s: &str) -> (r: String)
    ensures
        r@ == lower_of(s@),
{
    s.to_lowercase()
}

/// Relies on `str::parse::<usize>`, whose documentation accepts an optional
/// `+` followed by decimal digits only, and refuses a value out of range.
#[verifier::external_body]
pub(crate) fn parse_usize(s: &str) -> (r: Option<usize>)
    ensures
        r.is_some() == usize_parse(s@).is_some(),
        r.is_some() ==> r.unwrap() as nat == usize_parse(s@).unwrap(),
{
    s.parse::<usize>().ok()
}

/// Relies on `str::parse::<i32>`, whose documentation accepts an optional
/// sign followed by decimal digits only, and refuses a value out of range.
#[verifier::external_body]
pub(crate) fn parse_i32(s: &str) -> (r: Option<i32>)
    ensures
        r.is_some() == i32_parse(s@).is_some(),
        r.is_some() ==> r.unwrap() as int == i32_parse(s@).unwrap(),
{
    s.parse::<i32>().ok()
}

/// Relies on `Path::file_name`; the component of a path given as UTF-8
/// text is UTF-8 text again.
#[verifier::external_body]
pub(crate) fn path_file_name(p: &str) -> (r: Option<String>)
    ensures
        r.is_some() == file_name_of(p@).is_some(),
        r.is_some() ==> r.unwrap()@ == file_name_of(p@).unwrap(),
{
    match std::path::Path::new(p).file_name() {
        Some(n) => n.to_str().map(String::from),
        None => None,
    }
}

/// Relies on `Path::extension`: the part of the file name after its last
/// `.`, absent when the name has no `.` or only a leading one.
#[verifier::external_body]
pub(crate) fn path_extension(p: &str) -> (r: Option<String>)
    ensures
        r.is_some() == extension_of(p@).is_some(),
        r.is_some() ==> r.unwrap()@ == extension_of(p@).unwrap(),
{
    match std::path::Path::new(p).extension() {
        Some(e) => e.to_str().map(String::from),
        None => None,
    }
}

/// Relies on `Path::file_stem`: the file name without its extension.
#[verifier::external_body]
pub(crate) fn path_file_stem(p: &str) -> (r: Option<String>)
    ensures
        r.is_some() == stem_of(p@).is_some(),
        r.is_some() ==> r.unwrap()@ == stem_of(p@).unwrap(),
{
    match std::path::Path::new(p).file_stem() {
        Some(s) => s.to_str().map(String::from),
        None => None,
    }
}

/// Character-wise equality of two strings.
pub fn str_eq(a: &str, b: &str) -> (r: bool)
    ensures
        r == (a@ == b@),
{
    let n = a.unicode_len();
    if n != b.unicode_len() {
        return false;
    }
    let mut i: usize = 0;
    while i < n
        invariant
            n == a@.len(),
            n == b@.len(),
            i <= n,
            a@.subrange(0, i as int) == b@.subrange(0, i as int),
        decreases n - i,
    {
        if a.get_char(i) != b.get_char(i) {
            assert(a@[i as int] != b@[i as int]);
            return false;
        }
        assert(a@.subrange(0, i + 1) == a@.subrange(0, i as int).push(a@[i as int]));
        assert(b@.subrange(0, i + 1) == b@.subrange(0, i as int).push(b@[i as int]));
        i = i + 1;
    }
    assert(a@ == a@.subrange(0, n as int));
    assert(b@ == b@.subrange(0, n as int));
    true
}

/// A fresh `String` holding the characters of `s`.
pub fn owned(s: &str) -> (r: String)
    ensures
        r@ == s@,
{
    String::from_str(s)
}

} // verus!
