//! Progress configuration (display mode, chunk size) and the adaptive
//! refresh bookkeeping of a streaming copy.
use crate::text::{lower_of, lowercase, owned, parse_usize, str_eq, usize_parse};
use crate::utils::CmprssOutput;
use vstd::prelude::*;

verus! {

/// When to show a progress indicator.
#[derive(Debug, Clone, Copy, PartialEq, Eq, Structural)]
pub enum ProgressDisplay {
    /// Only when the output is not a pipe
    Auto,
    /// Always
    On,
    /// Never
    Off,
}

impl Default for ProgressDisplay {
    fn default() -> (r: ProgressDisplay)
        ensures
            r == ProgressDisplay::Auto,
    {
        ProgressDisplay::Auto
    }
}

/// Size of the buffer that a copy moves at a time; never zero.
#[derive(Debug, Clone, Copy, PartialEq, Eq, Structural)]
pub struct ChunkSize {
    pub size_in_bytes: usize,
}

impl Default for ChunkSize {
    fn default() -> (r: ChunkSize)
        ensures
            r.size_in_bytes == 8192,
    {
        ChunkSize { size_in_bytes: 8192 }
    }
}

pub const KIB: usize = 1024;

pub const MIB: usize = 1048576;

pub const GIB: usize = 1073741824;

/// A lower-case size text with an `ib` suffix written as `b`: units are
/// binary multiples whichever way they are spelled.
pub open spec fn unit_normalized(f: Seq<char>) -> Seq<char> {
    if f.len() >= 2 && f.subrange(f.len() - 2, f.len() as int) == "ib"@ {
        f.subrange(0, f.len() - 2) + "b"@
    } else {
        f
    }
}

/// The multiplier of a two-letter unit, or 0 for an unknown one.
pub open spec fn unit_multiplier(u: Seq<char>) -> nat {
    if u == "kb"@ {
        KIB as nat
    } else if u == "mb"@ {
        MIB as nat
    } else if u == "gb"@ {
        GIB as nat
    } else {
        0
    }
}

/// The number part of a normalized size text: all but its last two
/// characters.
pub open spec fn number_part(t: Seq<char>) -> Seq<char> {
    t.subrange(0, t.len() - 2)
}

/// The unit part of a normalized size text: its last two characters.
pub open spec fn unit_part(t: Seq<char>) -> Seq<char> {
    t.subrange(t.len() - 2, t.len() as int)
}

/// Whether a lower-case size text is refused for its unit: its number
/// part reads, its unit is none of `kb`, `mb`, `gb`.
pub open spec fn folded_unit_invalid(f: Seq<char>) -> bool {
    let t = unit_normalized(f);
    t.len() >= 2 && usize_parse(number_part(t)).is_some() && unit_multiplier(unit_part(t)) == 0
}

/// The size in bytes that a lower-case size text with a unit gives, when
/// it gives one that is positive and fits in `usize`.
pub open spec fn folded_size(f: Seq<char>) -> Option<nat> {
    let t = unit_normalized(f);
    if t.len() < 2 {
        None
    } else {
        match usize_parse(number_part(t)) {
            Some(n) => {
                let v = n * unit_multiplier(unit_part(t));
                if 0 < v && v <= usize::MAX {
                    Some(v)
                } else {
                    None
                }
            },
            None => None,
        }
    }
}

/// The size in bytes that a chunk-size text gives: a positive integer, or
/// an integer with unit `kb`, `mb`, `gb` (or `kib`, `mib`, `gib`) in any
/// case, always as powers of 1024.
pub open spec fn chunk_size_spec(s: Seq<char>) -> Option<nat> {
    match usize_parse(s) {
        Some(n) => if n == 0 {
            None
        } else {
            Some(n)
        },
        None => folded_size(lower_of(s)),
    }
}

impl ChunkSize {
    /// Reads a lower-case size with unit: the unit is the last two
    /// characters once an `ib` suffix is written `b`.
    pub fn from_folded(folded: &str) -> (r: Result<ChunkSize, &'static str>)
        ensures
            match folded_size(folded@) {
                Some(n) => r.is_ok() && r.unwrap().size_in_bytes as nat == n,
                None => r.is_err(),
            },
            folded_unit_invalid(folded@) <==> r == Err::<ChunkSize, &'static str>("Invalid unit"),
    {
        proof {
            reveal_strlit("b");
        }
        let len = folded.unicode_len();
        let normalized = if len >= 2 && str_eq(folded.substring_char(len - 2, len), "ib") {
            owned(folded.substring_char(0, len - 2)).concat("b")
        } else {
            owned(folded)
        };
        let t = normalized.as_str();
        assert(t@ == unit_normalized(folded@));
        let tl = t.unicode_len();
        if tl < 2 {
            return Err("Invalid number");
        }
        let num = match parse_usize(t.substring_char(0, tl - 2)) {
            Some(n) => n,
            None => {
                return Err("Invalid number");
            },
        };
        let unit = t.substring_char(tl - 2, tl);
        let multiplier: usize = if str_eq(unit, "kb") {
            KIB
        } else if str_eq(unit, "mb") {
            MIB
        } else if str_eq(unit, "gb") {
            GIB
        } else {
            return Err("Invalid unit");
        };
        match num.checked_mul(multiplier) {
            Some(size_in_bytes) => {
                if size_in_bytes == 0 {
                    Err("Invalid number")
                } else {
                    Ok(ChunkSize { size_in_bytes })
                }
            },
            None => Err("Invalid number"),
        }
    }

    /// Reads a chunk size: a positive number of bytes, or a number with one
    /// of the units `kb`, `mb`, `gb`, `kib`, `mib`, `gib` in any case,
    /// all binary multiples. Zero is refused.
    pub fn from_str(s: &str) -> (r: Result<ChunkSize, &'static str>)
        ensures
            match chunk_size_spec(s@) {
                Some(n) => r.is_ok() && r.unwrap().size_in_bytes as nat == n,
                None => r.is_err(),
            },
    {
        match parse_usize(s) {
            Some(n) => {
                if n == 0 {
                    Err("Invalid number")
                } else {
                    Ok(ChunkSize { size_in_bytes: n })
                }
            },
            None => {
                let folded = lowercase(s);
                ChunkSize::from_folded(folded.as_str())
            },
        }
    }
}

/// The progress options of the streaming formats.
#[derive(Debug, Clone, Copy, PartialEq, Eq, Structural)]
pub struct ProgressArgs {
    pub progress: ProgressDisplay,
    pub chunk_size: ChunkSize,
}

impl Default for ProgressArgs {
    fn default() -> (r: ProgressArgs)
        ensures
            r == default_progress_args(),
    {
        ProgressArgs { progress: ProgressDisplay::default(), chunk_size: ChunkSize::default() }
    }
}

/// Progress shown in `Auto` mode, 8 KiB chunks.
pub open spec fn default_progress_args() -> ProgressArgs {
    ProgressArgs { progress: ProgressDisplay::Auto, chunk_size: ChunkSize { size_in_bytes: 8192 } }
}

/// Whether a copy shows progress: never when `Off`, and in `Auto` mode not
/// when the output is a pipe.
pub open spec fn progress_enabled_spec(display: ProgressDisplay, output: CmprssOutput) -> bool {
    match (display, output) {
        (ProgressDisplay::Off, _) => false,
        (ProgressDisplay::Auto, CmprssOutput::Pipe) => false,
        _ => true,
    }
}

/// Whether a copy to `output` in mode `display` shows progress.
pub fn progress_enabled(display: ProgressDisplay, output: &CmprssOutput) -> (r: bool)
    ensures
        r == progress_enabled_spec(display, *output),
{
    match (display, output) {
        (ProgressDisplay::Off, _) => false,
        (ProgressDisplay::Auto, CmprssOutput::Pipe) => false,
        _ => true,
    }
}

/// Bytes between two refreshes at the start of a copy.
pub const INITIAL_BYTES_PER_UPDATE: u64 = 8192;

/// The least number of bytes between two refreshes.
pub const MIN_BYTES_PER_UPDATE: u64 = 1024;

/// A refresh that comes sooner than this (in nanoseconds) doubles the gap.
pub const FAST_REFRESH_NANOS: u64 = 50_000_000;

/// A refresh that comes later than this (in nanoseconds) halves the gap.
pub const SLOW_REFRESH_NANOS: u64 = 150_000_000;

/// The byte counters of one side of an instrumented copy.
#[derive(Debug, Clone, Copy, PartialEq, Eq, Structural)]
pub struct ProgressState {
    /// Bytes that passed in all
    pub total: u64,
    /// Bytes that passed since the last refresh
    pub bytes_since_update: u64,
    /// Bytes that must pass before the next refresh
    pub bytes_per_update: u64,
}

/// `a + b`, or `u64::MAX` where that does not fit.
pub open spec fn saturated_sum(a: u64, b: u64) -> u64 {
    if a + b > u64::MAX {
        u64::MAX
    } else {
        (a + b) as u64
    }
}

/// The gap after a refresh that came `elapsed` nanoseconds after the one
/// before: doubled when it came fast, halved (down to 1 KiB) when slow.
pub open spec fn adapted_gap(gap: u64, elapsed: u64) -> u64 {
    if elapsed < FAST_REFRESH_NANOS {
        saturated_sum(gap, gap)
    } else if elapsed > SLOW_REFRESH_NANOS {
        if gap / 2 > MIN_BYTES_PER_UPDATE {
            gap / 2
        } else {
            MIN_BYTES_PER_UPDATE
        }
    } else {
        gap
    }
}

impl ProgressState {
    /// Counters of a copy that has not begun.
    pub fn new() -> (r: ProgressState)
        ensures
            r.total == 0,
            r.bytes_since_update == 0,
            r.bytes_per_update == INITIAL_BYTES_PER_UPDATE,
    {
        ProgressState { total: 0, bytes_since_update: 0, bytes_per_update: INITIAL_BYTES_PER_UPDATE }
    }

    /// Counts `n` bytes that passed, and says whether a refresh is due.
    pub fn record(&mut self, n: u64) -> (due: bool)
        ensures
            final(self).total == saturated_sum(old(self).total, n),
            final(self).bytes_since_update == saturated_sum(old(self).bytes_since_update, n),
            final(self).bytes_per_update == old(self).bytes_per_update,
            due == (final(self).bytes_since_update >= final(self).bytes_per_update),
    {
        self.total = self.total.saturating_add(n);
        self.bytes_since_update = self.bytes_since_update.saturating_add(n);
        self.bytes_since_update >= self.bytes_per_update
    }

    /// Notes a refresh that came `elapsed_nanos` after the one before: the
    /// gap adapts toward one refresh per 100 ms, and counting starts over.
    pub fn refreshed(&mut self, elapsed_nanos: u64)
        ensures
            final(self).total == old(self).total,
            final(self).bytes_since_update == 0,
            final(self).bytes_per_update == adapted_gap(old(self).bytes_per_update, elapsed_nanos),
    {
        if elapsed_nanos < FAST_REFRESH_NANOS {
            self.bytes_per_update = self.bytes_per_update.saturating_add(self.bytes_per_update);
        } else if elapsed_nanos > SLOW_REFRESH_NANOS {
            let half = self.bytes_per_update / 2;
            self.bytes_per_update = if half > MIN_BYTES_PER_UPDATE {
                half
            } else {
                MIN_BYTES_PER_UPDATE
            };
        }
        self.bytes_since_update = 0;
    }
}

/// The counters that a copy to `output` in mode `display` keeps: none at
/// all when it shows no progress, fresh ones otherwise.
pub fn progress_tracker(display: ProgressDisplay, output: &CmprssOutput) -> (r: Option<
    ProgressState,
>)
    ensures
        r.is_some() == progress_enabled_spec(display, *output),
        r.is_some() ==> r.unwrap().total == 0 && r.unwrap().bytes_since_update == 0
            && r.unwrap().bytes_per_update == INITIAL_BYTES_PER_UPDATE,
{
    if progress_enabled(display, output) {
        Some(ProgressState::new())
    } else {
        None
    }
}

} // verus!
