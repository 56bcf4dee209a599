use cmprss::progress::{
    progress_enabled, progress_tracker, ChunkSize, ProgressArgs, ProgressDisplay, ProgressState,
};
use cmprss::utils::CmprssOutput;

#[test]
fn chunk_size_parsing() {
    assert!(ChunkSize::from_str("0").is_err());
    assert!(ChunkSize::from_str("0mb").is_err());
    assert_eq!(ChunkSize::from_str("1").unwrap(), ChunkSize { size_in_bytes: 1 });
    assert_eq!(ChunkSize::from_str("1kb").unwrap(), ChunkSize { size_in_bytes: 1024 });
    assert_eq!(
        ChunkSize::from_str("16kib").unwrap(),
        ChunkSize { size_in_bytes: 16 * 1024 }
    );
    assert_eq!(
        ChunkSize::from_str("8mib").unwrap(),
        ChunkSize { size_in_bytes: 8 * 1024 * 1024 }
    );
    assert_eq!(
        ChunkSize::from_str("16mb").unwrap(),
        ChunkSize { size_in_bytes: 16 * 1024 * 1024 }
    );
    assert_eq!(
        ChunkSize::from_str("1gb").unwrap(),
        ChunkSize { size_in_bytes: 1024 * 1024 * 1024 }
    );
    assert_eq!(
        ChunkSize::from_str("16gib").unwrap(),
        ChunkSize { size_in_bytes: 16 * 1024 * 1024 * 1024 }
    );
}

#[test]
fn chunk_size_units_in_any_case() {
    assert_eq!(ChunkSize::from_str("2KB").unwrap().size_in_bytes, 2048);
    assert_eq!(ChunkSize::from_str("3MiB").unwrap().size_in_bytes, 3 * 1024 * 1024);
    assert_eq!(ChunkSize::from_str("+5").unwrap().size_in_bytes, 5);
}

#[test]
fn chunk_size_errors() {
    assert_eq!(ChunkSize::from_str("12tb"), Err("Invalid unit"));
    assert_eq!(ChunkSize::from_str("xkb"), Err("Invalid number"));
    assert_eq!(ChunkSize::from_str(""), Err("Invalid number"));
    assert_eq!(ChunkSize::from_str("k"), Err("Invalid number"));
    assert_eq!(ChunkSize::from_str("0kib"), Err("Invalid number"));
    assert_eq!(ChunkSize::from_str("-1"), Err("Invalid number"));
    assert_eq!(ChunkSize::from_str("99999999999999999999gb"), Err("Invalid number"));
    assert_eq!(ChunkSize::from_str("18446744073709551615gb"), Err("Invalid number"));
}

#[test]
fn chunk_size_from_folded_text() {
    assert_eq!(ChunkSize::from_folded("4kib").unwrap().size_in_bytes, 4096);
    assert_eq!(ChunkSize::from_folded("4KB"), Err("Invalid unit"));
}

#[test]
fn progress_defaults() {
    let args = ProgressArgs::default();
    assert_eq!(args.progress, ProgressDisplay::Auto);
    assert_eq!(args.chunk_size.size_in_bytes, 8192);
}

#[test]
fn progress_off_keeps_no_state() {
    let file = CmprssOutput::Path("out".to_string());
    assert!(progress_tracker(ProgressDisplay::Off, &file).is_none());
    assert!(progress_tracker(ProgressDisplay::Off, &CmprssOutput::Pipe).is_none());
    assert!(progress_tracker(ProgressDisplay::Auto, &CmprssOutput::Pipe).is_none());
    let state = progress_tracker(ProgressDisplay::Auto, &file).unwrap();
    assert_eq!(state, ProgressState::new());
    assert!(progress_tracker(ProgressDisplay::On, &CmprssOutput::Pipe).is_some());
    assert!(!progress_enabled(ProgressDisplay::Off, &file));
    assert!(progress_enabled(ProgressDisplay::On, &file));
}

#[test]
fn refresh_is_due_after_the_gap() {
    let mut state = ProgressState::new();
    assert_eq!(state.bytes_per_update, 8192);
    assert!(!state.record(4096));
    assert!(!state.record(4095));
    assert!(state.record(1));
    assert_eq!(state.total, 8192);
    state.refreshed(100_000_000);
    assert_eq!(state.bytes_since_update, 0);
    assert_eq!(state.bytes_per_update, 8192);
    assert_eq!(state.total, 8192);
}

#[test]
fn gap_adapts_to_refresh_speed() {
    let mut state = ProgressState::new();
    state.refreshed(10_000_000);
    assert_eq!(state.bytes_per_update, 16384);
    state.refreshed(200_000_000);
    assert_eq!(state.bytes_per_update, 8192);
    state.refreshed(50_000_000);
    assert_eq!(state.bytes_per_update, 8192);
    state.refreshed(150_000_000);
    assert_eq!(state.bytes_per_update, 8192);
    for _ in 0..10 {
        state.refreshed(1_000_000_000);
    }
    assert_eq!(state.bytes_per_update, 1024);
}

#[test]
fn counters_saturate() {
    let mut state = ProgressState::new();
    assert!(state.record(u64::MAX));
    assert!(state.record(10));
    assert_eq!(state.total, u64::MAX);
    for _ in 0..70 {
        state.refreshed(0);
    }
    assert_eq!(state.bytes_per_update, u64::MAX);
}
