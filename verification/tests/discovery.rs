use toa::process::DiscoveryStatus;
use toa::process::WindowDiscovery;
use toa::process::MAX_NUM_TRIAL;
use toa::windows_helper::find_main_window;
use toa::windows_helper::OsError;
use toa::windows_helper::WindowEnumeration;
use toa::windows_helper::WindowInfo;

fn window(handle: usize, process_id: u32, has_owner: bool) -> WindowInfo {
    WindowInfo { handle, process_id, has_owner }
}

fn clean_enumeration(windows: Vec<WindowInfo>) -> WindowEnumeration {
    WindowEnumeration { windows, returned_false: false, last_error: 0 }
}

#[test]
fn discovery_times_out_exactly_after_last_tick() {
    let mut d = WindowDiscovery::new();
    for k in 1..=MAX_NUM_TRIAL {
        assert!(matches!(d.status, DiscoveryStatus::Polling));
        d.tick(Ok(0));
        if k < MAX_NUM_TRIAL {
            assert!(matches!(d.status, DiscoveryStatus::Polling), "tick {k}");
        }
        assert_eq!(d.ticks_used, k);
    }
    assert!(matches!(d.status, DiscoveryStatus::TimedOut));
    assert_eq!(d.ticks_used, MAX_NUM_TRIAL);
}

#[test]
fn discovery_resolves_found_at_matching_tick() {
    let mut d = WindowDiscovery::new();
    for _ in 0..4 {
        d.tick(Ok(0));
        assert!(matches!(d.status, DiscoveryStatus::Polling));
    }
    d.tick(Ok(0x1234));
    assert_eq!(d.status, DiscoveryStatus::Found(0x1234));
    assert_eq!(d.ticks_used, 5);
}

#[test]
fn discovery_found_on_first_tick() {
    let mut d = WindowDiscovery::new();
    d.tick(Ok(0xbeef));
    assert_eq!(d.status, DiscoveryStatus::Found(0xbeef));
    assert_eq!(d.ticks_used, 1);
}

#[test]
fn discovery_found_on_last_tick() {
    let mut d = WindowDiscovery::new();
    for _ in 0..MAX_NUM_TRIAL - 1 {
        d.tick(Ok(0));
    }
    assert!(matches!(d.status, DiscoveryStatus::Polling));
    d.tick(Ok(0x77));
    assert_eq!(d.status, DiscoveryStatus::Found(0x77));
    assert_eq!(d.ticks_used, MAX_NUM_TRIAL);
}

#[test]
fn discovery_fails_on_enumeration_error() {
    let mut d = WindowDiscovery::new();
    d.tick(Ok(0));
    d.tick(Err(OsError::Code(5)));
    assert_eq!(d.status, DiscoveryStatus::Failed(OsError::Code(5)));
    assert_eq!(d.ticks_used, 2);
}

#[test]
fn find_main_window_picks_first_ownerless_window_of_process() {
    let e = clean_enumeration(vec![
        window(0x10, 7, false),
        window(0x20, 9, true),
        window(0x30, 9, false),
        window(0x40, 9, false),
    ]);
    assert_eq!(find_main_window(9, &e), Ok(0x30));
}

#[test]
fn find_main_window_skips_owned_windows() {
    let e = clean_enumeration(vec![window(0x20, 9, true)]);
    assert_eq!(find_main_window(9, &e), Ok(0));
}

#[test]
fn find_main_window_reports_null_when_process_has_no_window() {
    let e = clean_enumeration(vec![window(0x10, 7, false)]);
    assert_eq!(find_main_window(9, &e), Ok(0));
}

#[test]
fn enumeration_stop_with_code_zero_is_not_an_error() {
    // The enumeration call returns false when the callback stops it on a
    // match; the error code stays zero and no error is surfaced.
    let e = WindowEnumeration {
        windows: vec![window(0x50, 9, false)],
        returned_false: true,
        last_error: 0,
    };
    assert_eq!(find_main_window(9, &e), Ok(0x50));
}

#[test]
fn enumeration_failure_with_nonzero_code_is_always_surfaced() {
    let e = WindowEnumeration { windows: vec![], returned_false: true, last_error: 6 };
    assert_eq!(find_main_window(9, &e), Err(OsError::Code(6)));
}

#[test]
fn enumeration_false_return_without_match_and_zero_code_is_clean_miss() {
    let e = WindowEnumeration { windows: vec![], returned_false: true, last_error: 0 };
    assert_eq!(find_main_window(9, &e), Ok(0));
}
