use scroll_lock_keeper::scroll_lock::{
    double_tap_scroll_lock, effective_interval_secs, keeper_round, tap_scroll_lock, KeeperStep, KeyboardInput,
    KEYEVENTF_KEYUP, TAP_GAP_MILLIS, VK_SCROLL,
};

fn is_tap(step: &KeeperStep) -> bool {
    match step {
        KeeperStep::Send(events) => events == &tap_scroll_lock(),
        _ => false,
    }
}

#[test]
fn tap_presses_then_releases_scroll_lock() {
    assert_eq!(VK_SCROLL, 0x91);
    assert_eq!(KEYEVENTF_KEYUP, 0x0002);
    assert_eq!(tap_scroll_lock(), vec![
        KeyboardInput { virtual_key: 0x91, flags: 0 },
        KeyboardInput { virtual_key: 0x91, flags: 2 },
    ]);
}

#[test]
fn double_tap_is_two_taps_with_a_pause() {
    let steps = double_tap_scroll_lock();
    assert_eq!(steps.len(), 3);
    assert!(is_tap(&steps[0]));
    assert!(matches!(steps[1], KeeperStep::WaitMillis(100)));
    assert_eq!(TAP_GAP_MILLIS, 100);
    assert!(is_tap(&steps[2]));
}

#[test]
fn double_tap_leaves_the_indicator_unchanged() {
    for start in [false, true] {
        let mut on = start;
        let mut held = false;
        for step in double_tap_scroll_lock() {
            if let KeeperStep::Send(events) = step {
                for e in events {
                    if e.virtual_key == VK_SCROLL && e.flags & KEYEVENTF_KEYUP == 0 {
                        on = !on;
                        held = true;
                    } else if e.virtual_key == VK_SCROLL {
                        held = false;
                    }
                }
            }
        }
        assert_eq!(on, start);
        assert!(!held);
    }
}

#[test]
fn round_waits_then_taps_twice() {
    let steps = keeper_round(240);
    assert_eq!(steps.len(), 4);
    assert!(matches!(steps[0], KeeperStep::WaitSecs(240)));
    assert!(is_tap(&steps[1]));
    assert!(matches!(steps[2], KeeperStep::WaitMillis(100)));
    assert!(is_tap(&steps[3]));
}

#[test]
fn zero_interval_waits_one_second() {
    assert_eq!(effective_interval_secs(0), 1);
    assert_eq!(effective_interval_secs(1), 1);
    assert_eq!(effective_interval_secs(7200), 7200);
    assert!(matches!(keeper_round(0)[0], KeeperStep::WaitSecs(1)));
}
