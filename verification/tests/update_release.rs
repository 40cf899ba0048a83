use scroll_lock_keeper::update::{
    latest_release_api_url, poll_next, release_page_url, trim_leading_v, update_from_release, PollAction, PollEvent,
    UpdateInfo, OWNER, REPO,
};

#[test]
fn leading_v_characters_are_removed() {
    assert_eq!(trim_leading_v("v1.2.3"), "1.2.3");
    assert_eq!(trim_leading_v("vv1.2"), "1.2");
    assert_eq!(trim_leading_v("1.2"), "1.2");
    assert_eq!(trim_leading_v("v"), "");
    assert_eq!(trim_leading_v(""), "");
    assert_eq!(trim_leading_v("V1.0"), "V1.0");
    assert_eq!(trim_leading_v("1.0v"), "1.0v");
}

#[test]
fn newer_release_is_an_update() {
    let info = update_from_release("v1.4.0", "https://example.org/r/1.4.0".to_string(), "1.3.9")
        .expect("a newer release is an update");
    assert_eq!(info.version, "1.4.0");
    assert_eq!(info.url, "https://example.org/r/1.4.0");
}

#[test]
fn tag_without_v_is_compared_too() {
    let info = update_from_release("2.0.0", "u".to_string(), "1.0.0").unwrap();
    assert_eq!(info.version, "2.0.0");
}

#[test]
fn own_release_is_no_update() {
    assert!(update_from_release("v1.3.9", "u".to_string(), "1.3.9").is_none());
    assert!(update_from_release("v0.3.0", "u".to_string(), "0.3.0").is_none());
}

#[test]
fn older_release_is_no_update() {
    assert!(update_from_release("v1.2.0", "u".to_string(), "1.3.0").is_none());
}

#[test]
fn api_url_names_the_repository() {
    assert_eq!(OWNER, "downing-labs");
    assert_eq!(REPO, "scroll-lock-keeper");
    assert_eq!(
        latest_release_api_url(),
        "https://api.github.com/repos/downing-labs/scroll-lock-keeper/releases/latest"
    );
}

#[test]
fn release_page_is_the_update_or_the_list() {
    assert_eq!(
        release_page_url(&None),
        "https://github.com/downing-labs/scroll-lock-keeper/releases"
    );
    let info = UpdateInfo { version: "9.9.9".to_string(), url: "https://example.org/r".to_string() };
    assert_eq!(release_page_url(&Some(info)), "https://example.org/r");
}

#[test]
fn polling_checks_at_once_and_after_each_wait() {
    assert!(matches!(poll_next(PollEvent::Started, 300), PollAction::Check));
    assert!(matches!(poll_next(PollEvent::Started, 0), PollAction::Check));
    assert!(matches!(poll_next(PollEvent::Waited, 300), PollAction::Check));
}

#[test]
fn found_update_stops_polling() {
    let info = UpdateInfo { version: "2.0.0".to_string(), url: "u".to_string() };
    match poll_next(PollEvent::Checked(Some(info)), 300) {
        PollAction::Publish(i) => {
            assert_eq!(i.version, "2.0.0");
            assert_eq!(i.url, "u");
        }
        _ => panic!("polling must stop once an update is found"),
    }
}

#[test]
fn no_update_waits_the_interval_at_least_a_second() {
    assert!(matches!(poll_next(PollEvent::Checked(None), 300), PollAction::Wait(300)));
    assert!(matches!(poll_next(PollEvent::Checked(None), 1), PollAction::Wait(1)));
    assert!(matches!(poll_next(PollEvent::Checked(None), 0), PollAction::Wait(1)));
}

#[test]
fn polling_run_checks_waits_and_publishes() {
    let results = vec![None, None, Some(UpdateInfo { version: "2.0.0".to_string(), url: "u".to_string() })];
    let mut results = results.into_iter();
    let mut event = PollEvent::Started;
    let mut trace = Vec::new();
    loop {
        match poll_next(event, 60) {
            PollAction::Check => {
                trace.push("check".to_string());
                event = PollEvent::Checked(results.next().unwrap());
            }
            PollAction::Wait(secs) => {
                trace.push(format!("wait {}", secs));
                event = PollEvent::Waited;
            }
            PollAction::Publish(info) => {
                trace.push(format!("publish {}", info.version));
                break;
            }
        }
    }
    assert_eq!(trace, vec!["check", "wait 60", "check", "wait 60", "check", "publish 2.0.0"]);
}
