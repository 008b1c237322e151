use reiter::sattel::watch::{is_settled, touches_config, ConfigWatcher, WatchAction, WatchInput, COOLDOWN_MS};

const FILE: &str = "/home/u/.config/reiter/sattel.cfg";

fn changed(paths: &[&str], now_ms: u64) -> WatchInput {
    WatchInput::Changed { paths: paths.iter().map(|p| (*p).to_owned()).collect(), now_ms }
}

fn watching(cooldown_ms: u64) -> ConfigWatcher {
    let mut watcher = ConfigWatcher::new(FILE.to_owned(), cooldown_ms);
    assert!(!watcher.is_watching());
    assert_eq!(watcher.handle(WatchInput::Start), WatchAction::Subscribe);
    assert!(watcher.is_watching());
    watcher
}

#[test]
fn default_cooldown() {
    assert_eq!(COOLDOWN_MS, 300);
    let mut watcher = watching(COOLDOWN_MS);
    assert_eq!(watcher.handle(changed(&[FILE], 0)), WatchAction::Notify { delay_ms: 100 });
}

#[test]
fn two_writes_within_the_window_give_one_notification() {
    let mut watcher = watching(100);
    assert_eq!(watcher.handle(changed(&[FILE], 1000)), WatchAction::Notify { delay_ms: 33 });
    assert_eq!(watcher.handle(changed(&[FILE], 1050)), WatchAction::Nothing);
}

#[test]
fn two_writes_400_ms_apart_give_two_notifications() {
    let mut watcher = watching(100);
    assert_eq!(watcher.handle(changed(&[FILE], 1000)), WatchAction::Notify { delay_ms: 33 });
    assert_eq!(watcher.handle(changed(&[FILE], 1400)), WatchAction::Notify { delay_ms: 33 });
}

#[test]
fn the_window_counts_from_the_last_accepted_change() {
    let mut watcher = watching(100);
    assert_eq!(watcher.handle(changed(&[FILE], 0)), WatchAction::Notify { delay_ms: 33 });
    assert_eq!(watcher.handle(changed(&[FILE], 60)), WatchAction::Nothing);
    assert_eq!(watcher.handle(changed(&[FILE], 99)), WatchAction::Nothing);
    assert_eq!(watcher.handle(changed(&[FILE], 100)), WatchAction::Notify { delay_ms: 33 });
    assert_eq!(watcher.handle(changed(&[FILE], 199)), WatchAction::Nothing);
    assert_eq!(watcher.handle(changed(&[FILE], 200)), WatchAction::Notify { delay_ms: 33 });
}

#[test]
fn a_clock_that_goes_back_is_not_accepted() {
    let mut watcher = watching(100);
    assert_eq!(watcher.handle(changed(&[FILE], 500)), WatchAction::Notify { delay_ms: 33 });
    assert_eq!(watcher.handle(changed(&[FILE], 100)), WatchAction::Nothing);
    assert!(is_settled(Some(500), 100, 0));
    assert!(!is_settled(Some(500), 100, 1));
    assert!(is_settled(None, 0, u64::MAX));
    assert!(is_settled(Some(0), u64::MAX, u64::MAX));
}

#[test]
fn only_the_configuration_file_counts() {
    let mut watcher = watching(100);
    assert_eq!(watcher.handle(changed(&["/home/u/.config/reiter/other.txt"], 0)), WatchAction::Nothing);
    assert_eq!(watcher.handle(changed(&[], 10)), WatchAction::Nothing);
    assert_eq!(
        watcher.handle(changed(&["/home/u/.config/reiter/a", FILE], 20)),
        WatchAction::Notify { delay_ms: 33 }
    );
    assert!(touches_config(&vec!["a".to_owned(), "b".to_owned()], "b"));
    assert!(!touches_config(&vec!["a".to_owned(), "b".to_owned()], "c"));
}

#[test]
fn second_start_does_not_subscribe_again() {
    let mut watcher = watching(100);
    assert_eq!(watcher.handle(changed(&[FILE], 0)), WatchAction::Notify { delay_ms: 33 });
    assert_eq!(watcher.handle(WatchInput::Start), WatchAction::AlreadyWatching);
    assert!(watcher.is_watching());
    assert_eq!(watcher.handle(changed(&[FILE], 50)), WatchAction::Nothing);
}

#[test]
fn failure_releases_the_guard() {
    let mut watcher = watching(100);
    assert_eq!(
        watcher.handle(WatchInput::Failed("inotify limit".to_owned())),
        WatchAction::Fail("inotify limit".to_owned())
    );
    assert!(!watcher.is_watching());
    assert_eq!(watcher.handle(WatchInput::Failed("again".to_owned())), WatchAction::Nothing);
    assert_eq!(watcher.handle(changed(&[FILE], 0)), WatchAction::Nothing);
    assert_eq!(watcher.handle(WatchInput::Start), WatchAction::Subscribe);
}

#[test]
fn end_of_subscription_releases_the_guard() {
    let mut watcher = watching(100);
    assert_eq!(watcher.handle(changed(&[FILE], 10)), WatchAction::Notify { delay_ms: 33 });
    assert_eq!(watcher.handle(WatchInput::Ended), WatchAction::Fail("watching config stopped".to_owned()));
    assert!(!watcher.is_watching());
    assert_eq!(watcher.handle(WatchInput::Ended), WatchAction::Nothing);
    assert_eq!(watcher.handle(WatchInput::Start), WatchAction::Subscribe);
    assert_eq!(watcher.handle(changed(&[FILE], 20)), WatchAction::Notify { delay_ms: 33 });
}
