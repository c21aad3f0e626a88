use clip_optimizer::greeting::greet;
use clip_optimizer::guard::ProcessingGuard;
use clip_optimizer::raster::RawImage;
use clip_optimizer::revert::RevertState;
use clip_optimizer::watcher::{on_watch_event, WatchDecision, WatchDirective, WatchEvent};

#[test]
fn a_change_runs_the_pipeline_and_listening_goes_on() {
    assert_eq!(
        on_watch_event(WatchEvent::Changed),
        WatchDecision { run_pipeline: true, directive: WatchDirective::Next }
    );
}

#[test]
fn a_channel_error_runs_nothing_and_listening_goes_on() {
    assert_eq!(
        on_watch_event(WatchEvent::ChannelError),
        WatchDecision { run_pipeline: false, directive: WatchDirective::Next }
    );
}

#[test]
fn greet_by_name() {
    assert_eq!(greet("World"), "Hello, World! You've been greeted from Rust!");
    assert_eq!(greet(""), "Hello, ! You've been greeted from Rust!");
    assert_eq!(greet("Zoë"), "Hello, Zoë! You've been greeted from Rust!");
}

#[test]
fn guard_is_taken_once() {
    let mut guard = ProcessingGuard::new();
    assert!(!guard.held());
    assert!(guard.try_acquire());
    assert!(guard.held());
    assert!(!guard.try_acquire());
    assert!(!guard.try_acquire());
    assert!(guard.held());
    guard.release();
    assert!(!guard.held());
    assert!(guard.try_acquire());
}

#[test]
fn releasing_a_free_guard_leaves_it_free() {
    let mut guard = ProcessingGuard::new();
    guard.release();
    assert!(!guard.held());
    assert!(guard.try_acquire());
}

#[test]
fn revert_state_keeps_the_latest_original() {
    let mut store = RevertState::new();
    assert_eq!(store.original(), None);
    let first = RawImage::new(1, 1, vec![1, 2, 3, 4]).unwrap();
    let second = RawImage::new(1, 1, vec![5, 6, 7, 8]).unwrap();
    store.store(first.clone());
    assert_eq!(store.original(), Some(&first));
    assert_eq!(store.original(), Some(&first));
    store.store(second.clone());
    assert_eq!(store.original(), Some(&second));
}
