use pet_print::mutex_utils::LockResultExt;
use pet_print::state::{get_workspace_root, set_workspace, AppState, UpdateMetadata};

#[test]
fn workspace_root_unset_is_an_error() {
    let state = AppState::default();
    assert_eq!(get_workspace_root(&state), Err("No workspace set".to_string()));
}

#[test]
fn workspace_root_roundtrip() {
    let mut state = AppState::default();
    set_workspace(&mut state, "/home/user/docs".to_string());
    assert_eq!(get_workspace_root(&state), Ok("/home/user/docs".to_string()));
}

fn meta(version: &str, current: &str) -> UpdateMetadata {
    UpdateMetadata { version: version.to_string(), current_version: current.to_string() }
}

#[test]
fn update_with_greater_version_is_newer() {
    assert!(meta("1.2.0", "1.1.9").is_newer());
}

#[test]
fn update_with_equal_version_is_not_newer() {
    assert!(!meta("1.2.0", "1.2.0").is_newer());
}

#[test]
fn update_with_smaller_version_is_not_newer() {
    assert!(!meta("1.1.9", "1.2.0").is_newer());
}

#[test]
fn version_order_is_lexicographic() {
    // The comparison orders character by character, as the menu layer always
    // compared version strings: "1.10.0" sorts below "1.9.0".
    assert!(!meta("1.10.0", "1.9.0").is_newer());
    assert!(meta("1.9.0", "1.10.0").is_newer());
    // A longer string with an equal prefix orders after it.
    assert!(meta("1.2.0", "1.2").is_newer());
}

#[test]
fn read_or_panic_hands_out_the_guard() {
    let lock = std::sync::Mutex::new(41);
    let mut guard = lock.lock().read_or_panic();
    *guard += 1;
    drop(guard);
    assert_eq!(*lock.lock().read_or_panic(), 42);
}
