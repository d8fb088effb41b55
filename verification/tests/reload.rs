use config_reload::cell::{apply, swap};
use config_reload::reload::{invoke, Action, Notice, ReloadOutcome};

#[test]
fn invoke_reports_a_loaded_value() {
    let loader = || -> Result<u32, String> { Ok(42) };
    let outcome = invoke(&loader);
    assert!(matches!(outcome, ReloadOutcome::Loaded(42)));
}

#[test]
fn invoke_reports_a_failure() {
    let loader = || -> Result<u32, String> { Err("unreadable".to_string()) };
    match invoke(&loader) {
        ReloadOutcome::Failed(error) => assert_eq!(error, "unreadable"),
        ReloadOutcome::Loaded(_) => panic!("a failed load gave a value"),
    }
}

#[test]
fn invoke_calls_the_loader_once() {
    let calls = std::cell::Cell::new(0u32);
    let loader = || -> Result<u32, String> {
        calls.set(calls.get() + 1);
        Ok(calls.get())
    };
    assert!(matches!(invoke(&loader), ReloadOutcome::Loaded(1)));
    assert_eq!(calls.get(), 1);
    assert!(matches!(invoke(&loader), ReloadOutcome::Loaded(2)));
    assert_eq!(calls.get(), 2);
}

#[test]
fn outcome_stands_for_the_answer() {
    assert!(matches!(ReloadOutcome::<u8, u8>::from_result(Ok(3)), ReloadOutcome::Loaded(3)));
    assert!(matches!(ReloadOutcome::<u8, u8>::from_result(Err(4)), ReloadOutcome::Failed(4)));
}

#[test]
fn loaded_outcome_is_published() {
    let action = ReloadOutcome::<&str, &str>::Loaded("new").into_action();
    assert!(matches!(action, Action::Publish("new")));
}

#[test]
fn failed_outcome_retains() {
    let action = ReloadOutcome::<&str, &str>::Failed("broken").into_action();
    assert!(matches!(action, Action::Retain(Notice::LoadFailed("broken"))));
}

#[test]
fn swap_replaces_the_held_value() {
    let mut cell = String::from("old");
    swap(&mut cell, String::from("new"));
    assert_eq!(cell, "new");
}

#[test]
fn publishing_replaces_the_cell() {
    let mut cell = vec![1, 2, 3];
    let notice = apply(&mut cell, Action::<Vec<i32>, String>::Publish(vec![9]));
    assert!(notice.is_none());
    assert_eq!(cell, vec![9]);
}

#[test]
fn retaining_leaves_the_cell() {
    let mut cell = vec![1, 2, 3];
    let notice = apply(&mut cell, Action::<Vec<i32>, String>::Retain(Notice::Ignored));
    assert!(matches!(notice, Some(Notice::Ignored)));
    assert_eq!(cell, vec![1, 2, 3]);

    let failed = Action::<Vec<i32>, String>::Retain(Notice::LoadFailed("bad".to_string()));
    match apply(&mut cell, failed) {
        Some(Notice::LoadFailed(error)) => assert_eq!(error, "bad"),
        other => panic!("unexpected notice {:?}", other),
    }
    assert_eq!(cell, vec![1, 2, 3]);
}
