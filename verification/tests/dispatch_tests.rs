use menu_dispatch::dispatch::{dispatch, MenuAction};

#[test]
fn save_file_emits_one_menu_event() {
    let action = dispatch("save-file");
    assert_eq!(
        action,
        MenuAction::Emit { event: "menu-event".to_string(), payload: "save-file".to_string() }
    );
}

#[test]
fn exit_terminates_with_status_zero_and_no_broadcast() {
    assert_eq!(dispatch("exit"), MenuAction::Exit { code: 0 });
}

#[test]
fn unregistered_identifier_is_ignored() {
    assert_eq!(dispatch("foo"), MenuAction::Ignore);
}

#[test]
fn every_defined_identifier_except_exit_emits_itself() {
    let ids = [
        "new-file",
        "open-file",
        "open-folder",
        "save-file",
        "undo",
        "redo",
        "cut",
        "copy",
        "paste",
        "about",
        "keyboard-shortcuts",
    ];
    for id in ids {
        assert_eq!(
            dispatch(id),
            MenuAction::Emit { event: "menu-event".to_string(), payload: id.to_string() }
        );
    }
}

#[test]
fn empty_identifier_is_ignored() {
    assert_eq!(dispatch(""), MenuAction::Ignore);
}

#[test]
fn identifier_match_is_case_sensitive() {
    assert_eq!(dispatch("Exit"), MenuAction::Ignore);
    assert_eq!(dispatch("SAVE-FILE"), MenuAction::Ignore);
}

#[test]
fn near_miss_identifiers_are_ignored() {
    assert_eq!(dispatch("save-file "), MenuAction::Ignore);
    assert_eq!(dispatch("save"), MenuAction::Ignore);
    assert_eq!(dispatch("menu-event"), MenuAction::Ignore);
}
