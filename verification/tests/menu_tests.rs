use menu_dispatch::menu::{build_menu, leaf_ids, MenuEntry};

#[test]
fn menu_has_four_submenus_in_order() {
    let tree = build_menu();
    let labels: Vec<&str> = tree.submenus.iter().map(|s| s.label.as_str()).collect();
    assert_eq!(labels, vec!["Main", "File", "Edit", "Help"]);
}

#[test]
fn leaf_identifiers_come_in_menu_order() {
    let tree = build_menu();
    let ids = leaf_ids(&tree);
    let expected: Vec<String> = [
        "exit",
        "new-file",
        "open-file",
        "open-folder",
        "save-file",
        "undo",
        "redo",
        "cut",
        "copy",
        "paste",
        "about",
        "keyboard-shortcuts",
    ]
    .iter()
    .map(|s| s.to_string())
    .collect();
    assert_eq!(ids, expected);
}

#[test]
fn leaf_identifiers_are_pairwise_distinct() {
    let tree = build_menu();
    let ids = leaf_ids(&tree);
    for a in 0..ids.len() {
        for b in 0..ids.len() {
            if a != b {
                assert_ne!(ids[a], ids[b]);
            }
        }
    }
}

#[test]
fn edit_submenu_separates_history_from_clipboard() {
    let tree = build_menu();
    let edit = &tree.submenus[2];
    assert_eq!(edit.entries.len(), 6);
    assert!(matches!(edit.entries[2], MenuEntry::Separator));
    for (k, entry) in edit.entries.iter().enumerate() {
        if k != 2 {
            assert!(matches!(entry, MenuEntry::Item(_)));
        }
    }
}

#[test]
fn file_submenu_items_carry_their_accelerators() {
    let tree = build_menu();
    let file = &tree.submenus[1];
    let expected = [
        ("new-file", "New", Some("CmdOrCtrl+N")),
        ("open-file", "Open...", Some("CmdOrCtrl+O")),
        ("open-folder", "Open Folder...", Some("CmdOrCtrl+K")),
        ("save-file", "Save", Some("CmdOrCtrl+S")),
    ];
    assert_eq!(file.entries.len(), expected.len());
    for (entry, (id, label, accel)) in file.entries.iter().zip(expected.iter()) {
        match entry {
            MenuEntry::Item(item) => {
                assert_eq!(item.id.as_str(), *id);
                assert_eq!(item.label.as_str(), *label);
                assert_eq!(item.accelerator.as_deref(), *accel);
            }
            MenuEntry::Separator => panic!("expected an activatable item"),
        }
    }
}

#[test]
fn exit_and_about_items_are_as_declared() {
    let tree = build_menu();
    match &tree.submenus[0].entries[0] {
        MenuEntry::Item(item) => {
            assert_eq!(item.id.as_str(), "exit");
            assert_eq!(item.label.as_str(), "Exit");
            assert_eq!(item.accelerator.as_deref(), Some("CmdOrCtrl+Q"));
        }
        MenuEntry::Separator => panic!("expected the exit item"),
    }
    match &tree.submenus[3].entries[0] {
        MenuEntry::Item(item) => {
            assert_eq!(item.id.as_str(), "about");
            assert_eq!(item.label.as_str(), "About");
            assert_eq!(item.accelerator, None);
        }
        MenuEntry::Separator => panic!("expected the about item"),
    }
    match &tree.submenus[3].entries[1] {
        MenuEntry::Item(item) => {
            assert_eq!(item.id.as_str(), "keyboard-shortcuts");
            assert_eq!(item.label.as_str(), "Keyboard Shortcuts");
            assert_eq!(item.accelerator.as_deref(), Some("CmdOrCtrl+Shift+K"));
        }
        MenuEntry::Separator => panic!("expected the keyboard shortcuts item"),
    }
}

#[test]
fn undo_redo_and_clipboard_accelerators() {
    let tree = build_menu();
    let edit = &tree.submenus[2];
    let expected = [
        (0usize, "undo", "Undo", "CmdOrCtrl+Z"),
        (1, "redo", "Redo", "CmdOrCtrl+Shift+Z"),
        (3, "cut", "Cut", "CmdOrCtrl+X"),
        (4, "copy", "Copy", "CmdOrCtrl+C"),
        (5, "paste", "Paste", "CmdOrCtrl+V"),
    ];
    for (k, id, label, accel) in expected {
        match &edit.entries[k] {
            MenuEntry::Item(item) => {
                assert_eq!(item.id.as_str(), id);
                assert_eq!(item.label.as_str(), label);
                assert_eq!(item.accelerator.as_deref(), Some(accel));
            }
            MenuEntry::Separator => panic!("expected an activatable item"),
        }
    }
}

#[test]
fn every_menu_identifier_dispatches_to_a_defined_action() {
    let tree = build_menu();
    for id in leaf_ids(&tree) {
        let action = menu_dispatch::dispatch::dispatch(&id);
        match action {
            menu_dispatch::dispatch::MenuAction::Emit { event, payload } => {
                assert_eq!(event, "menu-event");
                assert_eq!(payload, id);
                assert_ne!(id, "exit");
            }
            menu_dispatch::dispatch::MenuAction::Exit { code } => {
                assert_eq!(code, 0);
                assert_eq!(id, "exit");
            }
            menu_dispatch::dispatch::MenuAction::Ignore => {
                panic!("a defined identifier must not be ignored");
            }
        }
    }
}
