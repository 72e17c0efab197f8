//! The dispatch rule: from the identifier of an activated menu item to the
//! action the application shell must perform.

use vstd::prelude::*;

verus! {

use crate::menu::{menu_model, tree_ids, id_table, lemma_menu_ids_are_table};

/// The action that follows the activation of one menu item: broadcast one
/// event named `event` whose payload is `payload`, terminate the process with
/// exit status `code`, or do nothing at all.
#[derive(Debug, Clone, PartialEq, Eq)]
pub enum MenuAction {
    Emit { event: String, payload: String },
    Exit { code: i32 },
    Ignore,
}

/// Mathematical picture of a `MenuAction`, with strings as character
/// sequences.
#[verifier::ext_equal]
pub enum Action {
    Emit { event: Seq<char>, payload: Seq<char> },
    Exit { code: int },
    Ignore,
}

impl View for MenuAction {
    type V = Action;

    open spec fn view(&self) -> Action {
        match self {
            MenuAction::Emit { event, payload } => Action::Emit {
                event: event@,
                payload: payload@,
            },
            MenuAction::Exit { code } => Action::Exit { code: *code as int },
            MenuAction::Ignore => Action::Ignore,
        }
    }
}

/// The name of the broadcast channel every emitted menu event travels on.
pub open spec fn event_channel() -> Seq<char> {
    "menu-event"@
}

/// The identifiers that dispatch to a broadcast: every identifier the menu
/// defines except the exit item.
pub open spec fn is_emit_id(id: Seq<char>) -> bool {
    ||| id == "new-file"@
    ||| id == "open-file"@
    ||| id == "open-folder"@
    ||| id == "save-file"@
    ||| id == "undo"@
    ||| id == "redo"@
    ||| id == "cut"@
    ||| id == "copy"@
    ||| id == "paste"@
    ||| id == "about"@
    ||| id == "keyboard-shortcuts"@
}

/// The dispatch table. The exit item terminates the process with status 0;
/// every other identifier the menu defines broadcasts itself on the menu
/// event channel; an identifier the table does not know is silently ignored.
pub open spec fn spec_dispatch(id: Seq<char>) -> Action {
    if id == "exit"@ {
        Action::Exit { code: 0 }
    } else if is_emit_id(id) {
        Action::Emit { event: event_channel(), payload: id }
    } else {
        Action::Ignore
    }
}

/// String equality by content.
fn str_eq(a: &str, b: &str) -> (r: bool)
    ensures
        r == (a@ == b@),
{
    let a_owned: String = a.to_owned();
    let b_owned: String = b.to_owned();
    a_owned == b_owned
}

/// Translates the identifier of an activated menu item into the action the
/// shell must perform, exactly as `spec_dispatch` says.
pub fn dispatch(id: &str) -> (action: MenuAction)
    ensures
        action@ == spec_dispatch(id@),
{
    if str_eq(id, "exit") {
        MenuAction::Exit { code: 0 }
    } else if str_eq(id, "new-file") || str_eq(id, "open-file") || str_eq(id, "open-folder")
        || str_eq(id, "save-file") || str_eq(id, "undo") || str_eq(id, "redo")
        || str_eq(id, "cut") || str_eq(id, "copy") || str_eq(id, "paste")
        || str_eq(id, "about") || str_eq(id, "keyboard-shortcuts") {
        MenuAction::Emit { event: "menu-event".to_owned(), payload: id.to_owned() }
    } else {
        MenuAction::Ignore
    }
}

/// The dispatch table knows exactly the identifiers the menu tree defines:
/// the exit item and the identifiers that broadcast.
pub proof fn lemma_table_matches_menu(id: Seq<char>)
    ensures
        tree_ids(menu_model()).contains(id) <==> (id == "exit"@ || is_emit_id(id)),
{
    lemma_menu_ids_are_table();
    if id == "exit"@ || is_emit_id(id) {
        if id == "exit"@ {
            assert(id_table()[0] == id);
        } else if id == "new-file"@ {
            assert(id_table()[1] == id);
        } else if id == "open-file"@ {
            assert(id_table()[2] == id);
        } else if id == "open-folder"@ {
            assert(id_table()[3] == id);
        } else if id == "save-file"@ {
            assert(id_table()[4] == id);
        } else if id == "undo"@ {
            assert(id_table()[5] == id);
        } else if id == "redo"@ {
            assert(id_table()[6] == id);
        } else if id == "cut"@ {
            assert(id_table()[7] == id);
        } else if id == "copy"@ {
            assert(id_table()[8] == id);
        } else if id == "paste"@ {
            assert(id_table()[9] == id);
        } else if id == "about"@ {
            assert(id_table()[10] == id);
        } else {
            assert(id_table()[11] == id);
        }
        assert(id_table().contains(id));
    }
    if id_table().contains(id) {
        let k = choose|k: int| 0 <= k < id_table().len() && id_table()[k] == id;
        assert(id == "exit"@ || is_emit_id(id));
    }
}

/// Activating any identifier the menu defines, other than the exit item,
/// produces exactly one broadcast on the menu event channel whose payload is
/// the identifier itself.
pub proof fn lemma_defined_id_emits(id: Seq<char>)
    requires
        tree_ids(menu_model()).contains(id),
        id != "exit"@,
    ensures
        spec_dispatch(id) == (Action::Emit { event: event_channel(), payload: id }),
{
    lemma_table_matches_menu(id);
}

/// Activating the exit item terminates the process with exit status 0 and
/// broadcasts nothing.
pub proof fn lemma_exit_terminates()
    ensures
        spec_dispatch("exit"@) == (Action::Exit { code: 0 }),
        !(spec_dispatch("exit"@) is Emit),
{
}

/// Activating an identifier the menu does not define produces no broadcast,
/// no termination and no error: the activation is silently ignored.
pub proof fn lemma_unknown_id_ignored(id: Seq<char>)
    requires
        !tree_ids(menu_model()).contains(id),
    ensures
        spec_dispatch(id) == Action::Ignore,
{
    lemma_table_matches_menu(id);
}

} // verus!
