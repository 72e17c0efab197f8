//! The static menu tree: four submenus whose activatable items carry stable
//! identifiers and optional keyboard accelerators.

use vstd::prelude::*;

verus! {

/// One activatable menu item: a stable identifier, the label shown to the
/// user, and an optional keyboard accelerator.
#[derive(Debug, Clone, PartialEq, Eq)]
pub struct MenuItem {
    pub id: String,
    pub label: String,
    pub accelerator: Option<String>,
}

/// One entry of a submenu: an activatable item or a visual separator.
#[derive(Debug, Clone, PartialEq, Eq)]
pub enum MenuEntry {
    Item(MenuItem),
    Separator,
}

/// One top-level submenu: a label and its ordered entries.
#[derive(Debug, Clone, PartialEq, Eq)]
pub struct Submenu {
    pub label: String,
    pub entries: Vec<MenuEntry>,
}

/// The whole menu bar: the ordered top-level submenus.
#[derive(Debug, Clone, PartialEq, Eq)]
pub struct MenuTree {
    pub submenus: Vec<Submenu>,
}

/// Mathematical picture of a menu item.
#[verifier::ext_equal]
pub struct ItemModel {
    pub id: Seq<char>,
    pub label: Seq<char>,
    pub accelerator: Option<Seq<char>>,
}

/// Mathematical picture of a submenu entry.
#[verifier::ext_equal]
pub enum EntryModel {
    Item(ItemModel),
    Separator,
}

/// Mathematical picture of a submenu.
#[verifier::ext_equal]
pub struct SubmenuModel {
    pub label: Seq<char>,
    pub entries: Seq<EntryModel>,
}

impl View for MenuItem {
    type V = ItemModel;

    open spec fn view(&self) -> ItemModel {
        ItemModel {
            id: self.id@,
            label: self.label@,
            accelerator: match self.accelerator {
                Some(a) => Some(a@),
                None => None,
            },
        }
    }
}

impl View for MenuEntry {
    type V = EntryModel;

    open spec fn view(&self) -> EntryModel {
        match self {
            MenuEntry::Item(item) => EntryModel::Item(item@),
            MenuEntry::Separator => EntryModel::Separator,
        }
    }
}

impl View for Submenu {
    type V = SubmenuModel;

    open spec fn view(&self) -> SubmenuModel {
        SubmenuModel {
            label: self.label@,
            entries: self.entries@.map_values(|e: MenuEntry| e@),
        }
    }
}

impl View for MenuTree {
    type V = Seq<SubmenuModel>;

    open spec fn view(&self) -> Seq<SubmenuModel> {
        self.submenus@.map_values(|s: Submenu| s@)
    }
}

/// An activatable entry with the given identifier, label and accelerator.
pub open spec fn item_model(
    id: Seq<char>,
    label: Seq<char>,
    accelerator: Option<Seq<char>>,
) -> EntryModel {
    EntryModel::Item(ItemModel { id, label, accelerator })
}

/// The menu tree the application shell presents: Main, File, Edit and Help,
/// every activatable item with its identifier and accelerator.
pub open spec fn menu_model() -> Seq<SubmenuModel> {
    seq![
        SubmenuModel {
            label: "Main"@,
            entries: seq![item_model("exit"@, "Exit"@, Some("CmdOrCtrl+Q"@))],
        },
        SubmenuModel {
            label: "File"@,
            entries: seq![
                item_model("new-file"@, "New"@, Some("CmdOrCtrl+N"@)),
                item_model("open-file"@, "Open..."@, Some("CmdOrCtrl+O"@)),
                item_model("open-folder"@, "Open Folder..."@, Some("CmdOrCtrl+K"@)),
                item_model("save-file"@, "Save"@, Some("CmdOrCtrl+S"@)),
            ],
        },
        SubmenuModel {
            label: "Edit"@,
            entries: seq![
                item_model("undo"@, "Undo"@, Some("CmdOrCtrl+Z"@)),
                item_model("redo"@, "Redo"@, Some("CmdOrCtrl+Shift+Z"@)),
                EntryModel::Separator,
                item_model("cut"@, "Cut"@, Some("CmdOrCtrl+X"@)),
                item_model("copy"@, "Copy"@, Some("CmdOrCtrl+C"@)),
                item_model("paste"@, "Paste"@, Some("CmdOrCtrl+V"@)),
            ],
        },
        SubmenuModel {
            label: "Help"@,
            entries: seq![
                item_model("about"@, "About"@, None),
                item_model("keyboard-shortcuts"@, "Keyboard Shortcuts"@, Some("CmdOrCtrl+Shift+K"@)),
            ],
        },
    ]
}

/// The model of an optional accelerator given as a string slice.
pub open spec fn accel_model(accelerator: Option<&str>) -> Option<Seq<char>> {
    match accelerator {
        Some(a) => Some(a@),
        None => None,
    }
}

/// One activatable entry built from string slices.
fn leaf(id: &str, label: &str, accelerator: Option<&str>) -> (entry: MenuEntry)
    ensures
        entry@ == item_model(id@, label@, accel_model(accelerator)),
{
    let accel_owned: Option<String> = match accelerator {
        Some(a) => Some(a.to_owned()),
        None => None,
    };
    MenuEntry::Item(
        MenuItem { id: id.to_owned(), label: label.to_owned(), accelerator: accel_owned },
    )
}

/// Builds the menu tree the application shell presents, exactly as
/// `menu_model` describes it, with all leaf identifiers pairwise distinct.
pub fn build_menu() -> (tree: MenuTree)
    ensures
        tree@ == menu_model(),
        tree_ids(tree@).no_duplicates(),
{
    let mut main_entries: Vec<MenuEntry> = Vec::new();
    main_entries.push(leaf("exit", "Exit", Some("CmdOrCtrl+Q")));
    let main_menu = Submenu { label: "Main".to_owned(), entries: main_entries };

    let mut file_entries: Vec<MenuEntry> = Vec::new();
    file_entries.push(leaf("new-file", "New", Some("CmdOrCtrl+N")));
    file_entries.push(leaf("open-file", "Open...", Some("CmdOrCtrl+O")));
    file_entries.push(leaf("open-folder", "Open Folder...", Some("CmdOrCtrl+K")));
    file_entries.push(leaf("save-file", "Save", Some("CmdOrCtrl+S")));
    let file_menu = Submenu { label: "File".to_owned(), entries: file_entries };

    let mut edit_entries: Vec<MenuEntry> = Vec::new();
    edit_entries.push(leaf("undo", "Undo", Some("CmdOrCtrl+Z")));
    edit_entries.push(leaf("redo", "Redo", Some("CmdOrCtrl+Shift+Z")));
    edit_entries.push(MenuEntry::Separator);
    edit_entries.push(leaf("cut", "Cut", Some("CmdOrCtrl+X")));
    edit_entries.push(leaf("copy", "Copy", Some("CmdOrCtrl+C")));
    edit_entries.push(leaf("paste", "Paste", Some("CmdOrCtrl+V")));
    let edit_menu = Submenu { label: "Edit".to_owned(), entries: edit_entries };

    let mut help_entries: Vec<MenuEntry> = Vec::new();
    help_entries.push(leaf("about", "About", None));
    help_entries.push(leaf("keyboard-shortcuts", "Keyboard Shortcuts", Some("CmdOrCtrl+Shift+K")));
    let help_menu = Submenu { label: "Help".to_owned(), entries: help_entries };

    let mut submenus: Vec<Submenu> = Vec::new();
    submenus.push(main_menu);
    submenus.push(file_menu);
    submenus.push(edit_menu);
    submenus.push(help_menu);
    let tree = MenuTree { submenus };
    proof {
        assert(tree@ =~~= menu_model());
        lemma_menu_ids_distinct();
    }
    tree
}

/// The identifiers of the activatable entries of `entries` from position `i`
/// on, in order.
pub open spec fn entry_ids_from(entries: Seq<EntryModel>, i: int) -> Seq<Seq<char>>
    decreases entries.len() - i,
{
    if i < 0 || i >= entries.len() {
        Seq::empty()
    } else {
        (match entries[i] {
            EntryModel::Item(item) => seq![item.id],
            EntryModel::Separator => Seq::<Seq<char>>::empty(),
        }) + entry_ids_from(entries, i + 1)
    }
}

/// The identifiers of the activatable entries of one submenu, in order.
pub open spec fn entry_ids(entries: Seq<EntryModel>) -> Seq<Seq<char>> {
    entry_ids_from(entries, 0)
}

/// The leaf identifiers of the submenus from position `i` on, in menu order.
pub open spec fn submenu_ids_from(menus: Seq<SubmenuModel>, i: int) -> Seq<Seq<char>>
    decreases menus.len() - i,
{
    if i < 0 || i >= menus.len() {
        Seq::empty()
    } else {
        entry_ids(menus[i].entries) + submenu_ids_from(menus, i + 1)
    }
}

/// The leaf identifiers of the whole menu tree, in menu order.
pub open spec fn tree_ids(menus: Seq<SubmenuModel>) -> Seq<Seq<char>> {
    submenu_ids_from(menus, 0)
}

/// The identifiers the menu defines, in menu order.
pub open spec fn id_table() -> Seq<Seq<char>> {
    seq![
        "exit"@,
        "new-file"@,
        "open-file"@,
        "open-folder"@,
        "save-file"@,
        "undo"@,
        "redo"@,
        "cut"@,
        "copy"@,
        "paste"@,
        "about"@,
        "keyboard-shortcuts"@,
    ]
}

/// Collects the identifier of every activatable item of the tree, in menu
/// order.
pub fn leaf_ids(tree: &MenuTree) -> (ids: Vec<String>)
    ensures
        ids@.map_values(|s: String| s@) == tree_ids(tree@),
{
    let mut ids: Vec<String> = Vec::new();
    let mut i: usize = 0;
    while i < tree.submenus.len()
        invariant
            i <= tree.submenus.len(),
            ids@.map_values(|s: String| s@) + submenu_ids_from(tree@, i as int) == tree_ids(
                tree@,
            ),
        decreases tree.submenus.len() - i,
    {
        let submenu = &tree.submenus[i];
        let mut j: usize = 0;
        while j < submenu.entries.len()
            invariant
                i < tree.submenus.len(),
                j <= submenu.entries.len(),
                submenu == tree.submenus[i as int],
                ids@.map_values(|s: String| s@) + entry_ids_from(tree@[i as int].entries, j as int)
                    + submenu_ids_from(tree@, i + 1) == tree_ids(tree@),
            decreases submenu.entries.len() - j,
        {
            let ghost before = ids@;
            match &submenu.entries[j] {
                MenuEntry::Item(item) => {
                    ids.push(item.id.clone());
                    proof {
                        assert(ids@.map_values(|s: String| s@) =~= before.map_values(
                            |s: String| s@,
                        ).push(item.id@));
                        assert(ids@.map_values(|s: String| s@) + entry_ids_from(
                            tree@[i as int].entries,
                            j + 1,
                        ) + submenu_ids_from(tree@, i + 1) =~= tree_ids(tree@));
                    }
                },
                MenuEntry::Separator => {
                    proof {
                        assert(ids@.map_values(|s: String| s@) + entry_ids_from(
                            tree@[i as int].entries,
                            j + 1,
                        ) + submenu_ids_from(tree@, i + 1) =~= tree_ids(tree@));
                    }
                },
            }
            j = j + 1;
        }
        proof {
            assert(entry_ids_from(tree@[i as int].entries, submenu.entries@.len() as int)
                =~= Seq::<Seq<char>>::empty());
            assert(ids@.map_values(|s: String| s@) + submenu_ids_from(tree@, i + 1) =~= tree_ids(
                tree@,
            ));
        }
        i = i + 1;
    }
    proof {
        assert(ids@.map_values(|s: String| s@) =~= tree_ids(tree@));
    }
    ids
}

/// Flattening the menu tree gives exactly the identifier table, in order.
pub proof fn lemma_menu_ids_are_table()
    ensures
        tree_ids(menu_model()) == id_table(),
{
    reveal_with_fuel(entry_ids_from, 8);
    reveal_with_fuel(submenu_ids_from, 6);
    assert(tree_ids(menu_model()) =~= id_table());
}

/// All leaf identifiers of the constructed menu tree are pairwise distinct.
pub proof fn lemma_menu_ids_distinct()
    ensures
        tree_ids(menu_model()).no_duplicates(),
{
    lemma_menu_ids_are_table();
    lemma_table_distinct();
}

/// The identifier table holds no identifier twice.
proof fn lemma_table_distinct()
    ensures
        id_table().no_duplicates(),
{
    reveal_strlit("exit");
    reveal_strlit("new-file");
    reveal_strlit("open-file");
    reveal_strlit("open-folder");
    reveal_strlit("save-file");
    reveal_strlit("undo");
    reveal_strlit("redo");
    reveal_strlit("cut");
    reveal_strlit("copy");
    reveal_strlit("paste");
    reveal_strlit("about");
    reveal_strlit("keyboard-shortcuts");
    assert("exit"@.len() == 4 && "exit"@[0] == 'e');
    assert("new-file"@.len() == 8);
    assert("open-file"@.len() == 9 && "open-file"@[0] == 'o');
    assert("open-folder"@.len() == 11);
    assert("save-file"@.len() == 9 && "save-file"@[0] == 's');
    assert("undo"@.len() == 4 && "undo"@[0] == 'u');
    assert("redo"@.len() == 4 && "redo"@[0] == 'r');
    assert("cut"@.len() == 3);
    assert("copy"@.len() == 4 && "copy"@[0] == 'c');
    assert("paste"@.len() == 5 && "paste"@[0] == 'p');
    assert("about"@.len() == 5 && "about"@[0] == 'a');
    assert("keyboard-shortcuts"@.len() == 18);
    assert forall|i: int, j: int|
        0 <= i < id_table().len() && 0 <= j < id_table().len() && i != j implies id_table()[i]
        != id_table()[j] by {
        assert(id_table()[i].len() != id_table()[j].len() || id_table()[i][0] != id_table()[j][0]);
    }
}

} // verus!
