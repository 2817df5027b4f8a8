//! The user's settings, the project listing they lead to, and the
//! `node_modules` folders the user picked for removal.
use vstd::prelude::*;
use vstd::string::*;
use crate::shell::ShellCommand;
use crate::text::{replace_char, replaced, same_text};

verus! {

/// The file the settings store is kept in.
pub const Store_Key: &'static str = "store.json";

/// The store key under which the settings are kept.
pub const Setting_Key: &'static str = "setting";

/// A `node_modules` folder the settings list, and whether the user picked it.
#[derive(Debug, PartialEq, Eq)]
pub struct NodeModulesFolder {
    pub path: Option<String>,
    pub selected: Option<bool>,
}

/// The settings the user saves: the command line tool, editors, project
/// folders, notes and `node_modules` folders, each of them optional.
#[derive(Debug, PartialEq, Eq)]
pub struct SettingData {
    pub cmdPath: Option<String>,
    pub editorPaths: Option<Vec<String>>,
    pub projectPaths: Option<Vec<String>>,
    pub notes: Option<Vec<String>>,
    pub nodeModulesFolders: Option<Vec<NodeModulesFolder>>,
}

/// Whether a list that may be missing is present and empty.
pub open spec fn is_empty_list<T>(list: Option<Vec<T>>) -> bool {
    list matches Some(v) && v@.len() == 0
}

impl SettingData {
    /// The settings that stand in for stored ones that cannot be read: an
    /// empty command line tool and empty lists.
    pub fn fallback() -> (r: SettingData)
        ensures
            r.cmdPath matches Some(p) && p@ == Seq::<char>::empty(),
            is_empty_list(r.editorPaths),
            is_empty_list(r.projectPaths),
            is_empty_list(r.notes),
            is_empty_list(r.nodeModulesFolders),
    {
        SettingData {
            cmdPath: Some(String::new()),
            editorPaths: Some(Vec::new()),
            projectPaths: Some(Vec::new()),
            notes: Some(Vec::new()),
            nodeModulesFolders: Some(Vec::new()),
        }
    }

    /// The project folders, none when the settings name none.
    pub fn project_paths(self) -> (r: Vec<String>)
        ensures
            match self.projectPaths {
                Some(v) => r == v,
                None => r@.len() == 0,
            },
    {
        match self.projectPaths {
            Some(v) => v,
            None => Vec::new(),
        }
    }
}

// ---------------------------------------------------------------------------
// Project listing
// ---------------------------------------------------------------------------

/// A project folder and the entries it holds that the listing shows.
#[derive(Debug, PartialEq, Eq)]
pub struct NamesTree {
    pub name: String,
    pub children: Vec<String>,
}

/// Whether the listing shows a folder entry: not the Windows recycle bin or
/// volume information folder, and not a name starting with `_`, `$`, `.` or
/// `-`.
pub open spec fn is_listed(name: Seq<char>) -> bool {
    &&& name != "$RECYCLE.BIN"@
    &&& name != "System Volume Information"@
    &&& !(name.len() > 0 && (name[0] == '_' || name[0] == '$' || name[0] == '.' || name[0] == '-'))
}

/// An entry is hidden only when it is the recycle bin or the volume
/// information folder, or its first character is `_`, `$`, `.` or `-`; any
/// other entry, such as `my-app`, is shown.
pub proof fn lemma_listing_hides_only(name: Seq<char>)
    ensures
        is_listed(name) <==> !(name == "$RECYCLE.BIN"@ || name == "System Volume Information"@ || (
        name.len() > 0 && set!['_', '$', '.', '-'].contains(name[0]))),
{
}

/// The entries the listing shows, in their order.
pub open spec fn listed(entries: Seq<Seq<char>>) -> Seq<Seq<char>>
    decreases entries.len(),
{
    if entries.len() == 0 {
        seq![]
    } else if is_listed(entries.last()) {
        listed(entries.drop_last()).push(entries.last())
    } else {
        listed(entries.drop_last())
    }
}

/// Whether the listing shows the entry `name`.
pub fn is_listed_entry(name: &str) -> (r: bool)
    ensures
        r == is_listed(name@),
{
    if same_text(name, "$RECYCLE.BIN") || same_text(name, "System Volume Information") {
        return false;
    }
    if name.unicode_len() > 0 {
        let c = name.get_char(0);
        if c == '_' || c == '$' || c == '.' || c == '-' {
            return false;
        }
    }
    true
}

/// The listing of one project folder: its path with `\` written as `/`, and
/// the entries it shows.
pub fn names_tree(project_path: &str, entries: &Vec<String>) -> (r: NamesTree)
    ensures
        r.name@ == replaced(project_path@, '\\', '/'),
        r.children.deep_view() == listed(entries.deep_view()),
{
    let n = entries.len();
    let mut children: Vec<String> = Vec::new();
    let mut i: usize = 0;
    while i < n
        invariant
            n == entries@.len(),
            i <= n,
            children.deep_view() == listed(entries.deep_view().take(i as int)),
        decreases n - i,
    {
        let ghost all = entries.deep_view();
        assert(all.take(i + 1).drop_last() =~= all.take(i as int));
        assert(all.take(i + 1).last() == entries@[i as int]@);
        if is_listed_entry(entries[i].as_str()) {
            let ghost before = children.deep_view();
            children.push(entries[i].clone());
            assert(children.deep_view() =~= before.push(entries@[i as int]@));
        }
        i += 1;
    }
    assert(entries.deep_view().take(n as int) =~= entries.deep_view());
    NamesTree { name: replace_char(project_path, '\\', '/'), children }
}

/// The listing keeps only entries it shows, and every one of them.
pub proof fn lemma_listed_exact(entries: Seq<Seq<char>>, e: Seq<char>)
    ensures
        listed(entries).contains(e) <==> (entries.contains(e) && is_listed(e)),
    decreases entries.len(),
{
    if entries.len() > 0 {
        let rest = entries.drop_last();
        lemma_listed_exact(rest, e);
        if entries.contains(e) && is_listed(e) {
            let k = choose|k: int| 0 <= k < entries.len() && entries[k] == e;
            if k < entries.len() - 1 {
                assert(rest[k] == e);
                assert(rest.contains(e));
                let j = choose|j: int| 0 <= j < listed(rest).len() && listed(rest)[j] == e;
                assert(listed(entries)[j] == e);
            } else {
                assert(listed(entries).last() == e);
                assert(listed(entries)[listed(entries).len() - 1] == e);
            }
        }
        if listed(entries).contains(e) {
            let k = choose|k: int| 0 <= k < listed(entries).len() && listed(entries)[k] == e;
            if k < listed(rest).len() {
                assert(listed(rest)[k] == e);
                assert(listed(rest).contains(e));
                assert(rest.contains(e));
                let m = choose|m: int| 0 <= m < rest.len() && rest[m] == e;
                assert(entries[m] == rest[m]);
                assert(entries.contains(e));
            } else {
                assert(e == entries.last());
                assert(entries[entries.len() - 1] == e);
            }
        }
    }
}

/// The listing of a folder shows an entry exactly when the folder holds it,
/// it is not the recycle bin or the volume information folder, and it does
/// not start with `_`, `$`, `.` or `-`.
pub proof fn lemma_listing_shows(entries: Seq<Seq<char>>, e: Seq<char>)
    ensures
        listed(entries).contains(e) <==> (entries.contains(e) && e != "$RECYCLE.BIN"@ && e
            != "System Volume Information"@ && !(e.len() > 0 && set!['_', '$', '.', '-'].contains(
            e[0],
        ))),
{
    lemma_listed_exact(entries, e);
    lemma_listing_hides_only(e);
}

// ---------------------------------------------------------------------------
// Removing node_modules folders
// ---------------------------------------------------------------------------

/// Whether the user picked the folder; an unset choice counts as not picked.
pub open spec fn is_picked(folder: NodeModulesFolder) -> bool {
    folder.selected == Some(true)
}

/// The folder's path, empty when it has none.
pub open spec fn folder_path(folder: NodeModulesFolder) -> Seq<char> {
    match folder.path {
        Some(p) => p@,
        None => Seq::<char>::empty(),
    }
}

/// The paths of the picked folders, in order.
pub open spec fn picked_paths(folders: Seq<NodeModulesFolder>) -> Seq<Seq<char>>
    decreases folders.len(),
{
    if folders.len() == 0 {
        seq![]
    } else if is_picked(folders.last()) {
        picked_paths(folders.drop_last()).push(folder_path(folders.last()))
    } else {
        picked_paths(folders.drop_last())
    }
}

/// Whether `c` removes the `node_modules` folder in `dir`:
/// `powershell -Command "Remove-Item -Recurse -Force node_modules"` run there.
pub open spec fn removes_node_modules_in(c: ShellCommand, dir: Seq<char>) -> bool {
    &&& c.program@ == "powershell"@
    &&& c.arg_texts() == seq!["-Command"@, "Remove-Item -Recurse -Force node_modules"@]
    &&& c.dir_text() == Some(dir)
}

/// One removal command for each picked folder, in order.
pub fn node_modules_removals(folders: &Vec<NodeModulesFolder>) -> (r: Vec<ShellCommand>)
    ensures
        r@.len() == picked_paths(folders@).len(),
        forall|i: int|
            0 <= i < r@.len() ==> removes_node_modules_in(#[trigger] r@[i], picked_paths(folders@)[i]),
{
    let n = folders.len();
    let mut out: Vec<ShellCommand> = Vec::new();
    let mut i: usize = 0;
    while i < n
        invariant
            n == folders@.len(),
            i <= n,
            out@.len() == picked_paths(folders@.take(i as int)).len(),
            forall|k: int|
                0 <= k < out@.len() ==> removes_node_modules_in(
                    #[trigger] out@[k],
                    picked_paths(folders@.take(i as int))[k],
                ),
        decreases n - i,
    {
        let ghost prefix = folders@.take(i as int);
        assert(folders@.take(i + 1).drop_last() =~= prefix);
        assert(folders@.take(i + 1).last() == folders@[i as int]);
        let folder = &folders[i];
        let picked = match folder.selected {
            Some(b) => b,
            None => false,
        };
        if picked {
            let dir = match &folder.path {
                Some(p) => p.clone(),
                None => String::new(),
            };
            let mut args: Vec<String> = Vec::new();
            args.push("-Command".to_owned());
            args.push("Remove-Item -Recurse -Force node_modules".to_owned());
            assert(args.deep_view() =~= seq![
                "-Command"@,
                "Remove-Item -Recurse -Force node_modules"@,
            ]);
            let c = ShellCommand { program: "powershell".to_owned(), args, current_dir: Some(dir) };
            assert(removes_node_modules_in(c, folder_path(folders@[i as int])));
            out.push(c);
        }
        i += 1;
    }
    assert(folders@.take(n as int) =~= folders@);
    out
}

} // verus!
