//! External programs that the tools start: what to run, with which arguments,
//! and where.
use vstd::prelude::*;
use vstd::string::*;
use crate::text::{replace_char, replaced};

verus! {

/// A program to start, with its arguments and, where it matters, the
/// directory to start it in.
pub struct ShellCommand {
    pub program: String,
    pub args: Vec<String>,
    pub current_dir: Option<String>,
}

impl ShellCommand {
    /// The arguments, each as its characters.
    pub open spec fn arg_texts(&self) -> Seq<Seq<char>> {
        self.args.deep_view()
    }

    /// The directory to start in, as its characters.
    pub open spec fn dir_text(&self) -> Option<Seq<char>> {
        match self.current_dir {
            Some(d) => Some(d@),
            None => None,
        }
    }
}

/// Owned copies of the given strings, in order.
pub fn owned_strings(parts: &[&str]) -> (r: Vec<String>)
    ensures
        r.deep_view() == parts@.map_values(|p: &str| p@),
{
    let n = parts.len();
    let mut out: Vec<String> = Vec::new();
    let mut i: usize = 0;
    while i < n
        invariant
            n == parts@.len(),
            i <= n,
            out.deep_view() == parts@.take(i as int).map_values(|p: &str| p@),
        decreases n - i,
    {
        let ghost before = out.deep_view();
        let part: &str = parts[i];
        assert(part == parts@[i as int]);
        out.push(part.to_owned());
        assert(out.deep_view() =~= before.push(part@));
        assert(parts@.take(i + 1).map_values(|p: &str| p@) =~= parts@.take(i as int).map_values(
            |p: &str| p@,
        ).push(part@));
        i += 1;
    }
    assert(parts@.take(n as int) =~= parts@);
    out
}

/// The command that opens `path` in the Windows file explorer: `explorer`
/// with the path, its `/` written as `\`.
pub fn explorer_command(path: &str) -> (r: ShellCommand)
    ensures
        r.program@ == "explorer"@,
        r.arg_texts() == seq![replaced(path@, '/', '\\')],
        r.current_dir is None,
{
    let mut args: Vec<String> = Vec::new();
    args.push(replace_char(path, '/', '\\'));
    assert(args.deep_view() =~= seq![replaced(path@, '/', '\\')]);
    ShellCommand { program: "explorer".to_owned(), args, current_dir: None }
}

/// The command that opens a project in an editor: the editor's program with
/// the project's path as its one argument.
pub fn editor_command(editor_path: &str, project_path: &str) -> (r: ShellCommand)
    ensures
        r.program@ == editor_path@,
        r.arg_texts() == seq![project_path@],
        r.current_dir is None,
{
    let mut args: Vec<String> = Vec::new();
    args.push(project_path.to_owned());
    assert(args.deep_view() =~= seq![project_path@]);
    ShellCommand { program: editor_path.to_owned(), args, current_dir: None }
}

/// Whether `c` opens Windows Terminal in `path` with the tab title `title`:
/// `wt -d <path> --title <title> --suppressApplicationTitle`.
pub open spec fn opens_terminal(c: ShellCommand, path: Seq<char>, title: Seq<char>) -> bool {
    &&& c.program@ == "wt"@
    &&& c.arg_texts() == seq!["-d"@, path, "--title"@, title, "--suppressApplicationTitle"@]
    &&& c.current_dir is None
}

/// The command that opens Windows Terminal in `project_path` with the tab
/// title `title`.
pub fn terminal_command(project_path: &str, title: &str) -> (r: ShellCommand)
    ensures
        opens_terminal(r, project_path@, title@),
{
    let args = owned_strings(&["-d", project_path, "--title", title, "--suppressApplicationTitle"]);
    assert(args.deep_view() =~= seq![
        "-d"@,
        project_path@,
        "--title"@,
        title@,
        "--suppressApplicationTitle"@,
    ]);
    ShellCommand { program: "wt".to_owned(), args, current_dir: None }
}

/// Whether `path` is a single plain name: not empty, not `.` or `..`, and
/// without `/`, `\` or `:`, which separate components or start a prefix on
/// some platform.
pub open spec fn is_plain_name(path: Seq<char>) -> bool {
    &&& path.len() > 0
    &&& path != "."@
    &&& path != ".."@
    &&& forall|i: int|
        0 <= i < path.len() ==> #[trigger] path[i] != '/' && path[i] != '\\' && path[i] != ':'
}

/// Whether `path` ends in the parent component `..`: it is `..`, or ends in
/// `/..`.
pub open spec fn ends_in_parent(path: Seq<char>) -> bool {
    ||| path == ".."@
    ||| (path.len() >= 3 && path.subrange(path.len() - 3, path.len() as int) == "/.."@)
}

/// The path of `name` inside `dir`, joined by `/`.
pub open spec fn joined(dir: Seq<char>, name: Seq<char>) -> Seq<char> {
    dir + seq!['/'] + name
}

/// Whether `path` separates its components by `/` alone: it holds no `\`,
/// and does not start with `//`, which Windows reads as the prefix of a
/// network share.
pub open spec fn slash_separated(path: Seq<char>) -> bool {
    &&& forall|i: int| 0 <= i < path.len() ==> #[trigger] path[i] != '\\'
    &&& !(path.len() >= 2 && path[0] == '/' && path[1] == '/')
}

/// The path of `name` inside `dir`, joined by `\`.
pub open spec fn backslash_joined(dir: Seq<char>, name: Seq<char>) -> Seq<char> {
    dir + seq!['\\'] + name
}

/// Whether `path` holds no `/` and does not start with `\\`, which Windows
/// reads as the prefix of a network share or a verbatim path.
pub open spec fn backslash_separated(path: Seq<char>) -> bool {
    &&& forall|i: int| 0 <= i < path.len() ==> #[trigger] path[i] != '/'
    &&& !(path.len() >= 2 && path[0] == '\\' && path[1] == '\\')
}

/// The last component of `path` as text (`Path::file_name`, read with
/// `OsStr::to_string_lossy`); `None` where the path has none. The
/// documentation says that a path naming a file or folder gives that name and
/// that a path ending in `..` gives none. The contract states this for a path
/// that is one plain name, for a path that ends in `/` and a plain name and
/// separates its components by `/` alone (Unix and Windows both split at
/// `/`), and for such a path ending in `..`. Paths with `\` or a leading
/// `//` are split differently on Windows and on Unix (after a verbatim
/// `\\?\` prefix Windows does not split at `/`), so their name is left
/// unstated. A path that ends in `\` and a plain name, holds no `/` and does
/// not start with `\\` gives that name on Windows, which splits at `\`, and
/// the whole path on Unix, where the path is one component; the contract
/// states that it gives one of the two.
#[verifier::external_body]
fn file_name_of(path: &str) -> (r: Option<String>)
    ensures
        is_plain_name(path@) ==> r is Some && r->0@ == path@,
        forall|dir: Seq<char>, name: Seq<char>|
            #![trigger joined(dir, name)]
            joined(dir, name) == path@ && is_plain_name(name) && slash_separated(path@) ==> r is Some
                && r->0@ == name,
        forall|dir: Seq<char>, name: Seq<char>|
            #![trigger backslash_joined(dir, name)]
            backslash_joined(dir, name) == path@ && is_plain_name(name) && backslash_separated(
                path@,
            ) ==> r is Some && (r->0@ == name || r->0@ == path@),
        ends_in_parent(path@) && slash_separated(path@) ==> r is None,
{
    match std::path::Path::new(path).file_name() {
        Some(name) => Some(name.to_string_lossy().into_owned()),
        None => None,
    }
}

/// The command that opens Windows Terminal in a project folder, titled with
/// the folder's name; `None` when the path names no folder, as a path ending
/// in `..` and separating its components by `/` alone does. A folder given by
/// a plain name, or by a path that ends in `/` and a plain name and separates
/// its components by `/` alone, is titled with that name. A folder given by a
/// path that ends in `\` and a plain name, holds no `/` and does not start
/// with `\\` always opens a terminal, titled with that name (on Windows) or
/// with the whole path (on Unix).
pub fn open_terminal_command(project_path: &str) -> (r: Option<ShellCommand>)
    ensures
        r matches Some(c) ==> exists|title: Seq<char>| opens_terminal(c, project_path@, title),
        is_plain_name(project_path@) ==> (r matches Some(c) && opens_terminal(
            c,
            project_path@,
            project_path@,
        )),
        forall|dir: Seq<char>, name: Seq<char>|
            #![trigger joined(dir, name)]
            joined(dir, name) == project_path@ && is_plain_name(name) && slash_separated(
                project_path@,
            ) ==> (r matches Some(c) && opens_terminal(c, project_path@, name)),
        forall|dir: Seq<char>, name: Seq<char>|
            #![trigger backslash_joined(dir, name)]
            backslash_joined(dir, name) == project_path@ && is_plain_name(name)
                && backslash_separated(project_path@) ==> (r matches Some(c) && (opens_terminal(
                c,
                project_path@,
                name,
            ) || opens_terminal(c, project_path@, project_path@))),
        ends_in_parent(project_path@) && slash_separated(project_path@) ==> r is None,
{
    match file_name_of(project_path) {
        Some(title) => Some(terminal_command(project_path, title.as_str())),
        None => None,
    }
}

} // verus!
