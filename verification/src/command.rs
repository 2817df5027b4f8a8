//! User-defined commands: finding one by its label, how to start it, and the
//! reply that its run gives.
use vstd::prelude::*;
use vstd::string::*;
use vstd::utf8::*;
use crate::shell::ShellCommand;
use crate::text::{same_text, split_whitespace, utf8_or_empty, words};

verus! {

/// The store key under which the saved commands are kept.
pub const Commands_Key: &'static str = "commands";

/// A command the user saved: a label to pick it by, the program, its
/// arguments as one line, and the directory to run it in.
#[derive(Debug, PartialEq, Eq)]
pub struct CommandItem {
    pub label: String,
    pub cmd: String,
    pub arg: String,
    pub currentDir: String,
}

/// Whether no command before position `end` carries `label`.
pub open spec fn label_absent_before(commands: Seq<CommandItem>, label: Seq<char>, end: int) -> bool {
    forall|j: int| 0 <= j < end ==> (#[trigger] commands[j]).label@ != label
}

/// The first saved command whose label is `label`, if there is one.
pub fn find_command(commands: &Vec<CommandItem>, label: &str) -> (r: Option<CommandItem>)
    ensures
        r is None <==> label_absent_before(commands@, label@, commands@.len() as int),
        r matches Some(c) ==> exists|i: int|
            0 <= i < commands@.len() && commands@[i].label@ == label@ && label_absent_before(
                commands@,
                label@,
                i,
            ) && c == commands@[i],
{
    let n = commands.len();
    let mut i: usize = 0;
    while i < n
        invariant
            n == commands@.len(),
            i <= n,
            label_absent_before(commands@, label@, i as int),
        decreases n - i,
    {
        let item = &commands[i];
        if same_text(item.label.as_str(), label) {
            let found = CommandItem {
                label: item.label.clone(),
                cmd: item.cmd.clone(),
                arg: item.arg.clone(),
                currentDir: item.currentDir.clone(),
            };
            assert(commands@[i as int].label@ == label@);
            return Some(found);
        }
        i += 1;
    }
    None
}

impl CommandItem {
    /// How to start the command: its program, in its directory, with the
    /// words of its argument line as arguments.
    pub fn plan(&self) -> (r: ShellCommand)
        ensures
            r.program@ == self.cmd@,
            r.arg_texts() == words(self.arg@),
            r.dir_text() == Some(self.currentDir@),
    {
        ShellCommand {
            program: self.cmd.clone(),
            args: split_whitespace(self.arg.as_str()),
            current_dir: Some(self.currentDir.clone()),
        }
    }
}

/// What happened when a command was run.
pub enum RunOutcome {
    /// It ran and exited with success.
    Succeeded,
    /// It exited with failure; running it again captured this error output.
    FailedWithOutput { stderr: Vec<u8> },
    /// It exited with failure, and running it again gave no output; `status`
    /// is how its exit status reads.
    FailedWithoutOutput { status: String },
    /// It could not be started; `error` is how the error reads.
    NotStarted { error: String },
}

/// The reply to a run of `program`: success, the error output of a failed
/// run (empty when it is not UTF-8), a message with the exit status, or a
/// message naming the program that could not be started.
pub fn run_result(program: &str, outcome: RunOutcome) -> (r: Result<(), String>)
    ensures
        match outcome {
            RunOutcome::Succeeded => r is Ok,
            RunOutcome::FailedWithOutput { stderr } => r matches Err(m) && (valid_utf8(stderr@)
                ==> m@ == decode_utf8(stderr@)) && (!valid_utf8(stderr@) ==> m@ == Seq::<
                char,
            >::empty()),
            RunOutcome::FailedWithoutOutput { status } => r matches Err(m) && m@
                == "命令执行失败，退出码："@ + status@,
            RunOutcome::NotStarted { error } => r matches Err(m) && m@
                == "Cmd execute command '"@ + program@ + " "@ + error@,
        },
{
    match outcome {
        RunOutcome::Succeeded => Ok(()),
        RunOutcome::FailedWithOutput { stderr } => Err(utf8_or_empty(stderr)),
        RunOutcome::FailedWithoutOutput { status } => {
            let mut m = "命令执行失败，退出码：".to_owned();
            m.append(status.as_str());
            Err(m)
        },
        RunOutcome::NotStarted { error } => {
            let mut m = "Cmd execute command '".to_owned();
            m.append(program);
            m.append(" ");
            m.append(error.as_str());
            Err(m)
        },
    }
}

} // verus!
