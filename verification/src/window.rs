//! The tool windows: their labels, which of them hide instead of closing,
//! the tray menu, the global shortcuts, and labels for new page windows.
use vstd::prelude::*;
use vstd::string::*;
use crate::text::{
    is_digit, lemma_signed_decimal_injective, lemma_signed_decimal_start, same_text, signed_decimal,
    signed_decimal_string, trim, trimmed,
};

verus! {

pub const WIN_LABEL_SETTING: &'static str = "setting";

pub const WIN_LABEL_OPEN_FOLDER: &'static str = "openFolder";

pub const WIN_LABEL_QUICK_INPUT: &'static str = "quickInput";

pub const WIN_LABEL_Tray_Menu: &'static str = "trayMenu";

/// Whether a window with this label hides when asked to close: the setting,
/// open-folder, quick-input and tray-menu windows do; other windows close.
pub open spec fn hides_instead_of_closing(label: Seq<char>) -> bool {
    ||| label == "setting"@
    ||| label == "openFolder"@
    ||| label == "quickInput"@
    ||| label == "trayMenu"@
}

/// Whether the window with this label hides when asked to close.
pub fn hides_on_close(label: &str) -> (r: bool)
    ensures
        r == hides_instead_of_closing(label@),
{
    same_text(label, WIN_LABEL_SETTING) || same_text(label, WIN_LABEL_OPEN_FOLDER) || same_text(
        label,
        WIN_LABEL_QUICK_INPUT,
    ) || same_text(label, WIN_LABEL_Tray_Menu)
}

/// Exactly the four tool windows hide instead of closing; every other label
/// closes.
pub proof fn lemma_only_tool_windows_hide(label: Seq<char>)
    ensures
        hides_instead_of_closing(label) <==> (label == WIN_LABEL_SETTING@ || label
            == WIN_LABEL_OPEN_FOLDER@ || label == WIN_LABEL_QUICK_INPUT@ || label
            == WIN_LABEL_Tray_Menu@),
{
}

/// A page window, labelled with the decimal text of a number, closes when
/// asked to: no such label is the label of a tool window.
pub proof fn lemma_page_windows_close(n: i32)
    ensures
        !hides_instead_of_closing(signed_decimal(n as int)),
{
    lemma_signed_decimal_start(n as int);
    let l = signed_decimal(n as int);
    reveal_strlit("setting");
    reveal_strlit("openFolder");
    reveal_strlit("quickInput");
    reveal_strlit("trayMenu");
    assert(!is_digit('s') && !is_digit('o') && !is_digit('q') && !is_digit('t'));
    assert(l != "setting"@) by {
        assert("setting"@[0] == 's');
    }
    assert(l != "openFolder"@) by {
        assert("openFolder"@[0] == 'o');
    }
    assert(l != "quickInput"@) by {
        assert("quickInput"@[0] == 'q');
    }
    assert(l != "trayMenu"@) by {
        assert("trayMenu"@[0] == 't');
    }
}

/// One thing to do to a window.
#[derive(Debug, Clone, Copy, PartialEq, Eq, Structural)]
pub enum WindowStep {
    Unminimize,
    Show,
    Hide,
    Focus,
    /// Move the window's top-left corner to this physical position.
    MoveTo { x: u32, y: u32 },
    /// Move the window's top-left corner to the mouse cursor.
    MoveToCursor,
}

/// What an item of the tray menu asks for.
#[derive(Debug, Clone, Copy, PartialEq, Eq, Structural)]
pub enum MenuCommand {
    /// Bring up the setting window.
    ShowSetting,
    Restart,
    Quit,
    /// An item the tools do not know; nothing happens.
    Ignore,
}

/// The command of the tray menu item with this id.
pub fn menu_command(key: &str) -> (r: MenuCommand)
    ensures
        key@ == "setting"@ ==> r == MenuCommand::ShowSetting,
        key@ == "restart"@ ==> r == MenuCommand::Restart,
        key@ == "quit"@ ==> r == MenuCommand::Quit,
        key@ != "setting"@ && key@ != "restart"@ && key@ != "quit"@ ==> r == MenuCommand::Ignore,
{
    proof {
        reveal_strlit("setting");
        reveal_strlit("restart");
        reveal_strlit("quit");
        assert("setting"@[0] != "restart"@[0]);
        assert("setting"@.len() != "quit"@.len());
        assert("restart"@.len() != "quit"@.len());
    }
    if same_text(key, "setting") {
        MenuCommand::ShowSetting
    } else if same_text(key, "restart") {
        MenuCommand::Restart
    } else if same_text(key, "quit") {
        MenuCommand::Quit
    } else {
        MenuCommand::Ignore
    }
}

/// Bringing up the setting window: restore it when it is minimized, then show
/// and focus it.
pub fn setting_window_steps(minimized: bool) -> (r: Vec<WindowStep>)
    ensures
        minimized ==> r@ == seq![WindowStep::Unminimize, WindowStep::Show, WindowStep::Focus],
        !minimized ==> r@ == seq![WindowStep::Show, WindowStep::Focus],
{
    let mut steps: Vec<WindowStep> = Vec::new();
    if minimized {
        steps.push(WindowStep::Unminimize);
    }
    steps.push(WindowStep::Show);
    steps.push(WindowStep::Focus);
    steps
}

// ---------------------------------------------------------------------------
// Global shortcuts
// ---------------------------------------------------------------------------

/// The global shortcuts the tools register.
#[derive(Debug, Clone, Copy, PartialEq, Eq, Structural)]
pub enum Hotkey {
    /// Alt+Space: the open-folder window.
    OpenFolder,
    /// Alt+V: the quick-input window.
    QuickInput,
    /// Alt+R: the QR code of the clipboard text, in the setting window.
    QrCode,
}

/// Where the open-folder window goes: centred across the monitor, a quarter
/// of the way down.
pub open spec fn open_folder_spot(monitor_width: u32, monitor_height: u32, window_width: u32) -> (
    u32,
    u32,
) {
    ((monitor_width / 2 - window_width / 2) as u32, monitor_height / 4)
}

/// The position of the open-folder window on a monitor of the given size.
pub fn open_folder_position(monitor_width: u32, monitor_height: u32, window_width: u32) -> (r: (
    u32,
    u32,
))
    requires
        window_width / 2 <= monitor_width / 2,
    ensures
        r == open_folder_spot(monitor_width, monitor_height, window_width),
{
    (monitor_width / 2 - window_width / 2, monitor_height / 4)
}

/// Alt+Space pressed: a focused open-folder window hides; a visible one
/// without focus moves into place and takes focus; a hidden one moves into
/// place, shows and takes focus.
pub fn open_folder_steps(
    visible: bool,
    focused: bool,
    monitor_width: u32,
    monitor_height: u32,
    window_width: u32,
) -> (r: Vec<WindowStep>)
    requires
        !(visible && focused) ==> window_width / 2 <= monitor_width / 2,
    ensures
        ({
            let (x, y) = open_folder_spot(monitor_width, monitor_height, window_width);
            &&& visible && focused ==> r@ == seq![WindowStep::Hide]
            &&& visible && !focused ==> r@ == seq![WindowStep::MoveTo { x, y }, WindowStep::Focus]
            &&& !visible ==> r@ == seq![
                WindowStep::MoveTo { x, y },
                WindowStep::Show,
                WindowStep::Focus,
            ]
        }),
{
    let mut steps: Vec<WindowStep> = Vec::new();
    if visible && focused {
        steps.push(WindowStep::Hide);
    } else {
        let (x, y) = open_folder_position(monitor_width, monitor_height, window_width);
        steps.push(WindowStep::MoveTo { x, y });
        if !visible {
            steps.push(WindowStep::Show);
        }
        steps.push(WindowStep::Focus);
    }
    steps
}

/// Alt+V pressed: a visible quick-input window hides; a hidden one moves to
/// the cursor, shows and takes focus.
pub fn quick_input_steps(visible: bool) -> (r: Vec<WindowStep>)
    ensures
        visible ==> r@ == seq![WindowStep::Hide],
        !visible ==> r@ == seq![WindowStep::MoveToCursor, WindowStep::Show, WindowStep::Focus],
{
    let mut steps: Vec<WindowStep> = Vec::new();
    if visible {
        steps.push(WindowStep::Hide);
    } else {
        steps.push(WindowStep::MoveToCursor);
        steps.push(WindowStep::Show);
        steps.push(WindowStep::Focus);
    }
    steps
}

/// Alt+R pressed: the setting window is restored, shown and focused.
pub fn qr_code_steps() -> (r: Vec<WindowStep>)
    ensures
        r@ == seq![WindowStep::Unminimize, WindowStep::Show, WindowStep::Focus],
{
    let mut steps: Vec<WindowStep> = Vec::new();
    steps.push(WindowStep::Unminimize);
    steps.push(WindowStep::Show);
    steps.push(WindowStep::Focus);
    steps
}

/// The text sent to the setting window for its QR code: the clipboard text
/// without leading and trailing white space.
pub fn qr_code_text(clipboard: &str) -> (r: String)
    ensures
        r@ == trim(clipboard@),
{
    trimmed(clipboard)
}

// ---------------------------------------------------------------------------
// Page windows
// ---------------------------------------------------------------------------

/// The label of a page window made from the number `n`: its decimal
/// representation.
pub fn window_label(n: i32) -> (r: String)
    ensures
        r@ == signed_decimal(n as int),
{
    signed_decimal_string(n)
}

/// Page windows made from different numbers get different labels, so two
/// page windows clash only when their numbers are equal.
pub proof fn lemma_window_labels_distinct(a: i32, b: i32)
    requires
        a != b,
    ensures
        signed_decimal(a as int) != signed_decimal(b as int),
{
    if signed_decimal(a as int) == signed_decimal(b as int) {
        lemma_signed_decimal_injective(a as int, b as int);
    }
}

/// A random number (`rand::random::<i32>()`, drawn from the thread-local
/// generator); nothing is promised of its value.
#[verifier::external_body]
fn random_i32() -> (r: i32) {
    rand::random::<i32>()
}

/// A label for a new page window: the decimal representation of a random
/// `i32`.
pub fn new_window_label() -> (r: String)
    ensures
        exists|n: i32| r@ == signed_decimal(n as int),
{
    let n = random_i32();
    window_label(n)
}

} // verus!
