//! The startup sequence of the shell: which capability plugins are attached,
//! in what order, which command handlers are registered, what the setup hook
//! decides, and that the blocking run loop comes last. The host process walks
//! the step list this module produces and performs each step.

use vstd::prelude::*;

use crate::commands::Command;

verus! {

/// A capability plugin attached to the application builder at startup.
#[derive(Clone, Copy, PartialEq, Eq, Structural, Debug)]
pub enum Plugin {
    /// URL and file opener.
    Opener,
    /// Clipboard manager.
    ClipboardManager,
    /// Native dialogs.
    Dialog,
    /// Filesystem access.
    Fs,
    /// Operating-system metadata.
    Os,
    /// Process control.
    Process,
    /// Global keyboard shortcuts, with default configuration.
    GlobalShortcut,
}

/// One step of the startup sequence.
#[derive(Clone, Copy, PartialEq, Eq, Structural, Debug)]
pub enum Step {
    /// Attach a capability plugin to the application builder.
    AttachPlugin(Plugin),
    /// Register a command handler under its invocation name.
    RegisterCommand(Command),
    /// Install the setup hook that may auto-open the devtools.
    InstallSetupHook,
    /// Start the blocking run loop.
    StartRunLoop,
}

/// The startup sequence, in order: the seven capability plugins, the two
/// command handlers, the setup hook, and finally the run loop.
pub open spec fn boot_sequence() -> Seq<Step> {
    seq![
        Step::AttachPlugin(Plugin::Opener),
        Step::AttachPlugin(Plugin::ClipboardManager),
        Step::AttachPlugin(Plugin::Dialog),
        Step::AttachPlugin(Plugin::Fs),
        Step::AttachPlugin(Plugin::Os),
        Step::AttachPlugin(Plugin::Process),
        Step::AttachPlugin(Plugin::GlobalShortcut),
        Step::RegisterCommand(Command::ToggleDevtools),
        Step::RegisterCommand(Command::ReloadWebview),
        Step::InstallSetupHook,
        Step::StartRunLoop,
    ]
}

/// The steps the shell performs at startup, in order.
pub fn run_steps() -> (steps: Vec<Step>)
    ensures
        steps@ == boot_sequence(),
{
    let mut steps: Vec<Step> = Vec::new();
    steps.push(Step::AttachPlugin(Plugin::Opener));
    steps.push(Step::AttachPlugin(Plugin::ClipboardManager));
    steps.push(Step::AttachPlugin(Plugin::Dialog));
    steps.push(Step::AttachPlugin(Plugin::Fs));
    steps.push(Step::AttachPlugin(Plugin::Os));
    steps.push(Step::AttachPlugin(Plugin::Process));
    steps.push(Step::AttachPlugin(Plugin::GlobalShortcut));
    steps.push(Step::RegisterCommand(Command::ToggleDevtools));
    steps.push(Step::RegisterCommand(Command::ReloadWebview));
    steps.push(Step::InstallSetupHook);
    steps.push(Step::StartRunLoop);
    proof {
        assert(steps@ =~= boot_sequence());
    }
    steps
}

/// Where in the startup sequence a plugin is attached.
pub open spec fn attach_step_index(p: Plugin) -> int {
    match p {
        Plugin::Opener => 0,
        Plugin::ClipboardManager => 1,
        Plugin::Dialog => 2,
        Plugin::Fs => 3,
        Plugin::Os => 4,
        Plugin::Process => 5,
        Plugin::GlobalShortcut => 6,
    }
}

/// Where in the startup sequence a command handler is registered.
pub open spec fn register_step_index(c: Command) -> int {
    match c {
        Command::ToggleDevtools => 7,
        Command::ReloadWebview => 8,
    }
}

/// Every plugin is attached, and every command handler registered, strictly
/// before the run loop starts; the run loop is the last step and no earlier
/// step starts it.
pub proof fn lemma_boot_sequence_complete()
    ensures
        boot_sequence().last() == Step::StartRunLoop,
        forall|p: Plugin|
            0 <= attach_step_index(p) < boot_sequence().len() - 1
                && #[trigger] boot_sequence()[attach_step_index(p)] == Step::AttachPlugin(p),
        forall|c: Command|
            0 <= register_step_index(c) < boot_sequence().len() - 1
                && #[trigger] boot_sequence()[register_step_index(c)] == Step::RegisterCommand(c),
        forall|i: int|
            0 <= i < boot_sequence().len() && #[trigger] boot_sequence()[i] == Step::StartRunLoop
                ==> i == boot_sequence().len() - 1,
{
}

/// Whether the setup hook opens the main window's devtools: only in a debug
/// build, and only when the main window was found.
pub open spec fn devtools_auto_open(debug_build: bool, main_window_present: bool) -> bool {
    debug_build && main_window_present
}

/// Setup-hook decision: open the main window's devtools exactly in a debug
/// build in which the main window was found.
pub fn setup_opens_devtools(debug_build: bool, main_window_present: bool) -> (open: bool)
    ensures
        open == devtools_auto_open(debug_build, main_window_present),
{
    debug_build && main_window_present
}

/// Once setup completes, a debug build whose main window was found shows its
/// devtools open; a release build never does.
pub proof fn lemma_setup_devtools_state(debug_build: bool, main_window_present: bool)
    ensures
        devtools_auto_open(debug_build, true) == debug_build,
        !devtools_auto_open(false, main_window_present),
{
}

/// The identifier of the window whose devtools the setup hook may open.
pub fn main_window_label() -> (label: &'static str)
    ensures
        label@ == "main"@,
{
    "main"
}

/// The diagnostic the process aborts with when the run loop fails to start.
pub fn run_failure_message() -> (msg: &'static str)
    ensures
        msg@ == "error while running tauri application"@,
{
    "error while running tauri application"
}

} // verus!
