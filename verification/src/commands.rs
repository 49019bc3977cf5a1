//! The two commands the editor shell exposes to its frontend: toggling the
//! developer-tools panel of a window and reloading the hosted page. Each
//! handler is split into its pure decision, stated and proved here, and the
//! host call that carries the decision out, which stays outside the crate.

use vstd::prelude::*;

verus! {

/// A command the frontend can invoke by name.
#[derive(Clone, Copy, PartialEq, Eq, Structural, Debug)]
pub enum Command {
    /// Toggle the developer-tools panel of the invoking window.
    ToggleDevtools,
    /// Reload the page hosted by the invoking webview.
    ReloadWebview,
}

/// The name under which a command is registered and resolved.
pub open spec fn command_name_spec(c: Command) -> Seq<char> {
    match c {
        Command::ToggleDevtools => "toggle_devtools"@,
        Command::ReloadWebview => "reload_webview"@,
    }
}

/// The invocation name of a command.
pub fn command_name(c: Command) -> (name: &'static str)
    ensures
        name@ == command_name_spec(c),
{
    match c {
        Command::ToggleDevtools => "toggle_devtools",
        Command::ReloadWebview => "reload_webview",
    }
}

/// Which command an invocation name denotes, if any.
pub open spec fn resolved_command(name: Seq<char>) -> Option<Command> {
    if name == command_name_spec(Command::ToggleDevtools) {
        Some(Command::ToggleDevtools)
    } else if name == command_name_spec(Command::ReloadWebview) {
        Some(Command::ReloadWebview)
    } else {
        None
    }
}

/// Resolve an invocation name to the command registered under it.
pub fn resolve_command(name: &str) -> (c: Option<Command>)
    ensures
        c == resolved_command(name@),
{
    let owned: String = name.to_owned();
    if owned == "toggle_devtools".to_owned() {
        Some(Command::ToggleDevtools)
    } else if owned == "reload_webview".to_owned() {
        Some(Command::ReloadWebview)
    } else {
        None
    }
}

/// The request a devtools toggle submits to the host window.
#[derive(Clone, Copy, PartialEq, Eq, Structural, Debug)]
pub enum DevtoolsRequest {
    /// Open the developer-tools panel.
    Open,
    /// Close the developer-tools panel.
    Close,
}

/// Whether the panel is open once the host has honoured a request,
/// whatever its state was before.
pub open spec fn devtools_open_after(r: DevtoolsRequest) -> bool {
    match r {
        DevtoolsRequest::Open => true,
        DevtoolsRequest::Close => false,
    }
}

/// The request the toggle handler submits when the panel is open (`true`)
/// or closed (`false`).
pub open spec fn toggle_request(open: bool) -> DevtoolsRequest {
    if open {
        DevtoolsRequest::Close
    } else {
        DevtoolsRequest::Open
    }
}

/// Handler decision for the devtools toggle command: close an open panel,
/// open a closed one.
pub fn toggle_devtools(devtools_open: bool) -> (r: DevtoolsRequest)
    ensures
        r == toggle_request(devtools_open),
        devtools_open_after(r) == !devtools_open,
{
    if devtools_open {
        DevtoolsRequest::Close
    } else {
        DevtoolsRequest::Open
    }
}

/// The panel state a request leaves behind, as the host realises it.
pub fn apply_devtools_request(r: DevtoolsRequest) -> (open: bool)
    ensures
        open == devtools_open_after(r),
{
    match r {
        DevtoolsRequest::Open => true,
        DevtoolsRequest::Close => false,
    }
}

/// The toggle is a two-state switch: one toggle flips the panel state, and a
/// second toggle restores it.
pub proof fn lemma_toggle_twice(open: bool)
    ensures
        devtools_open_after(toggle_request(open)) != open,
        devtools_open_after(toggle_request(devtools_open_after(toggle_request(open)))) == open,
{
}

/// The script whose execution the reload handler requests from the webview.
pub open spec fn reload_script_spec() -> Seq<char> {
    "window.location.reload()"@
}

/// Handler decision for the reload command: the script it submits to the
/// hosted page. It takes no input, so the request goes out whatever state
/// the page is in.
pub fn reload_webview() -> (script: &'static str)
    ensures
        script@ == reload_script_spec(),
{
    "window.location.reload()"
}

/// Handler reply for the reload command once the host has answered the
/// script request: a failure from the host is discarded, so the caller
/// never sees one.
pub fn reload_reply(eval_succeeded: bool) -> (reported_failure: bool)
    ensures
        !reported_failure,
{
    let _ = eval_succeeded;
    false
}

/// Every command is resolvable by its own invocation name.
pub proof fn lemma_command_names_resolve(c: Command)
    ensures
        resolved_command(command_name_spec(c)) == Some(c),
{
    reveal_strlit("toggle_devtools");
    reveal_strlit("reload_webview");
    assert("toggle_devtools"@.len() == 15);
    assert("reload_webview"@.len() == 14);
}

} // verus!
