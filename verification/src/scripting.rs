//! The hooks that user scripts can define, and the actions scripts can ask
//! the browser for. The script engine itself runs in the program.

use vstd::prelude::*;

use crate::text::push_str;

verus! {

/// Event hooks that scripts can define.
#[derive(Debug, Clone, PartialEq, Eq)]
pub enum ScriptEvent {
    /// Fired when the browser starts.
    OnStart,
    /// Fired when the browser is quitting.
    OnQuit,
    /// Fired on key press with the key name.
    OnKey(String),
}

/// Actions that scripts can trigger.
#[derive(Debug, Clone)]
pub enum ScriptAction {
    /// Open a new tab with a URL.
    NewTab(String),
    /// Close the current tab.
    CloseTab,
    /// Navigate the current tab to a URL.
    Navigate(String),
}

/// The name of the script function that handles `event`.
pub open spec fn spec_hook_name(event: ScriptEvent) -> Seq<char> {
    match event {
        ScriptEvent::OnStart => "on_start"@,
        ScriptEvent::OnQuit => "on_quit"@,
        ScriptEvent::OnKey(_) => "on_key"@,
    }
}

/// The script that runs the hook for `event` when the user's scripts define
/// it: `on_key` gets the key name as its one argument, the other hooks take
/// none.
pub open spec fn spec_hook_script(event: ScriptEvent) -> Seq<char> {
    let name = spec_hook_name(event);
    match event {
        ScriptEvent::OnKey(key) => "if is_def_fn(\""@ + name + "\", 1) { "@ + name + "(\""@ + key@
            + "\"); }"@,
        _ => "if is_def_fn(\""@ + name + "\", 0) { "@ + name + "(); }"@,
    }
}

/// The name of the script function that handles `event`.
pub fn hook_name(event: &ScriptEvent) -> (res: &'static str)
    ensures
        res@ == spec_hook_name(*event),
{
    match event {
        ScriptEvent::OnStart => "on_start",
        ScriptEvent::OnQuit => "on_quit",
        ScriptEvent::OnKey(_) => "on_key",
    }
}

/// The script that fires `event`: it calls the hook only where the user's
/// scripts define it with the right number of parameters.
pub fn hook_script(event: &ScriptEvent) -> (res: String)
    ensures
        res@ == spec_hook_script(*event),
{
    let name = hook_name(event);
    let mut script = String::from_str("if is_def_fn(\"");
    push_str(&mut script, name);
    match event {
        ScriptEvent::OnKey(key) => {
            push_str(&mut script, "\", 1) { ");
            push_str(&mut script, name);
            push_str(&mut script, "(\"");
            push_str(&mut script, key.as_str());
            push_str(&mut script, "\"); }");
        },
        _ => {
            push_str(&mut script, "\", 0) { ");
            push_str(&mut script, name);
            push_str(&mut script, "(); }");
        },
    }
    script
}

} // verus!
