//! The "about" dialog: a fixed informational message, with the application
//! version interpolated, presented as a modal dialog anchored to the window
//! the caller supplies.

use vstd::prelude::*;
use vstd::string::StringExecFns;

use crate::runtime::WindowRuntime;
use crate::version::app_version;
use crate::version::get_app_version;

verus! {

/// The fixed title of the about dialog.
pub open spec fn about_title() -> Seq<char> {
    "About SageFlow"@
}

/// The about message for a given version: application name, the version, a
/// one-line product description, and a copyright line, separated by blank
/// lines.
pub open spec fn about_message(version: Seq<char>) -> Seq<char> {
    "SageFlow Accounting\n\nVersion: "@ + version
        + "\n\nModern accounting software for Ethiopian businesses.\n\n© 2026 SageFlow"@
}

/// Builds the about message for a version string, exactly as `about_message`
/// gives it.
pub fn build_about_message(version: &str) -> (m: String)
    ensures
        m@ == about_message(version@),
{
    let mut m = String::from_str("SageFlow Accounting\n\nVersion: ");
    m.append(version);
    m.append("\n\nModern accounting software for Ethiopian businesses.\n\n© 2026 SageFlow");
    m
}

/// Host-callable about-dialog presenter: builds the about message for the
/// current application version and asks the runtime to display it as one
/// modal dialog, titled and anchored to the given window. Exactly one dialog
/// request is produced per call; the windows themselves are untouched. The
/// window reference must be valid: resolving an invalid one is a fatal
/// call-level fault with no defined error channel, so it is ruled out here
/// and the bridge checks it before the call.
pub fn show_about_dialog(runtime: &mut WindowRuntime, window: usize)
    requires
        window < old(runtime).windows@.len(),
    ensures
        final(runtime).windows@ == old(runtime).windows@,
        final(runtime).show_fault == old(runtime).show_fault,
        final(runtime).dialogs@.len() == old(runtime).dialogs@.len() + 1,
        forall|i: int|
            0 <= i < old(runtime).dialogs@.len() ==> final(runtime).dialogs@[i] == old(
                runtime,
            ).dialogs@[i],
        final(runtime).dialogs@.last().parent == window,
        final(runtime).dialogs@.last().title@ == about_title(),
        final(runtime).dialogs@.last().message@ == about_message(app_version()),
{
    let version = get_app_version();
    let message = build_about_message(version.as_str());
    let title = String::from_str("About SageFlow");
    runtime.display_dialog(window, title, message);
}

} // verus!
