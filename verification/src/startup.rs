//! Startup sequencing: on launch the shell resolves the single main window,
//! shows it, and reports completion to the runtime. Both possible faults —
//! the main window missing from the registry, and the runtime refusing the
//! show request — abort startup; the sequencer never continues without a
//! visible main window.

use vstd::prelude::*;
use vstd::string::StringExecFns;

use crate::runtime::WindowRuntime;

verus! {

/// The fixed logical name under which static application configuration
/// declares the main window.
pub open spec fn main_window_name() -> Seq<char> {
    "main"@
}

/// Where the sequencer stands: still initializing, or ready for the event
/// loop to proceed. The transition happens exactly once per process.
#[derive(PartialEq, Eq, Structural, Clone, Copy, Debug)]
pub enum SetupState {
    Initializing,
    Ready,
}

/// The two unrecoverable startup faults. Either one aborts startup: a shell
/// with no visible main window has no defined behaviour.
#[derive(PartialEq, Eq, Structural, Clone, Copy, Debug)]
pub enum StartupError {
    MainWindowNotFound,
    WindowShowFailed,
}

/// The startup sequencer: a two-state machine, `Initializing` until setup
/// has completed successfully, `Ready` from then on.
pub struct StartupSequencer {
    pub state: SetupState,
}

impl StartupSequencer {
    /// A sequencer at process start, before setup has run.
    pub fn new() -> (s: StartupSequencer)
        ensures
            s.state is Initializing,
    {
        StartupSequencer { state: SetupState::Initializing }
    }

    /// Runs setup, once, when the runtime's initialization hook fires:
    /// resolves the window named "main", shows it, and becomes `Ready`.
    /// Setup succeeds exactly when a main window is registered and the
    /// runtime accepts the show request; it then makes the main window
    /// visible and leaves every other window, and the dialog log, untouched.
    /// A missing main window is reported over a refused show, either fault
    /// leaves runtime and sequencer exactly as they were, and the sequencer
    /// never reaches `Ready` without a visible main window.
    pub fn run_setup(&mut self, runtime: &mut WindowRuntime) -> (r: Result<(), StartupError>)
        requires
            old(self).state is Initializing,
        ensures
            final(runtime).dialogs@ == old(runtime).dialogs@,
            final(runtime).show_fault == old(runtime).show_fault,
            r is Ok <==> old(runtime).has_window(main_window_name()) && !old(runtime).show_fault,
            r == Err::<(), StartupError>(StartupError::MainWindowNotFound) <==> !old(
                runtime,
            ).has_window(main_window_name()),
            r == Err::<(), StartupError>(StartupError::WindowShowFailed) <==> old(
                runtime,
            ).has_window(main_window_name()) && old(runtime).show_fault,
            r is Ok ==> final(self).state is Ready,
            r is Ok ==> final(runtime).window_visible(main_window_name()),
            r is Ok ==> final(runtime).windows@.len() == old(runtime).windows@.len(),
            r is Ok ==> forall|j: int|
                0 <= j < old(runtime).windows@.len() ==> final(runtime).windows@[j].name == old(
                    runtime,
                ).windows@[j].name,
            r is Ok ==> forall|j: int|
                0 <= j < old(runtime).windows@.len() && old(runtime).windows@[j].name@
                    != main_window_name() ==> final(runtime).windows@[j] == old(
                    runtime,
                ).windows@[j],
            r is Err ==> final(self).state is Initializing && final(runtime).windows@ == old(
                runtime,
            ).windows@,
    {
        let name = String::from_str("main");
        match runtime.get_window(&name) {
            None => Err(StartupError::MainWindowNotFound),
            Some(id) => match runtime.show_window(id) {
                Err(_) => Err(StartupError::WindowShowFailed),
                Ok(()) => {
                    proof {
                        assert(runtime.windows@[id as int].name@ == main_window_name()
                            && runtime.windows@[id as int].visible);
                    }
                    self.state = SetupState::Ready;
                    Ok(())
                },
            },
        }
    }
}

/// Successful setup is a one-way transition: a sequencer that has reached
/// `Ready` no longer meets the entry condition of `run_setup`, so setup runs
/// to completion at most once per process.
pub proof fn lemma_setup_runs_at_most_once(s: StartupSequencer)
    requires
        s.state is Ready,
    ensures
        !(s.state is Initializing),
{
}

} // verus!
