//! Model of the windowing runtime, the external collaborator that owns every
//! window and presents modal dialogs. The shell only ever asks it three
//! things: resolve a window by its logical name, show a window, and display a
//! modal dialog anchored to a window. Those requests are modelled here as an
//! explicit registry value, so the shell's behaviour is stated and proved over
//! it, and a test can stand a registry up without a real GUI runtime.

use vstd::prelude::*;

verus! {

/// One top-level window as the runtime registers it: its fixed logical name
/// and whether it is currently visible.
pub struct Window {
    pub name: String,
    pub visible: bool,
}

/// One modal-dialog display request, anchored to the window at index `parent`
/// of the registry, so the dialog is modal relative to that window only.
pub struct DialogRequest {
    pub parent: usize,
    pub title: String,
    pub message: String,
}

/// The runtime refused a request; the caller treats this as fatal.
#[derive(PartialEq, Eq, Structural, Clone, Copy, Debug)]
pub struct RuntimeFault;

/// The windowing runtime as the shell sees it: the registry of named windows,
/// the dialog requests it has been asked to display (in order), and whether
/// it currently refuses show requests. The refusal flag stands in for the
/// real runtime's ability to fail a show call, so that fail-fast callers can
/// be exercised without a GUI.
pub struct WindowRuntime {
    pub windows: Vec<Window>,
    pub dialogs: Vec<DialogRequest>,
    pub show_fault: bool,
}

impl WindowRuntime {
    /// Some window of the registry carries this name.
    pub open spec fn has_window(self, name: Seq<char>) -> bool {
        exists|i: int| 0 <= i < self.windows@.len() && self.windows@[i].name@ == name
    }

    /// Some window of the registry carries this name and is visible.
    pub open spec fn window_visible(self, name: Seq<char>) -> bool {
        exists|i: int|
            0 <= i < self.windows@.len() && self.windows@[i].name@ == name
                && self.windows@[i].visible
    }

    /// A runtime with no windows, no dialog requests, and show working.
    pub fn new() -> (r: WindowRuntime)
        ensures
            r.windows@.len() == 0,
            r.dialogs@.len() == 0,
            !r.show_fault,
    {
        WindowRuntime { windows: Vec::new(), dialogs: Vec::new(), show_fault: false }
    }

    /// Registers a window under a logical name, hidden, as the runtime does
    /// when static application configuration declares it.
    pub fn register_window(&mut self, name: String)
        ensures
            final(self).windows@ == old(self).windows@.push(
                (Window { name: name, visible: false }),
            ),
            final(self).dialogs@ == old(self).dialogs@,
            final(self).show_fault == old(self).show_fault,
    {
        self.windows.push(Window { name, visible: false });
    }

    /// Makes the runtime refuse every show request from here on, the way the
    /// real runtime can fail one; a test uses this to reach the fail-fast
    /// paths.
    pub fn inject_show_fault(&mut self)
        ensures
            final(self).windows@ == old(self).windows@,
            final(self).dialogs@ == old(self).dialogs@,
            final(self).show_fault,
    {
        self.show_fault = true;
    }

    /// Resolves a window by its logical name: the handle of the first window
    /// so named, or `None` exactly when no window carries the name.
    pub fn get_window(&self, name: &String) -> (r: Option<usize>)
        ensures
            match r {
                Some(i) => i < self.windows@.len() && self.windows@[i as int].name@ == name@
                    && (forall|j: int| 0 <= j < i ==> self.windows@[j].name@ != name@),
                None => !self.has_window(name@),
            },
    {
        let mut i: usize = 0;
        while i < self.windows.len()
            invariant
                i <= self.windows@.len(),
                forall|j: int| 0 <= j < i ==> self.windows@[j].name@ != name@,
            decreases self.windows@.len() - i,
        {
            if self.windows[i].name == *name {
                return Some(i);
            }
            i = i + 1;
        }
        None
    }

    /// Issues a show request against a resolved window handle. When the
    /// runtime is not refusing shows, the window becomes visible and every
    /// other window keeps its state; when it is, nothing changes and the
    /// fault is reported.
    pub fn show_window(&mut self, id: usize) -> (r: Result<(), RuntimeFault>)
        requires
            id < old(self).windows@.len(),
        ensures
            final(self).dialogs@ == old(self).dialogs@,
            final(self).show_fault == old(self).show_fault,
            r is Ok <==> !old(self).show_fault,
            r is Err ==> final(self).windows@ == old(self).windows@,
            r is Ok ==> final(self).windows@ == old(self).windows@.update(
                id as int,
                (Window { name: old(self).windows@[id as int].name, visible: true }),
            ),
    {
        if self.show_fault {
            Err(RuntimeFault)
        } else {
            self.windows[id].visible = true;
            Ok(())
        }
    }

    /// Asks the runtime to display one modal dialog anchored to a resolved
    /// window handle: exactly one request is appended to the dialog log and
    /// nothing else changes.
    pub fn display_dialog(&mut self, parent: usize, title: String, message: String)
        requires
            parent < old(self).windows@.len(),
        ensures
            final(self).windows@ == old(self).windows@,
            final(self).show_fault == old(self).show_fault,
            final(self).dialogs@ == old(self).dialogs@.push(
                (DialogRequest { parent: parent, title: title, message: message }),
            ),
    {
        self.dialogs.push(DialogRequest { parent, title, message });
    }
}

} // verus!
