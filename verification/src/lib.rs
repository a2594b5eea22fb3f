//! Native host shell for the SageFlow accounting desktop application.
//!
//! The shell exposes two host-callable operations to the embedded front-end —
//! reporting the application version and presenting the "about" dialog — and a
//! startup sequencer that makes the main window visible once initialization
//! completes. The windowing runtime itself (window lifecycle, event loop,
//! modal presentation) is an external collaborator; it is represented here by
//! an explicit registry value so that every decision the shell makes is stated
//! and proved over that model.

pub mod about;
pub mod runtime;
pub mod startup;
pub mod version;
