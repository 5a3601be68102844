//! Window controller of a desktop voice widget: decides where the floating
//! widget and the voice popup go on screen, when a window must be created,
//! and how each named window moves between absent, hidden and visible.

mod controller;
mod geometry;
mod permission;
mod window;

pub use geometry::{DisplaySize, LogicalPoint, floating_position, voice_popup_position};
pub use window::{WindowDescriptor, WindowKind};
pub use controller::{
    Request, ShowPlan, WindowError, WindowRegistry, WindowState, lemma_at_most_one_creation,
    lemma_hide_absent_is_noop, lemma_show_hide_show,
};
pub use permission::request_microphone_permission;
