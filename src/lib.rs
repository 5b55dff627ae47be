//! Coordination core of a digital photo frame: an image library with a
//! display cursor, the protocol for adding records through a durable store,
//! the hand-off of display requests to the renderer, and the renderer's rule
//! for which decoded frames reach the screen.
pub mod add_flow;
pub mod controller;
pub mod cursor_laws;
pub mod dispatch;
pub mod record;
pub mod render;

pub use add_flow::{placement_paths, AddAction, AddError, AddRecordFlow, AddStage, StoreError};
pub use controller::FrameController;
pub use dispatch::{display_request, dispatch_current, DisplayStatus};
pub use record::{ImageLibrary, ImageRecord, RecordView};
pub use render::{RenderAction, RenderLoop};
