//! Local pseudo-terminal sessions.

pub mod types;
pub mod session;
pub mod manager;

pub use manager::PtyManager;
pub use session::{PtyDimensions, PtyEvent, PtyLaunch, PtySession};
pub use types::{
    CreatePtyRequest, CreatePtyResponse, PtyError, PtyExitEvent, PtyOutputEvent, ResizePtyRequest,
    WritePtyRequest,
};
