//! Input aggregation and frame stepping for an interactive canvas.
//!
//! The library keeps what pointer, keyboard and touch events have reported,
//! routes each platform event to the matching update, advances the movable
//! object once per frame, and decides when the frame callback must be
//! registered again. Reading events from the platform and drawing are left to
//! the embedding program.

pub mod event;
pub mod frame;
pub mod input;
pub mod keyboard;
pub mod pointer;
pub mod scheduler;
pub mod touch;
pub mod vec2;

pub use event::InputEvent;
pub use frame::{FramePlan, State};
pub use input::{Backend, InputWarning};
pub use keyboard::{Key, KeyCode, Keyboard};
pub use pointer::{MouseButton, Pointer};
pub use scheduler::{FrameScheduler, Phase};
pub use touch::{Touch, Touches};
pub use vec2::Vec2;
