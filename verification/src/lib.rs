//! Two small wrappers for instrumenting values: `Tr` watches every duplication
//! of the value it holds, and `Tag` carries a label beside a value.

pub mod event;
pub mod laws;
pub mod render;
pub mod tagged;
pub mod traced;

pub use event::Event;
pub use tagged::{Tag, Tagged};
pub use traced::{CloneError, CloneSilent, Tr, Traced};
