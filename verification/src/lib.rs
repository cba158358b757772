//! The verified core of a PipeWire screen capture library.
//!
//! Window selection goes through the ScreenCast portal, frames come from a PipeWire stream. This
//! crate holds what is decided and computed on the way: which call comes next, what a failure
//! means, what the caller gets to see, and how a mapped buffer becomes a BGRA frame. The calls
//! themselves are made by the program around it.
use vstd::prelude::*;
use vstd::string::*;

pub mod error;
pub mod frame;
pub mod gpu;
pub mod history;
pub mod negotiation;
pub mod portal;
pub mod probe;
pub mod seconds;
pub mod shared;
pub mod spa;
pub mod stream;
pub mod text;
pub mod thread;

pub use error::CaptureError;
pub use portal::{PortalCapture, PortalSession};
pub use stream::CaptureStream;

verus! {

/// The log filter for a level, where the environment sets none.
pub fn log_filter(level: &str) -> (filter: String)
    ensures
        filter@ == "pipewire_capture="@ + level@,
{
    "pipewire_capture=".to_owned().concat(level)
}

} // verus!
