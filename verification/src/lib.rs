//! A verified streaming engine for a camera whose driver delivers completed
//! frames through announced, address-stable buffers.
//!
//! The library models the driver as a capability interface
//! ([`device::CaptureDevice`]): the session logic that coordinates the buffer
//! pool, the callback bridge and the start/stop protocol is verified against
//! the contracts of that interface, and a verified reference device
//! ([`sim::SimDevice`]) implements it so that every proof is grounded in at
//! least one checked implementation.

pub mod camera;
pub mod device;
pub mod error;
pub mod feature;
pub mod format;
pub mod sim;
pub mod startup;

pub use camera::{AccessMode, BridgeOutcome, CallbackContext, Camera, CameraCallback, CameraInfo, Frame, FrameGrab, QueueHandler, SessionState, StreamContinue};
pub use device::{CaptureDevice, Completion, FrameDescriptor};
pub use error::Error;
pub use sim::{SimDevice, SimEvent};
pub use startup::StartupRegistry;
pub use feature::{FeatureInfo, FeatureType, FeatureValue};
pub use format::PixelFormat;
