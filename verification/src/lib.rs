//! Control-and-capture bridge of a small Wayland compositor.
//!
//! Tool invocations arrive on a service domain of concurrent tasks; frames are
//! produced by one cooperative render domain. This crate holds what the two
//! sides agree on: the typed commands and their one-shot response slots, the
//! rule that turns a received command into immediate or deferred work, the
//! frame cycle that services a deferred capture, and the capture pipeline
//! that turns device pixels into an encoded image and a reply.

pub mod bridge;
pub mod capture;
pub mod command;
pub mod encode;
pub mod frame;
pub mod geometry;
pub mod raster;
pub mod reply;
pub mod slot;
pub mod text;

pub use bridge::{BridgeAction, ChannelEvent, LaunchTicket, PendingCapture, RenderDomain};
pub use capture::{take_screenshot, CaptureError, Readback, Screenshot};
pub use command::{LaunchAppRequest, McpCommand, ScreenshotRequest};
pub use frame::{FrameAction, FrameEvent, FramePhase};
pub use geometry::{FrameRegion, FrameSize, OutputMode, Rect};
pub use raster::{CapturedImage, Rgba};
pub use reply::{Delivery, ServiceUnavailable};
