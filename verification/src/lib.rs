//! Client-side core of a desktop portal protocol: a sandboxed application
//! asks a trusted out-of-process broker for a privileged capability (taking
//! a screenshot, opening a camera stream, setting a wallpaper) and receives
//! a handle on which the broker later delivers exactly one outcome.
//!
//! The crate models and verifies the request/response correlation protocol
//! and the capability session lifecycle: the typed option codec, the window
//! identifier resolver, the per-capability invocation builder, the request
//! correlator with its single-delivery guarantee, and the start/stop session
//! state machine for continuous streams. The interprocess transport and the
//! widget toolkit are external collaborators: callers perform the actual bus
//! calls and hand the observed replies and events to the functions here.

pub mod camera;
pub mod errors;
pub mod outcome;
pub mod proxy;
pub mod request;
pub mod screenshot;
pub mod session;
pub mod value;
pub mod wallpaper;
pub mod window;
