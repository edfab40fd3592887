//! Transcript session for a desktop client of a local speech-recognition
//! service.
//!
//! The client shows what the service hears. It reaches the service over a
//! control channel of three requests and over a stream that pushes
//! transcript frames. This library is the part of the client that decides:
//!
//! - [`frame`] and [`wire`]: the transcript frame and its JSON form;
//! - [`model`]: the view model and the reducer that folds frames into it;
//! - [`control`] and [`endpoint`]: the requests of the control channel, what
//!   their replies mean, and where the service is reached;
//! - [`stream`]: what each message of the stream delivers;
//! - [`session`]: the controller, a state machine from session and event to
//!   session and action;
//! - [`view`]: what the window shows of a view model;
//! - [`json`] and [`text`]: JSON as `serde_json` reads it, and composed text.
//!
//! Nothing here waits on the network or draws. The program around the
//! library performs each action that the controller asks for and reports
//! back what happened.

pub mod control;
pub mod endpoint;
pub mod frame;
pub mod json;
pub mod model;
pub mod session;
pub mod stream;
pub mod text;
pub mod view;
pub mod wire;
