//! Client library for the Riemann event-monitoring server.
//!
//! The verified core holds the wire model of events and messages, the
//! length-prefixed frame codec, the connection state machine shared by all
//! callers of one client, the in-order callback queue that matches replies to
//! requests, and the rules that turn server replies into results.
use vstd::prelude::*;

pub mod buffer;
pub mod client;
pub mod codec;
pub mod dispatch;
pub mod error;
pub mod event;
pub mod metrics;
pub mod options;
pub mod state;
pub mod tls;

pub use crate::error::{FailureKind, RiemannClientError};
pub use crate::codec::MsgCodec;
pub use crate::event::{Attribute, Event, EventBuilder, Msg, Query};
pub use crate::metrics::{RiemannObserver, RiemannObserverBuilder};
pub use crate::options::{RiemannClientOptions, RiemannClientOptionsBuilder};
