//! A tunnel that mirrors the topics of one publish/subscribe bus onto another
//! across a single ordered byte pipe, and the logic of the robot tools that
//! are deployed with it.
//!
//! The tunnel is made of the wire format ([`wire`], [`message`], [`framing`]),
//! the mirroring state of a peer ([`engine`], over the tables of [`tables`])
//! and the life of a peer from handshake to shutdown ([`peer`]). Beside it
//! stand the serial protocol of the cleaning robot ([`roomba_interface`],
//! [`sensors`]) and what the deployment assistant decides ([`arguments`],
//! [`deploy`], [`firewall`], [`host_config`]).
//!
//! Nothing in this library performs input or output: bytes, listings and
//! counts are handed in, and bytes, messages and requests for bus work are
//! handed out.

pub mod arguments;
pub mod deploy;
pub mod engine;
pub mod firewall;
pub mod framing;
pub mod host_config;
pub mod message;
pub mod peer;
pub mod roomba_interface;
pub mod sensors;
pub mod tables;
pub mod text;
pub mod wire;
