//! Core logic of a network-connected character-display appliance.
//!
//! The display shows a twelve-character window onto a stored text. Inbound
//! text arrives over a message bus; the library decides how each delivery
//! changes the stored text, the display power state and the scroll window,
//! drives the wireless bring-up state machine, and derives the device
//! identity and subscription topic from the station MAC address. All
//! hardware and network I/O stays outside; this crate holds the decisions.

pub mod animation;
pub mod bridge;
pub mod connect;
pub mod control;
pub mod ident;
pub mod scroll;
pub mod strutil;
pub mod text;
