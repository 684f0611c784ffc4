//! Protocol logic for Razer laptop controls.
//!
//! The library speaks the Razer USB HID command protocol without touching a
//! device: every operation is a function of the replies received so far that
//! either asks for one more request packet to be sent or finishes with the
//! operation's outcome.  The caller owns the transport.

pub mod error;
pub mod types;
pub mod packet;
pub mod device;
pub mod command;
pub mod properties;
pub mod menu;
