//! Reference-counted references to Objective-C objects (`Id`, `ShareId`),
//! with the retain/release protocol they follow stated and proved.
//!
//! An `Id` refers to its object by address. Operations that would message
//! the object (`retain` when a reference is made, `release` when one goes
//! away) append the message to an outbox that the caller delivers to the
//! runtime; `laws` states what those messages do to retain counts.

use vstd::prelude::*;

pub mod message;
pub mod id;
pub mod id_vector;
pub mod laws;
pub mod ownership;
