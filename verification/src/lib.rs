//! What a kernel keeps about its native programs, and the wire format of the messages that it
//! hands to programs.
//!
//! A [`collection`] holds native programs. It says which program a message or a response goes to,
//! from the interfaces that the programs have registered and the messages that they have emitted,
//! and turns the events of the programs into its own. It makes no call on a program itself, except
//! to poll it: it gives back the calls to make.
//!
//! The messages are in [`ffi`], and [`wire`] says how they are encoded. [`laws`] states what holds
//! of collections and of encodings as a whole, and how calls relate to each other.

pub mod adapter;
pub mod collection;
pub mod ffi;
pub mod ids;
pub mod interface;
pub mod laws;
pub mod scale;
pub mod sets;
pub mod wire;
