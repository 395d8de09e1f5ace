//! Session coordination for a peer-to-peer group-chat node.
//!
//! A node talks to its peers through three asynchronous subsystems: a
//! publish-subscribe transport for chat lines, a distributed store that maps
//! peer identities to display names, and a request-response transport for
//! files and private messages. This library is the part that decides: it
//! holds the state of one session and turns each event, whatever its source,
//! into the next state and a list of actions. It performs no input or output
//! itself. The program around it waits for events, hands them to
//! [`session::Session::handle_event`] one at a time, and performs the actions
//! that come back, in order.
//!
//! What an event does is defined once, by the function [`session::step`] on
//! plain mathematical values, and every handler is proved to compute exactly
//! that. The module [`theorems`] proves what follows for every session:
//! that each chat message is shown exactly once, that the set of pending
//! lookups holds exactly the lookups that are outstanding, that a refused
//! topic changes nothing, and that a file name can never lead out of the
//! downloads directory.

pub mod actions;
pub mod commands;
pub mod directory;
pub mod events;
pub mod exchange;
pub mod file_transfer;
pub mod identity;
pub mod lookups;
pub mod messaging;
pub mod private_message;
pub mod session;
pub mod text;
pub mod theorems;
pub mod topics;
