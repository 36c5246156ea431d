//! Reaction roles for a chat platform.
//!
//! Guild administrators bind a (channel, custom emoji) pair to a role; members who react with
//! that emoji in that channel are granted the role, and reacting again revokes it.
//!
//! - [`rule`]: the rules, their flags, and the document form the store keeps them in.
//! - [`decimal`]: decimal text for identifiers.
//! - [`repository`]: the rules as a repository, with upsert, delete and flag operations.
//! - [`documents`]: the filters that select stored documents, and decoding them back.
//! - [`catalog`]: the administrative commands and the schema published for them.
//! - [`admin`]: authorization, argument reading, and the request and reply of each command.
//! - [`reaction`]: the reaction handler, a state machine from event to role change.
use vstd::prelude::*;

pub mod admin;
pub mod catalog;
pub mod decimal;
pub mod documents;
pub mod reaction;
pub mod repository;
pub mod rule;

verus! {

} // verus!
