//! Verified core logic of a chat messenger: contact addresses and names, vCards,
//! contacts and the queue of recently seen ones, chats and events, login parameters
//! and transport configuration, IMAP sequence sets, blob names and image recoding
//! decisions, automatic relay management, stream metrics, colors, and the types that
//! the JSON-RPC interface hands to its clients.

use vstd::prelude::*;

pub mod text;
pub mod contact_tools;
pub mod vcard;
pub mod vcard_round_trip;
pub mod contact;
pub mod chat;
pub mod color;
pub mod events;
pub mod login_param;
pub mod blob;
pub mod configure;
pub mod imap;
pub mod jsonrpc;
pub mod relay;
pub mod recently_seen;
pub mod log_stream;

verus! {

} // verus!
