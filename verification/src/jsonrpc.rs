//! Types that the JSON-RPC interface hands to its clients: chats, chat types and
//! visibilities, mute durations, calls, reactions, QR codes and secure-join sources,
//! and how they are made from the core types.

use vstd::prelude::*;

use crate::chat::{ChatVisibility, Chattype, Reaction, Timer};
use crate::color::{color_int_to_hex_string, hex_padded};
use crate::contact::{fingerprint_human_readable, spec_human_readable, ContactId};

verus! {

/// The type of a chat, as clients see it.
#[derive(Debug, Clone, Copy, PartialEq, Eq, Structural)]
pub enum JsonrpcChatType {
    /// A one-to-one chat.
    Single,
    /// A group chat.
    Group,
    /// A mailing list.
    Mailinglist,
    /// A broadcast channel, seen from its owner.
    OutBroadcast,
    /// A broadcast channel, seen from a subscriber.
    InBroadcast,
}

impl From<Chattype> for JsonrpcChatType {
    fn from(chattype: Chattype) -> (r: JsonrpcChatType) {
        match chattype {
            Chattype::Single => JsonrpcChatType::Single,
            Chattype::Group => JsonrpcChatType::Group,
            Chattype::Mailinglist => JsonrpcChatType::Mailinglist,
            Chattype::OutBroadcast => JsonrpcChatType::OutBroadcast,
            Chattype::InBroadcast => JsonrpcChatType::InBroadcast,
        }
    }
}

impl vstd::std_specs::convert::FromSpecImpl<Chattype> for JsonrpcChatType {
    open spec fn obeys_from_spec() -> bool {
        true
    }

    open spec fn from_spec(chattype: Chattype) -> JsonrpcChatType {
        match chattype {
            Chattype::Single => JsonrpcChatType::Single,
            Chattype::Group => JsonrpcChatType::Group,
            Chattype::Mailinglist => JsonrpcChatType::Mailinglist,
            Chattype::OutBroadcast => JsonrpcChatType::OutBroadcast,
            Chattype::InBroadcast => JsonrpcChatType::InBroadcast,
        }
    }
}

impl From<JsonrpcChatType> for Chattype {
    fn from(chattype: JsonrpcChatType) -> (r: Chattype) {
        match chattype {
            JsonrpcChatType::Single => Chattype::Single,
            JsonrpcChatType::Group => Chattype::Group,
            JsonrpcChatType::Mailinglist => Chattype::Mailinglist,
            JsonrpcChatType::OutBroadcast => Chattype::OutBroadcast,
            JsonrpcChatType::InBroadcast => Chattype::InBroadcast,
        }
    }
}

impl vstd::std_specs::convert::FromSpecImpl<JsonrpcChatType> for Chattype {
    open spec fn obeys_from_spec() -> bool {
        true
    }

    open spec fn from_spec(chattype: JsonrpcChatType) -> Chattype {
        match chattype {
            JsonrpcChatType::Single => Chattype::Single,
            JsonrpcChatType::Group => Chattype::Group,
            JsonrpcChatType::Mailinglist => Chattype::Mailinglist,
            JsonrpcChatType::OutBroadcast => Chattype::OutBroadcast,
            JsonrpcChatType::InBroadcast => Chattype::InBroadcast,
        }
    }
}

/// Converting a chat type for clients and back gives the same chat type, and so does
/// converting a client's chat type to the core and back.
pub proof fn chat_type_round_trip(c: Chattype, j: JsonrpcChatType)
    ensures
        <Chattype as vstd::std_specs::convert::FromSpec<JsonrpcChatType>>::from_spec(
            <JsonrpcChatType as vstd::std_specs::convert::FromSpec<Chattype>>::from_spec(c),
        ) == c,
        <JsonrpcChatType as vstd::std_specs::convert::FromSpec<Chattype>>::from_spec(
            <Chattype as vstd::std_specs::convert::FromSpec<JsonrpcChatType>>::from_spec(j),
        ) == j,
{
}

/// Where a chat is shown, as clients give it.
#[derive(Debug, Clone, Copy, PartialEq, Eq, Structural)]
pub enum JsonrpcChatVisibility {
    /// Shown normally.
    Normal,
    /// Moved to the archive.
    Archived,
    /// Pinned to the top.
    Pinned,
}

impl JsonrpcChatVisibility {
    /// The core's chat visibility of the same name.
    pub fn into_core_type(self) -> (r: ChatVisibility)
        ensures
            r == match self {
                JsonrpcChatVisibility::Normal => ChatVisibility::Normal,
                JsonrpcChatVisibility::Archived => ChatVisibility::Archived,
                JsonrpcChatVisibility::Pinned => ChatVisibility::Pinned,
            },
    {
        match self {
            JsonrpcChatVisibility::Normal => ChatVisibility::Normal,
            JsonrpcChatVisibility::Archived => ChatVisibility::Archived,
            JsonrpcChatVisibility::Pinned => ChatVisibility::Pinned,
        }
    }
}

/// How long a chat is muted, as clients give it.
#[derive(Debug, Clone, Copy, PartialEq, Eq, Structural)]
pub enum MuteDuration {
    /// Not muted.
    NotMuted,
    /// Muted for ever.
    Forever,
    /// Muted for `duration` seconds from now.
    Until { duration: i64 },
}

/// Why a mute duration is refused.
#[derive(Debug, Clone, Copy, PartialEq, Eq, Structural)]
pub enum MuteDurationError {
    /// The duration is not positive.
    NotPositive,
}

impl MuteDuration {
    /// The core's mute duration at time `now` (seconds since the epoch): a positive
    /// duration mutes until `now` plus the duration, or for ever where that time cannot
    /// be held; a duration that is not positive is refused.
    pub fn try_into_core_type(self, now: i64) -> (r: Result<
        crate::chat::MuteDuration,
        MuteDurationError,
    >)
        ensures
            r == match self {
                MuteDuration::NotMuted => Ok(crate::chat::MuteDuration::NotMuted),
                MuteDuration::Forever => Ok(crate::chat::MuteDuration::Forever),
                MuteDuration::Until { duration } => if duration <= 0 {
                    Err(MuteDurationError::NotPositive)
                } else if now + duration <= i64::MAX {
                    Ok(crate::chat::MuteDuration::Until((now + duration) as i64))
                } else {
                    Ok(crate::chat::MuteDuration::Forever)
                },
            },
    {
        match self {
            MuteDuration::NotMuted => Ok(crate::chat::MuteDuration::NotMuted),
            MuteDuration::Forever => Ok(crate::chat::MuteDuration::Forever),
            MuteDuration::Until { duration } => {
                if duration <= 0 {
                    return Err(MuteDurationError::NotPositive);
                }
                match now.checked_add(duration) {
                    Some(t) => Ok(crate::chat::MuteDuration::Until(t)),
                    None => Ok(crate::chat::MuteDuration::Forever),
                }
            },
        }
    }
}

/// What the core knows of a chat when it is shown to a client.
#[derive(Debug, Clone)]
pub struct ChatSnapshot {
    /// Chat ID.
    pub id: u32,
    /// Chat name.
    pub name: String,
    /// Whether messages in the chat are encrypted.
    pub is_encrypted: bool,
    /// Path of the chat's image, if it has one.
    pub profile_image: Option<String>,
    /// Where the chat is shown.
    pub visibility: ChatVisibility,
    /// Chat type.
    pub chat_type: Chattype,
    /// Whether the group is not yet promoted.
    pub is_unpromoted: bool,
    /// Whether this is the chat with oneself.
    pub is_self_talk: bool,
    /// The chat's color, as a 24-bit RGB number.
    pub color: u32,
    /// Whether the chat is a contact request.
    pub is_contact_request: bool,
    /// Whether this is the device chat.
    pub is_device_chat: bool,
    /// Whether the chat is muted.
    pub is_muted: bool,
    /// The mailing list address, if the chat has one.
    pub mailing_list_address: Option<String>,
}

/// A chat with all details, for clients.
#[derive(Debug, Clone)]
pub struct FullChat {
    /// Chat ID.
    pub id: u32,
    /// Chat name.
    pub name: String,
    /// Whether messages in the chat are encrypted.
    pub is_encrypted: bool,
    /// Path of the chat's image, if it has one.
    pub profile_image: Option<String>,
    /// Whether the chat is archived.
    pub archived: bool,
    /// Whether the chat is pinned.
    pub pinned: bool,
    /// Chat type.
    pub chat_type: JsonrpcChatType,
    /// Whether the group is not yet promoted.
    pub is_unpromoted: bool,
    /// Whether this is the chat with oneself.
    pub is_self_talk: bool,
    /// IDs of the chat's members.
    pub contact_ids: Vec<u32>,
    /// IDs of the chat's past members.
    pub past_contact_ids: Vec<u32>,
    /// The chat's color, as `#rrggbb`.
    pub color: String,
    /// Number of fresh messages.
    pub fresh_message_counter: usize,
    /// Whether the chat is a contact request.
    pub is_contact_request: bool,
    /// Whether this is the device chat.
    pub is_device_chat: bool,
    /// Whether oneself is a member.
    pub self_in_group: bool,
    /// Whether the chat is muted.
    pub is_muted: bool,
    /// Ephemeral timer in seconds, zero where disabled.
    pub ephemeral_timer: u32,
    /// Whether messages can be sent to the chat.
    pub can_send: bool,
    /// Whether the other member of a one-to-one chat was seen recently.
    pub was_seen_recently: bool,
    /// The mailing list address, if the chat has one.
    pub mailing_list_address: Option<String>,
}

/// A chat with the details that a chat list needs, for clients.
#[derive(Debug, Clone)]
pub struct BasicChat {
    /// Chat ID.
    pub id: u32,
    /// Chat name.
    pub name: String,
    /// Whether messages in the chat are encrypted.
    pub is_encrypted: bool,
    /// Path of the chat's image, if it has one.
    pub profile_image: Option<String>,
    /// Whether the chat is archived.
    pub archived: bool,
    /// Whether the chat is pinned.
    pub pinned: bool,
    /// Chat type.
    pub chat_type: JsonrpcChatType,
    /// Whether the group is not yet promoted.
    pub is_unpromoted: bool,
    /// Whether this is the chat with oneself.
    pub is_self_talk: bool,
    /// The chat's color, as `#rrggbb`.
    pub color: String,
    /// Whether the chat is a contact request.
    pub is_contact_request: bool,
    /// Whether this is the device chat.
    pub is_device_chat: bool,
    /// Whether the chat is muted.
    pub is_muted: bool,
}

/// One of `ids` is the ID of oneself.
pub open spec fn has_self(ids: Seq<ContactId>) -> bool {
    exists|j: int| 0 <= j < ids.len() && (#[trigger] ids[j]).id() == 1
}

/// The numbers of the contact IDs `ids`.
pub open spec fn id_numbers(ids: Seq<ContactId>) -> Seq<u32> {
    ids.map_values(|c: ContactId| c.id())
}

fn to_numbers(ids: &Vec<ContactId>) -> (r: Vec<u32>)
    ensures
        r@ == id_numbers(ids@),
{
    let mut r: Vec<u32> = Vec::new();
    let mut i: usize = 0;
    while i < ids.len()
        invariant
            i <= ids@.len(),
            r@ == id_numbers(ids@.take(i as int)),
        decreases ids@.len() - i,
    {
        r.push(ids[i].to_u32());
        i = i + 1;
        proof {
            assert(r@ == id_numbers(ids@.take(i as int)));
        }
    }
    proof {
        assert(ids@.take(ids@.len() as int) == ids@);
    }
    r
}

fn contains_self(ids: &Vec<ContactId>) -> (r: bool)
    ensures
        r == has_self(ids@),
{
    let me = ContactId::SELF().to_u32();
    let mut i: usize = 0;
    while i < ids.len()
        invariant
            i <= ids@.len(),
            me == 1,
            forall|j: int| 0 <= j < i ==> (#[trigger] ids@[j]).id() != 1,
        decreases ids@.len() - i,
    {
        if ids[i].to_u32() == me {
            proof {
                assert(ids@[i as int].id() == 1);
            }
            return true;
        }
        i = i + 1;
    }
    false
}

/// The contact whose last sighting a full chat shows: the first member of a
/// one-to-one chat.
pub fn seen_recently_contact(chat_type: Chattype, contact_ids: &Vec<ContactId>) -> (r: Option<
    ContactId,
>)
    ensures
        r == if chat_type == Chattype::Single && contact_ids@.len() > 0 {
            Some(contact_ids@[0])
        } else {
            None
        },
{
    if chat_type == Chattype::Single && contact_ids.len() > 0 {
        Some(contact_ids[0])
    } else {
        None
    }
}

impl FullChat {
    /// Assembles the full chat from what the core knows of it: its members and past
    /// members, its number of fresh messages, its ephemeral timer, whether one can send
    /// to it, and whether the contact that `seen_recently_contact` names was seen
    /// recently (`false` where it names none).
    pub fn from_parts(
        chat: ChatSnapshot,
        contact_ids: Vec<ContactId>,
        past_contact_ids: Vec<ContactId>,
        fresh_message_counter: usize,
        ephemeral_timer: Timer,
        can_send: bool,
        contact_seen_recently: bool,
    ) -> (r: FullChat)
        ensures
            r.id == chat.id,
            r.name == chat.name,
            r.is_encrypted == chat.is_encrypted,
            r.profile_image == chat.profile_image,
            r.archived == (chat.visibility == ChatVisibility::Archived),
            r.pinned == (chat.visibility == ChatVisibility::Pinned),
            r.chat_type == <JsonrpcChatType as vstd::std_specs::convert::FromSpec<
                Chattype,
            >>::from_spec(chat.chat_type),
            r.is_unpromoted == chat.is_unpromoted,
            r.is_self_talk == chat.is_self_talk,
            r.contact_ids@ == id_numbers(contact_ids@),
            r.past_contact_ids@ == id_numbers(past_contact_ids@),
            r.color@ == seq!['#'] + hex_padded(chat.color as nat, 6),
            r.fresh_message_counter == fresh_message_counter,
            r.is_contact_request == chat.is_contact_request,
            r.is_device_chat == chat.is_device_chat,
            r.self_in_group == has_self(contact_ids@),
            r.is_muted == chat.is_muted,
            r.ephemeral_timer == ephemeral_timer.spec_to_u32(),
            r.can_send == can_send,
            r.was_seen_recently == (chat.chat_type == Chattype::Single && contact_ids@.len() > 0
                && contact_seen_recently),
            r.mailing_list_address == chat.mailing_list_address,
    {
        let color = color_int_to_hex_string(chat.color);
        let was_seen_recently = chat.chat_type == Chattype::Single && contact_ids.len() > 0
            && contact_seen_recently;
        let ids = to_numbers(&contact_ids);
        let past_ids = to_numbers(&past_contact_ids);
        let self_in_group = contains_self(&contact_ids);
        FullChat {
            id: chat.id,
            name: chat.name,
            is_encrypted: chat.is_encrypted,
            profile_image: chat.profile_image,
            archived: chat.visibility == ChatVisibility::Archived,
            pinned: chat.visibility == ChatVisibility::Pinned,
            chat_type: JsonrpcChatType::from(chat.chat_type),
            is_unpromoted: chat.is_unpromoted,
            is_self_talk: chat.is_self_talk,
            contact_ids: ids,
            past_contact_ids: past_ids,
            color,
            fresh_message_counter,
            is_contact_request: chat.is_contact_request,
            is_device_chat: chat.is_device_chat,
            self_in_group,
            is_muted: chat.is_muted,
            ephemeral_timer: ephemeral_timer.to_u32(),
            can_send,
            was_seen_recently,
            mailing_list_address: chat.mailing_list_address,
        }
    }
}

impl BasicChat {
    /// Assembles the basic chat from what the core knows of it.
    pub fn from_snapshot(chat: ChatSnapshot) -> (r: BasicChat)
        ensures
            r.id == chat.id,
            r.name == chat.name,
            r.is_encrypted == chat.is_encrypted,
            r.profile_image == chat.profile_image,
            r.archived == (chat.visibility == ChatVisibility::Archived),
            r.pinned == (chat.visibility == ChatVisibility::Pinned),
            r.chat_type == <JsonrpcChatType as vstd::std_specs::convert::FromSpec<
                Chattype,
            >>::from_spec(chat.chat_type),
            r.is_unpromoted == chat.is_unpromoted,
            r.is_self_talk == chat.is_self_talk,
            r.color@ == seq!['#'] + hex_padded(chat.color as nat, 6),
            r.is_contact_request == chat.is_contact_request,
            r.is_device_chat == chat.is_device_chat,
            r.is_muted == chat.is_muted,
    {
        let color = color_int_to_hex_string(chat.color);
        BasicChat {
            id: chat.id,
            name: chat.name,
            is_encrypted: chat.is_encrypted,
            profile_image: chat.profile_image,
            archived: chat.visibility == ChatVisibility::Archived,
            pinned: chat.visibility == ChatVisibility::Pinned,
            chat_type: JsonrpcChatType::from(chat.chat_type),
            is_unpromoted: chat.is_unpromoted,
            is_self_talk: chat.is_self_talk,
            color,
            is_contact_request: chat.is_contact_request,
            is_device_chat: chat.is_device_chat,
            is_muted: chat.is_muted,
        }
    }
}

/// The state of a call, as the core reports it.
#[derive(Debug, Clone, Copy, PartialEq, Eq, Structural)]
pub enum CallState {
    /// Ringing.
    Alerting,
    /// Accepted and running.
    Active,
    /// Ended after running for `duration` seconds.
    Completed { duration: i64 },
    /// Not accepted before it ended.
    Missed,
    /// Declined by the callee.
    Declined,
    /// Canceled by the caller.
    Canceled,
}

/// The state of a call, for clients.
#[derive(Debug, Clone, Copy, PartialEq, Eq, Structural)]
pub enum JsonrpcCallState {
    /// Ringing.
    Alerting,
    /// Accepted and running.
    Active,
    /// Ended after running for `duration` seconds.
    Completed { duration: i64 },
    /// Not accepted before it ended.
    Missed,
    /// Declined by the callee.
    Declined,
    /// Canceled by the caller.
    Canceled,
}

impl JsonrpcCallState {
    /// The client's form of a call state.
    pub fn from_call_state(s: CallState) -> (r: JsonrpcCallState)
        ensures
            r == match s {
                CallState::Alerting => JsonrpcCallState::Alerting,
                CallState::Active => JsonrpcCallState::Active,
                CallState::Completed { duration } => JsonrpcCallState::Completed { duration },
                CallState::Missed => JsonrpcCallState::Missed,
                CallState::Declined => JsonrpcCallState::Declined,
                CallState::Canceled => JsonrpcCallState::Canceled,
            },
    {
        match s {
            CallState::Alerting => JsonrpcCallState::Alerting,
            CallState::Active => JsonrpcCallState::Active,
            CallState::Completed { duration } => JsonrpcCallState::Completed { duration },
            CallState::Missed => JsonrpcCallState::Missed,
            CallState::Declined => JsonrpcCallState::Declined,
            CallState::Canceled => JsonrpcCallState::Canceled,
        }
    }
}

/// A call, for clients.
#[derive(Debug, Clone)]
pub struct JsonrpcCallInfo {
    /// SDP offer of the call.
    pub sdp_offer: String,
    /// Whether the call was started with video.
    pub has_video: bool,
    /// State of the call.
    pub state: JsonrpcCallState,
}

/// Where a secure join was started from.
#[derive(Debug, Clone, Copy, PartialEq, Eq, Structural)]
pub enum SecurejoinSource {
    /// Unknown.
    Unknown,
    /// A link opened outside the app.
    ExternalLink,
    /// A link clicked in a message.
    InternalLink,
    /// Pasted from the clipboard.
    Clipboard,
    /// Loaded from an image.
    ImageLoaded,
    /// Scanned.
    Scan,
}

/// How the user reached the QR code screen.
#[derive(Debug, Clone, Copy, PartialEq, Eq, Structural)]
pub enum SecurejoinUiPath {
    /// Unknown, or the QR code screen was not opened.
    Unknown,
    /// The QR icon on the main screen.
    QrIcon,
    /// "New Contact" behind the `+` button on the main screen.
    NewContact,
}

/// The content of a scanned QR code, for clients.
#[derive(Debug, Clone)]
pub enum QrObject {
    /// Ask the user whether to verify the contact.
    AskVerifyContact {
        contact_id: u32,
        fingerprint: String,
        invitenumber: String,
        authcode: String,
        is_v3: bool,
    },
    /// Ask the user whether to join the group.
    AskVerifyGroup {
        grpname: String,
        grpid: String,
        contact_id: u32,
        fingerprint: String,
        invitenumber: String,
        authcode: String,
        is_v3: bool,
    },
    /// Ask the user whether to join the broadcast channel.
    AskJoinBroadcast {
        name: String,
        grpid: String,
        contact_id: u32,
        fingerprint: String,
        invitenumber: String,
        authcode: String,
        is_v3: bool,
    },
    /// The contact's fingerprint is verified.
    FprOk { contact_id: u32 },
    /// The scanned fingerprint does not match the contact's key.
    FprMismatch { contact_id: Option<u32> },
    /// The scanned fingerprint is not known.
    FprWithoutAddr { fingerprint: String },
    /// Account to create on a chatmail server.
    Account { domain: String },
    /// A backup to receive.
    Backup2 { auth_token: String, node_addr: String },
    /// A backup was scanned that is too new.
    BackupTooNew,
    /// A WebRTC instance to use for calls.
    WebrtcInstance { domain: String, instance_pattern: String },
    /// A proxy to add.
    Proxy { url: String, host: String, port: u16 },
    /// An address.
    Addr { contact_id: u32, draft: Option<String> },
    /// A URL.
    Url { url: String },
    /// Some text.
    Text { text: String },
    /// Withdraw the verification of a contact.
    WithdrawVerifyContact { contact_id: u32, fingerprint: String, invitenumber: String, authcode: String },
    /// Withdraw the verification of a group.
    WithdrawVerifyGroup {
        grpname: String,
        grpid: String,
        contact_id: u32,
        fingerprint: String,
        invitenumber: String,
        authcode: String,
    },
    /// Withdraw a broadcast channel invitation.
    WithdrawJoinBroadcast {
        name: String,
        grpid: String,
        contact_id: u32,
        fingerprint: String,
        invitenumber: String,
        authcode: String,
    },
    /// Revive the verification of a contact.
    ReviveVerifyContact { contact_id: u32, fingerprint: String, invitenumber: String, authcode: String },
    /// Revive the verification of a group.
    ReviveVerifyGroup {
        grpname: String,
        grpid: String,
        contact_id: u32,
        fingerprint: String,
        invitenumber: String,
        authcode: String,
    },
    /// Revive a broadcast channel invitation.
    ReviveJoinBroadcast {
        name: String,
        grpid: String,
        contact_id: u32,
        fingerprint: String,
        invitenumber: String,
        authcode: String,
    },
    /// Log in with the given address.
    Login { address: String },
}

/// One reaction with its count, as the core reports it.
#[derive(Debug, Clone)]
pub struct ReactionCount {
    /// The reaction.
    pub reaction: Reaction,
    /// How many contacts reacted so.
    pub count: usize,
    /// Whether oneself reacted so.
    pub is_from_self: bool,
}

/// The reactions to a message, as the core reports them.
#[derive(Debug, Clone)]
pub struct Reactions {
    /// The reaction of each contact, by contact ID.
    pub by_contact: Vec<(ContactId, Reaction)>,
    /// The distinct reactions, most frequent first.
    pub frequencies: Vec<ReactionCount>,
}

/// One reaction with its count, for clients.
#[derive(Debug, Clone)]
pub struct JsonrpcReaction {
    /// The emoji or text of the reaction.
    pub emoji: String,
    /// How many contacts reacted so.
    pub count: usize,
    /// Whether oneself reacted so.
    pub is_from_self: bool,
}

/// The reactions to a message, for clients.
#[derive(Debug, Clone)]
pub struct JsonrpcReactions {
    /// The reactions of each contact, by contact ID.
    pub reactions_by_contact: std::collections::BTreeMap<u32, Vec<String>>,
    /// The distinct reactions, most frequent first.
    pub reactions: Vec<JsonrpcReaction>,
}

/// The text of the last reaction of contact `id` in `s`, if it has one.
pub open spec fn last_reaction_of(s: Seq<(ContactId, Reaction)>, id: u32) -> Option<Seq<char>>
    decreases s.len(),
{
    if s.len() == 0 {
        None
    } else if s.last().0.id() == id {
        Some(s.last().1.text@)
    } else {
        last_reaction_of(s.drop_last(), id)
    }
}

/// `u32` keys order as the numbers they are, which a `BTreeMap` keyed by them needs.
pub open spec fn u32_keys_ordered() -> bool {
    vstd::laws_cmp::obeys_cmp::<u32>()
}

proof fn lemma_u32_keys_ordered()
    ensures
        u32_keys_ordered(),
{
    broadcast use vstd::laws_cmp::group_laws_cmp;
}

impl JsonrpcReactions {
    /// The client's form of the reactions to a message: for each contact the text of its
    /// reaction, and each distinct reaction with its count.
    pub fn from_reactions(reactions: Reactions) -> (r: JsonrpcReactions)
        ensures
            forall|id: u32|
                #![trigger r.reactions_by_contact@.contains_key(id)]
                r.reactions_by_contact@.contains_key(id) <==> last_reaction_of(
                    reactions.by_contact@,
                    id,
                ) is Some,
            forall|id: u32|
                #![trigger r.reactions_by_contact@[id]]
                r.reactions_by_contact@.contains_key(id) ==> r.reactions_by_contact@[id]@.len() == 1
                    && Some(r.reactions_by_contact@[id]@[0]@) == last_reaction_of(
                    reactions.by_contact@,
                    id,
                ),
            r.reactions@.len() == reactions.frequencies@.len(),
            forall|i: int|
                0 <= i < r.reactions@.len() ==> (#[trigger] r.reactions@[i]).emoji@
                    == reactions.frequencies@[i].reaction.text@ && r.reactions@[i].count
                    == reactions.frequencies@[i].count && r.reactions@[i].is_from_self
                    == reactions.frequencies@[i].is_from_self,
    {
        proof {
            lemma_u32_keys_ordered();
        }
        let by_contact = &reactions.by_contact;
        let mut m: std::collections::BTreeMap<u32, Vec<String>> = std::collections::BTreeMap::new();
        let mut i: usize = 0;
        while i < by_contact.len()
            invariant
                i <= by_contact@.len(),
                u32_keys_ordered(),
                forall|id: u32|
                    #![trigger m@.contains_key(id)]
                    m@.contains_key(id) <==> last_reaction_of(by_contact@.take(i as int), id) is Some,
                forall|id: u32|
                    #![trigger m@[id]]
                    m@.contains_key(id) ==> m@[id]@.len() == 1 && Some(m@[id]@[0]@)
                        == last_reaction_of(by_contact@.take(i as int), id),
            decreases by_contact@.len() - i,
        {
            let (c, reaction) = &by_contact[i];
            let mut v: Vec<String> = Vec::new();
            v.push(reaction.text.clone());
            m.insert(c.to_u32(), v);
            proof {
                assert(by_contact@.take(i + 1).drop_last() == by_contact@.take(i as int));
                assert(by_contact@.take(i + 1).last() == by_contact@[i as int]);
            }
            i = i + 1;
        }
        proof {
            assert(by_contact@.take(by_contact@.len() as int) == by_contact@);
        }
        let mut list: Vec<JsonrpcReaction> = Vec::new();
        let mut j: usize = 0;
        while j < reactions.frequencies.len()
            invariant
                j <= reactions.frequencies@.len(),
                list@.len() == j,
                forall|k: int|
                    0 <= k < j ==> (#[trigger] list@[k]).emoji@ == reactions.frequencies@[k].reaction.text@
                        && list@[k].count == reactions.frequencies@[k].count
                        && list@[k].is_from_self == reactions.frequencies@[k].is_from_self,
            decreases reactions.frequencies@.len() - j,
        {
            let e = &reactions.frequencies[j];
            list.push(
                JsonrpcReaction {
                    emoji: e.reaction.text.clone(),
                    count: e.count,
                    is_from_self: e.is_from_self,
                },
            );
            j = j + 1;
        }
        JsonrpcReactions { reactions_by_contact: m, reactions: list }
    }
}

/// A scanned QR code, as the core reads it: contact IDs, fingerprints in uppercase
/// hexadecimal (as `fingerprint_hex` gives them), and the node address of a backup as
/// its JSON text, `None` where it could not be written.
#[derive(Debug, Clone)]
pub enum Qr {
    /// Ask the user whether to verify the contact.
    AskVerifyContact {
        contact_id: ContactId,
        fingerprint: String,
        invitenumber: String,
        authcode: String,
        is_v3: bool,
    },
    /// Ask the user whether to join the group.
    AskVerifyGroup {
        grpname: String,
        grpid: String,
        contact_id: ContactId,
        fingerprint: String,
        invitenumber: String,
        authcode: String,
        is_v3: bool,
    },
    /// Ask the user whether to join the broadcast channel.
    AskJoinBroadcast {
        name: String,
        grpid: String,
        contact_id: ContactId,
        fingerprint: String,
        invitenumber: String,
        authcode: String,
        is_v3: bool,
    },
    /// The contact's fingerprint is verified.
    FprOk {
        contact_id: ContactId,
    },
    /// The scanned fingerprint does not match the last one seen.
    FprMismatch {
        contact_id: Option<ContactId>,
    },
    /// A fingerprint without an e-mail address.
    FprWithoutAddr {
        fingerprint: String,
    },
    /// An account can be created on the domain.
    Account {
        domain: String,
    },
    /// A backup to fetch from another device.
    Backup2 {
        node_addr: Option<String>,
        auth_token: String,
    },
    /// A backup too new to be read.
    BackupTooNew,
    /// A proxy to use.
    Proxy {
        url: String,
        host: String,
        port: u16,
    },
    /// A contact address, with an optional draft message.
    Addr {
        contact_id: ContactId,
        draft: Option<String>,
    },
    /// A URL.
    Url {
        url: String,
    },
    /// Plain text.
    Text {
        text: String,
    },
    /// Ask the user whether to withdraw their own QR code.
    WithdrawVerifyContact {
        contact_id: ContactId,
        fingerprint: String,
        invitenumber: String,
        authcode: String,
    },
    /// Ask the user whether to withdraw their own group invite QR code.
    WithdrawVerifyGroup {
        grpname: String,
        grpid: String,
        contact_id: ContactId,
        fingerprint: String,
        invitenumber: String,
        authcode: String,
    },
    /// Ask the user whether to withdraw their own broadcast channel invite QR code.
    WithdrawJoinBroadcast {
        name: String,
        grpid: String,
        contact_id: ContactId,
        fingerprint: String,
        invitenumber: String,
        authcode: String,
    },
    /// Ask the user whether to revive their own QR code.
    ReviveVerifyContact {
        contact_id: ContactId,
        fingerprint: String,
        invitenumber: String,
        authcode: String,
    },
    /// Ask the user whether to revive their own group invite QR code.
    ReviveVerifyGroup {
        grpname: String,
        grpid: String,
        contact_id: ContactId,
        fingerprint: String,
        invitenumber: String,
        authcode: String,
    },
    /// Ask the user whether to revive their own broadcast channel invite QR code.
    ReviveJoinBroadcast {
        name: String,
        grpid: String,
        contact_id: ContactId,
        fingerprint: String,
        invitenumber: String,
        authcode: String,
    },
    /// Login parameters for the e-mail address.
    Login {
        address: String,
    },
}

/// `r` is the client form of the scanned QR code `qr`: contact IDs as numbers,
/// fingerprints written for people (except the one scanned without an address, which
/// stays as it is), the node address of a backup as its JSON text or empty, and the
/// rest as it is.
pub open spec fn is_qr_object_of(qr: Qr, r: QrObject) -> bool {
    match qr {
        Qr::AskVerifyContact { contact_id, fingerprint, invitenumber, authcode, is_v3 } => {
            &&& r matches QrObject::AskVerifyContact {
                contact_id: o_contact_id,
                fingerprint: o_fingerprint,
                invitenumber: o_invitenumber,
                authcode: o_authcode,
                is_v3: o_is_v3,
            }
            &&& o_contact_id == contact_id.id()
            &&& o_fingerprint@ == spec_human_readable(fingerprint@)
            &&& o_invitenumber@ == invitenumber@
            &&& o_authcode@ == authcode@
            &&& o_is_v3 == is_v3
        },
        Qr::AskVerifyGroup { grpname, grpid, contact_id, fingerprint, invitenumber, authcode, is_v3 } => {
            &&& r matches QrObject::AskVerifyGroup {
                grpname: o_grpname,
                grpid: o_grpid,
                contact_id: o_contact_id,
                fingerprint: o_fingerprint,
                invitenumber: o_invitenumber,
                authcode: o_authcode,
                is_v3: o_is_v3,
            }
            &&& o_grpname@ == grpname@
            &&& o_grpid@ == grpid@
            &&& o_contact_id == contact_id.id()
            &&& o_fingerprint@ == spec_human_readable(fingerprint@)
            &&& o_invitenumber@ == invitenumber@
            &&& o_authcode@ == authcode@
            &&& o_is_v3 == is_v3
        },
        Qr::AskJoinBroadcast { name, grpid, contact_id, fingerprint, invitenumber, authcode, is_v3 } => {
            &&& r matches QrObject::AskJoinBroadcast {
                name: o_name,
                grpid: o_grpid,
                contact_id: o_contact_id,
                fingerprint: o_fingerprint,
                invitenumber: o_invitenumber,
                authcode: o_authcode,
                is_v3: o_is_v3,
            }
            &&& o_name@ == name@
            &&& o_grpid@ == grpid@
            &&& o_contact_id == contact_id.id()
            &&& o_fingerprint@ == spec_human_readable(fingerprint@)
            &&& o_invitenumber@ == invitenumber@
            &&& o_authcode@ == authcode@
            &&& o_is_v3 == is_v3
        },
        Qr::FprOk { contact_id } => {
            &&& r matches QrObject::FprOk {
                contact_id: o_contact_id,
            }
            &&& o_contact_id == contact_id.id()
        },
        Qr::FprMismatch { contact_id } => {
            &&& r matches QrObject::FprMismatch {
                contact_id: o_contact_id,
            }
            &&& o_contact_id == match contact_id {
                Some(c) => Some(c.id()),
                None => None::<u32>,
            }
        },
        Qr::FprWithoutAddr { fingerprint } => {
            &&& r matches QrObject::FprWithoutAddr {
                fingerprint: o_fingerprint,
            }
            &&& o_fingerprint@ == fingerprint@
        },
        Qr::Account { domain } => {
            &&& r matches QrObject::Account {
                domain: o_domain,
            }
            &&& o_domain@ == domain@
        },
        Qr::Backup2 { node_addr, auth_token } => {
            &&& r matches QrObject::Backup2 {
                node_addr: o_node_addr,
                auth_token: o_auth_token,
            }
            &&& o_node_addr@ == match node_addr {
                Some(j) => j@,
                None => Seq::<char>::empty(),
            }
            &&& o_auth_token@ == auth_token@
        },
        Qr::BackupTooNew => r is BackupTooNew,
        Qr::Proxy { url, host, port } => {
            &&& r matches QrObject::Proxy {
                url: o_url,
                host: o_host,
                port: o_port,
            }
            &&& o_url@ == url@
            &&& o_host@ == host@
            &&& o_port == port
        },
        Qr::Addr { contact_id, draft } => {
            &&& r matches QrObject::Addr {
                contact_id: o_contact_id,
                draft: o_draft,
            }
            &&& o_contact_id == contact_id.id()
            &&& o_draft.deep_view() == draft.deep_view()
        },
        Qr::Url { url } => {
            &&& r matches QrObject::Url {
                url: o_url,
            }
            &&& o_url@ == url@
        },
        Qr::Text { text } => {
            &&& r matches QrObject::Text {
                text: o_text,
            }
            &&& o_text@ == text@
        },
        Qr::WithdrawVerifyContact { contact_id, fingerprint, invitenumber, authcode } => {
            &&& r matches QrObject::WithdrawVerifyContact {
                contact_id: o_contact_id,
                fingerprint: o_fingerprint,
                invitenumber: o_invitenumber,
                authcode: o_authcode,
            }
            &&& o_contact_id == contact_id.id()
            &&& o_fingerprint@ == spec_human_readable(fingerprint@)
            &&& o_invitenumber@ == invitenumber@
            &&& o_authcode@ == authcode@
        },
        Qr::WithdrawVerifyGroup { grpname, grpid, contact_id, fingerprint, invitenumber, authcode } => {
            &&& r matches QrObject::WithdrawVerifyGroup {
                grpname: o_grpname,
                grpid: o_grpid,
                contact_id: o_contact_id,
                fingerprint: o_fingerprint,
                invitenumber: o_invitenumber,
                authcode: o_authcode,
            }
            &&& o_grpname@ == grpname@
            &&& o_grpid@ == grpid@
            &&& o_contact_id == contact_id.id()
            &&& o_fingerprint@ == spec_human_readable(fingerprint@)
            &&& o_invitenumber@ == invitenumber@
            &&& o_authcode@ == authcode@
        },
        Qr::WithdrawJoinBroadcast { name, grpid, contact_id, fingerprint, invitenumber, authcode } => {
            &&& r matches QrObject::WithdrawJoinBroadcast {
                name: o_name,
                grpid: o_grpid,
                contact_id: o_contact_id,
                fingerprint: o_fingerprint,
                invitenumber: o_invitenumber,
                authcode: o_authcode,
            }
            &&& o_name@ == name@
            &&& o_grpid@ == grpid@
            &&& o_contact_id == contact_id.id()
            &&& o_fingerprint@ == spec_human_readable(fingerprint@)
            &&& o_invitenumber@ == invitenumber@
            &&& o_authcode@ == authcode@
        },
        Qr::ReviveVerifyContact { contact_id, fingerprint, invitenumber, authcode } => {
            &&& r matches QrObject::ReviveVerifyContact {
                contact_id: o_contact_id,
                fingerprint: o_fingerprint,
                invitenumber: o_invitenumber,
                authcode: o_authcode,
            }
            &&& o_contact_id == contact_id.id()
            &&& o_fingerprint@ == spec_human_readable(fingerprint@)
            &&& o_invitenumber@ == invitenumber@
            &&& o_authcode@ == authcode@
        },
        Qr::ReviveVerifyGroup { grpname, grpid, contact_id, fingerprint, invitenumber, authcode } => {
            &&& r matches QrObject::ReviveVerifyGroup {
                grpname: o_grpname,
                grpid: o_grpid,
                contact_id: o_contact_id,
                fingerprint: o_fingerprint,
                invitenumber: o_invitenumber,
                authcode: o_authcode,
            }
            &&& o_grpname@ == grpname@
            &&& o_grpid@ == grpid@
            &&& o_contact_id == contact_id.id()
            &&& o_fingerprint@ == spec_human_readable(fingerprint@)
            &&& o_invitenumber@ == invitenumber@
            &&& o_authcode@ == authcode@
        },
        Qr::ReviveJoinBroadcast { name, grpid, contact_id, fingerprint, invitenumber, authcode } => {
            &&& r matches QrObject::ReviveJoinBroadcast {
                name: o_name,
                grpid: o_grpid,
                contact_id: o_contact_id,
                fingerprint: o_fingerprint,
                invitenumber: o_invitenumber,
                authcode: o_authcode,
            }
            &&& o_name@ == name@
            &&& o_grpid@ == grpid@
            &&& o_contact_id == contact_id.id()
            &&& o_fingerprint@ == spec_human_readable(fingerprint@)
            &&& o_invitenumber@ == invitenumber@
            &&& o_authcode@ == authcode@
        },
        Qr::Login { address } => {
            &&& r matches QrObject::Login {
                address: o_address,
            }
            &&& o_address@ == address@
        },
    }
}

/// Converts a scanned QR code to the form that clients get.
pub fn qr_object_from(qr: Qr) -> (r: QrObject)
    ensures
        is_qr_object_of(qr, r),
{
    match qr {
        Qr::AskVerifyContact { contact_id, fingerprint, invitenumber, authcode, is_v3 } => QrObject::AskVerifyContact {
            contact_id: contact_id.to_u32(),
            fingerprint: fingerprint_human_readable(fingerprint.as_str()),
            invitenumber,
            authcode,
            is_v3,
        },
        Qr::AskVerifyGroup { grpname, grpid, contact_id, fingerprint, invitenumber, authcode, is_v3 } => QrObject::AskVerifyGroup {
            grpname,
            grpid,
            contact_id: contact_id.to_u32(),
            fingerprint: fingerprint_human_readable(fingerprint.as_str()),
            invitenumber,
            authcode,
            is_v3,
        },
        Qr::AskJoinBroadcast { name, grpid, contact_id, fingerprint, invitenumber, authcode, is_v3 } => QrObject::AskJoinBroadcast {
            name,
            grpid,
            contact_id: contact_id.to_u32(),
            fingerprint: fingerprint_human_readable(fingerprint.as_str()),
            invitenumber,
            authcode,
            is_v3,
        },
        Qr::FprOk { contact_id } => QrObject::FprOk {
            contact_id: contact_id.to_u32(),
        },
        Qr::FprMismatch { contact_id } => QrObject::FprMismatch {
            contact_id: match contact_id {
                    Some(c) => Some(c.to_u32()),
                    None => None,
                },
        },
        Qr::FprWithoutAddr { fingerprint } => QrObject::FprWithoutAddr {
            fingerprint,
        },
        Qr::Account { domain } => QrObject::Account {
            domain,
        },
        Qr::Backup2 { node_addr, auth_token } => QrObject::Backup2 {
            node_addr: match node_addr {
                    Some(j) => j,
                    None => String::new(),
                },
            auth_token,
        },
        Qr::BackupTooNew => QrObject::BackupTooNew,
        Qr::Proxy { url, host, port } => QrObject::Proxy {
            url,
            host,
            port,
        },
        Qr::Addr { contact_id, draft } => QrObject::Addr {
            contact_id: contact_id.to_u32(),
            draft,
        },
        Qr::Url { url } => QrObject::Url {
            url,
        },
        Qr::Text { text } => QrObject::Text {
            text,
        },
        Qr::WithdrawVerifyContact { contact_id, fingerprint, invitenumber, authcode } => QrObject::WithdrawVerifyContact {
            contact_id: contact_id.to_u32(),
            fingerprint: fingerprint_human_readable(fingerprint.as_str()),
            invitenumber,
            authcode,
        },
        Qr::WithdrawVerifyGroup { grpname, grpid, contact_id, fingerprint, invitenumber, authcode } => QrObject::WithdrawVerifyGroup {
            grpname,
            grpid,
            contact_id: contact_id.to_u32(),
            fingerprint: fingerprint_human_readable(fingerprint.as_str()),
            invitenumber,
            authcode,
        },
        Qr::WithdrawJoinBroadcast { name, grpid, contact_id, fingerprint, invitenumber, authcode } => QrObject::WithdrawJoinBroadcast {
            name,
            grpid,
            contact_id: contact_id.to_u32(),
            fingerprint: fingerprint_human_readable(fingerprint.as_str()),
            invitenumber,
            authcode,
        },
        Qr::ReviveVerifyContact { contact_id, fingerprint, invitenumber, authcode } => QrObject::ReviveVerifyContact {
            contact_id: contact_id.to_u32(),
            fingerprint: fingerprint_human_readable(fingerprint.as_str()),
            invitenumber,
            authcode,
        },
        Qr::ReviveVerifyGroup { grpname, grpid, contact_id, fingerprint, invitenumber, authcode } => QrObject::ReviveVerifyGroup {
            grpname,
            grpid,
            contact_id: contact_id.to_u32(),
            fingerprint: fingerprint_human_readable(fingerprint.as_str()),
            invitenumber,
            authcode,
        },
        Qr::ReviveJoinBroadcast { name, grpid, contact_id, fingerprint, invitenumber, authcode } => QrObject::ReviveJoinBroadcast {
            name,
            grpid,
            contact_id: contact_id.to_u32(),
            fingerprint: fingerprint_human_readable(fingerprint.as_str()),
            invitenumber,
            authcode,
        },
        Qr::Login { address } => QrObject::Login {
            address,
        },
    }
}

} // verus!
