//! Contacts: identifiers, origins, the in-memory contact object and the decisions
//! taken when contacts are added, looked up, listed and verified.

use vstd::prelude::*;

use crate::contact_tools::{
    may_be_valid_addr, name_addr_pattern, regex_captures_result, sanitize_name, sanitize_name_and_addr,
    spec_addr_normalize, spec_parse_email, spec_sanitize_name, spec_sanitize_name_and_addr, AddressError,
    ContactAddress,
};
use crate::text::{
    chars_eq, chars_of, contains_seq, decimal, has_char, has_infix, has_prefix, lit, occurs_at, push_all,
    push_decimal, starts_with, string_of, uppercase,
};
use crate::vcard::or_empty;
use crate::vcard::{line_bounds, spec_lines};

verus! {

/// Time during which a contact is considered as seen recently, in seconds.
pub const SEEN_RECENTLY_SECONDS: i64 = 600;

/// Contact ID, including reserved IDs.
#[derive(Debug, Clone, Copy, PartialEq, Eq, Structural, PartialOrd, Ord, Hash)]
pub struct ContactId(u32);

impl ContactId {
    /// Undefined contact. Used as a placeholder for trashed messages.
    #[allow(non_snake_case)]
    pub fn UNDEFINED() -> (r: ContactId)
        ensures
            r.id() == 0,
    {
        ContactId(0)
    }

    /// The owner of the account.
    #[allow(non_snake_case)]
    pub fn SELF() -> (r: ContactId)
        ensures
            r.id() == 1,
    {
        ContactId(1)
    }

    /// ID of the contact for info messages.
    #[allow(non_snake_case)]
    pub fn INFO() -> (r: ContactId)
        ensures
            r.id() == 2,
    {
        ContactId(2)
    }

    /// ID of the contact for device messages.
    #[allow(non_snake_case)]
    pub fn DEVICE() -> (r: ContactId)
        ensures
            r.id() == 5,
    {
        ContactId(5)
    }

    /// The largest reserved ID.
    #[allow(non_snake_case)]
    pub fn LAST_SPECIAL() -> (r: ContactId)
        ensures
            r.id() == 9,
    {
        ContactId(9)
    }

    /// Address to go with [`ContactId::DEVICE`].
    pub const DEVICE_ADDR: &'static str = "device@localhost";

    /// The numerical value.
    pub closed spec fn id(self) -> u32 {
        self.0
    }

    /// Creates a new [`ContactId`].
    pub fn new(id: u32) -> (r: ContactId)
        ensures
            r.id() == id,
    {
        ContactId(id)
    }

    /// Whether this is one of the IDs reserved for special contacts (at most 9).
    pub fn is_special(&self) -> (r: bool)
        ensures
            r == (self.id() <= 9),
    {
        self.0 <= 9
    }

    /// Numerical representation of the [`ContactId`].
    pub fn to_u32(&self) -> (r: u32)
        ensures
            r == self.id(),
    {
        self.0
    }
}

impl Default for ContactId {
    fn default() -> (r: ContactId)
        ensures
            r.id() == 0,
    {
        ContactId(0)
    }
}

/// Possible origins of a contact, from the weakest to the strongest.
#[derive(Debug, Clone, Copy, PartialEq, Eq, Structural, PartialOrd, Ord, Hash)]
pub enum Origin {
    /// Unknown origin.
    Unknown,
    /// The contact is a mailing list address, needed to unblock mailing lists.
    MailinglistAddress,
    /// Hidden on purpose, e.g. addresses with the word "noreply" in it.
    Hidden,
    /// From: of incoming messages of unknown sender.
    IncomingUnknownFrom,
    /// Cc: of incoming messages of unknown sender.
    IncomingUnknownCc,
    /// To: of incoming messages of unknown sender.
    IncomingUnknownTo,
    /// Address scanned but not verified.
    UnhandledQrScan,
    /// Address scanned from a SecureJoin QR code, but not verified yet.
    UnhandledSecurejoinQrScan,
    /// Reply-To: of incoming message of known sender.
    IncomingReplyTo,
    /// Cc: of incoming message of known sender.
    IncomingCc,
    /// Additional To:'s of incoming message of known sender.
    IncomingTo,
    /// A chat was manually created for this user, but no message yet sent.
    CreateChat,
    /// Message sent by us.
    OutgoingBcc,
    /// Message sent by us.
    OutgoingCc,
    /// Message sent by us.
    OutgoingTo,
    /// Internal use.
    Internal,
    /// Address is in our address book.
    AddressBook,
    /// Set on Alice's side for contacts that have scanned her QR code.
    SecurejoinInvited,
    /// Set on Bob's side for contacts scanned from a QR code.
    SecurejoinJoined,
    /// Contact added manually; the strongest origin.
    ManuallyCreated,
}

/// The number that stands for an origin in the database.
pub open spec fn origin_value(o: Origin) -> u32 {
    match o {
        Origin::Unknown => 0,
        Origin::MailinglistAddress => 0x2,
        Origin::Hidden => 0x8,
        Origin::IncomingUnknownFrom => 0x10,
        Origin::IncomingUnknownCc => 0x20,
        Origin::IncomingUnknownTo => 0x40,
        Origin::UnhandledQrScan => 0x80,
        Origin::UnhandledSecurejoinQrScan => 0x81,
        Origin::IncomingReplyTo => 0x100,
        Origin::IncomingCc => 0x200,
        Origin::IncomingTo => 0x400,
        Origin::CreateChat => 0x800,
        Origin::OutgoingBcc => 0x1000,
        Origin::OutgoingCc => 0x2000,
        Origin::OutgoingTo => 0x4000,
        Origin::Internal => 0x40000,
        Origin::AddressBook => 0x80000,
        Origin::SecurejoinInvited => 0x0100_0000,
        Origin::SecurejoinJoined => 0x0200_0000,
        Origin::ManuallyCreated => 0x0400_0000,
    }
}

impl Origin {
    /// The number that stands for the origin in the database.
    pub fn to_u32(self) -> (r: u32)
        ensures
            r == origin_value(self),
    {
        match self {
            Origin::Unknown => 0,
            Origin::MailinglistAddress => 0x2,
            Origin::Hidden => 0x8,
            Origin::IncomingUnknownFrom => 0x10,
            Origin::IncomingUnknownCc => 0x20,
            Origin::IncomingUnknownTo => 0x40,
            Origin::UnhandledQrScan => 0x80,
            Origin::UnhandledSecurejoinQrScan => 0x81,
            Origin::IncomingReplyTo => 0x100,
            Origin::IncomingCc => 0x200,
            Origin::IncomingTo => 0x400,
            Origin::CreateChat => 0x800,
            Origin::OutgoingBcc => 0x1000,
            Origin::OutgoingCc => 0x2000,
            Origin::OutgoingTo => 0x4000,
            Origin::Internal => 0x40000,
            Origin::AddressBook => 0x80000,
            Origin::SecurejoinInvited => 0x0100_0000,
            Origin::SecurejoinJoined => 0x0200_0000,
            Origin::ManuallyCreated => 0x0400_0000,
        }
    }

    /// The origin that the number `v` stands for, if any.
    pub fn from_u32(v: u32) -> (r: Option<Origin>)
        ensures
            match r {
                Some(o) => origin_value(o) == v,
                None => forall|o: Origin| origin_value(o) != v,
            },
    {
        if v == 0 {
            Some(Origin::Unknown)
        } else if v == 0x2 {
            Some(Origin::MailinglistAddress)
        } else if v == 0x8 {
            Some(Origin::Hidden)
        } else if v == 0x10 {
            Some(Origin::IncomingUnknownFrom)
        } else if v == 0x20 {
            Some(Origin::IncomingUnknownCc)
        } else if v == 0x40 {
            Some(Origin::IncomingUnknownTo)
        } else if v == 0x80 {
            Some(Origin::UnhandledQrScan)
        } else if v == 0x81 {
            Some(Origin::UnhandledSecurejoinQrScan)
        } else if v == 0x100 {
            Some(Origin::IncomingReplyTo)
        } else if v == 0x200 {
            Some(Origin::IncomingCc)
        } else if v == 0x400 {
            Some(Origin::IncomingTo)
        } else if v == 0x800 {
            Some(Origin::CreateChat)
        } else if v == 0x1000 {
            Some(Origin::OutgoingBcc)
        } else if v == 0x2000 {
            Some(Origin::OutgoingCc)
        } else if v == 0x4000 {
            Some(Origin::OutgoingTo)
        } else if v == 0x40000 {
            Some(Origin::Internal)
        } else if v == 0x80000 {
            Some(Origin::AddressBook)
        } else if v == 0x0100_0000 {
            Some(Origin::SecurejoinInvited)
        } else if v == 0x0200_0000 {
            Some(Origin::SecurejoinJoined)
        } else if v == 0x0400_0000 {
            Some(Origin::ManuallyCreated)
        } else {
            None
        }
    }

    /// Contacts that are known, i.e. they came in via accepted contacts or are
    /// themselves accepted contacts: origin at least `IncomingReplyTo`.
    pub fn is_known(self) -> (r: bool)
        ensures
            r == (origin_value(self) >= origin_value(Origin::IncomingReplyTo)),
    {
        self.to_u32() >= 0x100
    }
}

/// Different origins stand for different numbers.
pub proof fn origin_value_is_injective(o: Origin, p: Origin)
    ensures
        origin_value(o) == origin_value(p) ==> o == p,
{
}

/// The current time, Unix time in seconds.
///
/// Calls `SystemTime::now` and `duration_since(UNIX_EPOCH)`; a clock before 1970 gives
/// 0. Nothing is stated: the result depends on the clock.
#[verifier::external_body]
fn time() -> (r: i64) {
    std::time::SystemTime::now().duration_since(std::time::UNIX_EPOCH).map_or(
        0,
        |d| d.as_secs() as i64,
    )
}

/// A contact last seen at `last_seen` counts as seen recently at `now`.
pub open spec fn seen_recently(now: i64, last_seen: i64) -> bool {
    now - last_seen <= SEEN_RECENTLY_SECONDS
}

/// The name to display for a contact: the local name, else the authorized name, else
/// the address.
pub open spec fn spec_display_name(name: Seq<char>, authname: Seq<char>, addr: Seq<char>) -> Seq<
    char,
> {
    if name.len() > 0 {
        name
    } else if authname.len() > 0 {
        authname
    } else {
        addr
    }
}

/// `Name (addr)` with the local or else the authorized name, or just the address.
pub open spec fn spec_name_n_addr(name: Seq<char>, authname: Seq<char>, addr: Seq<char>) -> Seq<
    char,
> {
    let n = if name.len() > 0 {
        name
    } else {
        authname
    };
    if n.len() > 0 {
        n + seq![' ', '('] + addr + seq![')']
    } else {
        addr
    }
}

/// A single contact in memory.
#[derive(Debug)]
pub struct Contact {
    /// The contact ID.
    pub id: ContactId,
    name: String,
    authname: String,
    addr: String,
    fingerprint: Option<String>,
    /// Blocked state.
    pub blocked: bool,
    last_seen: i64,
    /// The origin/source of the contact.
    pub origin: Origin,
    /// Serialized parameters, such as the profile image.
    pub param: String,
    status: String,
    is_bot: bool,
}

impl Contact {
    /// The contact ID.
    pub closed spec fn id_view(&self) -> ContactId {
        self.id
    }

    /// Blocked state.
    pub closed spec fn blocked_view(&self) -> bool {
        self.blocked
    }

    /// The origin.
    pub closed spec fn origin_view(&self) -> Origin {
        self.origin
    }

    /// Serialized parameters.
    pub closed spec fn param_view(&self) -> Seq<char> {
        self.param@
    }

    /// Name given by the local user; may be empty.
    pub closed spec fn name_view(&self) -> Seq<char> {
        self.name@
    }

    /// Name authorized by the contact; may be empty.
    pub closed spec fn authname_view(&self) -> Seq<char> {
        self.authname@
    }

    /// E-mail address.
    pub closed spec fn addr_view(&self) -> Seq<char> {
        self.addr@
    }

    /// OpenPGP fingerprint, for key-contacts.
    pub closed spec fn fingerprint_view(&self) -> Option<Seq<char>> {
        self.fingerprint.deep_view()
    }

    /// Last seen time, Unix time in seconds.
    pub closed spec fn last_seen_view(&self) -> i64 {
        self.last_seen
    }

    /// Last seen message signature.
    pub closed spec fn status_view(&self) -> Seq<char> {
        self.status@
    }

    /// Whether the contact is a bot.
    pub closed spec fn is_bot_view(&self) -> bool {
        self.is_bot
    }

    /// Builds a contact from the values of its database row: a missing `blocked` is
    /// `false`, a missing status is empty and an empty fingerprint means an
    /// address-contact.
    pub fn from_row(
        id: ContactId,
        name: String,
        addr: String,
        origin: Origin,
        blocked: Option<bool>,
        last_seen: i64,
        authname: String,
        param: String,
        status: Option<String>,
        is_bot: bool,
        fingerprint: String,
    ) -> (r: Contact)
        ensures
            r.id_view() == id,
            r.name_view() == name@,
            r.addr_view() == addr@,
            r.origin_view() == origin,
            r.blocked_view() == (blocked == Some(true)),
            r.last_seen_view() == last_seen,
            r.authname_view() == authname@,
            r.param_view() == param@,
            r.status_view() == or_empty(status.deep_view()),
            r.is_bot_view() == is_bot,
            r.fingerprint_view() == if fingerprint@.len() == 0 {
                None
            } else {
                Some(fingerprint@)
            },
    {
        let fingerprint = if fingerprint.as_str().is_empty() {
            None
        } else {
            Some(fingerprint)
        };
        let blocked = match blocked {
            Some(b) => b,
            None => false,
        };
        let status = match status {
            Some(s) => s,
            None => String::new(),
        };
        Contact {
            id,
            name,
            authname,
            addr,
            fingerprint,
            blocked,
            last_seen,
            origin,
            param,
            status,
            is_bot,
        }
    }

    /// Puts the account owner's values into the contact [`ContactId::SELF`]: the name
    /// is the localized "Me", the authorized name is the display name setting, the
    /// address the configured address, the status the own status; the own fingerprint
    /// replaces the stored one when it is known.
    pub fn set_self_values(
        &mut self,
        self_name: String,
        displayname: Option<String>,
        configured_addr: Option<String>,
        self_fingerprint: Option<String>,
        selfstatus: Option<String>,
    )
        ensures
            final(self).id_view() == old(self).id_view(),
            final(self).name_view() == self_name@,
            final(self).authname_view() == or_empty(displayname.deep_view()),
            final(self).addr_view() == or_empty(configured_addr.deep_view()),
            final(self).fingerprint_view() == match self_fingerprint {
                Some(f) => Some(f@),
                None => old(self).fingerprint_view(),
            },
            final(self).status_view() == or_empty(selfstatus.deep_view()),
            final(self).blocked_view() == old(self).blocked_view(),
            final(self).origin_view() == old(self).origin_view(),
            final(self).param_view() == old(self).param_view(),
            final(self).last_seen_view() == old(self).last_seen_view(),
            final(self).is_bot_view() == old(self).is_bot_view(),
    {
        self.name = self_name;
        self.authname = match displayname {
            Some(s) => s,
            None => String::new(),
        };
        self.addr = match configured_addr {
            Some(s) => s,
            None => String::new(),
        };
        if let Some(fp) = self_fingerprint {
            self.fingerprint = Some(fp);
        }
        self.status = match selfstatus {
            Some(s) => s,
            None => String::new(),
        };
    }

    /// Puts the device contact's values into the contact [`ContactId::DEVICE`]: a
    /// localized name and status, and the address `device@localhost`.
    pub fn set_device_values(&mut self, device_name: String, device_status: String)
        ensures
            final(self).id_view() == old(self).id_view(),
            final(self).name_view() == device_name@,
            final(self).addr_view() == "device@localhost"@,
            final(self).status_view() == device_status@,
            final(self).authname_view() == old(self).authname_view(),
            final(self).fingerprint_view() == old(self).fingerprint_view(),
            final(self).blocked_view() == old(self).blocked_view(),
            final(self).origin_view() == old(self).origin_view(),
            final(self).param_view() == old(self).param_view(),
            final(self).last_seen_view() == old(self).last_seen_view(),
            final(self).is_bot_view() == old(self).is_bot_view(),
    {
        self.name = device_name;
        self.addr = string_of(&lit("device@localhost"));
        self.status = device_status;
    }

    /// Returns `true` if this contact is blocked.
    pub fn is_blocked(&self) -> (r: bool)
        ensures
            r == self.blocked_view(),
    {
        self.blocked
    }

    /// Returns the last seen timestamp.
    pub fn last_seen(&self) -> (r: i64)
        ensures
            r == self.last_seen_view(),
    {
        self.last_seen
    }

    /// Whether the contact was seen at most ten minutes before `now`.
    pub fn was_seen_recently_at(&self, now: i64) -> (r: bool)
        ensures
            r == seen_recently(now, self.last_seen_view()),
    {
        (now as i128) - (self.last_seen as i128) <= (SEEN_RECENTLY_SECONDS as i128)
    }

    /// Returns `true` if this contact was seen within the last ten minutes, by the
    /// system clock.
    pub fn was_seen_recently(&self) -> (r: bool)
        ensures
            exists|now: i64| r == #[trigger] seen_recently(now, self.last_seen_view()),
    {
        let now = time();
        self.was_seen_recently_at(now)
    }

    /// Returns whether the contact is a bot.
    pub fn is_bot(&self) -> (r: bool)
        ensures
            r == self.is_bot_view(),
    {
        self.is_bot
    }

    /// Get the ID of the contact.
    pub fn get_id(&self) -> (r: ContactId)
        ensures
            r == self.id_view(),
    {
        self.id
    }

    /// Get the e-mail address.
    pub fn get_addr(&self) -> (r: &str)
        ensures
            r@ == self.addr_view(),
    {
        self.addr.as_str()
    }

    /// A key-contact has a fingerprint; the own contact is always one.
    pub fn is_key_contact(&self) -> (r: bool)
        ensures
            r == (self.fingerprint_view() is Some || self.id_view().id() == 1),
    {
        self.fingerprint.is_some() || self.id.to_u32() == 1
    }

    /// The OpenPGP fingerprint of a key-contact, as stored; `None` for
    /// address-contacts.
    pub fn fingerprint(&self) -> (r: Option<&str>)
        ensures
            match r {
                Some(f) => self.fingerprint_view() == Some(f@),
                None => self.fingerprint_view() is None,
            },
    {
        match &self.fingerprint {
            Some(f) => Some(f.as_str()),
            None => None,
        }
    }

    /// Get the name authorized by the contact.
    pub fn get_authname(&self) -> (r: &str)
        ensures
            r@ == self.authname_view(),
    {
        self.authname.as_str()
    }

    /// Get the name given by the local user; may be empty.
    pub fn get_name(&self) -> (r: &str)
        ensures
            r@ == self.name_view(),
    {
        self.name.as_str()
    }

    /// Get the display name: the local name, else the authorized name, else the
    /// address.
    pub fn get_display_name(&self) -> (r: &str)
        ensures
            r@ == spec_display_name(self.name_view(), self.authname_view(), self.addr_view()),
    {
        if !self.name.as_str().is_empty() {
            return self.name.as_str();
        }
        if !self.authname.as_str().is_empty() {
            return self.authname.as_str();
        }
        self.addr.as_str()
    }

    /// Get a summary of name and address: `Name (addr)`, or just the address if
    /// there is no name.
    pub fn get_name_n_addr(&self) -> (r: String)
        ensures
            r@ == spec_name_n_addr(self.name_view(), self.authname_view(), self.addr_view()),
    {
        let name = if !self.name.as_str().is_empty() {
            self.name.as_str()
        } else {
            self.authname.as_str()
        };
        let addr = chars_of(self.addr.as_str());
        if name.is_empty() {
            return string_of(&addr);
        }
        let mut r = String::new();
        push_all(&mut r, &chars_of(name));
        r.push(' ');
        r.push('(');
        push_all(&mut r, &addr);
        r.push(')');
        proof {
            assert(r@ =~= spec_name_n_addr(self.name_view(), self.authname_view(), self.addr_view()));
        }
        r
    }

    /// Gets the contact's status: the last signature received from it.
    pub fn get_status(&self) -> (r: &str)
        ensures
            r@ == self.status_view(),
    {
        self.status.as_str()
    }
}

impl ContactId {
    /// The text that names the contact ID in logs: `Contact#Self`, `Contact#Special7`,
    /// `Contact#42` and the like.
    pub fn to_string(&self) -> (r: String)
        ensures
            r@ == spec_contact_id_text(self.id()),
    {
        let mut r = String::new();
        push_all(&mut r, &lit("Contact#"));
        if self.0 == 0 {
            push_all(&mut r, &lit("Undefined"));
        } else if self.0 == 1 {
            push_all(&mut r, &lit("Self"));
        } else if self.0 == 2 {
            push_all(&mut r, &lit("Info"));
        } else if self.0 == 5 {
            push_all(&mut r, &lit("Device"));
        } else if self.0 <= 9 {
            push_all(&mut r, &lit("Special"));
            push_decimal(&mut r, self.0 as u64);
        } else {
            push_decimal(&mut r, self.0 as u64);
        }
        r
    }
}

/// The log text of a contact ID.
pub open spec fn spec_contact_id_text(id: u32) -> Seq<char> {
    "Contact#"@ + if id == 0 {
        "Undefined"@
    } else if id == 1 {
        "Self"@
    } else if id == 2 {
        "Info"@
    } else if id == 5 {
        "Device"@
    } else if id <= 9 {
        "Special"@ + decimal(id as nat)
    } else {
        decimal(id as nat)
    }
}

/// The pairs of an address book text: line `2i` is a name and line `2i + 1` its
/// address; a last line without partner is dropped.
pub open spec fn address_book_pairs(lines: Seq<Seq<char>>) -> Seq<(Seq<char>, Seq<char>)> {
    Seq::new(lines.len() / 2, |i: int| (lines[2 * i], lines[2 * i + 1]))
}

/// Splits an address book given as `Name one\nAddress one\nName two\nAddress two`
/// into (name, address) pairs.
pub fn split_address_book<'a>(book: &'a str) -> (r: Vec<(&'a str, &'a str)>)
    ensures
        r.len() == address_book_pairs(spec_lines(book@)).len(),
        forall|i: int|
            #![trigger r@[i]]
            0 <= i < r.len() ==> (r@[i].0@, r@[i].1@) == address_book_pairs(spec_lines(book@))[i],
{
    let v = chars_of(book);
    let bounds = line_bounds(&v);
    let ghost ls = spec_lines(book@);
    let mut out: Vec<(&'a str, &'a str)> = Vec::new();
    let n = bounds.len() / 2;
    let mut i: usize = 0;
    while i < n
        invariant
            i <= n == bounds.len() / 2,
            v@ == book@,
            ls == spec_lines(v@),
            bounds.len() == ls.len(),
            forall|k: int|
                #![trigger bounds@[k]]
                0 <= k < bounds.len() ==> bounds@[k].0 <= bounds@[k].1 <= v@.len() && ls[k]
                    == v@.subrange(bounds@[k].0 as int, bounds@[k].1 as int),
            out.len() == i,
            forall|k: int|
                #![trigger out@[k]]
                0 <= k < i ==> (out@[k].0@, out@[k].1@) == address_book_pairs(ls)[k],
        decreases n - i,
    {
        let (a0, a1) = bounds[2 * i];
        let (b0, b1) = bounds[2 * i + 1];
        let name = book.substring_char(a0, a1);
        let addr = book.substring_char(b0, b1);
        out.push((name, addr));
        proof {
            assert(bounds@[2 * i as int] == (a0, a1));
            assert(bounds@[2 * i + 1] == (b0, b1));
            assert forall|k: int| #![trigger out@[k]] 0 <= k < i + 1 implies (out@[k].0@, out@[k].1@)
                == address_book_pairs(ls)[k] by {
                if k == i {
                    assert(address_book_pairs(ls)[k] == (ls[2 * k], ls[2 * k + 1]));
                }
            }
        }
        i += 1;
    }
    out
}

/// Appends a name, an address and a fingerprint to an encryption info text, as
/// `\n\n{name} ({addr}):\n{fingerprint}`.
pub fn cat_fingerprint(ret: &mut String, name: &str, addr: &str, fingerprint: &str)
    ensures
        final(ret)@ == old(ret)@ + seq!['\n', '\n'] + name@ + seq![' ', '('] + addr@ + seq![
            ')',
            ':',
            '\n',
        ] + fingerprint@,
{
    let ghost start = ret@;
    ret.push('\n');
    ret.push('\n');
    push_all(ret, &chars_of(name));
    ret.push(' ');
    ret.push('(');
    push_all(ret, &chars_of(addr));
    ret.push(')');
    ret.push(':');
    ret.push('\n');
    push_all(ret, &chars_of(fingerprint));
    proof {
        assert(ret@ =~= start + seq!['\n', '\n'] + name@ + seq![' ', '('] + addr@ + seq![
            ')',
            ':',
            '\n',
        ] + fingerprint@);
    }
}

/// Who verified a contact, from the stored verifier ID: `None` if unverified,
/// `Some(None)` if the contact is verified by an unknown contact (stored as its own
/// ID), otherwise the verifier.
pub fn verifier_from_stored(contact_id: ContactId, verifier_id: u32) -> (r: Option<Option<ContactId>>)
    ensures
        verifier_id == 0 ==> r is None,
        verifier_id != 0 && verifier_id == contact_id.id() ==> r == Some(None::<ContactId>),
        verifier_id != 0 && verifier_id != contact_id.id() ==> (r matches Some(Some(v)) && v.id()
            == verifier_id),
{
    if verifier_id == 0 {
        None
    } else if verifier_id == contact_id.to_u32() {
        Some(None)
    } else {
        Some(Some(ContactId::new(verifier_id)))
    }
}

/// Why a contact cannot be marked as verified.
#[derive(Debug, Clone, Copy, PartialEq, Eq, Structural)]
pub enum VerificationError {
    /// The contact is the own contact.
    IsSelf,
    /// The contact would be verified by itself.
    VerifiedBySelf,
    /// The contact is an address-contact.
    NotKeyContact,
    /// The verifier is an address-contact.
    VerifierNotKeyContact,
    /// The verifier is not verified itself.
    VerifierUnverified,
}

/// What is known of the verifier from the database.
pub struct VerifierRow {
    /// The verifier's fingerprint; empty for address-contacts.
    pub fingerprint: String,
    /// The stored verifier of the verifier.
    pub verifier_id: ContactId,
}

/// The verifier ID to store when marking `contact_id` as verified by `verifier_id`
/// (`None`: unknown verifier), given the contact's fingerprint and, unless the verifier
/// is the own contact, the verifier's row.
///
/// An unknown verifier is stored as the contact's own ID. A verifier that is itself
/// verified by an unknown contact makes the contact verified by an unknown contact too.
pub fn verifier_to_store(
    contact_id: ContactId,
    verifier_id: Option<ContactId>,
    contact_fingerprint: &str,
    verifier_row: &Option<VerifierRow>,
) -> (r: Result<ContactId, VerificationError>)
    ensures
        contact_id.id() == 1 ==> r == Err::<ContactId, VerificationError>(
            VerificationError::IsSelf,
        ),
        contact_id.id() != 1 && verifier_id == Some(contact_id) ==> r == Err::<
            ContactId,
            VerificationError,
        >(VerificationError::VerifiedBySelf),
        contact_id.id() != 1 && verifier_id != Some(contact_id) && contact_fingerprint@.len() == 0
            ==> r == Err::<ContactId, VerificationError>(VerificationError::NotKeyContact),
        contact_id.id() != 1 && verifier_id != Some(contact_id) && contact_fingerprint@.len() > 0
            ==> r == spec_verifier_to_store(contact_id, verifier_id, *verifier_row),
{
    if contact_id.to_u32() == 1 {
        return Err(VerificationError::IsSelf);
    }
    if let Some(v) = verifier_id {
        if v.to_u32() == contact_id.to_u32() {
            proof {
                lemma_contact_id_eq(v, contact_id);
            }
            return Err(VerificationError::VerifiedBySelf);
        }
    }
    if contact_fingerprint.is_empty() {
        return Err(VerificationError::NotKeyContact);
    }
    let mut verifier = match verifier_id {
        Some(v) => v,
        None => contact_id,
    };
    if verifier.to_u32() != 1 {
        match verifier_row {
            None => return Err(VerificationError::VerifierNotKeyContact),
            Some(row) => {
                if row.fingerprint.as_str().is_empty() {
                    return Err(VerificationError::VerifierNotKeyContact);
                }
                if !(verifier.to_u32() == contact_id.to_u32() || row.verifier_id.to_u32() != 0) {
                    return Err(VerificationError::VerifierUnverified);
                }
                if row.verifier_id.to_u32() == verifier.to_u32() {
                    verifier = contact_id;
                }
            },
        }
    }
    Ok(verifier)
}

/// The verifier ID stored for a key-contact other than the own one.
pub open spec fn spec_verifier_to_store(
    contact_id: ContactId,
    verifier_id: Option<ContactId>,
    verifier_row: Option<VerifierRow>,
) -> Result<ContactId, VerificationError> {
    let verifier = match verifier_id {
        Some(v) => v,
        None => contact_id,
    };
    if verifier.id() == 1 {
        Ok(verifier)
    } else {
        match verifier_row {
            None => Err(VerificationError::VerifierNotKeyContact),
            Some(row) => if row.fingerprint@.len() == 0 {
                Err(VerificationError::VerifierNotKeyContact)
            } else if !(verifier.id() == contact_id.id() || row.verifier_id.id() != 0) {
                Err(VerificationError::VerifierUnverified)
            } else if row.verifier_id.id() == verifier.id() {
                Ok(contact_id)
            } else {
                Ok(verifier)
            },
        }
    }
}

/// Contact IDs with the same number are the same.
pub proof fn lemma_contact_id_eq(a: ContactId, b: ContactId)
    requires
        a.id() == b.id(),
    ensures
        a == b,
{
}

/// Why a contact cannot be added or looked up.
#[derive(Debug, Clone, Copy, PartialEq, Eq, Structural)]
pub enum AddOrLookupError {
    /// Neither an address nor a fingerprint was given.
    EmptyAddress,
    /// The origin is `Unknown`.
    MissingOrigin,
}

/// How a contact is changed when it is added or looked up.
#[derive(Debug, Clone, Copy, PartialEq, Eq, Structural)]
pub enum Modifier {
    /// Nothing changed.
    Unchanged,
    /// An existing contact was changed.
    Modified,
    /// A new contact was created.
    Created,
}

/// Name and origin with which a contact is looked up, after sanitizing.
pub struct PreparedContact {
    /// The sanitized name; empty for hidden addresses.
    pub name: String,
    /// The origin; `Hidden` for addresses that look like no-reply addresses.
    pub origin: Origin,
    /// Whether the origin means that the user entered the name, so that it is a local
    /// name and not an authorized one.
    pub manual: bool,
}

/// The first step of adding or looking up a contact.
pub enum AddOrLookupStart {
    /// The address or the fingerprint is the account owner's.
    IsSelf,
    /// Look the contact up in the database with these values.
    Lookup(PreparedContact),
}

/// The address looks like one that no person answers: it holds `noreply` or
/// `no-reply`, starts with `notifications@`, or is a long address with a `+`.
pub open spec fn is_hidden_addr(addr: &str) -> bool {
    contains_seq(addr@, "noreply"@) || contains_seq(addr@, "no-reply"@) || starts_with(
        addr@,
        "notifications@"@,
    ) || (addr.len() > 50 && addr@.contains('+'))
}

/// The origin means that the user entered the name.
pub open spec fn is_manual_origin(o: Origin) -> bool {
    o == Origin::ManuallyCreated || o == Origin::AddressBook || o == Origin::UnhandledQrScan
}

/// Checks the arguments of adding or looking up a contact and prepares name and
/// origin. `addr_is_self` tells whether the account is configured and `addr` is one of
/// its addresses; `fingerprint_is_self` whether the account is configured and the
/// non-empty `fingerprint` is its own.
pub fn add_or_lookup_prepare(
    name: &str,
    addr: &str,
    fingerprint: &str,
    origin: Origin,
    addr_is_self: bool,
    fingerprint_is_self: bool,
) -> (r: Result<AddOrLookupStart, AddOrLookupError>)
    ensures
        addr@.len() == 0 && fingerprint@.len() == 0 ==> r matches Err(
            AddOrLookupError::EmptyAddress,
        ),
        !(addr@.len() == 0 && fingerprint@.len() == 0) && origin == Origin::Unknown ==> r matches Err(
            AddOrLookupError::MissingOrigin,
        ),
        !(addr@.len() == 0 && fingerprint@.len() == 0) && origin != Origin::Unknown && (addr_is_self
            || fingerprint_is_self) ==> r matches Ok(AddOrLookupStart::IsSelf),
        !(addr@.len() == 0 && fingerprint@.len() == 0) && origin != Origin::Unknown && !addr_is_self
            && !fingerprint_is_self ==> (r matches Ok(AddOrLookupStart::Lookup(p)) && ({
            let hidden = origin_value(origin) <= origin_value(Origin::OutgoingTo) && is_hidden_addr(
                addr,
            );
            &&& p.origin == if hidden {
                Origin::Hidden
            } else {
                origin
            }
            &&& p.name@ == if hidden {
                Seq::<char>::empty()
            } else {
                spec_sanitize_name(name@)
            }
            &&& p.manual == is_manual_origin(p.origin)
        })),
{
    if addr.is_empty() && fingerprint.is_empty() {
        return Err(AddOrLookupError::EmptyAddress);
    }
    proof {
        origin_value_is_injective(origin, Origin::Unknown);
    }
    if origin.to_u32() == 0 {
        return Err(AddOrLookupError::MissingOrigin);
    }
    if addr_is_self || fingerprint_is_self {
        return Ok(AddOrLookupStart::IsSelf);
    }
    let mut name = sanitize_name(name);
    let mut origin = origin;
    if origin.to_u32() <= 0x4000 {
        let a = chars_of(addr);
        let hidden = has_infix(&a, &lit("noreply")) || has_infix(&a, &lit("no-reply"))
            || has_prefix(&a, &lit("notifications@")) || (addr.len() > 50 && has_char(&a, '+'));
        if hidden {
            origin = Origin::Hidden;
            name = String::new();
        }
    }
    let manual = match origin {
        Origin::ManuallyCreated | Origin::AddressBook | Origin::UnhandledQrScan => true,
        _ => false,
    };
    Ok(AddOrLookupStart::Lookup(PreparedContact { name, origin, manual }))
}

/// A contact row found in the database.
pub struct ExistingContact {
    /// Row ID.
    pub id: u32,
    /// Stored local name.
    pub name: String,
    /// Stored address.
    pub addr: String,
    /// Stored origin.
    pub origin: Origin,
    /// Stored authorized name.
    pub authname: String,
}

/// New values for an existing contact row.
pub struct ContactUpdate {
    /// New local name.
    pub name: String,
    /// New authorized name.
    pub authname: String,
    /// The name to normalize for searching: the local name, or the authorized name if
    /// the local one is empty.
    pub name_to_normalize: String,
    /// New address.
    pub addr: String,
    /// New origin.
    pub origin: Origin,
    /// Whether a name changed, so that the names of chats must be updated.
    pub names_changed: bool,
}

/// The values of a new contact row.
pub struct NewContact {
    /// Local name: the name for manual origins, otherwise empty.
    pub name: String,
    /// Authorized name: empty for manual origins, otherwise the name.
    pub authname: String,
    /// The name to normalize for searching.
    pub name_to_normalize: String,
    /// Address.
    pub addr: String,
    /// Fingerprint; empty for address-contacts.
    pub fingerprint: String,
    /// Origin.
    pub origin: Origin,
}

/// A local name is set only from manual origins.
pub open spec fn spec_update_name(p: PreparedContact, row: ExistingContact) -> bool {
    p.manual && p.name@ != row.name@
}

/// An authorized name is set only from non-manual origins, when it is not empty and
/// the origin is at least as strong as the stored one, is `IncomingUnknownFrom`, or
/// nothing is stored yet.
pub open spec fn spec_update_authname(p: PreparedContact, row: ExistingContact) -> bool {
    !p.manual && p.name@ != row.authname@ && p.name@.len() > 0 && (origin_value(p.origin)
        >= origin_value(row.origin) || p.origin == Origin::IncomingUnknownFrom
        || row.authname@.len() == 0)
}

/// The address is replaced when the origin is at least as strong as the stored one.
pub open spec fn spec_update_addr(p: PreparedContact, addr: Seq<char>, row: ExistingContact) -> bool {
    origin_value(p.origin) >= origin_value(row.origin) && addr != row.addr@
}

/// How an existing contact row changes when the contact is added again with `addr` and
/// the prepared name and origin: `r` holds the new values, `None` where nothing changes.
pub open spec fn spec_existing_update(
    p: PreparedContact,
    addr: Seq<char>,
    row: ExistingContact,
    r: Option<ContactUpdate>,
) -> bool {
    let update_name = spec_update_name(p, row);
    let update_authname = spec_update_authname(p, row);
    let update_addr = spec_update_addr(p, addr, row);
    let stronger = origin_value(p.origin) > origin_value(row.origin);
    if update_name || update_authname || update_addr || stronger {
        r matches Some(u) && {
            &&& u.name@ == if update_name {
                p.name@
            } else {
                row.name@
            }
            &&& u.authname@ == if update_authname {
                p.name@
            } else {
                row.authname@
            }
            &&& u.name_to_normalize@ == if u.name@.len() > 0 {
                u.name@
            } else {
                u.authname@
            }
            &&& u.addr@ == if update_addr {
                addr
            } else {
                row.addr@
            }
            &&& u.origin == if stronger {
                p.origin
            } else {
                row.origin
            }
            &&& u.names_changed == (update_name || update_authname)
        }
    } else {
        r is None
    }
}

/// The stored authorized name is replaced only by a name that is not empty, and only
/// from an origin that is not manual; so a contact added again without a name keeps
/// its authorized name, and then its names count as changed only where the local name
/// changes. The local name is replaced only from a manual origin; the origin never gets
/// weaker; the address is replaced only from an origin at least as strong; the names
/// count as changed exactly where one of them changes; and nothing changes only where
/// the new origin is not stronger.
pub proof fn existing_update_keeps_authname(
    p: PreparedContact,
    addr: Seq<char>,
    row: ExistingContact,
    r: Option<ContactUpdate>,
)
    requires
        spec_existing_update(p, addr, row, r),
    ensures
        r matches Some(u) ==> (u.authname@ != row.authname@ ==> u.authname@ == p.name@
            && p.name@.len() > 0 && !p.manual),
        p.name@.len() == 0 ==> (r matches Some(u) ==> u.authname@ == row.authname@ && (
        u.names_changed ==> u.name@ != row.name@)),
        r matches Some(u) ==> (u.name@ != row.name@ ==> u.name@ == p.name@ && p.manual),
        r matches Some(u) ==> origin_value(u.origin) >= origin_value(row.origin) && (u.origin
            == row.origin || u.origin == p.origin),
        r matches Some(u) ==> (u.addr@ != row.addr@ ==> u.addr@ == addr && origin_value(p.origin)
            >= origin_value(row.origin)),
        r matches Some(u) ==> u.names_changed == (u.name@ != row.name@ || u.authname@
            != row.authname@),
        r is None ==> origin_value(p.origin) <= origin_value(row.origin),
{
}

/// Decides how an existing contact row changes when the contact is added again with
/// `addr` and the prepared name and origin; `None` if nothing changes.
pub fn update_for_existing(p: &PreparedContact, addr: &str, row: &ExistingContact) -> (r: Option<
    ContactUpdate,
>)
    ensures
        spec_existing_update(*p, addr@, *row, r),
{
    let pname = chars_of(p.name.as_str());
    let rname = chars_of(row.name.as_str());
    let rauth = chars_of(row.authname.as_str());
    let a = chars_of(addr);
    let raddr = chars_of(row.addr.as_str());
    let po = p.origin.to_u32();
    let ro = row.origin.to_u32();
    let update_name = p.manual && !chars_eq(&pname, &rname);
    let update_authname = !p.manual && !chars_eq(&pname, &rauth) && pname.len() > 0 && (po >= ro
        || po == 0x10 || rauth.len() == 0);
    let update_addr = po >= ro && !chars_eq(&a, &raddr);
    let stronger = po > ro;
    proof {
        if po == 0x10 {
            origin_value_is_injective(p.origin, Origin::IncomingUnknownFrom);
        }
    }
    if update_name || update_authname || update_addr || stronger {
        let name = if update_name {
            string_of(&pname)
        } else {
            string_of(&rname)
        };
        let authname = if update_authname {
            string_of(&pname)
        } else {
            string_of(&rauth)
        };
        let name_to_normalize = if name.as_str().is_empty() {
            string_of(&chars_of(authname.as_str()))
        } else {
            string_of(&chars_of(name.as_str()))
        };
        let addr_out = if update_addr {
            string_of(&a)
        } else {
            string_of(&raddr)
        };
        let origin = if stronger {
            p.origin
        } else {
            row.origin
        };
        Some(
            ContactUpdate {
                name,
                authname,
                name_to_normalize,
                addr: addr_out,
                origin,
                names_changed: update_name || update_authname,
            },
        )
    } else {
        None
    }
}

/// The row of a contact that is not in the database yet: for manual origins the name
/// is the local name, otherwise it is the authorized name.
pub fn new_contact_row(p: &PreparedContact, addr: &str, fingerprint: &str) -> (r: NewContact)
    ensures
        r.name@ == if p.manual {
            p.name@
        } else {
            Seq::<char>::empty()
        },
        r.authname@ == if p.manual {
            Seq::<char>::empty()
        } else {
            p.name@
        },
        r.name_to_normalize@ == p.name@,
        r.addr@ == addr@,
        r.fingerprint@ == fingerprint@,
        r.origin == p.origin,
{
    let pname = chars_of(p.name.as_str());
    NewContact {
        name: if p.manual {
            string_of(&pname)
        } else {
            String::new()
        },
        authname: if p.manual {
            String::new()
        } else {
            string_of(&pname)
        },
        name_to_normalize: string_of(&pname),
        addr: string_of(&chars_of(addr)),
        fingerprint: string_of(&chars_of(fingerprint)),
        origin: p.origin,
    }
}

/// Adding a contact again never lowers its origin; from a manual origin only the local
/// name changes, from any other origin only the authorized name.
pub proof fn contact_update_respects_origin(p: PreparedContact, addr: Seq<char>, row: ExistingContact)
    ensures
        p.manual ==> !spec_update_authname(p, row),
        !p.manual ==> !spec_update_name(p, row),
        origin_value(
            if origin_value(p.origin) > origin_value(row.origin) {
                p.origin
            } else {
                row.origin
            },
        ) >= origin_value(row.origin),
{
}

/// `flags` asks to list the own contact too.
pub open spec fn flag_add_self(flags: u32) -> bool {
    flags & 0x02 != 0
}

/// `flags` asks to list address-contacts instead of key-contacts.
pub open spec fn flag_address(flags: u32) -> bool {
    flags & 0x04 != 0
}

/// Whether `flags` asks for address-contacts instead of key-contacts.
pub fn list_address_contacts(flags: u32) -> (r: bool)
    ensures
        r == flag_address(flags),
{
    flags & 0x04 != 0
}

/// The weakest origin of the contacts that `Contact::get_all` lists: all origins for
/// bots and when the query is a valid address, otherwise known contacts only.
pub fn get_all_minimal_origin(is_bot: bool, query: Option<&str>) -> (r: Origin)
    ensures
        r == if is_bot || (query matches Some(q) && spec_parse_email(q@) is Ok) {
            Origin::Unknown
        } else {
            Origin::IncomingReplyTo
        },
{
    let valid_query = match query {
        Some(q) => may_be_valid_addr(q),
        None => false,
    };
    if is_bot || valid_query {
        Origin::Unknown
    } else {
        Origin::IncomingReplyTo
    }
}

/// The IDs of the listed rows whose address is none of the own addresses, in order.
pub open spec fn spec_filter_self(
    rows: Seq<(ContactId, Seq<char>)>,
    self_addrs: Seq<Seq<char>>,
) -> Seq<ContactId>
    decreases rows.len(),
{
    if rows.len() == 0 {
        Seq::empty()
    } else {
        let rest = spec_filter_self(rows.drop_last(), self_addrs);
        if self_addrs.contains(rows.last().1) {
            rest
        } else {
            rest.push(rows.last().0)
        }
    }
}

/// The contents of the rows listed from the database.
pub open spec fn rows_view(rows: Seq<(ContactId, String)>) -> Seq<(ContactId, Seq<char>)> {
    rows.map_values(|r: (ContactId, String)| (r.0, r.1@))
}

fn contains_string(list: &[String], s: &[char]) -> (r: bool)
    ensures
        r == list.deep_view().contains(s@),
{
    let mut i: usize = 0;
    while i < list.len()
        invariant
            i <= list.len(),
            forall|k: int| 0 <= k < i ==> list.deep_view()[k] != s@,
        decreases list.len() - i,
    {
        let c = chars_of(list[i].as_str());
        if chars_eq(&c, s) {
            proof {
                assert(list.deep_view()[i as int] == s@);
            }
            return true;
        }
        i += 1;
    }
    false
}

/// Keeps the IDs of the rows whose address is not one of the own addresses.
pub fn get_all_filter_self(rows: &[(ContactId, String)], self_addrs: &[String]) -> (r: Vec<
    ContactId,
>)
    ensures
        r@ == spec_filter_self(rows_view(rows@), self_addrs.deep_view()),
{
    let ghost rv = rows_view(rows@);
    let mut out: Vec<ContactId> = Vec::new();
    let mut i: usize = 0;
    proof {
        assert(rv.take(0) =~= Seq::<(ContactId, Seq<char>)>::empty());
    }
    while i < rows.len()
        invariant
            i <= rows.len(),
            rv == rows_view(rows@),
            out@ == spec_filter_self(rv.take(i as int), self_addrs.deep_view()),
        decreases rows.len() - i,
    {
        let addr = chars_of(rows[i].1.as_str());
        proof {
            assert(rv.take(i + 1).drop_last() =~= rv.take(i as int));
            assert(rv[i as int] == (rows@[i as int].0, rows@[i as int].1@));
        }
        if !contains_string(self_addrs, &addr) {
            out.push(rows[i].0);
        }
        i += 1;
    }
    proof {
        assert(rv.take(rows.len() as int) =~= rv);
    }
    out
}

/// The characters of an optional string slice.
pub open spec fn opt_str(o: Option<&str>) -> Option<Seq<char>> {
    match o {
        Some(s) => Some(s@),
        None => None,
    }
}

/// One of `addrs` holds `q`.
pub open spec fn any_contains(addrs: Seq<Seq<char>>, q: Seq<char>) -> bool {
    exists|i: int| 0 <= i < addrs.len() && contains_seq(#[trigger] addrs[i], q)
}

/// Whether the own contact matches the query: no query matches; otherwise one of the
/// own addresses, the display name or the localized "Me" holds the query.
pub open spec fn spec_self_matches(
    query: Option<Seq<char>>,
    self_addrs: Seq<Seq<char>>,
    self_name: Seq<char>,
    self_name2: Seq<char>,
) -> bool {
    match query {
        None => true,
        Some(q) => any_contains(self_addrs, q) || contains_seq(self_name, q) || contains_seq(
            self_name2,
            q,
        ),
    }
}

/// Without a query the own contact is listed; with a query it is listed exactly where
/// the query occurs in one of the own addresses, in the display name, or in the name of
/// the saved-messages chat.
pub proof fn own_contact_matches_query(
    query: Option<Seq<char>>,
    self_addrs: Seq<Seq<char>>,
    self_name: Seq<char>,
    self_name2: Seq<char>,
)
    ensures
        query is None ==> spec_self_matches(query, self_addrs, self_name, self_name2),
        query matches Some(q) ==> (spec_self_matches(query, self_addrs, self_name, self_name2) <==> (
        (exists|i: int, k: int| 0 <= i < self_addrs.len() && #[trigger] occurs_at(self_addrs[i], q, k))
            || (exists|k: int| occurs_at(self_name, q, k)) || (exists|k: int| occurs_at(self_name2, q, k)))),
{
    if let Some(q) = query {
        if exists|i: int, k: int| 0 <= i < self_addrs.len() && #[trigger] occurs_at(self_addrs[i], q, k) {
            let (i, k) = choose|i: int, k: int|
                0 <= i < self_addrs.len() && #[trigger] occurs_at(self_addrs[i], q, k);
            assert(contains_seq(self_addrs[i], q));
        }
        if any_contains(self_addrs, q) {
            let i = choose|i: int| 0 <= i < self_addrs.len() && contains_seq(#[trigger] self_addrs[i], q);
            let k = choose|k: int| occurs_at(self_addrs[i], q, k);
            assert(occurs_at(self_addrs[i], q, k));
        }
    }
}

/// Whether the own contact matches the query of `Contact::get_all`.
pub fn get_all_self_matches(
    query: Option<&str>,
    self_addrs: &[String],
    self_name: &str,
    self_name2: &str,
) -> (r: bool)
    ensures
        r == spec_self_matches(opt_str(query), self_addrs.deep_view(), self_name@, self_name2@),
{
    match query {
        None => true,
        Some(q) => {
            let qv = chars_of(q);
            let ghost addrs = self_addrs.deep_view();
            let mut i: usize = 0;
            proof {
                assert(addrs.len() == self_addrs@.len());
            }
            while i < self_addrs.len()
                invariant
                    i <= self_addrs.len() == addrs.len(),
                    addrs == self_addrs.deep_view(),
                    query == Some(q),
                    qv@ == q@,
                    forall|k: int| 0 <= k < i ==> !contains_seq(#[trigger] addrs[k], q@),
                decreases self_addrs.len() - i,
            {
                let a = chars_of(self_addrs[i].as_str());
                if has_infix(&a, &qv) {
                    proof {
                        assert(contains_seq(addrs[i as int], q@));
                        assert(any_contains(addrs, q@));
                    }
                    return true;
                }
                i += 1;
            }
            has_infix(&chars_of(self_name), &qv) || has_infix(&chars_of(self_name2), &qv)
        },
    }
}

/// Adds the own contact at the end of the list when the flags ask for it and it
/// matches the query.
pub fn get_all_finish(ids: Vec<ContactId>, listflags: u32, self_matches: bool) -> (r: Vec<ContactId>)
    ensures
        r@ == if flag_add_self(listflags) && self_matches {
            ids@.push(ContactId::spec_new(1))
        } else {
            ids@
        },
{
    let mut ids = ids;
    if listflags & 0x02 != 0 && self_matches {
        ids.push(ContactId::new(1));
    }
    ids
}

impl ContactId {
    /// The contact ID with number `id`.
    pub closed spec fn spec_new(id: u32) -> ContactId {
        ContactId(id)
    }

    /// The contact ID made from a number has that number.
    pub proof fn lemma_spec_new_id(id: u32)
        ensures
            ContactId::spec_new(id).id() == id,
    {
    }
}

/// Code points of `a` come before those of `b` in lexicographic order, which is the
/// byte order of their UTF-8 encodings.
pub open spec fn seq_lt(a: Seq<char>, b: Seq<char>) -> bool
    decreases a.len(),
{
    if a.len() == 0 {
        b.len() > 0
    } else if b.len() == 0 {
        false
    } else if a[0] != b[0] {
        (a[0] as u32) < (b[0] as u32)
    } else {
        seq_lt(a.skip(1), b.skip(1))
    }
}

fn chars_lt(a: &[char], b: &[char]) -> (r: bool)
    ensures
        r == seq_lt(a@, b@),
{
    let mut i: usize = 0;
    proof {
        assert(a@.skip(0) =~= a@);
        assert(b@.skip(0) =~= b@);
    }
    while i < a.len() && i < b.len() && a[i] == b[i]
        invariant
            i <= a.len(),
            i <= b.len(),
            seq_lt(a@, b@) == seq_lt(a@.skip(i as int), b@.skip(i as int)),
        decreases a.len() - i,
    {
        proof {
            assert(a@.skip(i as int).skip(1) =~= a@.skip(i + 1));
            assert(b@.skip(i as int).skip(1) =~= b@.skip(i + 1));
        }
        i += 1;
    }
    if i == a.len() {
        i < b.len()
    } else if i == b.len() {
        false
    } else {
        (a[i] as u32) < (b[i] as u32)
    }
}

/// The encryption info text of a contact: the stock message, the fingerprints of
/// both sides (the side whose address sorts first comes first), and the relays from
/// the contact's key, if any.
pub open spec fn spec_encrinfo(
    stock_message: Seq<char>,
    finger_prints: Seq<char>,
    self_name: Seq<char>,
    self_addr: Seq<char>,
    self_fp: Seq<char>,
    contact_name: Seq<char>,
    contact_addr: Seq<char>,
    contact_fp: Seq<char>,
    relays: Option<Seq<Seq<char>>>,
) -> Seq<char> {
    let head = stock_message + seq!['\n'] + finger_prints + seq![':'];
    let me = fingerprint_entry(self_name, self_addr, self_fp);
    let other = fingerprint_entry(contact_name, contact_addr, contact_fp);
    let fps = if seq_lt(self_addr, contact_addr) {
        me + other
    } else {
        other + me
    };
    head + fps + match relays {
        Some(r) => "\n\nRelays:"@ + relay_lines(r),
        None => Seq::empty(),
    }
}

/// One name, address and fingerprint, as `cat_fingerprint` appends it.
pub open spec fn fingerprint_entry(name: Seq<char>, addr: Seq<char>, fp: Seq<char>) -> Seq<char> {
    seq!['\n', '\n'] + name + seq![' ', '('] + addr + seq![')', ':', '\n'] + fp
}

/// Each relay on a line of its own.
pub open spec fn relay_lines(r: Seq<Seq<char>>) -> Seq<char>
    decreases r.len(),
{
    if r.len() == 0 {
        Seq::empty()
    } else {
        relay_lines(r.drop_last()) + seq!['\n'] + r.last()
    }
}

/// The encryption info text starts with the stock message and the fingerprints heading,
/// and goes on with two entries `\n\n{name} ({addr}):\n{fingerprint}`: the own one, which
/// carries the own fingerprint, and the contact's, which carries the contact's; the
/// entry whose address sorts first comes first.
pub proof fn encrinfo_shows_both_fingerprints(
    stock_message: Seq<char>,
    finger_prints: Seq<char>,
    self_name: Seq<char>,
    self_addr: Seq<char>,
    self_fp: Seq<char>,
    contact_name: Seq<char>,
    contact_addr: Seq<char>,
    contact_fp: Seq<char>,
    relays: Option<Seq<Seq<char>>>,
    r: Seq<char>,
)
    requires
        r == spec_encrinfo(
            stock_message,
            finger_prints,
            self_name,
            self_addr,
            self_fp,
            contact_name,
            contact_addr,
            contact_fp,
            relays,
        ),
    ensures
        ({
            let head = stock_message + seq!['\n'] + finger_prints + seq![':'];
            let own = seq!['\n', '\n'] + self_name + seq![' ', '('] + self_addr + seq![')', ':', '\n']
                + self_fp;
            let theirs = seq!['\n', '\n'] + contact_name + seq![' ', '('] + contact_addr + seq![
                ')',
                ':',
                '\n',
            ] + contact_fp;
            let (first, second) = if seq_lt(self_addr, contact_addr) {
                (own, theirs)
            } else {
                (theirs, own)
            };
            let h = head.len() as int;
            let f = first.len() as int;
            let g = second.len() as int;
            &&& r.len() >= h + f + g
            &&& r.subrange(0, h) == head
            &&& r.subrange(h, h + f) == first
            &&& r.subrange(h + f, h + f + g) == second
        }),
{
    let head = stock_message + seq!['\n'] + finger_prints + seq![':'];
    let own = fingerprint_entry(self_name, self_addr, self_fp);
    let theirs = fingerprint_entry(contact_name, contact_addr, contact_fp);
    let (first, second) = if seq_lt(self_addr, contact_addr) {
        (own, theirs)
    } else {
        (theirs, own)
    };
    let tail = match relays {
        Some(rl) => "\n\nRelays:"@ + relay_lines(rl),
        None => Seq::<char>::empty(),
    };
    let h = head.len() as int;
    let f = first.len() as int;
    let g = second.len() as int;
    assert(r == head + first + second + tail);
    assert(r.subrange(0, h) =~= head);
    assert(r.subrange(h, h + f) =~= first);
    assert(r.subrange(h + f, h + f + g) =~= second);
}

/// Writes the encryption info text of a contact.
pub fn encrinfo_text(
    stock_message: &str,
    finger_prints: &str,
    self_name: &str,
    self_addr: &str,
    self_fp: &str,
    contact_name: &str,
    contact_addr: &str,
    contact_fp: &str,
    relays: &Option<Vec<String>>,
) -> (r: String)
    ensures
        r@ == spec_encrinfo(
            stock_message@,
            finger_prints@,
            self_name@,
            self_addr@,
            self_fp@,
            contact_name@,
            contact_addr@,
            contact_fp@,
            relays.deep_view(),
        ),
{
    let mut ret = String::new();
    push_all(&mut ret, &chars_of(stock_message));
    ret.push('\n');
    push_all(&mut ret, &chars_of(finger_prints));
    ret.push(':');
    let ghost head = ret@;
    if chars_lt(&chars_of(self_addr), &chars_of(contact_addr)) {
        cat_fingerprint(&mut ret, self_name, self_addr, self_fp);
        cat_fingerprint(&mut ret, contact_name, contact_addr, contact_fp);
    } else {
        cat_fingerprint(&mut ret, contact_name, contact_addr, contact_fp);
        cat_fingerprint(&mut ret, self_name, self_addr, self_fp);
    }
    let ghost with_fps = ret@;
    proof {
        assert(head =~= stock_message@ + seq!['\n'] + finger_prints@ + seq![':']);
        let me = fingerprint_entry(self_name@, self_addr@, self_fp@);
        let other = fingerprint_entry(contact_name@, contact_addr@, contact_fp@);
        assert(with_fps =~= head + if seq_lt(self_addr@, contact_addr@) {
            me + other
        } else {
            other + me
        });
    }
    if let Some(relay_addrs) = relays {
        push_all(&mut ret, &lit("\n\nRelays:"));
        let mut i: usize = 0;
        proof {
            assert(relay_addrs.deep_view().take(0) =~= Seq::<Seq<char>>::empty());
        }
        while i < relay_addrs.len()
            invariant
                i <= relay_addrs.len(),
                ret@ == with_fps + "\n\nRelays:"@ + relay_lines(relay_addrs.deep_view().take(i as int)),
            decreases relay_addrs.len() - i,
        {
            ret.push('\n');
            push_all(&mut ret, &chars_of(relay_addrs[i].as_str()));
            proof {
                let d = relay_addrs.deep_view();
                assert(d.take(i + 1).drop_last() =~= d.take(i as int));
                assert(ret@ =~= with_fps + "\n\nRelays:"@ + relay_lines(d.take(i + 1)));
            }
            i += 1;
        }
        proof {
            assert(relay_addrs.deep_view().take(relay_addrs.len() as int) =~= relay_addrs.deep_view());
            assert(ret@ =~= with_fps + ("\n\nRelays:"@ + relay_lines(relay_addrs.deep_view())));
        }
    } else {
        proof {
            assert(ret@ =~= with_fps + Seq::<char>::empty());
        }
    }
    ret
}

/// The contact to add for one entry of an address book: its name and address
/// sanitized, the address normalized; or why the address is not valid.
pub fn address_book_entry(name: &str, addr: &str) -> (r: Result<(String, ContactAddress), AddressError>)
    ensures
        ({
            let s = spec_sanitize_name_and_addr(
                name@,
                addr@,
                regex_captures_result(name_addr_pattern(), addr@),
            );
            match r {
                Ok((n, a)) => n@ == s.0 && a.addr() == spec_addr_normalize(s.1) && spec_parse_email(
                    spec_addr_normalize(s.1),
                ) is Ok,
                Err(e) => spec_parse_email(spec_addr_normalize(s.1)) == Err::<
                    (Seq<char>, Seq<char>),
                    AddressError,
                >(e),
            }
        }),
{
    let (n, a) = sanitize_name_and_addr(name, addr);
    match ContactAddress::new(a.as_str()) {
        Ok(ca) => Ok((n, ca)),
        Err(e) => Err(e),
    }
}

/// How a renamed contact is identified to the other devices.
#[derive(Debug, Clone, PartialEq, Eq)]
pub enum ContactSyncId {
    /// By its address.
    ContactAddr(String),
    /// By the fingerprint of its key.
    ContactFingerprint(String),
}

/// How a renamed contact is identified to the other devices: by the fingerprint of
/// its key, or by its address where it has no key.
pub fn rename_sync_id(addr: String, fingerprint: String) -> (r: ContactSyncId)
    ensures
        fingerprint@.len() == 0 ==> r == ContactSyncId::ContactAddr(addr),
        fingerprint@.len() > 0 ==> r == ContactSyncId::ContactFingerprint(fingerprint),
{
    if fingerprint.as_str().is_empty() {
        ContactSyncId::ContactAddr(addr)
    } else {
        ContactSyncId::ContactFingerprint(fingerprint)
    }
}

/// What follows adding or looking up a contact from a vCard.
#[derive(Debug, Clone, Copy, PartialEq, Eq, Structural)]
pub struct VcardImportFollowUp {
    /// Whether a change of contacts is reported.
    pub report_change: bool,
    /// Whether the vCard's avatar and biography are stored: only for a new contact.
    pub store_details: bool,
}

/// What follows adding or looking up the contact of a vCard: a change is reported
/// unless nothing changed, and the avatar and biography are stored only for a contact
/// that was created.
pub fn vcard_import_follow_up(modified: Modifier) -> (r: VcardImportFollowUp)
    ensures
        r.report_change == (modified != Modifier::Unchanged),
        r.store_details == (modified == Modifier::Created),
{
    VcardImportFollowUp {
        report_change: modified != Modifier::Unchanged,
        store_details: modified == Modifier::Created,
    }
}

/// Where the color of a contact comes from: gray, or the hue derived from a text.
#[derive(Debug, Clone, PartialEq, Eq)]
pub enum ColorSource {
    /// Gray, `0x808080`: oneself without a key yet.
    Gray,
    /// The color that `str_to_color` derives from this text.
    FromText(String),
}

/// The gray of oneself without a key.
pub const SELF_GRAY: u32 = 0x808080;

/// `c` is an ASCII hexadecimal digit.
pub open spec fn is_hex_digit(c: char) -> bool {
    ('0' <= c && c <= '9') || ('a' <= c && c <= 'f') || ('A' <= c && c <= 'F')
}

/// The hexadecimal digit `c` in uppercase.
pub open spec fn hex_digit_upper(c: char) -> char {
    if c == 'a' {
        'A'
    } else if c == 'b' {
        'B'
    } else if c == 'c' {
        'C'
    } else if c == 'd' {
        'D'
    } else if c == 'e' {
        'E'
    } else if c == 'f' {
        'F'
    } else {
        c
    }
}

/// The hexadecimal digits among `s`, in order and in uppercase.
pub open spec fn upper_hex_digits(s: Seq<char>) -> Seq<char>
    decreases s.len(),
{
    if s.len() == 0 {
        Seq::empty()
    } else if is_hex_digit(s.last()) {
        upper_hex_digits(s.drop_last()).push(hex_digit_upper(s.last()))
    } else {
        upper_hex_digits(s.drop_last())
    }
}

/// The OpenPGP fingerprint that the text `s` holds, in uppercase hexadecimal: the
/// hexadecimal digits of the uppercase form of `s`, where they are the forty of a
/// twenty-byte fingerprint; `None` where they are not.
pub open spec fn spec_fingerprint_hex(s: Seq<char>) -> Option<Seq<char>> {
    let h = upper_hex_digits(uppercase(s));
    if h.len() == 40 {
        Some(h)
    } else {
        None
    }
}

fn hex_digit_upper_exec(c: char) -> (r: char)
    ensures
        r == hex_digit_upper(c),
{
    match c {
        'a' => 'A',
        'b' => 'B',
        'c' => 'C',
        'd' => 'D',
        'e' => 'E',
        'f' => 'F',
        _ => c,
    }
}

/// Parses a stored fingerprint and gives it in uppercase hexadecimal: the text is
/// uppercased, everything but hexadecimal digits is dropped (spaces and the like), and
/// the digits must be the forty of a twenty-byte fingerprint.
pub fn fingerprint_hex(s: &str) -> (r: Option<String>)
    ensures
        r.deep_view() == spec_fingerprint_hex(s@),
{
    let up = crate::text::to_uppercase(s);
    let v = chars_of(up.as_str());
    let mut out: Vec<char> = Vec::new();
    let mut i: usize = 0;
    while i < v.len()
        invariant
            i <= v@.len(),
            out@ == upper_hex_digits(v@.take(i as int)),
        decreases v@.len() - i,
    {
        let c = v[i];
        proof {
            assert(v@.take(i + 1).drop_last() == v@.take(i as int));
            assert(v@.take(i + 1).last() == c);
        }
        if ('0' <= c && c <= '9') || ('a' <= c && c <= 'f') || ('A' <= c && c <= 'F') {
            out.push(hex_digit_upper_exec(c));
        }
        i += 1;
    }
    proof {
        assert(v@.take(v@.len() as int) == v@);
    }
    if out.len() == 40 {
        Some(string_of(&out))
    } else {
        None
    }
}

/// What stands before the character at `i` of a fingerprint written for people: a line
/// break before every twentieth, a space before every other fourth, nothing else.
pub open spec fn fingerprint_separator(i: int) -> Seq<char> {
    if i > 0 && i % 20 == 0 {
        seq!['\n']
    } else if i > 0 && i % 4 == 0 {
        seq![' ']
    } else {
        Seq::empty()
    }
}

/// The hexadecimal fingerprint `hex` written for people: in groups of four digits
/// separated by spaces, five groups to a line.
pub open spec fn spec_human_readable(hex: Seq<char>) -> Seq<char>
    decreases hex.len(),
{
    if hex.len() == 0 {
        Seq::empty()
    } else {
        spec_human_readable(hex.drop_last()) + fingerprint_separator(hex.len() - 1) + seq![hex.last()]
    }
}

/// Writes the hexadecimal fingerprint `hex` for people: in groups of four digits
/// separated by spaces, five groups to a line.
pub fn fingerprint_human_readable(hex: &str) -> (r: String)
    ensures
        r@ == spec_human_readable(hex@),
{
    let v = chars_of(hex);
    let mut out = String::new();
    let mut i: usize = 0;
    while i < v.len()
        invariant
            i <= v@.len(),
            out@ == spec_human_readable(v@.take(i as int)),
        decreases v@.len() - i,
    {
        let ghost before = out@;
        proof {
            assert(v@.take(i + 1).drop_last() == v@.take(i as int));
            assert(v@.take(i + 1).last() == v@[i as int]);
        }
        if i > 0 && i % 20 == 0 {
            out.push('\n');
        } else if i > 0 && i % 4 == 0 {
            out.push(' ');
        }
        out.push(v[i]);
        proof {
            assert(out@ =~= before + fingerprint_separator(i as int) + seq![v@[i as int]]);
        }
        i += 1;
    }
    proof {
        assert(v@.take(v@.len() as int) == v@);
    }
    out
}

/// The fingerprint that an optional stored fingerprint holds, as `fingerprint_hex`
/// parses it.
pub open spec fn parsed_fingerprint(f: Option<Seq<char>>) -> Option<Seq<char>> {
    match f {
        Some(t) => spec_fingerprint_hex(t),
        None => None,
    }
}

/// Where the color of a contact with the given attributes comes from: the fingerprint
/// of a key-contact, where it parses, in uppercase hexadecimal; gray for oneself
/// otherwise; else the lowercased address, so that the case of its letters does not
/// change the color.
pub fn get_color(is_self: bool, addr: &str, fingerprint: Option<&str>) -> (r: ColorSource)
    ensures
        match parsed_fingerprint(fingerprint.deep_view()) {
            Some(h) => r is FromText && r->FromText_0@ == h,
            None => if is_self {
                r == ColorSource::Gray
            } else {
                r is FromText && r->FromText_0@ == crate::text::lowercase(addr@) && (
                crate::text::all_ascii(addr@) ==> r->FromText_0@ == crate::text::ascii_lower(addr@))
            },
        },
{
    let parsed = match fingerprint {
        Some(f) => fingerprint_hex(f),
        None => None,
    };
    match parsed {
        Some(h) => ColorSource::FromText(h),
        None => if is_self {
            ColorSource::Gray
        } else {
            ColorSource::FromText(crate::text::to_lowercase(addr))
        },
    }
}

impl Contact {
    /// Where the color of the contact comes from: see [`get_color`].
    pub fn get_color(&self) -> (r: ColorSource)
        ensures
            match parsed_fingerprint(self.fingerprint_view()) {
                Some(h) => r is FromText && r->FromText_0@ == h,
                None => if self.id_view().id() == 1 {
                    r == ColorSource::Gray
                } else {
                    r is FromText && r->FromText_0@ == crate::text::lowercase(self.addr_view()) && (
                    crate::text::all_ascii(self.addr_view()) ==> r->FromText_0@
                        == crate::text::ascii_lower(self.addr_view()))
                },
            },
    {
        get_color(self.id.to_u32() == 1, self.addr.as_str(), self.fingerprint())
    }
}

/// The fingerprint stored for the contact of a blocked mailing list or broadcast
/// channel: a marker for a channel, so that it counts as a key-contact and gets no
/// letter icon; none for a mailing list.
pub fn blocked_list_fingerprint(chat_type: crate::chat::Chattype) -> (r: &'static str)
    ensures
        chat_type == crate::chat::Chattype::InBroadcast ==> r@ == "Blocked_broadcast"@,
        chat_type != crate::chat::Chattype::InBroadcast ==> r@ == ""@,
{
    if chat_type == crate::chat::Chattype::InBroadcast {
        "Blocked_broadcast"
    } else {
        ""
    }
}

/// The name from which a renamed contact's searchable form is made: the new name, or
/// the contact's own name where the new name is empty.
pub fn name_to_normalize<'a>(name: &'a str, authname: &'a str) -> (r: &'a str)
    ensures
        r@ == if name@.len() > 0 {
            name@
        } else {
            authname@
        },
{
    if !name.is_empty() {
        name
    } else {
        authname
    }
}

} // verus!
