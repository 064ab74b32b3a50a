use deltachat_core::chat::Chattype;
use deltachat_core::contact::{
    add_or_lookup_prepare, verifier_to_store, AddOrLookupError, AddOrLookupStart, VerificationError, VerifierRow,
    address_book_entry, blocked_list_fingerprint, fingerprint_hex, name_to_normalize, get_color, ColorSource, rename_sync_id, split_address_book, vcard_import_follow_up, verifier_from_stored,
    Contact, ContactId, ContactSyncId, Modifier, Origin,
};
use deltachat_core::contact_tools::{addr_cmp, addr_normalize, may_be_valid_addr, AddressError};

#[test]
fn test_contact_id_values() {
    // Some FFI users need to have the values of these fixed, how naughty.  But let's
    // make sure we don't modify them anyway.
    assert_eq!(ContactId::UNDEFINED().to_u32(), 0);
    assert_eq!(ContactId::SELF().to_u32(), 1);
    assert_eq!(ContactId::INFO().to_u32(), 2);
    assert_eq!(ContactId::DEVICE().to_u32(), 5);
    assert_eq!(ContactId::LAST_SPECIAL().to_u32(), 9);
}

#[test]
fn test_may_be_valid_addr() {
    assert_eq!(may_be_valid_addr(""), false);
    assert_eq!(may_be_valid_addr("user@domain.tld"), true);
    assert_eq!(may_be_valid_addr("uuu"), false);
    assert_eq!(may_be_valid_addr("dd.tt"), false);
    assert_eq!(may_be_valid_addr("tt.dd@uu"), true);
    assert_eq!(may_be_valid_addr("u@d"), true);
    assert_eq!(may_be_valid_addr("u@d."), false);
    assert_eq!(may_be_valid_addr("u@d.t"), true);
    assert_eq!(may_be_valid_addr("u@d.tt"), true);
    assert_eq!(may_be_valid_addr("u@.tt"), true);
    assert_eq!(may_be_valid_addr("@d.tt"), false);
    assert_eq!(may_be_valid_addr("<da@d.tt"), false);
    assert_eq!(may_be_valid_addr("sk <@d.tt>"), false);
    assert_eq!(may_be_valid_addr("as@sd.de>"), false);
    assert_eq!(may_be_valid_addr("ask dkl@dd.tt"), false);
    assert_eq!(may_be_valid_addr("user@domain.tld."), false);
}

#[test]
fn test_normalize_addr() {
    assert_eq!(addr_normalize("mailto:john@doe.com"), "john@doe.com");
    assert_eq!(addr_normalize("  hello@world.com   "), "hello@world.com");
    assert_eq!(addr_normalize("John@Doe.com"), "john@doe.com");
}

#[test]
fn test_split_address_book() {
    let book = "Name one\nAddress one\nName two\nAddress two\nrest name";
    let list = split_address_book(book);
    assert_eq!(
        list,
        vec![("Name one", "Address one"), ("Name two", "Address two")]
    )
}

#[test]
fn test_addr_cmp() {
    assert!(addr_cmp("AA@AA.ORG", "aa@aa.ORG"));
    assert!(addr_cmp(" aa@aa.ORG ", "AA@AA.ORG"));
    assert!(addr_cmp(" mailto:AA@AA.ORG", "Aa@Aa.orG"));
}

#[test]
fn contact_id_special_and_text() {
    assert!(ContactId::new(9).is_special());
    assert!(!ContactId::new(10).is_special());
    assert_eq!(ContactId::SELF().to_string(), "Contact#Self");
    assert_eq!(ContactId::new(7).to_string(), "Contact#Special7");
    assert_eq!(ContactId::new(42).to_string(), "Contact#42");
    assert_eq!(ContactId::default().to_u32(), 0);
}

#[test]
fn origin_numbers_round_trip() {
    for o in [
        Origin::Unknown,
        Origin::Hidden,
        Origin::IncomingReplyTo,
        Origin::CreateChat,
        Origin::AddressBook,
        Origin::ManuallyCreated,
    ] {
        assert_eq!(Origin::from_u32(o.to_u32()), Some(o));
    }
    assert_eq!(Origin::AddressBook.to_u32(), 0x80000);
    assert_eq!(Origin::from_u32(3), None);
    assert!(Origin::IncomingReplyTo.is_known());
    assert!(!Origin::IncomingUnknownTo.is_known());
}

fn sample_contact(name: &str, authname: &str, last_seen: i64) -> Contact {
    Contact::from_row(
        ContactId::new(12),
        name.to_string(),
        "bob@example.org".to_string(),
        Origin::IncomingTo,
        Some(false),
        last_seen,
        authname.to_string(),
        "".to_string(),
        Some("Hello".to_string()),
        false,
        "".to_string(),
    )
}

#[test]
fn contact_names_and_address() {
    let c = sample_contact("", "Bob", 0);
    assert_eq!(c.get_display_name(), "Bob");
    assert_eq!(c.get_name_n_addr(), "Bob (bob@example.org)");
    let c = sample_contact("Robert", "Bob", 0);
    assert_eq!(c.get_display_name(), "Robert");
    assert_eq!(c.get_name(), "Robert");
    assert_eq!(c.get_authname(), "Bob");
    let c = sample_contact("", "", 0);
    assert_eq!(c.get_display_name(), "bob@example.org");
    assert_eq!(c.get_name_n_addr(), "bob@example.org");
    assert_eq!(c.get_status(), "Hello");
    assert_eq!(c.fingerprint(), None);
    assert!(!c.is_key_contact());
    assert!(!c.is_blocked());
    assert_eq!(c.get_id().to_u32(), 12);
}

#[test]
fn contact_seen_recently_window() {
    let c = sample_contact("", "Bob", 1000);
    assert!(c.was_seen_recently_at(1600));
    assert!(!c.was_seen_recently_at(1601));
    assert_eq!(c.last_seen(), 1000);
}

#[test]
fn stored_verifier_ids() {
    let bob = ContactId::new(20);
    assert_eq!(verifier_from_stored(bob, 0), None);
    assert_eq!(verifier_from_stored(bob, 20), Some(None));
    assert_eq!(verifier_from_stored(bob, 21), Some(Some(ContactId::new(21))));
}

#[test]
fn address_book_entries() {
    let (name, addr) = address_book_entry("  Name one  ", " one@eins.org ").unwrap();
    assert_eq!(name, "Name one");
    assert_eq!(addr.as_ref(), "one@eins.org");
    assert_eq!(address_book_entry("Invalid", "+1234567890").unwrap_err(), AddressError::MissingAt);
}

#[test]
fn renamed_contact_sync_ids() {
    assert_eq!(
        rename_sync_id("a@b.c".to_string(), "".to_string()),
        ContactSyncId::ContactAddr("a@b.c".to_string())
    );
    assert_eq!(
        rename_sync_id("a@b.c".to_string(), "ABCD".to_string()),
        ContactSyncId::ContactFingerprint("ABCD".to_string())
    );
}

#[test]
fn vcard_import_follow_ups() {
    let f = vcard_import_follow_up(Modifier::Unchanged);
    assert!(!f.report_change && !f.store_details);
    let f = vcard_import_follow_up(Modifier::Modified);
    assert!(f.report_change && !f.store_details);
    let f = vcard_import_follow_up(Modifier::Created);
    assert!(f.report_change && f.store_details);
}

#[test]
fn contact_color_sources() {
    assert_eq!(get_color(true, "me@example.org", None), ColorSource::Gray);
    assert_eq!(
        get_color(false, "Bob@Example.ORG", None),
        ColorSource::FromText("bob@example.org".to_string())
    );
    let fpr = "1234 5678 9abc def0 1234  5678 9ABC DEF0 1234 5678";
    assert_eq!(
        get_color(true, "me@example.org", Some(fpr)),
        ColorSource::FromText("123456789ABCDEF0123456789ABCDEF012345678".to_string())
    );
    assert_eq!(
        get_color(false, "Bob@example.org", Some(fpr)),
        ColorSource::FromText("123456789ABCDEF0123456789ABCDEF012345678".to_string())
    );
    assert_eq!(get_color(true, "me@example.org", Some("ABCDEF")), ColorSource::Gray);
    assert_eq!(
        get_color(false, "Bob@example.org", Some("ABCDEF")),
        ColorSource::FromText("bob@example.org".to_string())
    );
    assert_eq!(
        fingerprint_hex("12:34:56:78:9a:bc:de:f0:12:34:56:78:9a:bc:de:f0:12:34:56:78").as_deref(),
        Some("123456789ABCDEF0123456789ABCDEF012345678")
    );
    assert_eq!(fingerprint_hex("123456789ABCDEF0123456789ABCDEF01234567"), None);
    assert_eq!(fingerprint_hex(""), None);
    let c = sample_contact("", "Bob", 0);
    assert_eq!(c.get_color(), ColorSource::FromText("bob@example.org".to_string()));
}

#[test]
fn blocked_lists_and_renames() {
    assert_eq!(blocked_list_fingerprint(Chattype::InBroadcast), "Blocked_broadcast");
    assert_eq!(blocked_list_fingerprint(Chattype::Mailinglist), "");
    assert_eq!(name_to_normalize("Bobby", "Bob"), "Bobby");
    assert_eq!(name_to_normalize("", "Bob"), "Bob");
}

#[test]
fn verifier_errors() {
    let bob = ContactId::new(20);
    let carol = ContactId::new(21);
    assert_eq!(verifier_to_store(ContactId::SELF(), None, "FP", &None), Err(VerificationError::IsSelf));
    assert_eq!(verifier_to_store(bob, Some(bob), "FP", &None), Err(VerificationError::VerifiedBySelf));
    assert_eq!(verifier_to_store(bob, Some(carol), "", &None), Err(VerificationError::NotKeyContact));
    assert_eq!(
        verifier_to_store(bob, Some(carol), "FP", &None),
        Err(VerificationError::VerifierNotKeyContact)
    );
    let unverified = Some(VerifierRow { fingerprint: "FP2".to_string(), verifier_id: ContactId::new(0) });
    assert_eq!(
        verifier_to_store(bob, Some(carol), "FP", &unverified),
        Err(VerificationError::VerifierUnverified)
    );
    let verified = Some(VerifierRow { fingerprint: "FP2".to_string(), verifier_id: ContactId::SELF() });
    assert_eq!(verifier_to_store(bob, Some(carol), "FP", &verified), Ok(carol));
    assert_eq!(verifier_to_store(bob, Some(ContactId::SELF()), "FP", &None), Ok(ContactId::SELF()));
}

#[test]
fn add_or_lookup_starts() {
    assert!(matches!(
        add_or_lookup_prepare("", "", "", Origin::IncomingTo, false, false),
        Err(AddOrLookupError::EmptyAddress)
    ));
    assert!(matches!(
        add_or_lookup_prepare("Bob", "bob@example.org", "", Origin::Unknown, false, false),
        Err(AddOrLookupError::MissingOrigin)
    ));
    assert!(matches!(
        add_or_lookup_prepare("Me", "me@example.org", "", Origin::IncomingTo, true, false),
        Ok(AddOrLookupStart::IsSelf)
    ));
    match add_or_lookup_prepare(" Bob ", "noreply@example.org", "", Origin::IncomingTo, false, false) {
        Ok(AddOrLookupStart::Lookup(p)) => {
            assert_eq!(p.origin, Origin::Hidden);
            assert_eq!(p.name, "");
        }
        _ => panic!("expected a lookup"),
    }
    match add_or_lookup_prepare(" Bob ", "bob@example.org", "", Origin::ManuallyCreated, false, false) {
        Ok(AddOrLookupStart::Lookup(p)) => {
            assert_eq!(p.origin, Origin::ManuallyCreated);
            assert_eq!(p.name, "Bob");
            assert!(p.manual);
        }
        _ => panic!("expected a lookup"),
    }
}
