use deltachat_core::contact_tools::{
    addr_cmp, addr_normalize, may_be_valid_addr, sanitize_bidi_characters, sanitize_name,
    sanitize_name_and_addr, sanitize_single_line, AddressError, ContactAddress, EmailAddress,
};

#[test]
fn test_contact_address() -> Result<(), AddressError> {
    let alice_addr = "alice@example.org";
    let contact_address = ContactAddress::new(alice_addr)?;
    assert_eq!(contact_address.as_ref(), alice_addr);

    let invalid_addr = "<> foobar";
    assert!(ContactAddress::new(invalid_addr).is_err());

    Ok(())
}

#[test]
fn test_emailaddress_parse() {
    assert_eq!(EmailAddress::new("").is_ok(), false);
    assert_eq!(
        EmailAddress::new("user@domain.tld").unwrap(),
        EmailAddress {
            local: "user".into(),
            domain: "domain.tld".into(),
        }
    );
    assert_eq!(
        EmailAddress::new("user@localhost").unwrap(),
        EmailAddress {
            local: "user".into(),
            domain: "localhost".into()
        }
    );
    assert_eq!(EmailAddress::new("uuu").is_ok(), false);
    assert_eq!(EmailAddress::new("dd.tt").is_ok(), false);
    assert!(EmailAddress::new("tt.dd@uu").is_ok());
    assert!(EmailAddress::new("u@d").is_ok());
    assert!(EmailAddress::new("u@d.").is_err());
    assert!(EmailAddress::new("u@d.t").is_ok());
    assert_eq!(
        EmailAddress::new("u@d.tt").unwrap(),
        EmailAddress {
            local: "u".into(),
            domain: "d.tt".into(),
        }
    );
    assert!(EmailAddress::new("u@tt").is_ok());
    assert_eq!(EmailAddress::new("@d.tt").is_ok(), false);
}

#[test]
fn test_sanitize_name() {
    assert_eq!(&sanitize_name(" hello world   "), "hello world");
    assert_eq!(&sanitize_name("<"), "<");
    assert_eq!(&sanitize_name(">"), ">");
    assert_eq!(&sanitize_name("'"), "'");
    assert_eq!(&sanitize_name("\""), "\"");
}

#[test]
fn test_sanitize_single_line() {
    assert_eq!(sanitize_single_line("Hi\naiae "), "Hi aiae");
    assert_eq!(sanitize_single_line("\r\nahte\n\r"), "ahte");
}

#[test]
fn test_sanitize_bidi_characters() {
    // Legit inputs:
    assert_eq!(
        &sanitize_bidi_characters("Tes\u{2067}ting Delta Chat\u{2069}"),
        "Tes\u{2067}ting Delta Chat\u{2069}"
    );

    assert_eq!(
        &sanitize_bidi_characters("Tes\u{2067}ting \u{2068} Delta Chat\u{2069}\u{2069}"),
        "Tes\u{2067}ting \u{2068} Delta Chat\u{2069}\u{2069}"
    );

    assert_eq!(
        &sanitize_bidi_characters("Tes\u{2067}ting\u{2069} Delta Chat\u{2067}\u{2069}"),
        "Tes\u{2067}ting\u{2069} Delta Chat\u{2067}\u{2069}"
    );

    // Potentially-malicious inputs:
    assert_eq!(
        &sanitize_bidi_characters("Tes\u{202C}ting Delta Chat"),
        "Testing Delta Chat"
    );

    assert_eq!(
        &sanitize_bidi_characters("Testing Delta Chat\u{2069}"),
        "Testing Delta Chat"
    );

    assert_eq!(
        &sanitize_bidi_characters("Tes\u{2067}ting Delta Chat"),
        "Testing Delta Chat"
    );

    assert_eq!(
        &sanitize_bidi_characters("Tes\u{2069}ting Delta Chat\u{2067}"),
        "Testing Delta Chat"
    );

    assert_eq!(
        &sanitize_bidi_characters("Tes\u{2068}ting Delta Chat"),
        "Testing Delta Chat"
    );
}

#[test]
fn sanitize_bidi_is_idempotent_on_examples() {
    for s in [
        "Tes\u{2067}ting Delta Chat",
        "a\u{2066}b\u{2069}c\u{2069}",
        "\u{202E}evil",
        "plain",
    ] {
        let once = sanitize_bidi_characters(s);
        let twice = sanitize_bidi_characters(&once);
        assert_eq!(once, twice);
        assert!(!once.contains('\u{202E}'));
    }
}

#[test]
fn sanitize_single_line_never_keeps_newlines() {
    let out = sanitize_single_line("a\r\nb\nc\rd");
    assert!(!out.contains('\n') && !out.contains('\r'));
    assert_eq!(out, "a  b c d");
}

#[test]
fn email_address_errors() {
    assert_eq!(EmailAddress::new(""), Err(AddressError::Empty));
    assert_eq!(EmailAddress::new("a b@c.d"), Err(AddressError::ForbiddenChar));
    assert_eq!(EmailAddress::new("uuu"), Err(AddressError::MissingAt));
    assert_eq!(EmailAddress::new("@d.tt"), Err(AddressError::EmptyLocal));
    assert_eq!(EmailAddress::new("u@"), Err(AddressError::EmptyDomain));
    assert_eq!(EmailAddress::new("u@d."), Err(AddressError::DomainEndsWithDot));
}

#[test]
fn email_address_round_trips_through_text() {
    let a = EmailAddress::new("tt.dd@uu").unwrap();
    assert_eq!(a.to_string(), "tt.dd@uu");
    assert_eq!(EmailAddress::new(&a.to_string()).unwrap(), a);
}

#[test]
fn addr_cmp_is_symmetric_on_examples() {
    assert!(addr_cmp("Aa@Aa.orG", " mailto:AA@AA.ORG"));
    assert!(!addr_cmp("a@b.c", "b@b.c"));
    assert_eq!(addr_normalize(" MAILTO:Bob@Example.ORG "), "bob@example.org");
}

#[test]
fn sanitize_name_and_addr_takes_name_from_address() {
    let (name, addr) = sanitize_name_and_addr("", "Mueller, Dave <dave@example.org>");
    assert_eq!(name, "Mueller, Dave");
    assert_eq!(addr, "dave@example.org");
    let (name, addr) = sanitize_name_and_addr("dave@example.org", "dave@example.org");
    assert_eq!(name, "");
    assert_eq!(addr, "dave@example.org");
}

#[test]
fn contact_address_is_normalized() {
    let a = ContactAddress::new(" mailto:Alice@Example.ORG ").unwrap();
    assert_eq!(a.as_ref(), "alice@example.org");
    assert_eq!(a.to_string(), "alice@example.org");
}
