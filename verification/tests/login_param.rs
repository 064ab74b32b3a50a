use deltachat_core::login_param::{
    EnteredCertificateChecks, EnteredImapLoginParam, EnteredLoginParam, EnteredSmtpLoginParam,
    LegacyConfig, LoginParamError, Socket,
};

#[test]
fn test_entered_certificate_checks_display() {
    assert_eq!(
        "accept_invalid_certificates".to_string(),
        EnteredCertificateChecks::AcceptInvalidCertificates.to_string()
    );
}

fn empty_config() -> LegacyConfig {
    LegacyConfig {
        addr: None,
        mail_server: None,
        mail_port: None,
        mail_security: None,
        mail_user: None,
        mail_pw: None,
        imap_certificate_checks: None,
        send_server: None,
        send_port: None,
        send_security: None,
        send_user: None,
        send_pw: None,
    }
}

#[test]
fn legacy_settings_load() {
    let mut c = empty_config();
    c.addr = Some("alice@example.org".to_string());
    c.mail_pw = Some("foobarbaz".to_string());
    let param = EnteredLoginParam::load_legacy(&c).unwrap();
    assert_eq!(param.addr, "alice@example.org");
    assert_eq!(param.certificate_checks, EnteredCertificateChecks::Automatic);
    assert_eq!(param.imap.password, "foobarbaz");

    c.imap_certificate_checks = Some("1".to_string());
    let param = EnteredLoginParam::load_legacy(&c).unwrap();
    assert_eq!(param.certificate_checks, EnteredCertificateChecks::Strict);

    c.imap_certificate_checks = Some("999".to_string());
    assert_eq!(
        EnteredLoginParam::load_legacy(&c),
        Err(LoginParamError::UnknownCertificateChecks)
    );

    c.imap_certificate_checks = Some("not a number".to_string());
    let param = EnteredLoginParam::load_legacy(&c).unwrap();
    assert_eq!(param.certificate_checks, EnteredCertificateChecks::Automatic);
}

#[test]
fn legacy_settings_parse_numbers() {
    let mut c = empty_config();
    c.addr = Some("  bob@example.org \n".to_string());
    c.mail_port = Some("+993".to_string());
    c.send_port = Some("70000".to_string());
    c.mail_security = Some("1".to_string());
    c.send_security = Some("7".to_string());
    let p = EnteredLoginParam::load_legacy(&c).unwrap();
    assert_eq!(p.addr, "bob@example.org");
    assert_eq!(p.imap.port, 993);
    assert_eq!(p.smtp.port, 0);
    assert_eq!(p.imap.security, Socket::Ssl);
    assert_eq!(p.smtp.security, Socket::Automatic);
}

fn sample_param() -> EnteredLoginParam {
    EnteredLoginParam {
        addr: "alice@example.org".to_string(),
        imap: EnteredImapLoginParam {
            server: "".to_string(),
            port: 0,
            folder: "".to_string(),
            security: Socket::Starttls,
            user: "".to_string(),
            password: "foobar".to_string(),
        },
        smtp: EnteredSmtpLoginParam {
            server: "".to_string(),
            port: 2947,
            security: Socket::default(),
            user: "".to_string(),
            password: "".to_string(),
        },
        certificate_checks: Default::default(),
        oauth2: false,
    }
}

#[test]
fn legacy_settings_save_and_load_back() {
    let param = sample_param();
    let c = param.save_legacy();
    assert_eq!(c.addr.as_deref(), Some("alice@example.org"));
    assert_eq!(c.mail_pw.as_deref(), Some("foobar"));
    assert_eq!(c.send_pw, None);
    assert_eq!(c.send_port.as_deref(), Some("2947"));
    assert_eq!(c.mail_security.as_deref(), Some("2"));
    assert_eq!(c.imap_certificate_checks, None);
    assert_eq!(EnteredLoginParam::load_legacy(&c).unwrap(), param);
}

#[test]
fn login_param_description_hides_passwords() {
    let param = sample_param();
    assert_eq!(
        param.to_string(),
        "alice@example.org imap:unset:***:unset:0:Starttls smtp:unset:0:unset:2947:Automatic cert_automatic"
    );
}

#[test]
fn certificate_checks_numbers() {
    for c in [
        EnteredCertificateChecks::Automatic,
        EnteredCertificateChecks::Strict,
        EnteredCertificateChecks::AcceptInvalidCertificates,
        EnteredCertificateChecks::AcceptInvalidCertificates2,
    ] {
        assert_eq!(EnteredCertificateChecks::from_i32(c.to_i32()), Some(c));
    }
    assert!(EnteredCertificateChecks::AcceptInvalidCertificates2.accept_invalid_certificates());
    assert!(!EnteredCertificateChecks::Strict.accept_invalid_certificates());
    assert_eq!(EnteredCertificateChecks::from_i32(4), None);
    assert_eq!(EnteredCertificateChecks::Strict.to_string(), "strict");
    assert_eq!(Socket::from_i32(3), Some(Socket::Plain));
    assert_eq!(Socket::Plain.to_string(), "Plain");
}
