use deltachat_core::configure::{
    add_entered_servers, autoconfig_sources, autoconfig_step, chatmail_flag_update, configure_start, configured_certificate_checks,
    configured_param_from_servers, connection_security, nicer_configuration_error, percent_encode_query,
    AutoconfigKind, AutoconfigStep, ConfigureError, ConfiguredCertificateChecks, ConnectionSecurity, Protocol, ServerParams,
};
use deltachat_core::login_param::{
    EnteredCertificateChecks, EnteredImapLoginParam, EnteredLoginParam, EnteredSmtpLoginParam, Socket,
};

fn entered(addr: &str, user: &str, password: &str) -> EnteredLoginParam {
    EnteredLoginParam {
        addr: addr.to_string(),
        imap: EnteredImapLoginParam {
            server: "".to_string(),
            port: 0,
            folder: "".to_string(),
            security: Socket::Automatic,
            user: user.to_string(),
            password: password.to_string(),
        },
        smtp: EnteredSmtpLoginParam {
            server: "".to_string(),
            port: 0,
            security: Socket::Automatic,
            user: "".to_string(),
            password: "".to_string(),
        },
        certificate_checks: EnteredCertificateChecks::Automatic,
        oauth2: false,
    }
}

#[test]
fn configure_start_checks_input() {
    assert_eq!(configure_start(&entered("", "", "x"), false).unwrap_err(), ConfigureError::MissingAddress);
    assert_eq!(
        configure_start(&entered("a@b.c", "", ""), false).unwrap_err(),
        ConfigureError::MissingPassword
    );
    assert_eq!(configure_start(&entered("nope", "", "x"), false).unwrap_err(), ConfigureError::BadAddress);
    let s = configure_start(&entered("alice@example.org", "", "foobar"), false).unwrap();
    assert_eq!(s.domain, "example.org");
    assert_eq!(s.smtp_password, "foobar");
    assert!(s.wants_autoconfig);
    let s = configure_start(&entered("alice@example.org", "alice@example.net", "foobar"), false).unwrap();
    assert!(!s.wants_autoconfig);
    let s = configure_start(&entered("alice@example.org", "", "foobar"), true).unwrap();
    assert!(!s.wants_autoconfig);
}

#[test]
fn configured_param_keeps_entered_users() {
    let p = entered("alice@example.org", "alice@example.net", "foobar");
    let servers = add_entered_servers(Vec::new(), &p);
    assert_eq!(servers.len(), 2);
    assert_eq!(servers[0].protocol, Protocol::Imap);
    assert_eq!(servers[0].username, "alice@example.net");
    assert_eq!(servers[1].protocol, Protocol::Smtp);
    assert_eq!(servers[1].username, "");
    let c = configured_param_from_servers(&p, &servers, "foobar".to_string());
    assert_eq!(c.imap_user, "alice@example.net");
    assert_eq!(c.smtp_user, "");
    assert!(c.imap.is_empty());
    assert_eq!(c.imap_folder, None);
}

#[test]
fn configured_servers_need_definite_security() {
    let p = entered("alice@example.org", "", "foobar");
    let found = vec![
        ServerParams {
            protocol: Protocol::Imap,
            hostname: "imap.example.org".to_string(),
            port: 993,
            socket: Socket::Ssl,
            username: "alice".to_string(),
        },
        ServerParams {
            protocol: Protocol::Imap,
            hostname: "mail.example.org".to_string(),
            port: 143,
            socket: Socket::Automatic,
            username: "alice".to_string(),
        },
    ];
    let servers = add_entered_servers(found, &p);
    assert_eq!(servers.len(), 3);
    assert_eq!(servers[2].protocol, Protocol::Smtp);
    let c = configured_param_from_servers(&p, &servers, "pw".to_string());
    assert_eq!(c.imap.len(), 1);
    assert_eq!(c.imap[0].connection.host, "imap.example.org");
    assert_eq!(c.imap[0].connection.security, ConnectionSecurity::Tls);
    assert_eq!(c.smtp.len(), 0);
    assert_eq!(c.smtp_password, "pw");
    assert_eq!(connection_security(Socket::Starttls), Some(ConnectionSecurity::Starttls));
    assert_eq!(
        configured_certificate_checks(EnteredCertificateChecks::AcceptInvalidCertificates2),
        ConfiguredCertificateChecks::AcceptInvalidCertificates
    );
}

#[test]
fn configuration_errors_read_better() {
    assert_eq!(
        nicer_configuration_error("DNS: Could Not Resolve host".to_string(), "No network."),
        "No network."
    );
    assert_eq!(
        nicer_configuration_error("Login failed".to_string(), "No network."),
        "Login failed"
    );
}

#[test]
fn autoconfig_urls() {
    assert_eq!(percent_encode_query("foo.bar+x@example.org"), "foo.bar%2Bx%40example.org");
    assert_eq!(percent_encode_query("ä"), "%C3%A4");
    let s = autoconfig_sources("a@example.org", "example.org");
    assert_eq!(s.len(), 5);
    assert_eq!(
        s[0].url,
        "https://autoconfig.example.org/mail/config-v1.1.xml?emailaddress=a%40example.org"
    );
    assert_eq!(s[0].kind, AutoconfigKind::Mozilla);
    assert_eq!(s[1].url, "https://example.org/.well-known/autoconfig/mail/config-v1.1.xml");
    assert_eq!(s[2].url, "https://example.org/autodiscover/autodiscover.xml");
    assert_eq!(s[2].kind, AutoconfigKind::Outlook);
    assert_eq!(s[3].url, "https://autodiscover.example.org/autodiscover/autodiscover.xml");
    assert_eq!(s[4].url, "https://autoconfig.thunderbird.net/v1.1/example.org");
    assert_eq!(s[4].progress_on_failure, None);
    assert_eq!(s[0].progress_on_failure, Some(300));
}

#[test]
fn chatmail_flag_after_login() {
    assert_eq!(chatmail_flag_update(true, true, false), None);
    assert_eq!(chatmail_flag_update(false, true, true), Some(true));
    assert_eq!(chatmail_flag_update(false, false, false), Some(false));
    assert_eq!(chatmail_flag_update(false, false, true), None);
}

#[test]
fn autoconfig_tries_places_in_order() {
    let sources = autoconfig_sources("alice@example.org", "example.org");
    let server = ServerParams {
        protocol: Protocol::Imap,
        hostname: "imap.example.org".to_string(),
        port: 993,
        socket: Socket::Ssl,
        username: "alice".to_string(),
    };
    match autoconfig_step(&sources, 0, None) {
        AutoconfigStep::TryNext { progress, next } => {
            assert_eq!(progress, Some(300));
            assert_eq!(next, 1);
        }
        other => panic!("unexpected step {other:?}"),
    }
    match autoconfig_step(&sources, 3, None) {
        AutoconfigStep::TryNext { progress, next } => {
            assert_eq!(progress, Some(330));
            assert_eq!(next, 4);
        }
        other => panic!("unexpected step {other:?}"),
    }
    match autoconfig_step(&sources, 4, None) {
        AutoconfigStep::GiveUp { progress } => assert_eq!(progress, None),
        other => panic!("unexpected step {other:?}"),
    }
    match autoconfig_step(&sources, 2, Some(vec![server])) {
        AutoconfigStep::Found(servers) => {
            assert_eq!(servers.len(), 1);
            assert_eq!(servers[0].hostname, "imap.example.org");
        }
        other => panic!("unexpected step {other:?}"),
    }
}

#[test]
fn autoconfig_takes_first_settings_found() {
    let sources = autoconfig_sources("alice@example.org", "example.org");
    let server = |host: &str| ServerParams {
        protocol: Protocol::Smtp,
        hostname: host.to_string(),
        port: 465,
        socket: Socket::Ssl,
        username: "alice".to_string(),
    };
    let results = vec![None, None, Some(vec![server("first")]), Some(vec![server("second")]), None];
    let mut index = 0;
    let mut reported = Vec::new();
    let taken = loop {
        match autoconfig_step(&sources, index, results[index].clone()) {
            AutoconfigStep::Found(servers) => break Some(servers),
            AutoconfigStep::TryNext { progress, next } => {
                reported.extend(progress);
                index = next;
            }
            AutoconfigStep::GiveUp { progress } => {
                reported.extend(progress);
                break None;
            }
        }
    };
    assert_eq!(taken.unwrap()[0].hostname, "first");
    assert_eq!(reported, vec![300, 310]);
}
