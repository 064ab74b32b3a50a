//! Configuration of a transport: turning the login parameters that the user entered
//! into complete server settings, where to look for autoconfiguration, and how
//! configuration errors are reported.

use vstd::prelude::*;
use vstd::string::StringSliceAdditionalSpecFns;

use percent_encoding::{percent_encode, NON_ALPHANUMERIC};

use crate::contact_tools::{spec_parse_email, EmailAddress};
use crate::login_param::{EnteredCertificateChecks, EnteredLoginParam, Socket};
use crate::text::{chars_of, contains_seq, has_infix, lit, lowercase, push_all, to_lowercase};

verus! {

/// Mail protocol of a server.
#[derive(Debug, Clone, Copy, PartialEq, Eq, Structural)]
pub enum Protocol {
    /// IMAP, for receiving.
    Imap,
    /// SMTP, for sending.
    Smtp,
}

/// The settings of a server, as autoconfiguration or the user give them.
#[derive(Debug, Clone)]
pub struct ServerParams {
    /// Protocol of the server.
    pub protocol: Protocol,
    /// Server hostname; empty if unknown.
    pub hostname: String,
    /// Server port; zero if unknown.
    pub port: u16,
    /// Socket security.
    pub socket: Socket,
    /// Username; empty if unknown.
    pub username: String,
}

/// Security of a connection to a server.
#[derive(Debug, Clone, Copy, PartialEq, Eq, Structural)]
pub enum ConnectionSecurity {
    /// Implicit TLS.
    Tls,
    /// STARTTLS.
    Starttls,
    /// Plaintext.
    Plain,
}

/// A server to connect to.
#[derive(Debug, Clone)]
pub struct ConnectionCandidate {
    /// Server hostname.
    pub host: String,
    /// Server port.
    pub port: u16,
    /// Connection security.
    pub security: ConnectionSecurity,
}

/// A server to connect to, with the user to log in as.
#[derive(Debug, Clone)]
pub struct ConfiguredServerLoginParam {
    /// The server.
    pub connection: ConnectionCandidate,
    /// The user to log in as.
    pub user: String,
}

/// How certificates of configured servers are checked.
#[derive(Debug, Clone, Copy, PartialEq, Eq, Structural)]
pub enum ConfiguredCertificateChecks {
    /// As the provider database says, else strictly.
    Automatic,
    /// Strictly.
    Strict,
    /// Invalid certificates are accepted.
    AcceptInvalidCertificates,
}

/// Complete login parameters of a transport, ready for connecting.
#[derive(Debug, Clone)]
pub struct ConfiguredLoginParam {
    /// Email address.
    pub addr: String,
    /// IMAP servers to try, in order.
    pub imap: Vec<ConfiguredServerLoginParam>,
    /// IMAP username as entered.
    pub imap_user: String,
    /// IMAP password.
    pub imap_password: String,
    /// Folder to watch, if one was entered.
    pub imap_folder: Option<String>,
    /// SMTP servers to try, in order.
    pub smtp: Vec<ConfiguredServerLoginParam>,
    /// SMTP username as entered.
    pub smtp_user: String,
    /// SMTP password.
    pub smtp_password: String,
    /// How certificates are checked.
    pub certificate_checks: ConfiguredCertificateChecks,
}

/// Why login parameters cannot be configured.
#[derive(Debug, Clone, Copy, PartialEq, Eq, Structural)]
pub enum ConfigureError {
    /// No email address was entered.
    MissingAddress,
    /// No IMAP password was entered.
    MissingPassword,
    /// The email address is not well-formed.
    BadAddress,
}

/// What configuring starts from: the domain of the address, the SMTP password, and
/// whether autoconfiguration is asked for.
#[derive(Debug, Clone)]
pub struct ConfigureStart {
    /// Domain of the email address.
    pub domain: String,
    /// The SMTP password, or the IMAP password where none was entered for SMTP.
    pub smtp_password: String,
    /// Whether autoconfiguration is looked for: no server setting was entered and the
    /// network may be used.
    pub wants_autoconfig: bool,
}

/// No server setting was entered: no host, port, security or user, for IMAP or SMTP.
pub open spec fn no_server_settings(p: EnteredLoginParam) -> bool {
    &&& p.imap.server@.len() == 0
    &&& p.imap.port == 0
    &&& p.imap.security == Socket::Automatic
    &&& p.imap.user@.len() == 0
    &&& p.smtp.server@.len() == 0
    &&& p.smtp.port == 0
    &&& p.smtp.security == Socket::Automatic
    &&& p.smtp.user@.len() == 0
}

/// Checks the entered login parameters and works out what configuring starts from.
pub fn configure_start(param: &EnteredLoginParam, skip_network: bool) -> (r: Result<
    ConfigureStart,
    ConfigureError,
>)
    ensures
        match r {
            Ok(s) => {
                &&& param.addr@.len() > 0
                &&& param.imap.password@.len() > 0
                &&& spec_parse_email(param.addr@) matches Ok(parts) && s.domain@ == parts.1
                &&& s.smtp_password@ == if param.smtp.password@.len() == 0 {
                    param.imap.password@
                } else {
                    param.smtp.password@
                }
                &&& s.wants_autoconfig == (no_server_settings(*param) && !skip_network)
            },
            Err(e) => e == if param.addr@.len() == 0 {
                ConfigureError::MissingAddress
            } else if param.imap.password@.len() == 0 {
                ConfigureError::MissingPassword
            } else {
                ConfigureError::BadAddress
            } && (param.addr@.len() > 0 && param.imap.password@.len() > 0 ==> spec_parse_email(
                param.addr@,
            ) is Err),
        },
{
    if param.addr.as_str().is_empty() {
        return Err(ConfigureError::MissingAddress);
    }
    if param.imap.password.as_str().is_empty() {
        return Err(ConfigureError::MissingPassword);
    }
    let smtp_password = if param.smtp.password.as_str().is_empty() {
        param.imap.password.clone()
    } else {
        param.smtp.password.clone()
    };
    let parsed = match EmailAddress::new(param.addr.as_str()) {
        Ok(a) => a,
        Err(_) => {
            return Err(ConfigureError::BadAddress);
        },
    };
    let wants_autoconfig = param.imap.server.as_str().is_empty() && param.imap.port == 0
        && param.imap.security == Socket::Automatic && param.imap.user.as_str().is_empty()
        && param.smtp.server.as_str().is_empty() && param.smtp.port == 0 && param.smtp.security
        == Socket::Automatic && param.smtp.user.as_str().is_empty() && !skip_network;
    Ok(ConfigureStart { domain: parsed.domain, smtp_password, wants_autoconfig })
}

/// Some server of `servers` has the protocol `p`.
pub open spec fn has_protocol(servers: Seq<ServerParams>, p: Protocol) -> bool {
    exists|i: int| 0 <= i < servers.len() && (#[trigger] servers[i]).protocol == p
}

/// The settings of the IMAP server as the user entered them.
pub open spec fn entered_imap(p: EnteredLoginParam, s: ServerParams) -> bool {
    &&& s.protocol == Protocol::Imap
    &&& s.hostname@ == p.imap.server@
    &&& s.port == p.imap.port
    &&& s.socket == p.imap.security
    &&& s.username@ == p.imap.user@
}

/// The settings of the SMTP server as the user entered them.
pub open spec fn entered_smtp(p: EnteredLoginParam, s: ServerParams) -> bool {
    &&& s.protocol == Protocol::Smtp
    &&& s.hostname@ == p.smtp.server@
    &&& s.port == p.smtp.port
    &&& s.socket == p.smtp.security
    &&& s.username@ == p.smtp.user@
}

fn find_protocol(servers: &Vec<ServerParams>, p: Protocol) -> (r: bool)
    ensures
        r == has_protocol(servers@, p),
{
    let mut i: usize = 0;
    while i < servers.len()
        invariant
            i <= servers@.len(),
            forall|j: int| 0 <= j < i ==> (#[trigger] servers@[j]).protocol != p,
        decreases servers@.len() - i,
    {
        if servers[i].protocol == p {
            return true;
        }
        i = i + 1;
    }
    false
}

/// Completes the servers that autoconfiguration found with the servers the user
/// entered: an IMAP server is added where there is none, then an SMTP server where
/// there is none.
pub fn add_entered_servers(servers: Vec<ServerParams>, param: &EnteredLoginParam) -> (r: Vec<
    ServerParams,
>)
    ensures
        ({
            let with_imap = if has_protocol(servers@, Protocol::Imap) {
                servers@.len()
            } else {
                servers@.len() + 1
            };
            &&& r@.subrange(0, servers@.len() as int) == servers@
            &&& !has_protocol(servers@, Protocol::Imap) ==> entered_imap(*param, r@[servers@.len() as int])
            &&& r@.len() == if has_protocol(servers@, Protocol::Smtp) {
                with_imap
            } else {
                with_imap + 1
            }
            &&& !has_protocol(servers@, Protocol::Smtp) ==> entered_smtp(*param, r@[with_imap as int])
        }),
{
    let mut servers = servers;
    let ghost orig = servers@;
    if !find_protocol(&servers, Protocol::Imap) {
        servers.push(
            ServerParams {
                protocol: Protocol::Imap,
                hostname: param.imap.server.clone(),
                port: param.imap.port,
                socket: param.imap.security,
                username: param.imap.user.clone(),
            },
        );
    }
    let ghost mid = servers@;
    let has_smtp = find_protocol(&servers, Protocol::Smtp);
    proof {
        assert(mid.subrange(0, orig.len() as int) == orig);
        if has_protocol(orig, Protocol::Smtp) {
            let i = choose|i: int| 0 <= i < orig.len() && (#[trigger] orig[i]).protocol == Protocol::Smtp;
            assert(mid[i] == orig[i]);
        }
        if has_smtp {
            let i = choose|i: int| 0 <= i < mid.len() && (#[trigger] mid[i]).protocol == Protocol::Smtp;
            if i < orig.len() {
                assert(orig[i] == mid[i]);
            }
        }
    }
    if !has_smtp {
        servers.push(
            ServerParams {
                protocol: Protocol::Smtp,
                hostname: param.smtp.server.clone(),
                port: param.smtp.port,
                socket: param.smtp.security,
                username: param.smtp.user.clone(),
            },
        );
    }
    proof {
        assert(servers@.subrange(0, orig.len() as int) == orig);
    }
    servers
}

/// The connection security that a socket security names; none for automatic.
pub open spec fn spec_connection_security(s: Socket) -> Option<ConnectionSecurity> {
    match s {
        Socket::Automatic => None,
        Socket::Ssl => Some(ConnectionSecurity::Tls),
        Socket::Starttls => Some(ConnectionSecurity::Starttls),
        Socket::Plain => Some(ConnectionSecurity::Plain),
    }
}

/// The connection security that a socket security names; none for automatic.
pub fn connection_security(s: Socket) -> (r: Option<ConnectionSecurity>)
    ensures
        r == spec_connection_security(s),
{
    match s {
        Socket::Automatic => None,
        Socket::Ssl => Some(ConnectionSecurity::Tls),
        Socket::Starttls => Some(ConnectionSecurity::Starttls),
        Socket::Plain => Some(ConnectionSecurity::Plain),
    }
}

/// How entered certificate checks are configured: both aliases for accepting invalid
/// certificates become one.
pub open spec fn spec_configured_checks(c: EnteredCertificateChecks) -> ConfiguredCertificateChecks {
    match c {
        EnteredCertificateChecks::Automatic => ConfiguredCertificateChecks::Automatic,
        EnteredCertificateChecks::Strict => ConfiguredCertificateChecks::Strict,
        _ => ConfiguredCertificateChecks::AcceptInvalidCertificates,
    }
}

/// Configuring keeps the user's choice of certificate checks: strict checks stay strict,
/// automatic ones stay automatic, and accepting invalid certificates (under either of
/// its two names) is configured as accepting them.
pub proof fn configured_checks_keep_choice(c: EnteredCertificateChecks)
    ensures
        (spec_configured_checks(c) == ConfiguredCertificateChecks::Strict) <==> (c
            == EnteredCertificateChecks::Strict),
        (spec_configured_checks(c) == ConfiguredCertificateChecks::Automatic) <==> (c
            == EnteredCertificateChecks::Automatic),
        (spec_configured_checks(c) == ConfiguredCertificateChecks::AcceptInvalidCertificates) <==> (c
            == EnteredCertificateChecks::AcceptInvalidCertificates || c
            == EnteredCertificateChecks::AcceptInvalidCertificates2),
{
}

/// How entered certificate checks are configured.
pub fn configured_certificate_checks(c: EnteredCertificateChecks) -> (r: ConfiguredCertificateChecks)
    ensures
        r == spec_configured_checks(c),
{
    match c {
        EnteredCertificateChecks::Automatic => ConfiguredCertificateChecks::Automatic,
        EnteredCertificateChecks::Strict => ConfiguredCertificateChecks::Strict,
        EnteredCertificateChecks::AcceptInvalidCertificates
        | EnteredCertificateChecks::AcceptInvalidCertificates2 => {
            ConfiguredCertificateChecks::AcceptInvalidCertificates
        },
    }
}

/// `c` is the server `s` ready for connecting.
pub open spec fn configured_from(s: ServerParams, c: ConfiguredServerLoginParam) -> bool {
    &&& c.connection.host@ == s.hostname@
    &&& c.connection.port == s.port
    &&& spec_connection_security(s.socket) == Some(c.connection.security)
    &&& c.user@ == s.username@
}

/// The servers of `servers` that have protocol `p` and a definite socket security.
pub open spec fn usable(servers: Seq<ServerParams>, p: Protocol) -> Seq<ServerParams>
    decreases servers.len(),
{
    if servers.len() == 0 {
        servers
    } else {
        let rest = usable(servers.drop_last(), p);
        let s = servers.last();
        if s.protocol == p && spec_connection_security(s.socket) is Some {
            rest.push(s)
        } else {
            rest
        }
    }
}

fn usable_servers(servers: &Vec<ServerParams>, p: Protocol) -> (r: Vec<ConfiguredServerLoginParam>)
    ensures
        r@.len() == usable(servers@, p).len(),
        forall|i: int| 0 <= i < r@.len() ==> configured_from(usable(servers@, p)[i], #[trigger] r@[i]),
{
    let mut r: Vec<ConfiguredServerLoginParam> = Vec::new();
    let mut i: usize = 0;
    while i < servers.len()
        invariant
            i <= servers@.len(),
            r@.len() == usable(servers@.take(i as int), p).len(),
            forall|k: int|
                0 <= k < r@.len() ==> configured_from(usable(servers@.take(i as int), p)[k], #[trigger] r@[k]),
        decreases servers@.len() - i,
    {
        let s = &servers[i];
        proof {
            assert(servers@.take(i + 1).drop_last() == servers@.take(i as int));
            assert(servers@.take(i + 1).last() == servers@[i as int]);
        }
        if s.protocol == p {
            match connection_security(s.socket) {
                Some(security) => {
                    r.push(
                        ConfiguredServerLoginParam {
                            connection: ConnectionCandidate {
                                host: s.hostname.clone(),
                                port: s.port,
                                security,
                            },
                            user: s.username.clone(),
                        },
                    );
                },
                None => {},
            }
        }
        i = i + 1;
    }
    proof {
        assert(servers@.take(servers@.len() as int) == servers@);
    }
    r
}

/// Assembles the configured login parameters from the entered ones and the complete
/// list of servers: the servers of each protocol with a definite socket security, in
/// order, and the folder only where one was entered.
pub fn configured_param_from_servers(
    param: &EnteredLoginParam,
    servers: &Vec<ServerParams>,
    smtp_password: String,
) -> (r: ConfiguredLoginParam)
    ensures
        r.addr@ == param.addr@,
        r.imap@.len() == usable(servers@, Protocol::Imap).len(),
        forall|i: int|
            0 <= i < r.imap@.len() ==> configured_from(usable(servers@, Protocol::Imap)[i], #[trigger] r.imap@[i]),
        r.smtp@.len() == usable(servers@, Protocol::Smtp).len(),
        forall|i: int|
            0 <= i < r.smtp@.len() ==> configured_from(usable(servers@, Protocol::Smtp)[i], #[trigger] r.smtp@[i]),
        r.imap_user@ == param.imap.user@,
        r.imap_password@ == param.imap.password@,
        match r.imap_folder {
            Some(f) => f@ == param.imap.folder@ && f@.len() > 0,
            None => param.imap.folder@.len() == 0,
        },
        r.smtp_user@ == param.smtp.user@,
        r.smtp_password@ == smtp_password@,
        r.certificate_checks == spec_configured_checks(param.certificate_checks),
{
    ConfiguredLoginParam {
        addr: param.addr.clone(),
        imap: usable_servers(servers, Protocol::Imap),
        imap_user: param.imap.user.clone(),
        imap_password: param.imap.password.clone(),
        imap_folder: if param.imap.folder.as_str().is_empty() {
            None
        } else {
            Some(param.imap.folder.clone())
        },
        smtp: usable_servers(servers, Protocol::Smtp),
        smtp_user: param.smtp.user.clone(),
        smtp_password,
        certificate_checks: configured_certificate_checks(param.certificate_checks),
    }
}

/// Whether an error text tells of a missing network connection: its lowercase form
/// names a failed name resolution or failed connection attempts.
pub open spec fn tells_no_network(e: Seq<char>) -> bool {
    let l = lowercase(e);
    contains_seq(l, "could not resolve"@) || contains_seq(l, "connection attempts"@) || contains_seq(
        l,
        "temporary failure in name resolution"@,
    ) || contains_seq(l, "name or service not known"@) || contains_seq(
        l,
        "failed to lookup address information"@,
    )
}

/// Replaces an error text that tells of a missing network connection by
/// `no_network_text`, the message shown for that; other errors stay as they are.
pub fn nicer_configuration_error(e: String, no_network_text: &str) -> (r: String)
    ensures
        r@ == if tells_no_network(e@) {
            no_network_text@
        } else {
            e@
        },
{
    let l = chars_of(to_lowercase(e.as_str()).as_str());
    if has_infix(&l, &lit("could not resolve")) || has_infix(&l, &lit("connection attempts"))
        || has_infix(&l, &lit("temporary failure in name resolution")) || has_infix(
        &l,
        &lit("name or service not known"),
    ) || has_infix(&l, &lit("failed to lookup address information")) {
        return no_network_text.to_owned();
    }
    e
}

/// An ASCII letter or digit.
pub open spec fn is_ascii_alnum(b: u8) -> bool {
    (48 <= b <= 57) || (65 <= b <= 90) || (97 <= b <= 122)
}

/// An uppercase hexadecimal digit.
pub open spec fn hex_upper(d: int) -> char {
    if d < 10 {
        (48 + d) as char
    } else {
        (55 + d) as char
    }
}

/// How one byte is written in a URL query: ASCII letters, digits and `.` as they are,
/// any other byte as `%` and two uppercase hexadecimal digits.
pub open spec fn encoded_byte(b: u8) -> Seq<char> {
    if is_ascii_alnum(b) || b == 46 {
        seq![b as char]
    } else {
        seq!['%', hex_upper(b as int / 16), hex_upper(b as int % 16)]
    }
}

/// The bytes `bytes`, each written as `encoded_byte` writes it.
pub open spec fn percent_encoded(bytes: Seq<u8>) -> Seq<char>
    decreases bytes.len(),
{
    if bytes.len() == 0 {
        Seq::empty()
    } else {
        percent_encoded(bytes.drop_last()) + encoded_byte(bytes.last())
    }
}

/// How one byte is written by percent-encoding with the set of all ASCII characters
/// but letters and digits: letters and digits as they are, any other byte as `%` and
/// two uppercase hexadecimal digits.
pub open spec fn alnum_encoded_byte(b: u8) -> Seq<char> {
    if is_ascii_alnum(b) {
        seq![b as char]
    } else {
        seq!['%', hex_upper(b as int / 16), hex_upper(b as int % 16)]
    }
}

/// The bytes `bytes`, each written as `alnum_encoded_byte` writes it.
pub open spec fn alnum_encoded(bytes: Seq<u8>) -> Seq<char>
    decreases bytes.len(),
{
    if bytes.len() == 0 {
        Seq::empty()
    } else {
        alnum_encoded(bytes.drop_last()) + alnum_encoded_byte(bytes.last())
    }
}

/// Calls `percent_encoding::percent_encode` with `NON_ALPHANUMERIC`, the set of all
/// ASCII characters but letters and digits. As the crate documents it, each byte in
/// that set, and each non-ASCII byte, is written as `%` and two uppercase hexadecimal
/// digits, and every other byte as the character it is.
#[verifier::external_body]
fn percent_encode_non_alphanumeric(bytes: &[u8]) -> (r: String)
    ensures
        r@ == alnum_encoded(bytes@),
{
    percent_encode(bytes, NON_ALPHANUMERIC).to_string()
}

/// Percent-encodes the UTF-8 encoding of `s` for a URL query, leaving letters, digits
/// and `.` as they are. The dot is kept because some servers write the encoded
/// address back into their settings without decoding it.
pub fn percent_encode_query(s: &str) -> (r: String)
    ensures
        r@ == percent_encoded(s.spec_bytes()),
{
    let bytes = s.as_bytes();
    let mut r = String::new();
    let mut i: usize = 0;
    while i < bytes.len()
        invariant
            i <= bytes@.len(),
            bytes@ == s.spec_bytes(),
            r@ == percent_encoded(bytes@.take(i as int)),
        decreases bytes@.len() - i,
    {
        let b = bytes[i];
        proof {
            assert(bytes@.take(i + 1).drop_last() == bytes@.take(i as int));
            assert(bytes@.take(i + 1).last() == b);
        }
        if b == 46 {
            r.push('.');
            proof {
                assert(encoded_byte(b) == seq![b as char]);
            }
        } else {
            let one: [u8; 1] = [b];
            let e = percent_encode_non_alphanumeric(&one);
            proof {
                assert(one@ == seq![b]);
                assert(seq![b].drop_last() == Seq::<u8>::empty());
                assert(alnum_encoded(Seq::<u8>::empty()) == Seq::<char>::empty());
                assert(alnum_encoded(seq![b]) == alnum_encoded_byte(b));
            }
            push_all(&mut r, &chars_of(e.as_str()));
        }
        i = i + 1;
        proof {
            assert(r@ == percent_encoded(bytes@.take(i as int)));
        }
    }
    proof {
        assert(bytes@.take(bytes@.len() as int) == bytes@);
    }
    r
}

/// The two ways that servers describe their settings.
#[derive(Debug, Clone, Copy, PartialEq, Eq, Structural)]
pub enum AutoconfigKind {
    /// Mozilla's autoconfiguration XML.
    Mozilla,
    /// Outlook's autodiscover XML.
    Outlook,
}

/// A place to look for autoconfiguration, and the progress (in per mille) to report
/// where nothing is found there.
#[derive(Debug, Clone)]
pub struct AutoconfigSource {
    /// How the settings are described.
    pub kind: AutoconfigKind,
    /// Where they are fetched from.
    pub url: String,
    /// Progress reported where nothing is found; none after the last place.
    pub progress_on_failure: Option<u16>,
}

/// The places to look for autoconfiguration of `addr` at `domain`, in order: the
/// domain's autoconfig host (with the percent-encoded address), its well-known
/// path, its two autodiscover places, and Thunderbird's central database.
pub fn autoconfig_sources(addr: &str, domain: &str) -> (r: Vec<AutoconfigSource>)
    ensures
        r@.len() == 5,
        r@[0].kind == AutoconfigKind::Mozilla,
        r@[0].url@ == "https://autoconfig."@ + domain@ + "/mail/config-v1.1.xml?emailaddress="@
            + percent_encoded(addr.spec_bytes()),
        r@[0].progress_on_failure == Some(300u16),
        r@[1].kind == AutoconfigKind::Mozilla,
        r@[1].url@ == "https://"@ + domain@ + "/.well-known/autoconfig/mail/config-v1.1.xml"@,
        r@[1].progress_on_failure == Some(310u16),
        r@[2].kind == AutoconfigKind::Outlook,
        r@[2].url@ == "https://"@ + domain@ + "/autodiscover/autodiscover.xml"@,
        r@[2].progress_on_failure == Some(320u16),
        r@[3].kind == AutoconfigKind::Outlook,
        r@[3].url@ == "https://autodiscover."@ + domain@ + "/autodiscover/autodiscover.xml"@,
        r@[3].progress_on_failure == Some(330u16),
        r@[4].kind == AutoconfigKind::Mozilla,
        r@[4].url@ == "https://autoconfig.thunderbird.net/v1.1/"@ + domain@,
        r@[4].progress_on_failure is None,
{
    let d = chars_of(domain);
    let encoded = percent_encode_query(addr);
    let mut u0 = "https://autoconfig.".to_owned();
    push_all(&mut u0, &d);
    push_all(&mut u0, &lit("/mail/config-v1.1.xml?emailaddress="));
    push_all(&mut u0, &chars_of(encoded.as_str()));
    let mut u1 = "https://".to_owned();
    push_all(&mut u1, &d);
    push_all(&mut u1, &lit("/.well-known/autoconfig/mail/config-v1.1.xml"));
    let mut u2 = "https://".to_owned();
    push_all(&mut u2, &d);
    push_all(&mut u2, &lit("/autodiscover/autodiscover.xml"));
    let mut u3 = "https://autodiscover.".to_owned();
    push_all(&mut u3, &d);
    push_all(&mut u3, &lit("/autodiscover/autodiscover.xml"));
    let mut u4 = "https://autoconfig.thunderbird.net/v1.1/".to_owned();
    push_all(&mut u4, &d);
    let mut r: Vec<AutoconfigSource> = Vec::new();
    r.push(AutoconfigSource { kind: AutoconfigKind::Mozilla, url: u0, progress_on_failure: Some(300) });
    r.push(AutoconfigSource { kind: AutoconfigKind::Mozilla, url: u1, progress_on_failure: Some(310) });
    r.push(AutoconfigSource { kind: AutoconfigKind::Outlook, url: u2, progress_on_failure: Some(320) });
    r.push(AutoconfigSource { kind: AutoconfigKind::Outlook, url: u3, progress_on_failure: Some(330) });
    r.push(AutoconfigSource { kind: AutoconfigKind::Mozilla, url: u4, progress_on_failure: None });
    r
}

/// What follows one attempt at autoconfiguration.
#[derive(Debug, Clone)]
pub enum AutoconfigStep {
    /// Settings were found: they are taken, and no later place is tried.
    Found(Vec<ServerParams>),
    /// Nothing was found: report the progress, if any, and try the place at `next`.
    TryNext { progress: Option<u16>, next: usize },
    /// Nothing was found at the last place either: report the progress, if any, and go
    /// on without autoconfiguration.
    GiveUp { progress: Option<u16> },
}

/// What follows trying the place `sources[index]`, where `found` is what was found
/// there: settings found are taken; otherwise the place's progress is reported and the
/// next place is tried, or, after the last place, nothing is found.
pub open spec fn spec_autoconfig_step(
    sources: Seq<AutoconfigSource>,
    index: int,
    found: Option<Vec<ServerParams>>,
) -> AutoconfigStep {
    match found {
        Some(v) => AutoconfigStep::Found(v),
        None => if index + 1 < sources.len() {
            AutoconfigStep::TryNext {
                progress: sources[index].progress_on_failure,
                next: (index + 1) as usize,
            }
        } else {
            AutoconfigStep::GiveUp { progress: sources[index].progress_on_failure }
        },
    }
}

/// Decides what follows trying the place `sources[index]` for autoconfiguration, where
/// `found` is what was found there. The places are tried in order, and the first
/// settings found are taken.
pub fn autoconfig_step(sources: &Vec<AutoconfigSource>, index: usize, found: Option<Vec<ServerParams>>) -> (r:
    AutoconfigStep)
    requires
        index < sources@.len(),
    ensures
        r == spec_autoconfig_step(sources@, index as int, found),
{
    match found {
        Some(v) => AutoconfigStep::Found(v),
        None => {
            let progress = sources[index].progress_on_failure;
            if index < sources.len() - 1 {
                AutoconfigStep::TryNext { progress, next: index + 1 }
            } else {
                AutoconfigStep::GiveUp { progress }
            }
        },
    }
}

/// What trying the places `sources` from `index` on gives, where `results[i]` is what
/// is found at place `i`: the settings that the steps take, if any.
pub open spec fn autoconfig_outcome(
    sources: Seq<AutoconfigSource>,
    results: Seq<Option<Vec<ServerParams>>>,
    index: int,
) -> Option<Vec<ServerParams>>
    decreases sources.len() - index,
{
    if 0 <= index < sources.len() {
        match spec_autoconfig_step(sources, index, results[index]) {
            AutoconfigStep::Found(v) => Some(v),
            AutoconfigStep::TryNext { next, .. } => if index < next {
                autoconfig_outcome(sources, results, next as int)
            } else {
                None
            },
            AutoconfigStep::GiveUp { .. } => None,
        }
    } else {
        None
    }
}

/// The first settings found among `results`, if any.
pub open spec fn first_found(results: Seq<Option<Vec<ServerParams>>>) -> Option<Vec<ServerParams>>
    decreases results.len(),
{
    if results.len() == 0 {
        None
    } else {
        match results[0] {
            Some(v) => Some(v),
            None => first_found(results.skip(1)),
        }
    }
}

/// Trying the places one after the other with `autoconfig_step`, from place `index`
/// on, gives the first settings found at any of them, and nothing where none is found.
pub proof fn autoconfig_takes_first_found(
    sources: Seq<AutoconfigSource>,
    results: Seq<Option<Vec<ServerParams>>>,
    index: int,
)
    requires
        results.len() == sources.len(),
        0 <= index <= sources.len(),
        sources.len() <= usize::MAX,
    ensures
        autoconfig_outcome(sources, results, index) == first_found(results.skip(index)),
    decreases sources.len() - index,
{
    if index < sources.len() {
        if index + 1 < sources.len() {
            autoconfig_takes_first_found(sources, results, index + 1);
        }
        assert(results.skip(index)[0] == results[index]);
        assert(results.skip(index).skip(1) =~= results.skip(index + 1));
        if index + 1 == sources.len() {
            assert(results.skip(index + 1).len() == 0);
        }
    } else {
        assert(results.skip(index).len() == 0);
    }
}

/// How the `is_chatmail` setting changes after a successful IMAP login: unless it is
/// fixed, it is set where the server is a chatmail server, and reset where it is not
/// and the account was not configured before (a failed configuration may have set it).
pub fn chatmail_flag_update(fixed: bool, server_is_chatmail: bool, was_configured: bool) -> (r: Option<bool>)
    ensures
        r == if fixed {
            None
        } else if server_is_chatmail {
            Some(true)
        } else if !was_configured {
            Some(false)
        } else {
            None
        },
{
    if fixed {
        None
    } else if server_is_chatmail {
        Some(true)
    } else if !was_configured {
        Some(false)
    } else {
        None
    }
}

} // verus!
