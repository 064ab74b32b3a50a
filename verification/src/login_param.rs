//! Login parameters entered by the user to configure a transport, their
//! description for the log, and their storage in the legacy configuration keys.

use vstd::prelude::*;

use crate::text::{
    chars_of, decimal, lemma_decimal_digits, parse_i32, parse_u16, push_all, push_decimal,
    spec_parse_i32, spec_parse_unsigned, string_of, trim, trim_str,
};

verus! {

/// Server socket security.
#[derive(Debug, Clone, Copy, PartialEq, Eq, Structural)]
pub enum Socket {
    /// Unspecified socket security, select automatically.
    Automatic,
    /// TLS connection.
    Ssl,
    /// STARTTLS connection.
    Starttls,
    /// No TLS, plaintext connection.
    Plain,
}

impl Default for Socket {
    fn default() -> (r: Socket)
        ensures
            r == Socket::Automatic,
    {
        Socket::Automatic
    }
}

/// The number under which a socket security is stored.
pub open spec fn socket_number(s: Socket) -> i32 {
    match s {
        Socket::Automatic => 0,
        Socket::Ssl => 1,
        Socket::Starttls => 2,
        Socket::Plain => 3,
    }
}

/// The socket security stored under `n`, if any.
pub open spec fn socket_of_number(n: int) -> Option<Socket> {
    if n == 0 {
        Some(Socket::Automatic)
    } else if n == 1 {
        Some(Socket::Ssl)
    } else if n == 2 {
        Some(Socket::Starttls)
    } else if n == 3 {
        Some(Socket::Plain)
    } else {
        None
    }
}

/// The name under which a socket security is shown.
pub open spec fn socket_name(s: Socket) -> Seq<char> {
    match s {
        Socket::Automatic => "Automatic"@,
        Socket::Ssl => "Ssl"@,
        Socket::Starttls => "Starttls"@,
        Socket::Plain => "Plain"@,
    }
}

impl Socket {
    /// The number under which the socket security is stored.
    pub fn to_i32(self) -> (r: i32)
        ensures
            r == socket_number(self),
    {
        match self {
            Socket::Automatic => 0,
            Socket::Ssl => 1,
            Socket::Starttls => 2,
            Socket::Plain => 3,
        }
    }

    /// The socket security stored under `n`, if `n` is one.
    pub fn from_i32(n: i32) -> (r: Option<Socket>)
        ensures
            r == socket_of_number(n as int),
    {
        if n == 0 {
            Some(Socket::Automatic)
        } else if n == 1 {
            Some(Socket::Ssl)
        } else if n == 2 {
            Some(Socket::Starttls)
        } else if n == 3 {
            Some(Socket::Plain)
        } else {
            None
        }
    }

    /// The name under which the socket security is shown.
    pub fn to_string(&self) -> (r: String)
        ensures
            r@ == socket_name(*self),
    {
        match self {
            Socket::Automatic => "Automatic".to_owned(),
            Socket::Ssl => "Ssl".to_owned(),
            Socket::Starttls => "Starttls".to_owned(),
            Socket::Plain => "Plain".to_owned(),
        }
    }
}

/// Values saved into the `imap_certificate_checks` setting.
///
/// This setting is applied to all protocols.
#[derive(Debug, Clone, Copy, PartialEq, Eq, Structural)]
pub enum EnteredCertificateChecks {
    /// `Automatic` means that provider database setting should be taken.
    /// If there is no provider database setting for certificate checks,
    /// check certificates strictly.
    Automatic,
    /// Ensure that TLS certificate is valid for the server hostname.
    Strict,
    /// Accept certificates that are expired, self-signed
    /// or otherwise not valid for the server hostname.
    AcceptInvalidCertificates,
    /// Alias for `AcceptInvalidCertificates`
    /// for API compatibility.
    AcceptInvalidCertificates2,
}

impl Default for EnteredCertificateChecks {
    fn default() -> (r: EnteredCertificateChecks)
        ensures
            r == EnteredCertificateChecks::Automatic,
    {
        EnteredCertificateChecks::Automatic
    }
}

/// The number under which a certificate checks setting is stored.
pub open spec fn checks_number(c: EnteredCertificateChecks) -> i32 {
    match c {
        EnteredCertificateChecks::Automatic => 0,
        EnteredCertificateChecks::Strict => 1,
        EnteredCertificateChecks::AcceptInvalidCertificates => 2,
        EnteredCertificateChecks::AcceptInvalidCertificates2 => 3,
    }
}

/// The certificate checks setting stored under `n`, if any.
pub open spec fn checks_of_number(n: int) -> Option<EnteredCertificateChecks> {
    if n == 0 {
        Some(EnteredCertificateChecks::Automatic)
    } else if n == 1 {
        Some(EnteredCertificateChecks::Strict)
    } else if n == 2 {
        Some(EnteredCertificateChecks::AcceptInvalidCertificates)
    } else if n == 3 {
        Some(EnteredCertificateChecks::AcceptInvalidCertificates2)
    } else {
        None
    }
}

/// The name under which a certificate checks setting is shown.
pub open spec fn checks_name(c: EnteredCertificateChecks) -> Seq<char> {
    match c {
        EnteredCertificateChecks::Automatic => "automatic"@,
        EnteredCertificateChecks::Strict => "strict"@,
        EnteredCertificateChecks::AcceptInvalidCertificates => "accept_invalid_certificates"@,
        EnteredCertificateChecks::AcceptInvalidCertificates2 => "accept_invalid_certificates2"@,
    }
}

impl EnteredCertificateChecks {
    /// Whether invalid certificates are accepted.
    pub fn accept_invalid_certificates(self) -> (r: bool)
        ensures
            r == (self == EnteredCertificateChecks::AcceptInvalidCertificates || self
                == EnteredCertificateChecks::AcceptInvalidCertificates2),
    {
        match self {
            EnteredCertificateChecks::AcceptInvalidCertificates
            | EnteredCertificateChecks::AcceptInvalidCertificates2 => true,
            _ => false,
        }
    }

    /// The number under which the setting is stored.
    pub fn to_i32(self) -> (r: i32)
        ensures
            r == checks_number(self),
    {
        match self {
            EnteredCertificateChecks::Automatic => 0,
            EnteredCertificateChecks::Strict => 1,
            EnteredCertificateChecks::AcceptInvalidCertificates => 2,
            EnteredCertificateChecks::AcceptInvalidCertificates2 => 3,
        }
    }

    /// The setting stored under `n`, if `n` is one.
    pub fn from_i32(n: i32) -> (r: Option<EnteredCertificateChecks>)
        ensures
            r == checks_of_number(n as int),
    {
        if n == 0 {
            Some(EnteredCertificateChecks::Automatic)
        } else if n == 1 {
            Some(EnteredCertificateChecks::Strict)
        } else if n == 2 {
            Some(EnteredCertificateChecks::AcceptInvalidCertificates)
        } else if n == 3 {
            Some(EnteredCertificateChecks::AcceptInvalidCertificates2)
        } else {
            None
        }
    }

    /// The name of the setting, in snake case.
    pub fn to_string(&self) -> (r: String)
        ensures
            r@ == checks_name(*self),
    {
        match self {
            EnteredCertificateChecks::Automatic => "automatic".to_owned(),
            EnteredCertificateChecks::Strict => "strict".to_owned(),
            EnteredCertificateChecks::AcceptInvalidCertificates => "accept_invalid_certificates".to_owned(),
            EnteredCertificateChecks::AcceptInvalidCertificates2 => "accept_invalid_certificates2".to_owned(),
        }
    }
}

/// Login parameters for a single IMAP server.
#[derive(Debug, Clone, PartialEq, Eq)]
pub struct EnteredImapLoginParam {
    /// Server hostname or IP address.
    pub server: String,
    /// Server port; 0 if not set.
    pub port: u16,
    /// Folder to watch; empty for the inbox.
    pub folder: String,
    /// Socket security.
    pub security: Socket,
    /// Username; empty if not set.
    pub user: String,
    /// Login password.
    pub password: String,
}

/// Login parameters for a single SMTP server.
#[derive(Debug, Clone, PartialEq, Eq)]
pub struct EnteredSmtpLoginParam {
    /// Server hostname or IP address.
    pub server: String,
    /// Server port; 0 if not set.
    pub port: u16,
    /// Socket security.
    pub security: Socket,
    /// Username; empty if not set.
    pub user: String,
    /// Login password; empty to use the IMAP password.
    pub password: String,
}

/// A transport, as shown in the list of transports.
#[derive(Debug)]
pub struct TransportListEntry {
    /// The login data entered by the user.
    pub param: EnteredLoginParam,
    /// Whether this transport is left out of the published list of relays.
    pub is_unpublished: bool,
}

/// Login parameters entered by the user.
#[derive(Debug, Clone, PartialEq, Eq)]
pub struct EnteredLoginParam {
    /// Email address.
    pub addr: String,
    /// IMAP settings.
    pub imap: EnteredImapLoginParam,
    /// SMTP settings.
    pub smtp: EnteredSmtpLoginParam,
    /// TLS options: whether to allow invalid certificates and/or
    /// invalid hostnames.
    pub certificate_checks: EnteredCertificateChecks,
    /// Deprecated, always false.
    pub oauth2: bool,
}

/// The values of the legacy configuration keys that hold the login parameters of the
/// first transport; `None` where a key is unset.
#[derive(Debug, Clone, PartialEq, Eq)]
pub struct LegacyConfig {
    /// `addr`.
    pub addr: Option<String>,
    /// `mail_server`.
    pub mail_server: Option<String>,
    /// `mail_port`.
    pub mail_port: Option<String>,
    /// `mail_security`.
    pub mail_security: Option<String>,
    /// `mail_user`.
    pub mail_user: Option<String>,
    /// `mail_pw`.
    pub mail_pw: Option<String>,
    /// `imap_certificate_checks`.
    pub imap_certificate_checks: Option<String>,
    /// `send_server`.
    pub send_server: Option<String>,
    /// `send_port`.
    pub send_port: Option<String>,
    /// `send_security`.
    pub send_security: Option<String>,
    /// `send_user`.
    pub send_user: Option<String>,
    /// `send_pw`.
    pub send_pw: Option<String>,
}

/// Why the legacy login parameters could not be loaded.
#[derive(Debug, Clone, Copy, PartialEq, Eq, Structural)]
pub enum LoginParamError {
    /// `imap_certificate_checks` holds a number that names no setting.
    UnknownCertificateChecks,
}

/// The text of a setting, empty where it is unset.
pub open spec fn opt_text(o: Option<String>) -> Seq<char> {
    match o {
        Some(s) => s@,
        None => Seq::empty(),
    }
}

/// The view of an optional string.
pub open spec fn opt_view(o: Option<String>) -> Option<Seq<char>> {
    match o {
        Some(s) => Some(s@),
        None => None,
    }
}

/// A port read from a setting: 0 where it is unset or no `u16`.
pub open spec fn port_setting(o: Option<String>) -> u16 {
    match o {
        Some(s) => match spec_parse_unsigned(s@, 65535) {
            Some(v) => v as u16,
            None => 0,
        },
        None => 0,
    }
}

/// A socket security read from a setting: automatic where it is unset, no `i32`, or
/// a number that names no socket security.
pub open spec fn socket_setting(o: Option<String>) -> Socket {
    match o {
        Some(s) => match spec_parse_i32(s@) {
            Some(v) => match socket_of_number(v) {
                Some(x) => x,
                None => Socket::Automatic,
            },
            None => Socket::Automatic,
        },
        None => Socket::Automatic,
    }
}

/// The certificate checks read from a setting: automatic where it is unset or no
/// `i32`; `None` where it is a number that names no setting.
pub open spec fn checks_setting(o: Option<String>) -> Option<EnteredCertificateChecks> {
    match o {
        Some(s) => match spec_parse_i32(s@) {
            Some(v) => checks_of_number(v),
            None => Some(EnteredCertificateChecks::Automatic),
        },
        None => Some(EnteredCertificateChecks::Automatic),
    }
}

/// `p` is what the legacy settings `c` hold, given that their certificate checks name
/// a setting.
pub open spec fn loaded_from(c: LegacyConfig, p: EnteredLoginParam) -> bool {
    &&& p.addr@ == trim(opt_text(c.addr))
    &&& p.imap.server@ == opt_text(c.mail_server)
    &&& p.imap.port == port_setting(c.mail_port)
    &&& p.imap.folder@ == Seq::<char>::empty()
    &&& p.imap.security == socket_setting(c.mail_security)
    &&& p.imap.user@ == opt_text(c.mail_user)
    &&& p.imap.password@ == opt_text(c.mail_pw)
    &&& p.smtp.server@ == opt_text(c.send_server)
    &&& p.smtp.port == port_setting(c.send_port)
    &&& p.smtp.security == socket_setting(c.send_security)
    &&& p.smtp.user@ == opt_text(c.send_user)
    &&& p.smtp.password@ == opt_text(c.send_pw)
    &&& checks_setting(c.imap_certificate_checks) == Some(p.certificate_checks)
    &&& !p.oauth2
}

/// A text as it is stored: unset where it is empty.
pub open spec fn text_stored(s: Seq<char>) -> Option<Seq<char>> {
    if s.len() == 0 {
        None
    } else {
        Some(s)
    }
}

/// A number as it is stored: unset where it is zero, else in decimal.
pub open spec fn number_stored(n: nat) -> Option<Seq<char>> {
    if n == 0 {
        None
    } else {
        Some(decimal(n))
    }
}

/// `c` holds the legacy settings that `p` is saved as.
pub open spec fn saved_as(p: EnteredLoginParam, c: LegacyConfig) -> bool {
    &&& opt_view(c.addr) == Some(p.addr@)
    &&& opt_view(c.mail_server) == text_stored(p.imap.server@)
    &&& opt_view(c.mail_port) == number_stored(p.imap.port as nat)
    &&& opt_view(c.mail_security) == number_stored(socket_number(p.imap.security) as nat)
    &&& opt_view(c.mail_user) == text_stored(p.imap.user@)
    &&& opt_view(c.mail_pw) == text_stored(p.imap.password@)
    &&& opt_view(c.send_server) == text_stored(p.smtp.server@)
    &&& opt_view(c.send_port) == number_stored(p.smtp.port as nat)
    &&& opt_view(c.send_security) == number_stored(socket_number(p.smtp.security) as nat)
    &&& opt_view(c.send_user) == text_stored(p.smtp.user@)
    &&& opt_view(c.send_pw) == text_stored(p.smtp.password@)
    &&& opt_view(c.imap_certificate_checks) == number_stored(
        checks_number(p.certificate_checks) as nat,
    )
}

fn text_setting(o: &Option<String>) -> (r: String)
    ensures
        r@ == opt_text(*o),
{
    match o {
        Some(s) => s.clone(),
        None => String::new(),
    }
}

fn read_port(o: &Option<String>) -> (r: u16)
    ensures
        r == port_setting(*o),
{
    match o {
        Some(s) => match parse_u16(s.as_str()) {
            Some(v) => v,
            None => 0,
        },
        None => 0,
    }
}

fn read_socket(o: &Option<String>) -> (r: Socket)
    ensures
        r == socket_setting(*o),
{
    match o {
        Some(s) => match parse_i32(s.as_str()) {
            Some(v) => match Socket::from_i32(v) {
                Some(x) => x,
                None => Socket::Automatic,
            },
            None => Socket::Automatic,
        },
        None => Socket::Automatic,
    }
}

fn read_checks(o: &Option<String>) -> (r: Option<EnteredCertificateChecks>)
    ensures
        r == checks_setting(*o),
{
    match o {
        Some(s) => match parse_i32(s.as_str()) {
            Some(v) => EnteredCertificateChecks::from_i32(v),
            None => Some(EnteredCertificateChecks::Automatic),
        },
        None => Some(EnteredCertificateChecks::Automatic),
    }
}

fn store_text(s: &String) -> (r: Option<String>)
    ensures
        opt_view(r) == text_stored(s@),
{
    if s.as_str().is_empty() {
        None
    } else {
        Some(s.clone())
    }
}

fn store_number(n: u16) -> (r: Option<String>)
    ensures
        opt_view(r) == number_stored(n as nat),
{
    if n == 0 {
        None
    } else {
        let mut s = String::new();
        push_decimal(&mut s, n as u64);
        proof {
            assert(s@ == decimal(n as nat));
        }
        Some(s)
    }
}

impl EnteredLoginParam {
    /// Loads the login parameters from the legacy settings `config`, as they were read
    /// from the database. The folder is left empty: the legacy settings have none.
    pub fn load_legacy(config: &LegacyConfig) -> (r: Result<EnteredLoginParam, LoginParamError>)
        ensures
            match r {
                Ok(p) => loaded_from(*config, p),
                Err(e) => checks_setting(config.imap_certificate_checks) is None && e
                    == LoginParamError::UnknownCertificateChecks,
            },
    {
        let certificate_checks = match read_checks(&config.imap_certificate_checks) {
            Some(c) => c,
            None => {
                return Err(LoginParamError::UnknownCertificateChecks);
            },
        };
        let addr_text = text_setting(&config.addr);
        let addr = string_of(&trim_str(addr_text.as_str()));
        Ok(
            EnteredLoginParam {
                addr,
                imap: EnteredImapLoginParam {
                    server: text_setting(&config.mail_server),
                    port: read_port(&config.mail_port),
                    folder: String::new(),
                    security: read_socket(&config.mail_security),
                    user: text_setting(&config.mail_user),
                    password: text_setting(&config.mail_pw),
                },
                smtp: EnteredSmtpLoginParam {
                    server: text_setting(&config.send_server),
                    port: read_port(&config.send_port),
                    security: read_socket(&config.send_security),
                    user: text_setting(&config.send_user),
                    password: text_setting(&config.send_pw),
                },
                certificate_checks,
                oauth2: false,
            },
        )
    }

    /// The legacy settings that the login parameters are saved as: empty texts and
    /// zero numbers unset their key.
    pub fn save_legacy(&self) -> (r: LegacyConfig)
        ensures
            saved_as(*self, r),
    {
        LegacyConfig {
            addr: Some(self.addr.clone()),
            mail_server: store_text(&self.imap.server),
            mail_port: store_number(self.imap.port),
            mail_security: store_number(self.imap.security.to_i32() as u16),
            mail_user: store_text(&self.imap.user),
            mail_pw: store_text(&self.imap.password),
            imap_certificate_checks: store_number(self.certificate_checks.to_i32() as u16),
            send_server: store_text(&self.smtp.server),
            send_port: store_number(self.smtp.port),
            send_security: store_number(self.smtp.security.to_i32() as u16),
            send_user: store_text(&self.smtp.user),
            send_pw: store_text(&self.smtp.password),
        }
    }
}

/// `p` and `q` hold the same login parameters.
pub open spec fn same_login_param(p: EnteredLoginParam, q: EnteredLoginParam) -> bool {
    &&& p.addr@ == q.addr@
    &&& p.imap.server@ == q.imap.server@
    &&& p.imap.port == q.imap.port
    &&& p.imap.folder@ == q.imap.folder@
    &&& p.imap.security == q.imap.security
    &&& p.imap.user@ == q.imap.user@
    &&& p.imap.password@ == q.imap.password@
    &&& p.smtp.server@ == q.smtp.server@
    &&& p.smtp.port == q.smtp.port
    &&& p.smtp.security == q.smtp.security
    &&& p.smtp.user@ == q.smtp.user@
    &&& p.smtp.password@ == q.smtp.password@
    &&& p.certificate_checks == q.certificate_checks
    &&& p.oauth2 == q.oauth2
}

proof fn lemma_text_back(o: Option<String>, s: Seq<char>)
    requires
        opt_view(o) == text_stored(s),
    ensures
        opt_text(o) == s,
{
}

proof fn lemma_port_back(o: Option<String>, n: u16)
    requires
        opt_view(o) == number_stored(n as nat),
    ensures
        port_setting(o) == n,
{
    if n != 0 {
        lemma_decimal_digits(n as nat);
    }
}

proof fn lemma_number_back(o: Option<String>, n: i32)
    requires
        0 < n < 4,
        opt_view(o) == number_stored(n as nat),
    ensures
        o matches Some(s) && spec_parse_i32(s@) == Some(n as int),
{
    lemma_decimal_digits(n as nat);
}

proof fn lemma_socket_back(o: Option<String>, sock: Socket)
    requires
        opt_view(o) == number_stored(socket_number(sock) as nat),
    ensures
        socket_setting(o) == sock,
{
    if socket_number(sock) != 0 {
        lemma_number_back(o, socket_number(sock));
    }
}

/// Saving login parameters into the legacy settings and loading them back gives the
/// same parameters, and the loading succeeds, wherever the address has no white space
/// around it, the folder is empty and OAuth 2 is off (the legacy settings hold no
/// folder and no OAuth 2 flag, and the address is trimmed when it is loaded).
pub proof fn legacy_settings_round_trip(p: EnteredLoginParam, c: LegacyConfig, q: EnteredLoginParam)
    requires
        trim(p.addr@) == p.addr@,
        p.imap.folder@.len() == 0,
        !p.oauth2,
        saved_as(p, c),
    ensures
        checks_setting(c.imap_certificate_checks) == Some(p.certificate_checks),
        loaded_from(c, q) ==> same_login_param(p, q),
{
    lemma_text_back(c.mail_server, p.imap.server@);
    lemma_text_back(c.mail_user, p.imap.user@);
    lemma_text_back(c.mail_pw, p.imap.password@);
    lemma_text_back(c.send_server, p.smtp.server@);
    lemma_text_back(c.send_user, p.smtp.user@);
    lemma_text_back(c.send_pw, p.smtp.password@);
    lemma_port_back(c.mail_port, p.imap.port);
    lemma_port_back(c.send_port, p.smtp.port);
    lemma_socket_back(c.mail_security, p.imap.security);
    lemma_socket_back(c.send_security, p.smtp.security);
    if checks_number(p.certificate_checks) != 0 {
        lemma_number_back(c.imap_certificate_checks, checks_number(p.certificate_checks));
    }
    assert(opt_text(c.addr) == p.addr@);
    assert(p.imap.folder@ =~= Seq::<char>::empty());
}

/// A text as it is shown in the description of login parameters.
pub open spec fn unset_empty_text(s: Seq<char>) -> Seq<char> {
    if s.len() == 0 {
        "unset"@
    } else {
        s
    }
}

/// A password as it is shown in the description of login parameters.
pub open spec fn password_text(s: Seq<char>) -> Seq<char> {
    if s.len() > 0 {
        "***"@
    } else {
        "0"@
    }
}

/// The description of login parameters for the log, passwords hidden.
pub open spec fn login_param_text(p: EnteredLoginParam) -> Seq<char> {
    unset_empty_text(p.addr@) + " imap:"@ + unset_empty_text(p.imap.user@) + ":"@ + password_text(
        p.imap.password@,
    ) + ":"@ + unset_empty_text(p.imap.server@) + ":"@ + decimal(p.imap.port as nat) + ":"@
        + socket_name(p.imap.security) + " smtp:"@ + unset_empty_text(p.smtp.user@) + ":"@
        + password_text(p.smtp.password@) + ":"@ + unset_empty_text(p.smtp.server@) + ":"@
        + decimal(p.smtp.port as nat) + ":"@ + socket_name(p.smtp.security) + " cert_"@
        + checks_name(p.certificate_checks)
}

fn unset_empty(s: &str) -> (r: &str)
    ensures
        r@ == unset_empty_text(s@),
{
    if s.is_empty() {
        "unset"
    } else {
        s
    }
}

fn password_shown(s: &str) -> (r: &str)
    ensures
        r@ == password_text(s@),
{
    if !s.is_empty() {
        "***"
    } else {
        "0"
    }
}

fn push_text(out: &mut String, s: &str)
    ensures
        final(out)@ == old(out)@ + s@,
{
    push_all(out, &chars_of(s));
}

impl EnteredLoginParam {
    /// Describes the login parameters for the log, with passwords hidden.
    pub fn to_string(&self) -> (r: String)
        ensures
            r@ == login_param_text(*self),
    {
        let mut r = String::new();
        push_text(&mut r, unset_empty(self.addr.as_str()));
        push_text(&mut r, " imap:");
        push_text(&mut r, unset_empty(self.imap.user.as_str()));
        push_text(&mut r, ":");
        push_text(&mut r, password_shown(self.imap.password.as_str()));
        push_text(&mut r, ":");
        push_text(&mut r, unset_empty(self.imap.server.as_str()));
        push_text(&mut r, ":");
        push_decimal(&mut r, self.imap.port as u64);
        push_text(&mut r, ":");
        push_text(&mut r, self.imap.security.to_string().as_str());
        push_text(&mut r, " smtp:");
        push_text(&mut r, unset_empty(self.smtp.user.as_str()));
        push_text(&mut r, ":");
        push_text(&mut r, password_shown(self.smtp.password.as_str()));
        push_text(&mut r, ":");
        push_text(&mut r, unset_empty(self.smtp.server.as_str()));
        push_text(&mut r, ":");
        push_decimal(&mut r, self.smtp.port as u64);
        push_text(&mut r, ":");
        push_text(&mut r, self.smtp.security.to_string().as_str());
        push_text(&mut r, " cert_");
        push_text(&mut r, self.certificate_checks.to_string().as_str());
        proof {
            assert(r@ =~= login_param_text(*self));
        }
        r
    }
}

} // verus!
