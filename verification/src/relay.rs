//! Automatic relay management: when to look for additional relays, which candidates
//! to try, and the login parameters for a new account on a relay.

use vstd::prelude::*;

use rand::distr::{Alphanumeric, SampleString};
use rand::seq::IndexedRandom;

use crate::contact_tools::{addr_normalize, spec_addr_normalize};
use crate::login_param::{
    EnteredCertificateChecks, EnteredImapLoginParam, EnteredLoginParam, EnteredSmtpLoginParam, Socket,
};
use crate::text::{chars_of, push_all};

verus! {

/// The target number of transports.
pub const NUM_TRANSPORTS_TARGET: usize = 3;

/// How often relays are looked for, in seconds: one hour.
pub const AUTOMATIC_ADDITION_DEBOUNCE_SECONDS: i64 = 3600;

/// How long a relay candidate is left alone after it failed, in seconds: one week.
pub const BACKOFF_PERIOD_FOR_NOT_WORKING_RELAY: i64 = 604800;

/// `t` minus `d`, or the smallest `i64` where that is smaller.
pub open spec fn saturating_minus(t: i64, d: i64) -> i64 {
    if t - d < i64::MIN {
        i64::MIN
    } else {
        (t - d) as i64
    }
}

fn saturating_sub(t: i64, d: i64) -> (r: i64)
    requires
        d >= 0,
    ensures
        r == saturating_minus(t, d),
{
    if t < i64::MIN + d {
        i64::MIN
    } else {
        t - d
    }
}

/// Whether automatic relay management runs now.
#[derive(Debug, Clone, Copy, PartialEq, Eq, Structural)]
pub enum RelayRun {
    /// It does not run.
    Skip,
    /// It runs; `clock_ran_backwards` where the last run lies in the future, which is
    /// worth a warning.
    Run { clock_ran_backwards: bool },
}

/// Whether automatic relay management runs at `now`, given when it last ran, whether it
/// is enabled and whether it has finished: it runs at most once an hour (where the
/// clock ran backwards, it runs anyway), and only while it is enabled and not finished.
pub fn relay_run_decision(now: i64, last_timestamp: i64, enabled: bool, finished: bool) -> (r:
    RelayRun)
    ensures
        r == if last_timestamp <= now && last_timestamp > saturating_minus(
            now,
            AUTOMATIC_ADDITION_DEBOUNCE_SECONDS,
        ) {
            RelayRun::Skip
        } else if !enabled || finished {
            RelayRun::Skip
        } else {
            RelayRun::Run { clock_ran_backwards: last_timestamp > now }
        },
{
    let clock_ran_backwards = last_timestamp > now;
    if !clock_ran_backwards && last_timestamp > saturating_sub(
        now,
        AUTOMATIC_ADDITION_DEBOUNCE_SECONDS,
    ) {
        return RelayRun::Skip;
    }
    if !enabled || finished {
        return RelayRun::Skip;
    }
    RelayRun::Run { clock_ran_backwards }
}

/// The time before which a relay candidate counts as not tried recently: one week
/// before `now`.
pub fn relay_candidate_cutoff(now: i64) -> (r: i64)
    ensures
        r == saturating_minus(now, BACKOFF_PERIOD_FOR_NOT_WORKING_RELAY),
{
    saturating_sub(now, BACKOFF_PERIOD_FOR_NOT_WORKING_RELAY)
}

/// Whether a relay candidate last tried at `last_tried` may be tried at `now`: it was
/// not tried within the last week, or its time lies in the future.
pub fn relay_candidate_due(last_tried: i64, now: i64) -> (r: bool)
    ensures
        r == (last_tried < saturating_minus(now, BACKOFF_PERIOD_FOR_NOT_WORKING_RELAY)
            || last_tried > now),
{
    last_tried < relay_candidate_cutoff(now) || last_tried > now
}

/// Whether enough transports are configured, so that automatic relay management has
/// finished.
pub fn relay_target_reached(transport_count: usize) -> (r: bool)
    ensures
        r == (transport_count >= NUM_TRANSPORTS_TARGET),
{
    transport_count >= NUM_TRANSPORTS_TARGET
}

/// An ASCII letter or digit.
pub open spec fn is_alnum_char(c: char) -> bool {
    ('a' <= c <= 'z') || ('A' <= c <= 'Z') || ('0' <= c <= '9')
}

/// Calls `rand::seq::IndexedRandom::choose` with the thread's random number generator.
/// Of every outcome the source shows that it is `None` exactly for no candidates, and
/// otherwise one of the candidates.
#[verifier::external_body]
fn choose_random(candidates: &Vec<String>) -> (r: Option<String>)
    ensures
        r is None <==> candidates@.len() == 0,
        r matches Some(c) ==> exists|i: int|
            0 <= i < candidates@.len() && (#[trigger] candidates@[i])@ == c@,
{
    candidates.choose(&mut rand::rng()).cloned()
}

/// What one round of automatic relay management does next.
#[derive(Debug, Clone, PartialEq, Eq)]
pub enum RelayAttempt {
    /// Enough transports are configured: record that relay management has finished.
    Finished,
    /// No candidate is left to try: stop.
    NoCandidates,
    /// Try to configure a new transport on this host.
    Try(String),
}

/// Decides the next round of automatic relay management from the number of
/// configured transports and the relay candidates that are due: finish where the
/// target is reached, else try a candidate picked at random, or stop where there is
/// none.
pub fn next_relay_attempt(transport_count: usize, candidates: &Vec<String>) -> (r: RelayAttempt)
    ensures
        transport_count >= NUM_TRANSPORTS_TARGET ==> r == RelayAttempt::Finished,
        transport_count < NUM_TRANSPORTS_TARGET ==> (r == RelayAttempt::NoCandidates
            <==> candidates@.len() == 0),
        transport_count < NUM_TRANSPORTS_TARGET ==> (r is Finished == false),
        r matches RelayAttempt::Try(h) ==> exists|i: int|
            0 <= i < candidates@.len() && (#[trigger] candidates@[i])@ == h@,
{
    if relay_target_reached(transport_count) {
        return RelayAttempt::Finished;
    }
    match choose_random(candidates) {
        Some(h) => RelayAttempt::Try(h),
        None => RelayAttempt::NoCandidates,
    }
}

/// Calls `rand::distr::SampleString::sample_string` of `rand::distr::Alphanumeric`
/// with the thread's random number generator. As the source shows, every outcome is
/// `len` characters long and holds only ASCII letters and digits.
#[verifier::external_body]
fn random_alphanumeric(len: usize) -> (r: String)
    ensures
        r@.len() == len,
        forall|i: int| 0 <= i < len ==> is_alnum_char(#[trigger] r@[i]),
{
    Alphanumeric.sample_string(&mut rand::rng(), len)
}

/// `s` is `len` ASCII letters and digits.
pub open spec fn random_word(s: Seq<char>, len: nat) -> bool {
    s.len() == len && forall|i: int| 0 <= i < len ==> is_alnum_char(#[trigger] s[i])
}

/// Login parameters for a new account on the relay `host`: a random user name of nine
/// letters and digits at `host`, normalized, and a random password of 22 letters and
/// digits (about 130 bits); servers are left for configuration to find, and
/// certificates are checked strictly.
pub fn login_param_from_host(host: &str) -> (r: EnteredLoginParam)
    ensures
        exists|user: Seq<char>|
            random_word(user, 9) && r.addr@ == spec_addr_normalize(user + seq!['@'] + host@),
        random_word(r.imap.password@, 22),
        r.imap.server@.len() == 0 && r.imap.port == 0 && r.imap.folder@.len() == 0,
        r.imap.security == Socket::Automatic && r.imap.user@.len() == 0,
        r.smtp.server@.len() == 0 && r.smtp.port == 0 && r.smtp.security == Socket::Automatic,
        r.smtp.user@.len() == 0 && r.smtp.password@.len() == 0,
        r.certificate_checks == EnteredCertificateChecks::Strict,
        !r.oauth2,
{
    let username = random_alphanumeric(9);
    let mut raw = username.clone();
    raw.push('@');
    push_all(&mut raw, &chars_of(host));
    let addr = addr_normalize(raw.as_str());
    let password = random_alphanumeric(22);
    proof {
        assert(raw@ == username@ + seq!['@'] + host@);
        assert(random_word(username@, 9) && addr@ == spec_addr_normalize(
            username@ + seq!['@'] + host@,
        ));
    }
    EnteredLoginParam {
        addr,
        imap: EnteredImapLoginParam {
            server: String::new(),
            port: 0,
            folder: String::new(),
            security: Socket::Automatic,
            user: String::new(),
            password,
        },
        smtp: EnteredSmtpLoginParam {
            server: String::new(),
            port: 0,
            security: Socket::Automatic,
            user: String::new(),
            password: String::new(),
        },
        certificate_checks: EnteredCertificateChecks::Strict,
        oauth2: false,
    }
}

} // verus!
