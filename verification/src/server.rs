//! The relay server's start protocol and the proxy-URL builder.
//!
//! The server is started at most once per process. Its recorded state is
//! either not started or running on a fixed port; the shell guards the state
//! with one mutual-exclusion section and performs the actual bind, while the
//! decisions — when to bind, which ports to try and in which order, and what
//! a start request answers — are all taken here.

use crate::codec::ascii_chars_of;
use crate::codec::ascii_to_string;
use crate::codec::encode_target_url;
use crate::codec::lemma_encode_ascii;
use crate::codec::spec_percent_encode;
use crate::PROXY_PORT_RANGE_END;
use crate::PROXY_PORT_RANGE_START;
use vstd::prelude::*;
use vstd::string::StringExecFns;
use vstd::string::StringSliceAdditionalSpecFns;
use vstd::utf8::encode_utf8;

verus! {

/// The recorded state of the relay server: never started, or bound and
/// serving on one port that never changes for the process lifetime.
#[derive(Debug, Clone, Copy, PartialEq, Eq, Structural)]
pub enum ProxyServerStatus {
    NotStarted,
    Running(u16),
}

/// What a start request must do next, given the recorded state: answer the
/// already-bound port without any I/O, or bind a listener.
#[derive(Debug, Clone, Copy, PartialEq, Eq, Structural)]
pub enum StartAction {
    UsePort(u16),
    Bind,
}

/// The action a start request takes, as a function of the recorded state.
pub open spec fn spec_start_action(status: ProxyServerStatus) -> StartAction {
    match status {
        ProxyServerStatus::Running(p) => StartAction::UsePort(p),
        ProxyServerStatus::NotStarted => StartAction::Bind,
    }
}

/// Decide what a start request does: a running server answers its port at
/// once, with no bind attempt; otherwise a bind is called for.
pub fn start_action(status: &ProxyServerStatus) -> (a: StartAction)
    ensures
        a == spec_start_action(*status),
{
    match status {
        ProxyServerStatus::Running(p) => StartAction::UsePort(*p),
        ProxyServerStatus::NotStarted => StartAction::Bind,
    }
}

/// A port inside the fixed range the relay scans.
pub open spec fn port_in_range(p: u16) -> bool {
    PROXY_PORT_RANGE_START <= p < PROXY_PORT_RANGE_END
}

/// The state and answer after a bind attempt: the first bindable port makes
/// the server running and is returned; no bindable port leaves the server
/// not started, so a later start may retry.
pub open spec fn spec_start_finish(bound: Option<u16>) -> (ProxyServerStatus, Option<u16>) {
    match bound {
        Some(p) => (ProxyServerStatus::Running(p), Some(p)),
        None => (ProxyServerStatus::NotStarted, None),
    }
}

/// Record the outcome of the bind attempt a start request made. `bound` is
/// the port of the listener the shell bound — always one of the candidate
/// ports — or nothing when every candidate port was taken; the answer is the
/// bound port, which therefore lies in the fixed range, or the resource
/// error.
pub fn start_finish(bound: Option<u16>) -> (r: (ProxyServerStatus, Result<u16, String>))
    requires
        bound matches Some(p) ==> port_in_range(p),
    ensures
        r.0 == spec_start_finish(bound).0,
        bound matches Some(p) ==> r.1 == Ok::<u16, String>(p),
        r.1 matches Ok(p) ==> port_in_range(p),
        r.0 matches ProxyServerStatus::Running(p) ==> port_in_range(p),
        bound is None ==> (r.1 matches Err(m) && m@ == "no available port"@),
{
    match bound {
        Some(p) => (ProxyServerStatus::Running(p), Ok(p)),
        None => (ProxyServerStatus::NotStarted, Err(String::from_str("no available port"))),
    }
}

/// Law: starting is idempotent and binds at most one listener. After a start
/// request succeeds — whatever port the bind yielded — the state is running
/// on that port, and every further start request answers the same port
/// without asking for another bind.
pub proof fn lemma_start_idempotent(bound: Option<u16>)
    requires
        bound is Some,
    ensures
        spec_start_finish(bound).0 == ProxyServerStatus::Running(bound->Some_0),
        spec_start_action(spec_start_finish(bound).0) == StartAction::UsePort(bound->Some_0),
        spec_start_action(spec_start_finish(bound).0) != StartAction::Bind,
{
}

/// The candidate ports, in the order the bind loop tries them: the fixed
/// range, ascending, start inclusive and end exclusive.
pub fn port_candidates() -> (r: Vec<u16>)
    ensures
        r@.len() == PROXY_PORT_RANGE_END - PROXY_PORT_RANGE_START,
        forall|i: int| 0 <= i < r@.len() ==> r@[i] == PROXY_PORT_RANGE_START + i,
{
    let mut v: Vec<u16> = Vec::new();
    let mut p: u16 = PROXY_PORT_RANGE_START;
    while p < PROXY_PORT_RANGE_END
        invariant
            PROXY_PORT_RANGE_START <= p <= PROXY_PORT_RANGE_END,
            v@.len() == p - PROXY_PORT_RANGE_START,
            forall|i: int| 0 <= i < v@.len() ==> v@[i] == PROXY_PORT_RANGE_START + i,
        decreases PROXY_PORT_RANGE_END - p,
    {
        v.push(p);
        p = p + 1;
    }
    v
}

/// The decimal digits of a number, most significant first.
pub open spec fn spec_dec_digits(n: nat) -> Seq<u8>
    decreases n,
{
    if n < 10 {
        seq![(48 + n) as u8]
    } else {
        spec_dec_digits(n / 10).push((48 + n % 10) as u8)
    }
}

proof fn lemma_dec_digits_ascii(n: nat)
    ensures
        forall|i: int| 0 <= i < spec_dec_digits(n).len() ==> spec_dec_digits(n)[i] < 128,
    decreases n,
{
    if n >= 10 {
        lemma_dec_digits_ascii(n / 10);
        let rest = spec_dec_digits(n / 10);
        assert forall|i: int| 0 <= i < spec_dec_digits(n).len() implies spec_dec_digits(n)[i]
            < 128 by {
            if i < rest.len() {
                assert(spec_dec_digits(n)[i] == rest[i]);
            }
        }
    }
}

fn u16_to_dec(n: u16) -> (r: Vec<u8>)
    ensures
        r@ == spec_dec_digits(n as nat),
    decreases n,
{
    if n < 10 {
        let mut v: Vec<u8> = Vec::new();
        v.push(48 + n as u8);
        proof {
            assert(v@ =~= spec_dec_digits(n as nat));
        }
        v
    } else {
        let mut v = u16_to_dec(n / 10);
        v.push(48 + (n % 10) as u8);
        proof {
            assert(v@ =~= spec_dec_digits(n as nat));
        }
        v
    }
}

/// The relay URL for a target URL once the server runs on `port`:
/// `http://127.0.0.1:<port>/proxy/<percent-encoded target>`.
pub open spec fn spec_proxy_url(port: u16, url: Seq<char>) -> Seq<char> {
    "http://127.0.0.1:"@ + ascii_chars_of(spec_dec_digits(port as nat)) + "/proxy/"@
        + ascii_chars_of(spec_percent_encode(encode_utf8(url)))
}

/// Build the relay URL for a target URL, given the port the server runs on.
/// An empty target is the one rejected input; it never reaches the network.
pub fn build_proxy_url(url: &str, port: u16) -> (r: Result<String, String>)
    ensures
        url@.len() == 0 <==> r is Err,
        r matches Err(m) ==> m@ == "URL empty"@,
        r matches Ok(u) ==> u@ == spec_proxy_url(port, url@),
{
    if url.is_empty() {
        return Err(String::from_str("URL empty"));
    }
    let mut out = String::from_str("http://127.0.0.1:");
    let digits = u16_to_dec(port);
    proof {
        lemma_dec_digits_ascii(port as nat);
    }
    let digit_str = ascii_to_string(digits);
    out.append(digit_str.as_str());
    out.append("/proxy/");
    let encoded = encode_target_url(url);
    proof {
        lemma_encode_ascii(url.spec_bytes());
    }
    let encoded_str = ascii_to_string(encoded);
    out.append(encoded_str.as_str());
    proof {
        assert(out@ =~= spec_proxy_url(port, url@));
    }
    Ok(out)
}

/// The next step for a proxy-URL request, as a function of the target URL
/// and the recorded server state.
#[derive(Debug, PartialEq, Eq)]
pub enum ProxyAudioAction {
    /// The input is rejected; no bind and no network activity follows.
    Fail(String),
    /// The server is not running yet: start it, then ask again.
    StartServer,
    /// The relay URL to answer.
    Respond(String),
}

/// Decide one step of a proxy-URL request. An empty target URL fails at once,
/// whatever the server state — in particular it asks for no start and no
/// bind. A non-empty target either waits for the server to start or is
/// answered with the relay URL on the running port.
pub fn proxy_audio_action(url: &str, status: &ProxyServerStatus) -> (r: ProxyAudioAction)
    ensures
        url@.len() == 0 ==> (r matches ProxyAudioAction::Fail(m) && m@ == "URL empty"@),
        url@.len() > 0 ==> (match *status {
            ProxyServerStatus::NotStarted => r is StartServer,
            ProxyServerStatus::Running(p) => r matches ProxyAudioAction::Respond(u) && u@
                == spec_proxy_url(p, url@),
        }),
{
    if url.is_empty() {
        return ProxyAudioAction::Fail(String::from_str("URL empty"));
    }
    match status {
        ProxyServerStatus::NotStarted => ProxyAudioAction::StartServer,
        ProxyServerStatus::Running(p) => {
            match build_proxy_url(url, *p) {
                Ok(u) => ProxyAudioAction::Respond(u),
                Err(_) => vstd::pervasive::unreached(),
            }
        },
    }
}

} // verus!
