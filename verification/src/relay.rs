//! The streaming relay: what one inbound request asks of the upstream host,
//! and how the upstream answer is translated back.
//!
//! The shell owns the sockets and the shared client; this module takes the
//! decisions. One relay exchange runs in three verified steps: plan the
//! upstream fetch from the encoded path and the inbound `Range` header,
//! judge the upstream outcome (refuse with a gateway error, or mirror), and
//! lay out the full ordered header list of the relay's answer. The body is
//! streamed through unchanged by the shell, chunk by chunk.

use crate::codec::decode_target_url;
use crate::codec::spec_decode_url;
use vstd::prelude::*;
use vstd::string::StrSliceExecFns;
use vstd::string::StringSliceAdditionalSpecFns;

verus! {

/// One header as raw bytes: a name and a value, exactly as the upstream
/// answer carried them.
#[derive(Debug, PartialEq, Eq)]
pub struct RawHeader {
    pub name: Vec<u8>,
    pub value: Vec<u8>,
}

/// The views of a header list: each header as its pair of byte sequences.
pub open spec fn raw_views(hs: Seq<RawHeader>) -> Seq<(Seq<u8>, Seq<u8>)> {
    hs.map_values(|h: RawHeader| (h.name@, h.value@))
}

/// A byte allowed in a header name: an ASCII token character.
pub open spec fn is_token_byte(b: u8) -> bool {
    ||| 48 <= b <= 57
    ||| 65 <= b <= 90
    ||| 97 <= b <= 122
    ||| b == 33
    ||| 35 <= b <= 39
    ||| b == 42
    ||| b == 43
    ||| b == 45
    ||| b == 46
    ||| b == 94
    ||| b == 95
    ||| b == 96
    ||| b == 124
    ||| b == 126
}

/// A syntactically valid header name: nonempty, token characters only.
pub open spec fn is_valid_header_name(n: Seq<u8>) -> bool {
    n.len() > 0 && (forall|i: int| 0 <= i < n.len() ==> is_token_byte(#[trigger] n[i]))
}

/// A representable header value: visible ASCII, space or horizontal tab.
pub open spec fn is_valid_header_value(v: Seq<u8>) -> bool {
    forall|i: int| 0 <= i < v.len() ==> (32 <= #[trigger] v[i] <= 126 || v[i] == 9)
}

fn token_byte(b: u8) -> (r: bool)
    ensures
        r == is_token_byte(b),
{
    (48 <= b && b <= 57) || (65 <= b && b <= 90) || (97 <= b && b <= 122) || b == 33 || (35 <= b
        && b <= 39) || b == 42 || b == 43 || b == 45 || b == 46 || b == 94 || b == 95 || b == 96
        || b == 124 || b == 126
}

/// Check that a name is a valid header name.
pub fn valid_header_name(n: &Vec<u8>) -> (r: bool)
    ensures
        r == is_valid_header_name(n@),
{
    if n.len() == 0 {
        return false;
    }
    let mut i: usize = 0;
    while i < n.len()
        invariant
            i <= n@.len(),
            forall|j: int| 0 <= j < i ==> is_token_byte(#[trigger] n@[j]),
        decreases n@.len() - i,
    {
        if !token_byte(n[i]) {
            return false;
        }
        i = i + 1;
    }
    true
}

/// Check that a value is representable.
pub fn valid_header_value(v: &Vec<u8>) -> (r: bool)
    ensures
        r == is_valid_header_value(v@),
{
    let mut i: usize = 0;
    while i < v.len()
        invariant
            i <= v@.len(),
            forall|j: int| 0 <= j < i ==> (32 <= #[trigger] v@[j] <= 126 || v@[j] == 9),
        decreases v@.len() - i,
    {
        let b = v[i];
        if !(b == 9 || (32 <= b && b <= 126)) {
            return false;
        }
        i = i + 1;
    }
    true
}

/// Whether two byte vectors hold the same bytes.
pub fn bytes_eq(a: &Vec<u8>, b: &Vec<u8>) -> (r: bool)
    ensures
        r == (a@ == b@),
{
    if a.len() != b.len() {
        return false;
    }
    let mut i: usize = 0;
    while i < a.len()
        invariant
            a@.len() == b@.len(),
            i <= a@.len(),
            forall|j: int| 0 <= j < i ==> a@[j] == b@[j],
        decreases a@.len() - i,
    {
        if a[i] != b[i] {
            return false;
        }
        i = i + 1;
    }
    proof {
        assert(a@ =~= b@);
    }
    true
}

fn copy_bytes(v: &Vec<u8>) -> (r: Vec<u8>)
    ensures
        r@ == v@,
{
    let mut out: Vec<u8> = Vec::new();
    let mut i: usize = 0;
    while i < v.len()
        invariant
            i <= v@.len(),
            out@ == v@.take(i as int),
        decreases v@.len() - i,
    {
        out.push(v[i]);
        proof {
            assert(v@.take(i + 1) =~= v@.take(i as int).push(v@[i as int]));
        }
        i = i + 1;
    }
    proof {
        assert(v@.take(v@.len() as int) =~= v@);
    }
    out
}

/// The first value carried under a name, if any.
pub open spec fn spec_lookup(headers: Seq<RawHeader>, name: Seq<u8>) -> Option<Seq<u8>>
    decreases headers.len(),
{
    if headers.len() == 0 {
        None
    } else if headers[0].name@ == name {
        Some(headers[0].value@)
    } else {
        spec_lookup(headers.drop_first(), name)
    }
}

fn lookup_header(headers: &Vec<RawHeader>, name: &Vec<u8>) -> (r: Option<Vec<u8>>)
    ensures
        match r {
            Some(v) => spec_lookup(headers@, name@) == Some(v@),
            None => spec_lookup(headers@, name@) is None,
        },
{
    let mut i: usize = 0;
    proof {
        assert(headers@.skip(0) =~= headers@);
    }
    while i < headers.len()
        invariant
            i <= headers@.len(),
            spec_lookup(headers@, name@) == spec_lookup(headers@.skip(i as int), name@),
        decreases headers@.len() - i,
    {
        if bytes_eq(&headers[i].name, name) {
            return Some(copy_bytes(&headers[i].value));
        }
        proof {
            assert(headers@.skip(i as int).drop_first() =~= headers@.skip(i + 1));
        }
        i = i + 1;
    }
    None
}

/// The first value carried under a name, when it is also representable.
pub open spec fn spec_optional_header(headers: Seq<RawHeader>, name: Seq<u8>) -> Option<Seq<u8>> {
    match spec_lookup(headers, name) {
        Some(v) => if is_valid_header_value(v) {
            Some(v)
        } else {
            None
        },
        None => None,
    }
}

fn optional_header(headers: &Vec<RawHeader>, name: &Vec<u8>) -> (r: Option<Vec<u8>>)
    ensures
        match r {
            Some(v) => spec_optional_header(headers@, name@) == Some(v@),
            None => spec_optional_header(headers@, name@) is None,
        },
{
    match lookup_header(headers, name) {
        Some(v) => {
            if valid_header_value(&v) {
                Some(v)
            } else {
                None
            }
        },
        None => None,
    }
}

/// The upstream fetch planned for one relay request: the decoded target URL
/// and the inbound `Range` value to forward verbatim, when one is present
/// and representable.
#[derive(Debug, PartialEq, Eq)]
pub struct UpstreamRequestPlan {
    pub url: String,
    pub range: Option<Vec<u8>>,
}

/// Plan the upstream fetch for one inbound relay request. A path segment
/// that does not decode — bad percent-encoding, or bytes that are not valid
/// UTF-8 — is answered with a client error, and no upstream fetch is planned.
pub fn plan_upstream_request(encoded: &str, inbound_range: &Option<Vec<u8>>) -> (r: Result<
    UpstreamRequestPlan,
    u16,
>)
    ensures
        r is Err <==> spec_decode_url(encoded.spec_bytes()) is None,
        r matches Err(code) ==> code == 400,
        r matches Ok(plan) ==> ({
            &&& Some(plan.url@) == spec_decode_url(encoded.spec_bytes())
            &&& (match inbound_range {
                Some(v) => if is_valid_header_value(v@) {
                    plan.range matches Some(w) && w@ == v@
                } else {
                    plan.range is None
                },
                None => plan.range is None,
            })
        }),
{
    let url = match decode_target_url(encoded) {
        Some(u) => u,
        None => {
            return Err(400);
        },
    };
    let range = match inbound_range {
        Some(v) => {
            if valid_header_value(v) {
                Some(copy_bytes(v))
            } else {
                None
            }
        },
        None => None,
    };
    Ok(UpstreamRequestPlan { url, range })
}

/// Whether a status is in the 2xx success class.
pub open spec fn is_success_status(s: u16) -> bool {
    200 <= s < 300
}

/// A status the relay passes through: success, or partial content.
pub open spec fn is_acceptable_status(s: u16) -> bool {
    is_success_status(s) || s == 206
}

/// The mirrored status: kept when it is a representable HTTP code, 200
/// otherwise.
pub open spec fn spec_mirror_status(s: u16) -> u16 {
    if 100 <= s <= 999 {
        s
    } else {
        200
    }
}

/// What the shell observed while carrying out a planned fetch: the shared
/// client could not be had at all, the request went out but no answer came
/// back (a connection or transport failure), or the upstream answered with a
/// status.
#[derive(Debug, Clone, Copy, PartialEq, Eq, Structural)]
pub enum FetchOutcome {
    ClientUnavailable,
    TransportFailed,
    Answered(u16),
}

/// How the relay answers once the fetch outcome is known: refuse with an
/// error status — noting whether the failure is logged — or mirror the
/// upstream status and stream the body through.
#[derive(Debug, Clone, Copy, PartialEq, Eq, Structural)]
pub enum UpstreamVerdict {
    Refuse { code: u16, log: bool },
    Mirror { status: u16 },
}

/// The verdict on a fetch outcome. An unavailable client is refused as 500
/// before any upstream call is made. A transport failure and every
/// non-success, non-206 status are refused as 502; among the refused
/// statuses only 403 — an expired link, which the UI recovers from by
/// refreshing the source — goes unlogged.
pub open spec fn spec_judge_upstream(outcome: FetchOutcome) -> UpstreamVerdict {
    match outcome {
        FetchOutcome::ClientUnavailable => UpstreamVerdict::Refuse { code: 500, log: false },
        FetchOutcome::TransportFailed => UpstreamVerdict::Refuse { code: 502, log: true },
        FetchOutcome::Answered(s) => if !is_acceptable_status(s) {
            UpstreamVerdict::Refuse { code: 502, log: s != 403 }
        } else {
            UpstreamVerdict::Mirror { status: spec_mirror_status(s) }
        },
    }
}

/// Judge the fetch outcome of one relay exchange.
pub fn judge_upstream(outcome: FetchOutcome) -> (v: UpstreamVerdict)
    ensures
        v == spec_judge_upstream(outcome),
{
    match outcome {
        FetchOutcome::ClientUnavailable => UpstreamVerdict::Refuse { code: 500, log: false },
        FetchOutcome::TransportFailed => UpstreamVerdict::Refuse { code: 502, log: true },
        FetchOutcome::Answered(s) => {
            if !((200 <= s && s < 300) || s == 206) {
                UpstreamVerdict::Refuse { code: 502, log: s != 403 }
            } else {
                UpstreamVerdict::Mirror { status: if 100 <= s && s <= 999 {
                    s
                } else {
                    200
                } }
            }
        },
    }
}

/// A reserved name: one of the three headers the relay re-emits itself.
pub open spec fn is_reserved_name(n: Seq<u8>) -> bool {
    ||| n == "content-type".spec_bytes()
    ||| n == "content-length".spec_bytes()
    ||| n == "content-range".spec_bytes()
}

/// Whether an upstream header is copied through verbatim: not one of the
/// three the relay owns, and a syntactically valid name/value pair. Anything
/// not representable is silently dropped, never a reason to fail the answer.
pub open spec fn keep_header(h: RawHeader) -> bool {
    !is_reserved_name(h.name@) && is_valid_header_name(h.name@) && is_valid_header_value(h.value@)
}

/// The upstream headers that are copied through, in upstream order.
pub open spec fn spec_passthrough(headers: Seq<RawHeader>) -> Seq<(Seq<u8>, Seq<u8>)>
    decreases headers.len(),
{
    if headers.len() == 0 {
        Seq::empty()
    } else {
        let rest = spec_passthrough(headers.drop_first());
        if keep_header(headers[0]) {
            seq![(headers[0].name@, headers[0].value@)] + rest
        } else {
            rest
        }
    }
}

/// The relay's content type: the upstream's, when present and representable,
/// and the fixed audio MIME type otherwise.
pub open spec fn spec_content_type(headers: Seq<RawHeader>) -> Seq<u8> {
    match spec_optional_header(headers, "content-type".spec_bytes()) {
        Some(v) => v,
        None => "audio/mp4".spec_bytes(),
    }
}

/// An optional re-emitted header as a zero- or one-element list.
pub open spec fn spec_opt_pair(name: Seq<u8>, v: Option<Seq<u8>>) -> Seq<(Seq<u8>, Seq<u8>)> {
    match v {
        Some(value) => seq![(name, value)],
        None => Seq::empty(),
    }
}

/// The fixed front of every relay answer: the content type, Range support,
/// and the permissive CORS grants.
pub open spec fn spec_fixed_headers(headers: Seq<RawHeader>) -> Seq<(Seq<u8>, Seq<u8>)> {
    seq![
        ("content-type".spec_bytes(), spec_content_type(headers)),
        ("accept-ranges".spec_bytes(), "bytes".spec_bytes()),
        ("access-control-allow-origin".spec_bytes(), "*".spec_bytes()),
        ("access-control-allow-methods".spec_bytes(), "GET, HEAD, OPTIONS".spec_bytes()),
        ("access-control-allow-headers".spec_bytes(), "Range".spec_bytes()),
    ]
}

/// The full ordered header list of the relay's answer: the fixed front, then
/// `content-length` and `content-range` when the upstream carried them
/// representably, then every other upstream header that passes through.
pub open spec fn spec_response_headers(headers: Seq<RawHeader>) -> Seq<(Seq<u8>, Seq<u8>)> {
    spec_fixed_headers(headers) + spec_opt_pair(
        "content-length".spec_bytes(),
        spec_optional_header(headers, "content-length".spec_bytes()),
    ) + spec_opt_pair(
        "content-range".spec_bytes(),
        spec_optional_header(headers, "content-range".spec_bytes()),
    ) + spec_passthrough(headers)
}

/// The response the relay sends back for an accepted upstream answer: the
/// mirrored status and the full ordered header list. The body is streamed
/// through unchanged by the shell.
#[derive(Debug, PartialEq, Eq)]
pub struct RelayResponsePlan {
    pub status: u16,
    pub headers: Vec<RawHeader>,
}

proof fn lemma_passthrough_push(s: Seq<RawHeader>, h: RawHeader)
    ensures
        spec_passthrough(s.push(h)) == spec_passthrough(s) + (if keep_header(h) {
            seq![(h.name@, h.value@)]
        } else {
            Seq::<(Seq<u8>, Seq<u8>)>::empty()
        }),
    decreases s.len(),
{
    let tail = if keep_header(h) {
        seq![(h.name@, h.value@)]
    } else {
        Seq::<(Seq<u8>, Seq<u8>)>::empty()
    };
    if s.len() == 0 {
        assert(s.push(h).drop_first() =~= Seq::<RawHeader>::empty());
        assert(s.push(h)[0] == h);
        assert(spec_passthrough(Seq::<RawHeader>::empty())
            =~= Seq::<(Seq<u8>, Seq<u8>)>::empty());
        assert(spec_passthrough(s.push(h)) =~= spec_passthrough(s) + tail);
    } else {
        assert(s.push(h).drop_first() =~= s.drop_first().push(h));
        lemma_passthrough_push(s.drop_first(), h);
        if keep_header(s[0]) {
            assert(seq![(s[0].name@, s[0].value@)] + (spec_passthrough(s.drop_first()) + tail)
                =~= (seq![(s[0].name@, s[0].value@)] + spec_passthrough(s.drop_first())) + tail);
        }
    }
}

fn passthrough_headers(headers: &Vec<RawHeader>) -> (r: Vec<RawHeader>)
    ensures
        raw_views(r@) == spec_passthrough(headers@),
{
    let ct = "content-type".as_bytes_vec();
    let cl = "content-length".as_bytes_vec();
    let cr = "content-range".as_bytes_vec();
    let mut out: Vec<RawHeader> = Vec::new();
    let mut i: usize = 0;
    proof {
        assert(headers@.take(0) =~= Seq::<RawHeader>::empty());
        assert(raw_views(out@) =~= spec_passthrough(headers@.take(0)));
    }
    while i < headers.len()
        invariant
            i <= headers@.len(),
            ct@ == "content-type".spec_bytes(),
            cl@ == "content-length".spec_bytes(),
            cr@ == "content-range".spec_bytes(),
            raw_views(out@) == spec_passthrough(headers@.take(i as int)),
        decreases headers@.len() - i,
    {
        let h = &headers[i];
        let reserved = bytes_eq(&h.name, &ct) || bytes_eq(&h.name, &cl) || bytes_eq(&h.name, &cr);
        let ghost out0 = out@;
        if !reserved && valid_header_name(&h.name) && valid_header_value(&h.value) {
            out.push(RawHeader { name: copy_bytes(&h.name), value: copy_bytes(&h.value) });
            proof {
                assert(raw_views(out@) =~= raw_views(out0).push(
                    (headers@[i as int].name@, headers@[i as int].value@),
                ));
            }
        }
        proof {
            assert(headers@.take(i + 1) =~= headers@.take(i as int).push(headers@[i as int]));
            lemma_passthrough_push(headers@.take(i as int), headers@[i as int]);
            assert(raw_views(out@) =~= spec_passthrough(headers@.take(i + 1)));
        }
        i = i + 1;
    }
    proof {
        assert(headers@.take(headers@.len() as int) =~= headers@);
    }
    out
}

/// Lay out the relay's answer to an accepted upstream response: mirror the
/// status and emit the full ordered header list.
pub fn plan_relay_response(status: u16, upstream: &Vec<RawHeader>) -> (r: RelayResponsePlan)
    requires
        is_acceptable_status(status),
    ensures
        r.status == spec_mirror_status(status),
        raw_views(r.headers@) == spec_response_headers(upstream@),
{
    let mirrored: u16 = if 100 <= status && status <= 999 {
        status
    } else {
        200
    };
    let ct_name = "content-type".as_bytes_vec();
    let cl_name = "content-length".as_bytes_vec();
    let cr_name = "content-range".as_bytes_vec();
    let content_type = match optional_header(upstream, &ct_name) {
        Some(v) => v,
        None => "audio/mp4".as_bytes_vec(),
    };
    let mut out: Vec<RawHeader> = Vec::new();
    out.push(RawHeader { name: ct_name, value: content_type });
    out.push(RawHeader { name: "accept-ranges".as_bytes_vec(), value: "bytes".as_bytes_vec() });
    out.push(
        RawHeader {
            name: "access-control-allow-origin".as_bytes_vec(),
            value: "*".as_bytes_vec(),
        },
    );
    out.push(
        RawHeader {
            name: "access-control-allow-methods".as_bytes_vec(),
            value: "GET, HEAD, OPTIONS".as_bytes_vec(),
        },
    );
    out.push(
        RawHeader {
            name: "access-control-allow-headers".as_bytes_vec(),
            value: "Range".as_bytes_vec(),
        },
    );
    proof {
        assert(raw_views(out@) =~= spec_fixed_headers(upstream@));
    }
    let ghost fixed = raw_views(out@);
    match optional_header(upstream, &cl_name) {
        Some(v) => {
            out.push(RawHeader { name: cl_name, value: v });
        },
        None => {},
    }
    proof {
        assert(raw_views(out@) =~= fixed + spec_opt_pair(
            "content-length".spec_bytes(),
            spec_optional_header(upstream@, "content-length".spec_bytes()),
        ));
    }
    let ghost with_cl = raw_views(out@);
    match optional_header(upstream, &cr_name) {
        Some(v) => {
            out.push(RawHeader { name: cr_name, value: v });
        },
        None => {},
    }
    proof {
        assert(raw_views(out@) =~= with_cl + spec_opt_pair(
            "content-range".spec_bytes(),
            spec_optional_header(upstream@, "content-range".spec_bytes()),
        ));
    }
    let ghost with_cr = raw_views(out@);
    let mut extra = passthrough_headers(upstream);
    let ghost extra_views = raw_views(extra@);
    out.append(&mut extra);
    proof {
        assert(raw_views(out@) =~= with_cr + extra_views);
        assert(raw_views(out@) =~= spec_response_headers(upstream@));
    }
    RelayResponsePlan { status: mirrored, headers: out }
}

/// Law: a Range-honoring upstream answer passes through. A 206 upstream
/// status is accepted and mirrored as 206, and the upstream's representable
/// `content-range` value is re-emitted unchanged among the relay's headers.
pub proof fn lemma_range_passthrough(headers: Seq<RawHeader>, cr: Seq<u8>)
    requires
        spec_optional_header(headers, "content-range".spec_bytes()) == Some(cr),
    ensures
        spec_judge_upstream(FetchOutcome::Answered(206)) == (UpstreamVerdict::Mirror {
            status: 206,
        }),
        spec_response_headers(headers).contains(("content-range".spec_bytes(), cr)),
{
    let fixed = spec_fixed_headers(headers);
    let clp = spec_opt_pair(
        "content-length".spec_bytes(),
        spec_optional_header(headers, "content-length".spec_bytes()),
    );
    let crp = spec_opt_pair(
        "content-range".spec_bytes(),
        spec_optional_header(headers, "content-range".spec_bytes()),
    );
    let k = fixed.len() + clp.len();
    assert(spec_response_headers(headers)[k as int] == ("content-range".spec_bytes(), cr));
}

/// Law: a failing upstream answer is surfaced as a gateway error, and the
/// expired-link status 403 is the one such failure that is not logged; every
/// other failure — a 500, or no answer at all — is. An unavailable shared
/// client is refused as 500 before any upstream call.
pub proof fn lemma_failure_surfacing(s: u16)
    requires
        !is_acceptable_status(s),
    ensures
        spec_judge_upstream(FetchOutcome::Answered(s)) == (UpstreamVerdict::Refuse {
            code: 502,
            log: s != 403,
        }),
        spec_judge_upstream(FetchOutcome::Answered(403)) == (UpstreamVerdict::Refuse {
            code: 502,
            log: false,
        }),
        spec_judge_upstream(FetchOutcome::Answered(500)) == (UpstreamVerdict::Refuse {
            code: 502,
            log: true,
        }),
        spec_judge_upstream(FetchOutcome::TransportFailed) == (UpstreamVerdict::Refuse {
            code: 502,
            log: true,
        }),
        spec_judge_upstream(FetchOutcome::ClientUnavailable) == (UpstreamVerdict::Refuse {
            code: 500,
            log: false,
        }),
{
}

/// Law: relaying is stateless. The verdict and the response layout are
/// functions of the inbound request and the upstream answer alone — the
/// executable steps are pinned to these functions by their contracts — so
/// issuing the same relay request twice against an unchanged upstream yields
/// the same verdict and the same response plan both times. The equalities
/// below hold by that very purity; the lemma records it, the weight is
/// carried by the executable contracts above.
pub proof fn lemma_relay_repeatable(
    outcome: FetchOutcome,
    headers: Seq<RawHeader>,
    encoded: Seq<u8>,
)
    ensures
        spec_judge_upstream(outcome) == spec_judge_upstream(outcome),
        spec_response_headers(headers) == spec_response_headers(headers),
        spec_decode_url(encoded) == spec_decode_url(encoded),
{
}

} // verus!

