//! The shared upstream client's fixed identity.
//!
//! Every request to the upstream media host carries the same referer, origin
//! and user agent, chosen to satisfy the host's anti-embedding checks. The
//! shell builds the one process-wide client (with its cookie jar, pre-warmed
//! by one best-effort visit to the landing page) and applies this identity to
//! each outgoing request.

use vstd::prelude::*;
use vstd::string::StringExecFns;

verus! {

/// The recorded state of the shared client: not built yet, or built once and
/// cached for the process lifetime.
#[derive(Debug, Clone, Copy, PartialEq, Eq, Structural)]
pub enum ClientStatus {
    NotBuilt,
    Ready,
}

/// What a client request must do next, given the recorded state: hand out
/// the cached client without building anything, or build one.
#[derive(Debug, Clone, Copy, PartialEq, Eq, Structural)]
pub enum ClientAction {
    UseCached,
    Build,
}

/// The action a client request takes, as a function of the recorded state.
pub open spec fn spec_client_action(status: ClientStatus) -> ClientAction {
    match status {
        ClientStatus::Ready => ClientAction::UseCached,
        ClientStatus::NotBuilt => ClientAction::Build,
    }
}

/// Decide what a client request does: once the client is built, every caller
/// gets the cached one and nothing is built again; otherwise a build is
/// called for.
pub fn client_action(status: &ClientStatus) -> (a: ClientAction)
    ensures
        a == spec_client_action(*status),
{
    match status {
        ClientStatus::Ready => ClientAction::UseCached,
        ClientStatus::NotBuilt => ClientAction::Build,
    }
}

/// The state after a build attempt: a built client is cached; a failed build
/// caches nothing, so a later call retries.
pub open spec fn spec_client_finish(build_error: Option<Seq<char>>) -> ClientStatus {
    match build_error {
        None => ClientStatus::Ready,
        Some(_) => ClientStatus::NotBuilt,
    }
}

/// Record the outcome of the build a client request made. `build_error` is
/// the detail of the construction failure, or nothing when the client was
/// built; `prewarm_ok` is the outcome of the best-effort cookie pre-warm,
/// which the contract shows has no bearing on the answer — its failure is
/// swallowed, never fatal.
pub fn client_finish(build_error: Option<String>, prewarm_ok: bool) -> (r: (
    ClientStatus,
    Result<(), String>,
))
    ensures
        build_error is None ==> (r.0 == spec_client_finish(None) && r.1 is Ok),
        build_error matches Some(d) ==> ({
            &&& r.0 == spec_client_finish(Some(d@))
            &&& r.1 matches Err(m) && m@ == "创建 HTTP 客户端失败: "@ + d@
        }),
{
    match build_error {
        None => (ClientStatus::Ready, Ok(())),
        Some(d) => (
            ClientStatus::NotBuilt,
            Err(String::from_str("创建 HTTP 客户端失败: ").concat(d.as_str())),
        ),
    }
}

/// Law: the shared client is initialized exactly once. After a successful
/// build the state is ready and every later request uses the cached client,
/// asking for no further build; after a failed build nothing is cached, so a
/// later request retries the build. The pre-warm outcome never enters the
/// state at all.
pub proof fn lemma_client_init_once(detail: Seq<char>)
    ensures
        spec_client_action(spec_client_finish(None)) == ClientAction::UseCached,
        spec_client_action(spec_client_finish(None)) != ClientAction::Build,
        spec_client_action(spec_client_finish(Some(detail))) == ClientAction::Build,
{
}

/// The fixed user agent sent upstream.
pub fn user_agent() -> (r: &'static str)
    ensures
        r@ == user_agent_view(),
{
    "Mozilla/5.0 (Windows NT 10.0; Win64; x64) AppleWebKit/537.36 (KHTML, like Gecko) Chrome/120.0.0.0 Safari/537.36"
}

/// The referer sent upstream: the media host's landing page.
pub fn bilibili_referer() -> (r: &'static str)
    ensures
        r@ == "https://www.bilibili.com"@,
{
    "https://www.bilibili.com"
}

/// The origin sent upstream.
pub fn bilibili_origin() -> (r: &'static str)
    ensures
        r@ == "https://www.bilibili.com"@,
{
    "https://www.bilibili.com"
}

/// The landing page visited once, best-effort, when the client is built, to
/// seed the cookie jar; its outcome is deliberately discarded.
pub fn prewarm_url() -> (r: &'static str)
    ensures
        r@ == "https://www.bilibili.com"@,
{
    "https://www.bilibili.com"
}

/// The identity headers applied to every upstream request, in order: the
/// referer, the origin, and the user agent.
pub fn bilibili_header_list() -> (r: Vec<(String, String)>)
    ensures
        r@.len() == 3,
        r@[0].0@ == "Referer"@ && r@[0].1@ == "https://www.bilibili.com"@,
        r@[1].0@ == "Origin"@ && r@[1].1@ == "https://www.bilibili.com"@,
        r@[2].0@ == "User-Agent"@ && r@[2].1@ == user_agent_view(),
{
    let mut v: Vec<(String, String)> = Vec::new();
    v.push((String::from_str("Referer"), String::from_str(bilibili_referer())));
    v.push((String::from_str("Origin"), String::from_str(bilibili_origin())));
    v.push((String::from_str("User-Agent"), String::from_str(user_agent())));
    v
}

/// The user agent as a character sequence.
pub open spec fn user_agent_view() -> Seq<char> {
    "Mozilla/5.0 (Windows NT 10.0; Win64; x64) AppleWebKit/537.36 (KHTML, like Gecko) Chrome/120.0.0.0 Safari/537.36"@
}

} // verus!
