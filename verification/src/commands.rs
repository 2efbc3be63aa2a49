//! Verified helpers behind the command layer: file-name hygiene, download
//! progress, the outbound request helper's decisions, and the close-action
//! setting.

use vstd::prelude::*;
use vstd::string::StrSliceExecFns;
use vstd::string::StringExecFns;

verus! {

/// One progress notification handed to the UI, in whole percent.
#[derive(Debug, Clone, Copy, PartialEq, Eq, Structural)]
pub struct DownloadProgress {
    pub progress: i32,
}

/// A character that must not appear in a file name.
pub open spec fn is_invalid_filename_char(c: char) -> bool {
    ||| c == '<'
    ||| c == '>'
    ||| c == ':'
    ||| c == '"'
    ||| c == '/'
    ||| c == '\\'
    ||| c == '|'
    ||| c == '?'
    ||| c == '*'
}

/// A file name with every forbidden character replaced by an underscore.
pub open spec fn spec_sanitize(s: Seq<char>) -> Seq<char> {
    s.map_values(
        |c: char|
            if is_invalid_filename_char(c) {
                '_'
            } else {
                c
            },
    )
}

/// Replace every character a file name must not hold by an underscore.
pub fn sanitize_filename(name: &str) -> (r: String)
    ensures
        r@ == spec_sanitize(name@),
{
    let n = name.unicode_len();
    let mut out = String::new();
    let mut i: usize = 0;
    proof {
        assert(spec_sanitize(name@.take(0)) =~= Seq::<char>::empty());
    }
    while i < n
        invariant
            n == name@.len(),
            i <= n,
            out@ == spec_sanitize(name@.take(i as int)),
        decreases n - i,
    {
        let c = name.get_char(i);
        if c == '<' || c == '>' || c == ':' || c == '"' || c == '/' || c == '\\' || c == '|' || c
            == '?' || c == '*' {
            out.append("_");
            proof {
                reveal_strlit("_");
            }
        } else {
            let piece = name.substring_char(i, i + 1);
            proof {
                assert(piece@ =~= seq![name@[i as int]]);
            }
            out.append(piece);
        }
        proof {
            assert(out@ =~= spec_sanitize(name@.take(i + 1)));
        }
        i = i + 1;
    }
    proof {
        assert(name@.take(n as int) =~= name@);
    }
    out
}

/// The file name a download is stored under: the sanitized title plus the
/// extension for its kind, `.mp4` for video and `.m4a` for everything else.
pub fn download_file_name(filename: &str, file_type: &Option<String>) -> (r: String)
    ensures
        ({
            let want_video = file_type matches Some(t) && t@ == "video"@;
            r@ == spec_sanitize(filename@) + if want_video {
                ".mp4"@
            } else {
                ".m4a"@
            }
        }),
{
    let mut out = sanitize_filename(filename);
    let is_video = match file_type {
        Some(t) => {
            let video = String::from_str("video");
            *t == video
        },
        None => false,
    };
    if is_video {
        out.append(".mp4");
    } else {
        out.append(".m4a");
    }
    out
}

/// The whole-percent progress of a download, as the UI displays it.
pub fn progress_percent(downloaded: u64, total: u64) -> (r: i32)
    requires
        total > 0,
        downloaded <= total,
        downloaded * 100 <= u64::MAX,
    ensures
        r == downloaded * 100 / total as int,
        0 <= r <= 100,
{
    let scaled = downloaded * 100;
    let p = scaled / total;
    proof {
        vstd::arithmetic::div_mod::lemma_div_is_ordered(
            downloaded * 100,
            total * 100,
            total as int,
        );
        vstd::arithmetic::div_mod::lemma_div_by_multiple(100, total as int);
        vstd::arithmetic::mul::lemma_mul_is_commutative(100, total as int);
        vstd::arithmetic::mul::lemma_mul_inequality(downloaded as int, total as int, 100);
    }
    p as i32
}

/// The HTTP methods the outbound helper forwards.
#[derive(Debug, Clone, Copy, PartialEq, Eq, Structural)]
pub enum HttpMethod {
    Get,
    Post,
    Put,
    Delete,
}

/// Choose the upstream method for the outbound helper: absent means GET, the
/// four supported verbs map to themselves, anything else is rejected.
pub fn select_method(method: &Option<String>) -> (r: Result<HttpMethod, String>)
    ensures
        method is None ==> r == Ok::<HttpMethod, String>(HttpMethod::Get),
        method matches Some(m) ==> match r {
            Ok(verb) => {
                ||| (m@ == "GET"@ && verb == HttpMethod::Get)
                ||| (m@ == "POST"@ && verb == HttpMethod::Post)
                ||| (m@ == "PUT"@ && verb == HttpMethod::Put)
                ||| (m@ == "DELETE"@ && verb == HttpMethod::Delete)
            },
            Err(e) => {
                &&& m@ != "GET"@ && m@ != "POST"@ && m@ != "PUT"@ && m@ != "DELETE"@
                &&& e@ == "不支持的 HTTP 方法: "@ + m@
            },
        },
{
    match method {
        None => Ok(HttpMethod::Get),
        Some(m) => {
            if *m == String::from_str("GET") {
                Ok(HttpMethod::Get)
            } else if *m == String::from_str("POST") {
                Ok(HttpMethod::Post)
            } else if *m == String::from_str("PUT") {
                Ok(HttpMethod::Put)
            } else if *m == String::from_str("DELETE") {
                Ok(HttpMethod::Delete)
            } else {
                Err(String::from_str("不支持的 HTTP 方法: ").concat(m.as_str()))
            }
        },
    }
}

/// The name `cookie`, in any mixture of cases: the one custom request header
/// the outbound helper refuses to forward, since the shared client's cookie
/// jar owns that header.
pub open spec fn is_cookie_header(s: Seq<char>) -> bool {
    &&& s.len() == 6
    &&& (s[0] == 'c' || s[0] == 'C')
    &&& (s[1] == 'o' || s[1] == 'O')
    &&& (s[2] == 'o' || s[2] == 'O')
    &&& (s[3] == 'k' || s[3] == 'K')
    &&& (s[4] == 'i' || s[4] == 'I')
    &&& (s[5] == 'e' || s[5] == 'E')
}

/// Whether a caller-supplied request header is forwarded upstream: every
/// header but a cookie header is.
pub fn should_forward_header(name: &str) -> (r: bool)
    ensures
        r == !is_cookie_header(name@),
{
    let n = name.unicode_len();
    if n != 6 {
        return true;
    }
    let c0 = name.get_char(0);
    let c1 = name.get_char(1);
    let c2 = name.get_char(2);
    let c3 = name.get_char(3);
    let c4 = name.get_char(4);
    let c5 = name.get_char(5);
    !((c0 == 'c' || c0 == 'C') && (c1 == 'o' || c1 == 'O') && (c2 == 'o' || c2 == 'O') && (c3
        == 'k' || c3 == 'K') && (c4 == 'i' || c4 == 'I') && (c5 == 'e' || c5 == 'E'))
}

/// What the window does when the user closes it: `quit` ends the process,
/// anything else hides the window to the tray.
pub struct CloseActionState {
    pub action: String,
}

impl CloseActionState {
    /// A fresh state: closing quits.
    pub fn new() -> (r: Self)
        ensures
            r.action@ == "quit"@,
    {
        CloseActionState { action: String::from_str("quit") }
    }

    /// Record the chosen close behavior.
    pub fn set(&mut self, action: String)
        ensures
            final(self).action == action,
    {
        self.action = action;
    }

    /// Read the chosen close behavior.
    pub fn get(&self) -> (r: String)
        ensures
            r@ == self.action@,
    {
        self.action.clone()
    }
}

} // verus!
