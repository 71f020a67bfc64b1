//! The local redirect listener.
//!
//! A short-lived loopback HTTP listener receives the authorization
//! server's redirect carrying the one-time `code` query parameter. Here
//! live its two decisions, both verified: whether a bind attempt may
//! proceed (the fixed port is a singleton resource, so a second attempt
//! must fail fast with `NetworkError` rather than queue or hang), and
//! what a given request's query string yields (the first non-empty
//! `code` parameter, or a rejection with a client-error status). The
//! binary owns the socket itself.

use vstd::prelude::*;

use crate::auth::SpotifyAuthInfo;
use crate::errors::AuthError;

verus! {

/// The number of characters before the first `&` of `q`, or all of `q`
/// when it has none: the extent of the first `key=value` segment.
pub open spec fn seg_end(q: Seq<char>) -> int
    decreases q.len(),
{
    if q.len() == 0 {
        0
    } else if q[0] == '&' {
        0
    } else {
        1 + seg_end(q.subrange(1, q.len() as int))
    }
}

/// `seg_end` is the index of the first `&`: nothing before it is an `&`,
/// and it points at an `&` unless the string has none.
pub proof fn lemma_seg_end(q: Seq<char>)
    ensures
        0 <= seg_end(q) <= q.len(),
        forall|j: int| 0 <= j < seg_end(q) ==> q[j] != '&',
        seg_end(q) < q.len() ==> q[seg_end(q)] == '&',
    decreases q.len(),
{
    if q.len() == 0 {
    } else if q[0] == '&' {
    } else {
        let tail = q.subrange(1, q.len() as int);
        lemma_seg_end(tail);
        assert forall|j: int| 0 <= j < seg_end(q) implies q[j] != '&' by {
            if j > 0 {
                assert(tail[j - 1] != '&');
            }
        }
    }
}

/// The index of the first `&` is determined by a scan: if nothing before
/// `i` is an `&` and `i` is either an `&` or the end, then `i` is it.
pub proof fn lemma_seg_end_at(q: Seq<char>, i: int)
    requires
        0 <= i <= q.len(),
        forall|j: int| 0 <= j < i ==> q[j] != '&',
        i < q.len() ==> q[i] == '&',
    ensures
        seg_end(q) == i,
    decreases q.len(),
{
    if q.len() == 0 {
    } else if q[0] == '&' {
        assert(i == 0);
    } else {
        let tail = q.subrange(1, q.len() as int);
        assert(i >= 1);
        assert forall|j: int| 0 <= j < i - 1 implies tail[j] != '&' by {
            assert(q[j + 1] != '&');
        }
        lemma_seg_end_at(tail, i - 1);
    }
}

/// A segment delivers a code when it reads `code=` followed by at least
/// one character.
pub open spec fn is_code_segment(seg: Seq<char>) -> bool {
    seg.len() > 5 && seg.subrange(0, 5) == "code="@
}

/// The code a query string delivers: the value of its first non-empty
/// `code` parameter, if it has one. Segments are separated by `&`.
pub open spec fn spec_query_code(q: Seq<char>) -> Option<Seq<char>>
    decreases q.len(),
    via spec_query_code_decreases
{
    let end = seg_end(q);
    if is_code_segment(q.subrange(0, end)) {
        Some(q.subrange(5, end))
    } else if end < q.len() {
        spec_query_code(q.subrange(end + 1, q.len() as int))
    } else {
        None
    }
}

#[via_fn]
proof fn spec_query_code_decreases(q: Seq<char>) {
    lemma_seg_end(q);
}

/// Extracts the first non-empty `code` parameter of a query string, the
/// one the redirect callback must carry.
pub fn code_from_query(q: &str) -> (r: Option<String>)
    ensures
        r matches Some(v) ==> spec_query_code(q@) == Some(v@),
        r is None ==> spec_query_code(q@) is None,
    decreases q@.len(),
{
    let n = q.unicode_len();
    let mut i: usize = 0;
    while i < n && q.get_char(i) != '&'
        invariant
            0 <= i <= n,
            n == q@.len(),
            forall|j: int| 0 <= j < i ==> q@[j] != '&',
        decreases n - i,
    {
        i = i + 1;
    }
    proof {
        lemma_seg_end_at(q@, i as int);
        lemma_seg_end(q@);
    }
    let is_code = i > 5 && q.get_char(0) == 'c' && q.get_char(1) == 'o' && q.get_char(2) == 'd'
        && q.get_char(3) == 'e' && q.get_char(4) == '=';
    proof {
        reveal_strlit("code=");
        let seg = q@.subrange(0, i as int);
        if is_code {
            assert(seg.subrange(0, 5) =~= "code="@);
            assert(is_code_segment(seg));
        } else {
            if is_code_segment(seg) {
                assert(seg.subrange(0, 5) == "code="@);
                assert(seg[0] == 'c') by {
                    assert(seg.subrange(0, 5)[0] == "code="@[0]);
                }
                assert(seg[1] == 'o') by {
                    assert(seg.subrange(0, 5)[1] == "code="@[1]);
                }
                assert(seg[2] == 'd') by {
                    assert(seg.subrange(0, 5)[2] == "code="@[2]);
                }
                assert(seg[3] == 'e') by {
                    assert(seg.subrange(0, 5)[3] == "code="@[3]);
                }
                assert(seg[4] == '=') by {
                    assert(seg.subrange(0, 5)[4] == "code="@[4]);
                }
                assert(false);
            }
        }
    }
    if is_code {
        let v = q.substring_char(5, i);
        Some(String::from_str(v))
    } else if i < n {
        let rest = q.substring_char(i + 1, n);
        code_from_query(rest)
    } else {
        None
    }
}

/// The model of the loopback listener: the fixed port it serves and
/// whether it is currently bound. The port is a singleton resource per
/// machine, so at most one authorization flow may hold it at a time.
#[derive(Debug)]
pub struct RedirectListener {
    port: u16,
    bound: bool,
}

impl RedirectListener {
    /// The port this listener serves.
    pub closed spec fn spec_port(&self) -> u16 {
        self.port
    }

    /// Whether the listener currently holds its port.
    pub closed spec fn is_bound(&self) -> bool {
        self.bound
    }

    /// A listener for the given port, not yet bound.
    pub fn new(port: u16) -> (l: RedirectListener)
        ensures
            l.spec_port() == port,
            !l.is_bound(),
    {
        RedirectListener { port, bound: false }
    }

    /// Attempts to take the port. While the listener is already active
    /// the attempt fails at once with `NetworkError` — never a silent
    /// hang or a retry, which would mask a real conflict with another
    /// running instance — and the listener is left exactly as it was.
    pub fn try_bind(&mut self) -> (r: Result<(), AuthError>)
        ensures
            old(self).is_bound() ==> r == Result::<(), AuthError>::Err(AuthError::NetworkError)
                && *final(self) == *old(self),
            !old(self).is_bound() ==> r is Ok && final(self).is_bound(),
            final(self).spec_port() == old(self).spec_port(),
    {
        if self.bound {
            Err(AuthError::NetworkError)
        } else {
            self.bound = true;
            Ok(())
        }
    }

    /// Releases the port when the flow tears the listener down.
    pub fn unbind(&mut self)
        ensures
            !final(self).is_bound(),
            final(self).spec_port() == old(self).spec_port(),
    {
        self.bound = false;
    }

    /// Decides one inbound request: a query carrying a non-empty `code`
    /// parameter delivers that code; any other request is rejected with
    /// status 400 and the flow keeps waiting.
    pub fn on_request(&self, query: &str) -> (r: Result<SpotifyAuthInfo, u16>)
        requires
            self.is_bound(),
        ensures
            r matches Ok(info) ==> spec_query_code(query@) == Some(info.code@),
            r matches Err(status) ==> status == 400u16 && spec_query_code(query@) is None,
    {
        match code_from_query(query) {
            Some(code) => Ok(SpotifyAuthInfo { code }),
            None => Err(400),
        }
    }
}

/// The plain-text body acknowledging receipt of the code, shown in the
/// browser tab that triggered the redirect.
pub fn confirmation_body() -> (r: String)
    ensures
        r@ == "authorization code received; you can close this tab"@,
{
    String::from_str("authorization code received; you can close this tab")
}

} // verus!
