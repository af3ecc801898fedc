//! Where a request goes: scheme, host, port and path, split from an address
//! such as `https://example.com:8443/a/b` or `localhost:8080/file`.
use vstd::prelude::*;
use vstd::string::StrSliceExecFns;
use crate::error::HttpError;
use crate::message::utf8;
use crate::text::{eq_folded, parse_usize, parse_usize_spec, same_folded};

verus! {

/// The position of the first `c` in `s`, or its length when there is none.
pub open spec fn index_of(s: Seq<char>, c: char) -> int
    decreases s.len(),
{
    if s.len() == 0 {
        0
    } else if s[0] == c {
        0
    } else {
        1 + index_of(s.drop_first(), c)
    }
}

proof fn lemma_index_of(s: Seq<char>, c: char, r: int)
    requires
        0 <= r <= s.len(),
        forall|k: int| 0 <= k < r ==> s[k] != c,
        r < s.len() ==> s[r] == c,
    ensures
        index_of(s, c) == r,
    decreases s.len(),
{
    if s.len() > 0 && r > 0 {
        lemma_index_of(s.drop_first(), c, r - 1);
    }
}

/// Finds the first `c` in `s` from `from` on; the length of `s` when there is none.
fn find_char(s: &str, from: usize, c: char) -> (r: usize)
    requires
        from <= s@.len(),
    ensures
        from <= r <= s@.len(),
        r - from == index_of(s@.subrange(from as int, s@.len() as int), c),
{
    let n = s.unicode_len();
    let mut i = from;
    while i < n && s.get_char(i) != c
        invariant
            n == s@.len(),
            from <= i <= n,
            forall|k: int| from <= k < i ==> s@[k] != c,
        decreases n - i,
    {
        i = i + 1;
    }
    proof {
        let t = s@.subrange(from as int, s@.len() as int);
        lemma_index_of(t, c, i - from);
    }
    i
}

/// Where a request goes.
#[derive(Debug, Clone)]
pub struct Endpoint {
    pub scheme: String,
    pub host: String,
    pub port: u16,
    pub path: String,
}

/// The address starts with a scheme followed by `://`.
pub open spec fn has_scheme(u: Seq<char>) -> bool {
    let i = index_of(u, ':');
    i + 2 < u.len() && u[i + 1] == '/' && u[i + 2] == '/'
}

pub open spec fn scheme_of(u: Seq<char>) -> Seq<char> {
    if has_scheme(u) {
        u.subrange(0, index_of(u, ':'))
    } else {
        "http"@
    }
}

/// What follows the scheme: authority and path.
pub open spec fn after_scheme(u: Seq<char>) -> Seq<char> {
    if has_scheme(u) {
        u.subrange(index_of(u, ':') + 3, u.len() as int)
    } else {
        u
    }
}

pub open spec fn authority_of(u: Seq<char>) -> Seq<char> {
    let rest = after_scheme(u);
    rest.subrange(0, index_of(rest, '/'))
}

/// The path, or `/` where the address has none.
pub open spec fn path_of(u: Seq<char>) -> Seq<char> {
    let rest = after_scheme(u);
    let p = rest.subrange(index_of(rest, '/'), rest.len() as int);
    if p.len() == 0 {
        "/"@
    } else {
        p
    }
}

pub open spec fn host_of(u: Seq<char>) -> Seq<char> {
    let a = authority_of(u);
    a.subrange(0, index_of(a, ':'))
}

/// The port as written after the host, if one is.
pub open spec fn port_text(u: Seq<char>) -> Option<Seq<char>> {
    let a = authority_of(u);
    let j = index_of(a, ':');
    if j < a.len() {
        Some(a.subrange(j + 1, a.len() as int))
    } else {
        None
    }
}

/// The scheme names the secure transport.
pub open spec fn is_secure_scheme(s: Seq<char>) -> bool {
    same_folded(utf8(s), utf8("https"@))
}

/// The port: the one written, or 443 for a secure scheme and 80 otherwise.
/// None where the written one is not a number below 65536.
pub open spec fn port_of(u: Seq<char>) -> Option<u16> {
    match port_text(u) {
        Some(t) => match parse_usize_spec(utf8(t)) {
            Some(n) => if n <= 65535 {
                Some(n as u16)
            } else {
                None
            },
            None => None,
        },
        None => if is_secure_scheme(scheme_of(u)) {
            Some(443)
        } else {
            Some(80)
        },
    }
}

impl Endpoint {
    /// Splits `url` into scheme, host, port and path. The scheme is `http`
    /// where none is written. It fails with `InvalidUrl` when the host is
    /// empty or the port is not a number below 65536.
    pub fn parse(url: &str) -> (r: Result<Endpoint, HttpError>)
        ensures
            r is Ok <==> host_of(url@).len() > 0 && port_of(url@) is Some,
            r matches Ok(e) ==> e.scheme@ == scheme_of(url@) && e.host@ == host_of(url@)
                && e.path@ == path_of(url@) && Some(e.port) == port_of(url@),
            r matches Err(e) ==> e matches HttpError::InvalidUrl(m) && m@ == url@,
    {
        let n = url.unicode_len();
        let i = find_char(url, 0, ':');
        assert(url@.subrange(0, n as int) =~= url@);
        let scheme_end = i;
        let with_scheme = i < n && n - i > 2 && url.get_char(i + 1) == '/' && url.get_char(i + 2) == '/';
        let rest_start = if with_scheme {
            i + 3
        } else {
            0
        };
        let scheme = if with_scheme {
            url.substring_char(0, scheme_end).to_owned()
        } else {
            "http".to_owned()
        };
        let ghost rest = after_scheme(url@);
        assert(rest =~= url@.subrange(rest_start as int, n as int));
        let slash = find_char(url, rest_start, '/');
        let ghost auth = url@.subrange(rest_start as int, slash as int);
        assert(auth =~= authority_of(url@));
        let head = url.substring_char(0, slash);
        let colon = find_char(head, rest_start, ':');
        assert(head@.subrange(rest_start as int, slash as int) =~= auth);
        let host = url.substring_char(rest_start, colon).to_owned();
        assert(host@ =~= host_of(url@));
        let path = if slash < n {
            url.substring_char(slash, n).to_owned()
        } else {
            "/".to_owned()
        };
        assert(path@ =~= path_of(url@));
        let secure = eq_folded(scheme.as_str().as_bytes(), "https".as_bytes());
        let port: Option<u16> = if colon < slash {
            let t = url.substring_char(colon + 1, slash);
            assert(t@ =~= port_text(url@)->Some_0);
            let b = t.as_bytes();
            match parse_usize(b, 0, b.len()) {
                Some(p) => {
                    assert(b@.subrange(0, b@.len() as int) =~= b@);
                    if p <= 65535 {
                        Some(p as u16)
                    } else {
                        None
                    }
                },
                None => {
                    assert(b@.subrange(0, b@.len() as int) =~= b@);
                    None
                },
            }
        } else if secure {
            Some(443)
        } else {
            Some(80)
        };
        if host.unicode_len() == 0 {
            return Err(HttpError::InvalidUrl(url.to_owned()));
        }
        match port {
            Some(port) => Ok(Endpoint { scheme, host, port, path }),
            None => Err(HttpError::InvalidUrl(url.to_owned())),
        }
    }

    /// Whether requests to this endpoint go over the secure transport.
    pub fn is_secure(&self) -> (r: bool)
        ensures
            r == is_secure_scheme(self.scheme@),
    {
        eq_folded(self.scheme.as_str().as_bytes(), "https".as_bytes())
    }
}

} // verus!
