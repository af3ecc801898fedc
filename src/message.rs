//! Requests and responses as plain values: a method, a path, an ordered list
//! of headers whose names compare without regard to ASCII case, and a body.
use vstd::prelude::*;
use vstd::utf8::encode_utf8;
use crate::text::{eq_folded, same_folded};

verus! {

#[derive(Debug, Clone, Copy, PartialEq, Eq, Structural)]
pub enum Method {
    Get,
    Post,
    Put,
    Delete,
    Head,
    Options,
    Connect,
    Trace,
    Patch,
}

#[derive(Debug, Clone)]
pub struct Header {
    pub name: String,
    pub value: String,
}

/// The UTF-8 bytes of a text.
pub open spec fn utf8(s: Seq<char>) -> Seq<u8> {
    encode_utf8(s)
}

/// The header `h` carries the name `name`, up to ASCII case.
pub open spec fn names(h: Header, name: Seq<u8>) -> bool {
    same_folded(utf8(h.name@), name)
}

/// The position of the first header of `hs` that carries `name`.
pub open spec fn header_index(hs: Seq<Header>, name: Seq<u8>) -> Option<int>
    decreases hs.len(),
{
    if hs.len() == 0 {
        None
    } else {
        match header_index(hs.drop_last(), name) {
            Some(i) => Some(i),
            None => if names(hs.last(), name) {
                Some(hs.len() - 1)
            } else {
                None
            },
        }
    }
}

pub proof fn lemma_header_index_bounds(hs: Seq<Header>, name: Seq<u8>)
    ensures
        header_index(hs, name) matches Some(i) ==> 0 <= i < hs.len() && names(hs[i], name),
    decreases hs.len(),
{
    if hs.len() > 0 {
        lemma_header_index_bounds(hs.drop_last(), name);
    }
}

/// The value of the first header of `hs` that carries `name`.
pub open spec fn header_value(hs: Seq<Header>, name: Seq<u8>) -> Option<Seq<char>> {
    match header_index(hs, name) {
        Some(i) => Some(hs[i].value@),
        None => None,
    }
}

/// The name and value of each header, in order.
pub open spec fn headers_view(hs: Seq<Header>) -> Seq<(Seq<char>, Seq<char>)> {
    hs.map_values(|h: Header| (h.name@, h.value@))
}

/// Finds the first header of `hs` that carries `name`.
pub fn find_header(hs: &Vec<Header>, name: &str) -> (r: Option<usize>)
    ensures
        r matches Some(i) ==> header_index(hs@, utf8(name@)) == Some(i as int),
        r is None ==> header_index(hs@, utf8(name@)) is None,
{
    let key = name.as_bytes();
    let mut i: usize = 0;
    while i < hs.len()
        invariant
            i <= hs@.len(),
            key@ == utf8(name@),
            header_index(hs@.subrange(0, i as int), key@) is None,
        decreases hs@.len() - i,
    {
        let ghost pre = hs@.subrange(0, i as int);
        let ghost next = hs@.subrange(0, i + 1);
        assert(next.drop_last() =~= pre);
        if eq_folded(hs[i].name.as_str().as_bytes(), key) {
            proof {
                lemma_header_index_first(hs@, key@, i as int);
            }
            return Some(i);
        }
        i = i + 1;
    }
    assert(hs@.subrange(0, hs@.len() as int) =~= hs@);
    None
}

/// The first match in a sequence is the first match in any prefix that holds it.
proof fn lemma_header_index_first(hs: Seq<Header>, name: Seq<u8>, i: int)
    requires
        0 <= i < hs.len(),
        header_index(hs.subrange(0, i), name) is None,
        names(hs[i], name),
    ensures
        header_index(hs, name) == Some(i),
    decreases hs.len(),
{
    if i == hs.len() - 1 {
        assert(hs.drop_last() =~= hs.subrange(0, i));
    } else {
        assert(hs.drop_last().subrange(0, i) =~= hs.subrange(0, i));
        lemma_header_index_first(hs.drop_last(), name, i);
    }
}

/// `new` is `old` after the header `name` was set to `value`.
pub open spec fn put_spec(old: Seq<Header>, name: Seq<char>, value: String, new: Seq<Header>) -> bool {
    match header_index(old, utf8(name)) {
        Some(i) => new == old.update(i, Header { name: old[i].name, value }),
        None => new.len() == old.len() + 1 && new.drop_last() == old && new.last().name@ == name
            && new.last().value == value,
    }
}

/// Sets the header `name` to `value`: the first header that carries the name,
/// up to ASCII case, takes the new value; otherwise the header is appended.
pub fn put_header(hs: &mut Vec<Header>, name: &str, value: String)
    ensures
        put_spec(old(hs)@, name@, value, final(hs)@),
{
    match find_header(hs, name) {
        Some(i) => {
            proof {
                lemma_header_index_bounds(hs@, utf8(name@));
            }
            let old_name = hs[i].name.clone();
            hs.set(i, Header { name: old_name, value });
        },
        None => {
            hs.push(Header { name: name.to_owned(), value });
            assert(hs@.drop_last() =~= old(hs)@);
        },
    }
}

proof fn lemma_header_index_same_names(hs: Seq<Header>, i: int, h: Header, name: Seq<u8>)
    requires
        0 <= i < hs.len(),
        h.name == hs[i].name,
    ensures
        header_index(hs.update(i, h), name) == header_index(hs, name),
    decreases hs.len(),
{
    let u = hs.update(i, h);
    if i == hs.len() - 1 {
        assert(u.drop_last() =~= hs.drop_last());
    } else {
        assert(u.drop_last() =~= hs.drop_last().update(i, h));
        lemma_header_index_same_names(hs.drop_last(), i, h, name);
    }
}

/// After a header is set, looking it up gives the value that was set.
pub proof fn lemma_put_then_value(old: Seq<Header>, name: Seq<char>, value: String, new: Seq<Header>)
    requires
        put_spec(old, name, value, new),
    ensures
        header_value(new, utf8(name)) == Some(value@),
{
    lemma_header_index_bounds(old, utf8(name));
    match header_index(old, utf8(name)) {
        Some(i) => {
            lemma_header_index_same_names(old, i, Header { name: old[i].name, value }, utf8(name));
        },
        None => {
            assert(new.drop_last() == old);
            assert(names(new.last(), utf8(name)));
        },
    }
}

/// A request: method, path, headers in order, and body.
#[derive(Debug, Clone)]
pub struct TransferRequest {
    pub method: Method,
    pub path: String,
    pub headers: Vec<Header>,
    pub body: Vec<u8>,
}

/// A response: status code and message, headers in order, and body.
#[derive(Debug, Clone)]
pub struct TransferResponse {
    pub status: usize,
    pub message: String,
    pub headers: Vec<Header>,
    pub body: Vec<u8>,
}

impl TransferResponse {
    /// The value of the first header named `name`, up to ASCII case.
    pub fn header(&self, name: &str) -> (r: Option<&String>)
        ensures
            r matches Some(v) ==> header_value(self.headers@, utf8(name@)) == Some(v@),
            r is None ==> header_value(self.headers@, utf8(name@)) is None,
    {
        match find_header(&self.headers, name) {
            Some(i) => {
                proof {
                    lemma_header_index_bounds(self.headers@, utf8(name@));
                }
                Some(&self.headers[i].value)
            },
            None => None,
        }
    }
}

/// A copy of `hs`, header by header.
pub fn copy_headers(hs: &Vec<Header>) -> (r: Vec<Header>)
    ensures
        headers_view(r@) == headers_view(hs@),
{
    let mut r: Vec<Header> = Vec::new();
    let mut i: usize = 0;
    while i < hs.len()
        invariant
            i <= hs@.len(),
            r@.len() == i,
            forall|k: int|
                0 <= k < i ==> (#[trigger] r@[k]).name@ == hs@[k].name@ && r@[k].value@
                    == hs@[k].value@,
        decreases hs@.len() - i,
    {
        r.push(Header { name: hs[i].name.clone(), value: hs[i].value.clone() });
        i = i + 1;
    }
    assert(headers_view(r@) =~= headers_view(hs@));
    r
}

impl TransferRequest {
    /// The size probe derived from this request: method `HEAD`, the same path
    /// and headers, and no body.
    pub fn probe(&self) -> (r: TransferRequest)
        ensures
            r.method == Method::Head,
            r.path@ == self.path@,
            headers_view(r.headers@) == headers_view(self.headers@),
            r.body@.len() == 0,
    {
        TransferRequest {
            method: Method::Head,
            path: self.path.clone(),
            headers: copy_headers(&self.headers),
            body: Vec::new(),
        }
    }

    /// Sets the header `name` to `value`, as `put_header` does.
    pub fn put_header(&mut self, name: &str, value: String)
        ensures
            final(self).method == old(self).method,
            final(self).path == old(self).path,
            final(self).body == old(self).body,
            put_spec(old(self).headers@, name@, value, final(self).headers@),
    {
        put_header(&mut self.headers, name, value);
    }
}

} // verus!
