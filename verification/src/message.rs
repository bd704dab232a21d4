//! Messages that the dealer pushes to a connect device.
use vstd::prelude::*;

verus! {

/// A message pushed by the dealer: its URI, its headers and its payload.
///
/// The headers are name/value pairs; a lookup by name finds the first pair
/// that carries the name, so a list of distinct names reads as a map.
#[derive(Debug, PartialEq)]
pub struct Message {
    pub headers: Vec<(String, String)>,
    pub payload: Vec<u8>,
    pub uri: String,
}

/// Whether header `i` of `headers` is the first one named `name`.
pub open spec fn is_first_header(headers: Seq<(String, String)>, name: Seq<char>, i: int) -> bool {
    &&& 0 <= i < headers.len()
    &&& headers[i].0@ == name
    &&& forall|j: int| 0 <= j < i ==> headers[j].0@ != name
}

/// Whether some header of `headers` is named `name`.
pub open spec fn has_header(headers: Seq<(String, String)>, name: Seq<char>) -> bool {
    exists|i: int| 0 <= i < headers.len() && headers[i].0@ == name
}

/// The value of the first header named `name`, if any.
pub open spec fn header_value(headers: Seq<(String, String)>, name: Seq<char>) -> Option<Seq<char>> {
    if has_header(headers, name) {
        let i = choose|i: int| is_first_header(headers, name, i);
        Some(headers[i].1@)
    } else {
        None
    }
}

/// A name that occurs in a header list occurs a first time.
proof fn lemma_first_header_exists(headers: Seq<(String, String)>, name: Seq<char>)
    requires
        has_header(headers, name),
    ensures
        exists|i: int| is_first_header(headers, name, i),
    decreases headers.len(),
{
    let k = choose|k: int| 0 <= k < headers.len() && headers[k].0@ == name;
    if headers[0].0@ == name {
        assert(is_first_header(headers, name, 0));
    } else {
        let rest = headers.drop_first();
        assert(rest[k - 1] == headers[k]);
        lemma_first_header_exists(rest, name);
        let i = choose|i: int| is_first_header(rest, name, i);
        assert forall|j: int| 0 <= j < i + 1 implies headers[j].0@ != name by {
            if j > 0 {
                assert(headers[j] == rest[j - 1]);
            }
        }
        assert(is_first_header(headers, name, i + 1));
    }
}

/// The first header with a name is the only first one.
proof fn lemma_first_header_unique(headers: Seq<(String, String)>, name: Seq<char>, i: int, k: int)
    requires
        is_first_header(headers, name, i),
        is_first_header(headers, name, k),
    ensures
        i == k,
{
}

/// Law: headers with distinct names read as a map: the value looked up by a
/// name is the value of the one header that carries it.
pub proof fn lemma_distinct_headers_read_as_map(
    headers: Seq<(String, String)>,
    name: Seq<char>,
    i: int,
)
    requires
        forall|j: int, k: int|
            0 <= j < k < headers.len() ==> headers[j].0@ != headers[k].0@,
        0 <= i < headers.len(),
        headers[i].0@ == name,
    ensures
        header_value(headers, name) == Some(headers[i].1@),
{
    assert(has_header(headers, name));
    lemma_first_header_exists(headers, name);
    let c = choose|c: int| is_first_header(headers, name, c);
    if c != i {
        if c < i {
            assert(headers[c].0@ != headers[i].0@);
        } else {
            assert(headers[i].0@ != headers[c].0@);
        }
    }
}

impl Message {
    /// The value of the first header named `name`, if the message has one.
    pub fn header(&self, name: &str) -> (r: Option<String>)
        ensures
            r is None <==> !has_header(self.headers@, name@),
            r matches Some(v) ==> header_value(self.headers@, name@) == Some(v@),
    {
        let wanted = name.to_owned();
        let n = self.headers.len();
        let mut i: usize = 0;
        while i < n
            invariant
                n == self.headers@.len(),
                wanted@ == name@,
                i <= n,
                forall|j: int| 0 <= j < i ==> self.headers@[j].0@ != name@,
            decreases n - i,
        {
            if self.headers[i].0 == wanted {
                proof {
                    let h = self.headers@;
                    assert(is_first_header(h, name@, i as int));
                    assert(has_header(h, name@));
                    let c = choose|c: int| is_first_header(h, name@, c);
                    lemma_first_header_unique(h, name@, c, i as int);
                }
                return Some(self.headers[i].1.clone());
            }
            i = i + 1;
        }
        None
    }
}

} // verus!
