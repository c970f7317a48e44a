//! Request and response values: the data the execution core reads, and the
//! header mutation that the authenticating decorator performs.
use vstd::prelude::*;

verus! {

/// A header value together with its sensitivity mark. A sensitive value
/// is excluded from the diagnostic text this crate offers: `display_text`
/// yields a placeholder instead of the value, and the type deliberately
/// has no `Debug` form that could print the value unredacted.
#[derive(Clone, PartialEq, Eq)]
pub struct HeaderValue {
    pub text: String,
    pub sensitive: bool,
}

impl HeaderValue {
    /// The text shown for this value in diagnostic output: the value itself,
    /// or a fixed placeholder when the value is marked sensitive.
    pub fn display_text(&self) -> (r: String)
        ensures
            self.sensitive ==> r@ == "Sensitive"@,
            !self.sensitive ==> r@ == self.text@,
    {
        if self.sensitive {
            "Sensitive".to_owned()
        } else {
            self.text.clone()
        }
    }
}

/// One entry of a header multi-map: a name and a value.
#[derive(Clone, PartialEq, Eq)]
pub struct Header {
    pub name: String,
    pub value: HeaderValue,
}

/// An HTTP-style request: method, URI, header multi-map, and a byte body.
#[derive(Clone, PartialEq, Eq)]
pub struct Request {
    pub method: String,
    pub uri: String,
    pub headers: Vec<Header>,
    pub body: Vec<u8>,
}

/// An HTTP-style response: numeric status code, header multi-map, and a
/// byte body.
#[derive(Clone, PartialEq, Eq)]
pub struct Response {
    pub status: u16,
    pub headers: Vec<Header>,
    pub body: Vec<u8>,
}

/// The header entries whose name is not `name`, in their original order.
pub open spec fn without_name(hs: Seq<Header>, name: Seq<char>) -> Seq<Header>
    decreases hs.len(),
{
    if hs.len() == 0 {
        hs
    } else if hs.last().name@ == name {
        without_name(hs.drop_last(), name)
    } else {
        without_name(hs.drop_last(), name).push(hs.last())
    }
}

/// The value of the last header entry named `name`, if any.
pub open spec fn header_lookup(hs: Seq<Header>, name: Seq<char>) -> Option<HeaderValue>
    decreases hs.len(),
{
    if hs.len() == 0 {
        None
    } else if hs.last().name@ == name {
        Some(hs.last().value)
    } else {
        header_lookup(hs.drop_last(), name)
    }
}

/// Appending one entry steps the name filter: a matching entry disappears,
/// any other entry is kept at the end.
pub proof fn lemma_without_name_push(hs: Seq<Header>, h: Header, name: Seq<char>)
    ensures
        h.name@ == name ==> without_name(hs.push(h), name) == without_name(hs, name),
        h.name@ != name ==> without_name(hs.push(h), name) == without_name(hs, name).push(h),
{
    assert(hs.push(h).drop_last() =~= hs);
    assert(hs.push(h).last() == h);
}

/// Filtering a name out is idempotent: once the entries of that name are
/// gone, filtering again changes nothing.
pub proof fn lemma_without_name_idempotent(hs: Seq<Header>, name: Seq<char>)
    ensures
        without_name(without_name(hs, name), name) == without_name(hs, name),
    decreases hs.len(),
{
    if hs.len() == 0 {
    } else {
        lemma_without_name_idempotent(hs.drop_last(), name);
        if hs.last().name@ != name {
            lemma_without_name_push(without_name(hs.drop_last(), name), hs.last(), name);
        }
    }
}

impl Request {
    /// Overwrites the header `name` with `value`: every prior entry of that
    /// name is removed — names are compared exactly — the other entries
    /// keep their order, and the new entry stands at the end.
    pub fn set_header(&mut self, name: &str, value: HeaderValue)
        ensures
            final(self).method == old(self).method,
            final(self).uri == old(self).uri,
            final(self).body == old(self).body,
            final(self).headers@.len() == without_name(old(self).headers@, name@).len() + 1,
            final(self).headers@.drop_last() == without_name(old(self).headers@, name@),
            final(self).headers@.last().name@ == name@,
            final(self).headers@.last().value == value,
    {
        let name_owned: String = name.to_owned();
        let mut prior: Vec<Header> = Vec::new();
        core::mem::swap(&mut self.headers, &mut prior);
        let ghost orig: Seq<Header> = old(self).headers@;
        let ghost mut processed: int = 0;
        while prior.len() > 0
            invariant
                0 <= processed <= orig.len(),
                prior@ == orig.skip(processed),
                self.headers@ == without_name(orig.take(processed), name@),
                self.method == old(self).method,
                self.uri == old(self).uri,
                self.body == old(self).body,
                name_owned@ == name@,
            decreases prior@.len(),
        {
            let h = prior.remove(0);
            proof {
                assert(h == orig[processed]);
                assert(prior@ =~= orig.skip(processed + 1));
                assert(orig.take(processed + 1).drop_last() =~= orig.take(processed));
                assert(orig.take(processed + 1).last() == orig[processed]);
            }
            if h.name == name_owned {
                proof {
                    assert(without_name(orig.take(processed + 1), name@)
                        == without_name(orig.take(processed), name@));
                }
            } else {
                self.headers.push(h);
                proof {
                    assert(without_name(orig.take(processed + 1), name@)
                        == without_name(orig.take(processed), name@).push(h));
                }
            }
            proof {
                processed = processed + 1;
            }
        }
        proof {
            assert(orig.take(processed) =~= orig);
        }
        self.headers.push(Header { name: name_owned, value });
        proof {
            assert(self.headers@.drop_last() =~= without_name(orig, name@));
        }
    }

    /// Looks the header `name` up: the value of its last entry, if any.
    pub fn header(&self, name: &str) -> (r: Option<&HeaderValue>)
        ensures
            (match r {
                Some(v) => header_lookup(self.headers@, name@) == Some(*v),
                None => header_lookup(self.headers@, name@) is None,
            }),
    {
        let name_owned: String = name.to_owned();
        let mut i: usize = self.headers.len();
        proof {
            assert(self.headers@.take(i as int) =~= self.headers@);
        }
        while i > 0
            invariant
                i <= self.headers@.len(),
                name_owned@ == name@,
                header_lookup(self.headers@, name@) == header_lookup(
                    self.headers@.take(i as int),
                    name@,
                ),
            decreases i,
        {
            i = i - 1;
            proof {
                assert(self.headers@.take(i + 1).drop_last() =~= self.headers@.take(i as int));
                assert(self.headers@.take(i + 1).last() == self.headers@[i as int]);
            }
            if self.headers[i].name == name_owned {
                return Some(&self.headers[i].value);
            }
        }
        proof {
            assert(self.headers@.take(0).len() == 0);
        }
        None
    }
}

} // verus!
