//! Request methods and header lists as the request checks read them.
//! A header list keeps every (name, value) pair in arrival order, with
//! names in lower case, so a lookup gives the first value of a name and
//! all values of a name in order, as an `http::HeaderMap` does.

use vstd::prelude::*;
use crate::text::{push_char, str_eq};

verus! {

/// The request methods the server tells apart.
#[derive(PartialEq, Eq, Structural, Clone, Copy)]
pub enum HttpMethod {
    Get,
    Head,
    Options,
    Post,
    Other,
}

/// Request headers: (lower-case name, raw value bytes), in order.
pub struct HeaderList {
    pub entries: Vec<(String, Vec<u8>)>,
}

impl HeaderList {
    /// The header pairs as plain values.
    pub open spec fn pairs(&self) -> Seq<(Seq<char>, Seq<u8>)> {
        self.entries@.map_values(|e: (String, Vec<u8>)| (e.0@, e.1@))
    }
}

/// All values of the header `name`, in order.
pub open spec fn values_named(pairs: Seq<(Seq<char>, Seq<u8>)>, name: Seq<char>) -> Seq<Seq<u8>>
    decreases pairs.len(),
{
    if pairs.len() == 0 {
        Seq::empty()
    } else if pairs[0].0 == name {
        seq![pairs[0].1] + values_named(pairs.drop_first(), name)
    } else {
        values_named(pairs.drop_first(), name)
    }
}

/// The first value of the header `name`, if any.
pub open spec fn first_value(pairs: Seq<(Seq<char>, Seq<u8>)>, name: Seq<char>) -> Option<
    Seq<u8>,
> {
    let vs = values_named(pairs, name);
    if vs.len() == 0 {
        None
    } else {
        Some(vs[0])
    }
}

/// A byte that `HeaderValue::to_str` accepts: visible ASCII or tab.
pub open spec fn is_visible_ascii(b: u8) -> bool {
    (32 <= b && b < 127) || b == 9
}

/// `HeaderValue::to_str`: the value as text when every byte is visible
/// ASCII or tab, otherwise nothing.
pub open spec fn header_text(v: Seq<u8>) -> Option<Seq<char>> {
    if forall|k: int| 0 <= k < v.len() ==> is_visible_ascii(#[trigger] v[k]) {
        Some(v.map_values(|b: u8| b as char))
    } else {
        None
    }
}

/// The text of the first value of `name`, when that value is text.
pub open spec fn first_text(pairs: Seq<(Seq<char>, Seq<u8>)>, name: Seq<char>) -> Option<
    Seq<char>,
> {
    match first_value(pairs, name) {
        Some(v) => header_text(v),
        None => None,
    }
}

/// Executable form of `header_text`.
pub fn header_value_text(v: &Vec<u8>) -> (r: Option<String>)
    ensures
        r matches Some(s) ==> header_text(v@) == Some(s@),
        r is None ==> header_text(v@) is None,
{
    let mut out = String::new();
    let mut i: usize = 0;
    while i < v.len()
        invariant
            i <= v@.len(),
            forall|k: int| 0 <= k < i ==> is_visible_ascii(#[trigger] v@[k]),
            out@ == v@.take(i as int).map_values(|b: u8| b as char),
        decreases v@.len() - i,
    {
        let b = v[i];
        if !((32 <= b && b < 127) || b == 9) {
            return None;
        }
        proof {
            assert(v@.take(i + 1).map_values(|b: u8| b as char) == v@.take(
                i as int,
            ).map_values(|b: u8| b as char).push(b as char));
        }
        push_char(&mut out, b as char);
        i = i + 1;
    }
    proof {
        assert(v@.take(v@.len() as int) == v@);
    }
    Some(out)
}

impl HeaderList {
    /// The first value of `name`, as `HeaderMap::get` gives it.
    pub fn get(&self, name: &str) -> (r: Option<&Vec<u8>>)
        ensures
            r matches Some(v) ==> first_value(self.pairs(), name@) == Some(v@),
            r is None ==> first_value(self.pairs(), name@) is None,
    {
        let ghost ps = self.pairs();
        let mut i: usize = 0;
        proof {
            assert(ps.skip(0) == ps);
        }
        while i < self.entries.len()
            invariant
                ps == self.pairs(),
                i <= self.entries@.len(),
                values_named(ps, name@) == values_named(ps.skip(i as int), name@),
            decreases self.entries@.len() - i,
        {
            let ghost rest = ps.skip(i as int);
            proof {
                assert(rest[0] == ps[i as int]);
                assert(rest.drop_first() == ps.skip(i + 1));
            }
            if str_eq(self.entries[i].0.as_str(), name) {
                return Some(&self.entries[i].1);
            }
            i = i + 1;
        }
        proof {
            assert(ps.skip(i as int).len() == 0);
        }
        None
    }

    /// The text of the first value of `name`, when it is text.
    pub fn get_text(&self, name: &str) -> (r: Option<String>)
        ensures
            r matches Some(s) ==> first_text(self.pairs(), name@) == Some(s@),
            r is None ==> first_text(self.pairs(), name@) is None,
    {
        match self.get(name) {
            Some(v) => header_value_text(v),
            None => None,
        }
    }
}

} // verus!
