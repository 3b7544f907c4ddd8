//! A self-contained model of a JSON document, holding only plain values.
//!
//! Numbers are split into unsigned integers, which the record logic reads
//! (the population count), and other numerals, carried verbatim as their
//! decimal text (coordinates, which this library only ever displays).
//! Object members are kept as a sequence of key/value entries in document
//! order; lookups take the first entry with a matching key.

use vstd::prelude::*;

verus! {

/// One JSON value, as plain data.
pub enum Json {
    Null,
    Bool(bool),
    UInt(u64),
    Num(String),
    Str(String),
    Arr(Vec<Json>),
    Obj(Vec<(String, Json)>),
}

/// The first value bound to `key` among `entries`, if any.
pub open spec fn obj_get(entries: Seq<(String, Json)>, key: Seq<char>) -> Option<Json>
    decreases entries.len(),
{
    if entries.len() == 0 {
        None
    } else if entries[0].0@ == key {
        Some(entries[0].1)
    } else {
        obj_get(entries.skip(1), key)
    }
}

impl Json {
    /// The member bound to `key`, for an object; `None` for any other value
    /// or when no member has that key.
    pub open spec fn spec_member(self, key: Seq<char>) -> Option<Json> {
        match self {
            Json::Obj(entries) => obj_get(entries@, key),
            _ => None,
        }
    }

    /// Looks `key` up among the members of this object, first match wins.
    pub fn member<'a>(&'a self, key: &str) -> (r: Option<&'a Json>)
        ensures
            match r {
                Some(j) => self.spec_member(key@) == Some(*j),
                None => self.spec_member(key@) is None,
            },
    {
        match self {
            Json::Obj(entries) => {
                assert(self.spec_member(key@) == obj_get(entries@, key@));
                let key_owned: String = key.to_owned();
                let n = entries.len();
                let mut i: usize = 0;
                assert(entries@.skip(0) =~= entries@);
                while i < n
                    invariant
                        n == entries@.len(),
                        i <= n,
                        key_owned@ == key@,
                        self.spec_member(key@) == obj_get(entries@, key@),
                        obj_get(entries@, key@) == obj_get(entries@.skip(i as int), key@),
                    decreases n - i,
                {
                    assert(entries@.skip(i as int)[0] == entries@[i as int]);
                    if entries[i].0 == key_owned {
                        assert(obj_get(entries@.skip(i as int), key@)
                            == Some(entries@[i as int].1));
                        return Some(&entries[i].1);
                    }
                    assert(entries@.skip(i as int).skip(1) =~= entries@.skip(i + 1));
                    i = i + 1;
                }
                assert(entries@.skip(n as int).len() == 0);
                None
            },
            _ => None,
        }
    }
}

} // verus!
