//! A self-contained model of the JSON-shaped values the login service
//! returns. The transport layer turns whatever its JSON parser produced into
//! this tree; everything the login logic reads out of a response is then a
//! plain, fully specified lookup.

use vstd::prelude::*;

verus! {

/// One JSON-shaped value. Object members keep their order of arrival; a
/// lookup returns the first member with the given key. Numbers are modelled
/// as signed 64-bit integers, which covers every numeric field the login
/// endpoints use.
#[derive(Debug)]
pub enum Json {
    Null,
    Bool(bool),
    Int(i64),
    Str(String),
    Arr(Vec<Json>),
    Obj(Vec<(String, Json)>),
}

/// The first value bound to `key` among `pairs`, if any.
pub open spec fn lookup_pairs(pairs: Seq<(String, Json)>, key: Seq<char>) -> Option<Json>
    decreases pairs.len(),
{
    if pairs.len() == 0 {
        None
    } else if pairs[0].0@ == key {
        Some(pairs[0].1)
    } else {
        lookup_pairs(pairs.drop_first(), key)
    }
}

impl Json {
    /// The member of this value bound to `key`: `None` unless this value is
    /// an object with such a member.
    pub open spec fn spec_get(self, key: Seq<char>) -> Option<Json> {
        match self {
            Json::Obj(pairs) => lookup_pairs(pairs@, key),
            _ => None,
        }
    }

    /// The character content, if this value is a string.
    pub open spec fn spec_str(self) -> Option<Seq<char>> {
        match self {
            Json::Str(s) => Some(s@),
            _ => None,
        }
    }

    /// The numeric content, if this value is an integer.
    pub open spec fn spec_int(self) -> Option<i64> {
        match self {
            Json::Int(i) => Some(i),
            _ => None,
        }
    }

    /// Looks up `key` in this value, returning the first member bound to it.
    pub fn get<'a>(&'a self, key: &String) -> (r: Option<&'a Json>)
        ensures
            match r {
                Some(v) => self.spec_get(key@) == Some(*v),
                None => self.spec_get(key@) is None,
            },
    {
        match self {
            Json::Obj(pairs) => {
                let n = pairs.len();
                let mut i: usize = 0;
                proof {
                    assert(pairs@.skip(0) =~= pairs@);
                }
                while i < n
                    invariant
                        n == pairs@.len(),
                        i <= n,
                        self == Json::Obj(*pairs),
                        lookup_pairs(pairs@, key@) == lookup_pairs(pairs@.skip(i as int), key@),
                    decreases n - i,
                {
                    proof {
                        assert(pairs@.skip(i as int).drop_first() =~= pairs@.skip(i as int + 1));
                    }
                    if pairs[i].0 == *key {
                        return Some(&pairs[i].1);
                    }
                    i = i + 1;
                }
                None
            },
            _ => None,
        }
    }

    /// This value's string content, if it is a string.
    pub fn as_str<'a>(&'a self) -> (r: Option<&'a String>)
        ensures
            match r {
                Some(s) => self.spec_str() == Some(s@),
                None => self.spec_str() is None,
            },
    {
        match self {
            Json::Str(s) => Some(s),
            _ => None,
        }
    }

    /// This value's integer content, if it is an integer.
    pub fn as_int(&self) -> (r: Option<i64>)
        ensures
            r == self.spec_int(),
    {
        match self {
            Json::Int(i) => Some(*i),
            _ => None,
        }
    }
}

} // verus!
