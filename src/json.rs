//! A JSON document as the library reads it.
use vstd::prelude::*;

verus! {

/// A JSON value. Numbers are held as the decimal text that their
/// double-precision reading renders to, which is all this library reads of them.
pub enum Json {
    Null,
    Bool(bool),
    Number(String),
    Text(String),
    Array(Vec<Json>),
    Object(Vec<(String, Json)>),
}

/// The value of the first member named `key`, if any.
pub open spec fn member(members: Seq<(String, Json)>, key: Seq<char>) -> Option<Json>
    decreases members.len(),
{
    if members.len() == 0 {
        None
    } else if members[0].0@ == key {
        Some(members[0].1)
    } else {
        member(members.drop_first(), key)
    }
}

/// The text of each string.
pub open spec fn texts(v: Seq<String>) -> Seq<Seq<char>> {
    v.map_values(|s: String| s@)
}

impl Json {
    /// The member `key` of an object; nothing for any other value.
    pub open spec fn get_spec(self, key: Seq<char>) -> Option<Json> {
        match self {
            Json::Object(members) => member(members@, key),
            _ => None,
        }
    }

    /// The value reached by following `path` one member name at a time.
    pub open spec fn at_path(self, path: Seq<Seq<char>>) -> Option<Json>
        decreases path.len(),
    {
        if path.len() == 0 {
            Some(self)
        } else {
            match self.get_spec(path[0]) {
                Some(child) => child.at_path(path.drop_first()),
                None => None,
            }
        }
    }

    /// Looks up the member `key` of an object.
    pub fn get(&self, key: &String) -> (r: Option<&Json>)
        ensures
            match r {
                Some(v) => self.get_spec(key@) == Some(*v),
                None => self.get_spec(key@) is None,
            },
    {
        match self {
            Json::Object(members) => {
                let n = members.len();
                let mut i: usize = 0;
                assert(members@.subrange(0, n as int) =~= members@);
                while i < n
                    invariant
                        n == members@.len(),
                        self.get_spec(key@) == member(members@, key@),
                        i <= n,
                        member(members@, key@) == member(members@.subrange(i as int, n as int), key@),
                    decreases n - i,
                {
                    let ghost rest = members@.subrange(i as int, n as int);
                    assert(rest.drop_first() =~= members@.subrange(i + 1, n as int));
                    assert(rest[0] == members@[i as int]);
                    if members[i].0.eq(key) {
                        return Some(&members[i].1);
                    }
                    i = i + 1;
                }
                assert(members@.subrange(n as int, n as int).len() == 0);
                None
            },
            _ => None,
        }
    }

    /// Follows `path` from this value.
    pub fn find(&self, path: &Vec<String>) -> (r: Option<&Json>)
        ensures
            match r {
                Some(v) => self.at_path(texts(path@)) == Some(*v),
                None => self.at_path(texts(path@)) is None,
            },
    {
        let n = path.len();
        let mut cur: &Json = self;
        let mut i: usize = 0;
        assert(texts(path@).subrange(0, n as int) =~= texts(path@));
        while i < n
            invariant
                n == path@.len(),
                i <= n,
                self.at_path(texts(path@)) == cur.at_path(texts(path@).subrange(i as int, n as int)),
            decreases n - i,
        {
            let ghost rest = texts(path@).subrange(i as int, n as int);
            assert(rest.drop_first() =~= texts(path@).subrange(i + 1, n as int));
            assert(rest[0] == path@[i as int]@);
            match cur.get(&path[i]) {
                Some(child) => {
                    cur = child;
                },
                None => {
                    return None;
                },
            }
            i = i + 1;
        }
        assert(texts(path@).subrange(n as int, n as int).len() == 0);
        Some(cur)
    }
}

} // verus!
