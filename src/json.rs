use vstd::prelude::*;
use vstd::string::StringExecFns;

verus! {

/// A JSON number, kept without loss: integers as integers, any other number
/// as the text it was written with.
#[derive(Debug)]
pub enum JsonNumber {
    Unsigned(u64),
    Signed(i64),
    Fractional(String),
}

/// A JSON document as the inference server sends and receives it. The members
/// of an object keep their order.
#[derive(Debug)]
pub enum Json {
    Null,
    Bool(bool),
    Number(JsonNumber),
    Str(String),
    Array(Vec<Json>),
    Object(Vec<(String, Json)>),
}

/// The value of the first member named `key`, if there is one.
pub open spec fn member_of(members: Seq<(String, Json)>, key: Seq<char>) -> Option<Json>
    decreases members.len(),
{
    if members.len() == 0 {
        None
    } else if members[0].0@ == key {
        Some(members[0].1)
    } else {
        member_of(members.drop_first(), key)
    }
}

impl Json {
    /// The value of member `key` when this is an object that has one.
    pub open spec fn member_spec(self, key: Seq<char>) -> Option<Json> {
        match self {
            Json::Object(members) => member_of(members@, key),
            _ => None,
        }
    }

    /// The text of member `key` when it is a string.
    pub open spec fn text_member(self, key: Seq<char>) -> Option<Seq<char>> {
        match self.member_spec(key) {
            Some(Json::Str(s)) => Some(s@),
            _ => None,
        }
    }

    /// The value of member `key` when it is a whole number that fits in 64
    /// unsigned bits.
    pub open spec fn unsigned_member(self, key: Seq<char>) -> Option<u64> {
        match self.member_spec(key) {
            Some(Json::Number(JsonNumber::Unsigned(n))) => Some(n),
            Some(Json::Number(JsonNumber::Signed(n))) => if n >= 0 {
                Some(n as u64)
            } else {
                None
            },
            _ => None,
        }
    }

    /// Looks up member `key` of an object; the first one wins.
    pub fn member(&self, key: &str) -> (r: Option<&Json>)
        ensures
            match r {
                Some(v) => self.member_spec(key@) == Some(*v),
                None => self.member_spec(key@) is None,
            },
    {
        match self {
            Json::Object(members) => {
                let wanted = String::from_str(key);
                let mut i: usize = 0;
                assert(members@.subrange(0, members@.len() as int) =~= members@);
                while i < members.len()
                    invariant
                        i <= members@.len(),
                        wanted@ == key@,
                        self.member_spec(key@) == member_of(members@, key@),
                        member_of(members@, key@) == member_of(members@.subrange(i as int, members@.len() as int), key@),
                    decreases members@.len() - i,
                {
                    let ghost rest = members@.subrange(i as int, members@.len() as int);
                    assert(rest[0] == members@[i as int]);
                    if members[i].0 == wanted {
                        let found = &members[i].1;
                        return Some(found);
                    }
                    assert(rest.drop_first() =~= members@.subrange(i + 1, members@.len() as int));
                    i = i + 1;
                }
                None
            },
            _ => None,
        }
    }

    /// The text of member `key`, when it is a string.
    pub fn text_of(&self, key: &str) -> (r: Option<String>)
        ensures
            match r {
                Some(s) => self.text_member(key@) == Some(s@),
                None => self.text_member(key@) is None,
            },
    {
        match self.member(key) {
            Some(Json::Str(s)) => Some(s.clone()),
            _ => None,
        }
    }

    /// The value of member `key`, when it is a whole number in `u64`.
    pub fn unsigned_of(&self, key: &str) -> (r: Option<u64>)
        ensures
            r == self.unsigned_member(key@),
    {
        match self.member(key) {
            Some(Json::Number(JsonNumber::Unsigned(n))) => Some(*n),
            Some(Json::Number(JsonNumber::Signed(n))) => if *n >= 0 {
                Some(*n as u64)
            } else {
                None
            },
            _ => None,
        }
    }
}

} // verus!
