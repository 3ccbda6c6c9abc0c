//! The shape of a parsed JSON document, as far as the feed's events need it.

use crate::text::same_text;
use vstd::prelude::*;

verus! {

/// A parsed JSON document.
#[derive(Debug, PartialEq, Eq)]
pub enum Json {
    Null,
    Bool(bool),
    /// A whole number in the range of `i64`.
    Integer(i64),
    /// Any other number: one with a fraction or an exponent, or one out of the
    /// range of `i64`. No event reads its value.
    OtherNumber,
    Text(String),
    Array(Vec<Json>),
    /// An object: its members, each a name and a value, in the order of the
    /// document.
    Object(Vec<(String, Json)>),
}

/// The value of the first of `members` that is called `name`.
pub open spec fn member_of(members: Seq<(String, Json)>, name: Seq<char>) -> Option<Json>
    decreases members.len(),
{
    if members.len() == 0 {
        None
    } else if members[0].0@ == name {
        Some(members[0].1)
    } else {
        member_of(members.skip(1), name)
    }
}

proof fn lemma_member_found(members: Seq<(String, Json)>, name: Seq<char>, n: int)
    requires
        0 <= n < members.len(),
        forall|j: int| 0 <= j < n ==> members[j].0@ != name,
        members[n].0@ == name,
    ensures
        member_of(members, name) == Some(members[n].1),
{
    lemma_member_skips(members, name, n);
    assert(members.skip(n)[0] == members[n]);
}

proof fn lemma_member_skips(members: Seq<(String, Json)>, name: Seq<char>, n: int)
    requires
        0 <= n <= members.len(),
        forall|j: int| 0 <= j < n ==> members[j].0@ != name,
    ensures
        member_of(members, name) == member_of(members.skip(n), name),
    decreases n,
{
    if n == 0 {
        assert(members.skip(0) =~= members);
    } else {
        lemma_member_skips(members.skip(1), name, n - 1);
        assert(members.skip(1).skip(n - 1) =~= members.skip(n));
    }
}

impl Json {
    /// The value of this object's first member called `name`; nothing where it
    /// has none, or where this is no object.
    pub open spec fn member(self, name: Seq<char>) -> Option<Json> {
        match self {
            Json::Object(members) => member_of(members@, name),
            _ => None,
        }
    }

    /// Whether this is an object without members.
    pub open spec fn is_empty_object(self) -> bool {
        self matches Json::Object(members) && members@.len() == 0
    }

    /// Looks up the member called `name`.
    pub fn get(&self, name: &str) -> (found: Option<&Json>)
        ensures
            match found {
                Some(value) => self.member(name@) == Some(*value),
                None => self.member(name@) is None,
            },
    {
        match self {
            Json::Object(members) => {
                let mut i: usize = 0;
                while i < members.len()
                    invariant
                        i <= members.len(),
                        self.member(name@) == member_of(members@, name@),
                        forall|j: int| 0 <= j < i ==> members@[j].0@ != name@,
                    decreases members.len() - i,
                {
                    if same_text(members[i].0.as_str(), name) {
                        proof {
                            lemma_member_found(members@, name@, i as int);
                        }
                        return Some(&members[i].1);
                    }
                    i = i + 1;
                }
                proof {
                    lemma_member_skips(members@, name@, members@.len() as int);
                }
                None
            },
            _ => None,
        }
    }

    /// Whether this is an object without members.
    pub fn has_no_members(&self) -> (empty: bool)
        ensures
            empty == self.is_empty_object(),
    {
        match self {
            Json::Object(members) => members.len() == 0,
            _ => false,
        }
    }
}

} // verus!
