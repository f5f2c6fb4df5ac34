use vstd::prelude::*;

verus! {

/// A JSON number, as the decoders read it.
#[derive(Debug)]
pub struct JsonNumber {
    /// The value, where it is a non-negative integer that fits in 64 bits.
    pub unsigned: Option<u64>,
    /// The value as a 64-bit binary float, written as the shortest decimal
    /// text that reads back to the same float.
    pub decimal: String,
}

/// A parsed JSON document. An object keeps its members in document order.
#[derive(Debug)]
pub enum Json {
    Null,
    Bool(bool),
    Number(JsonNumber),
    Str(String),
    Array(Vec<Json>),
    Object(Vec<(String, Json)>),
}

/// The value of the first member named `key` at or after position `i`.
pub open spec fn member_from(members: Seq<(String, Json)>, key: Seq<char>, i: int) -> Option<Json>
    decreases members.len() - i,
{
    if i < 0 || i >= members.len() {
        None
    } else if members[i].0@ == key {
        Some(members[i].1)
    } else {
        member_from(members, key, i + 1)
    }
}

/// The member `key` of `v`: none where `v` is not an object or has no such member.
pub open spec fn field(v: Json, key: Seq<char>) -> Option<Json> {
    match v {
        Json::Object(members) => member_from(members@, key, 0),
        _ => None,
    }
}

fn same_text(a: &str, b: &str) -> (r: bool)
    ensures
        r == (a@ == b@),
{
    let n = a.unicode_len();
    if n != b.unicode_len() {
        return false;
    }
    let mut i: usize = 0;
    while i < n
        invariant
            n == a@.len(),
            n == b@.len(),
            0 <= i <= n,
            forall|j: int| 0 <= j < i ==> a@[j] == b@[j],
        decreases n - i,
    {
        if a.get_char(i) != b.get_char(i) {
            return false;
        }
        i = i + 1;
    }
    proof {
        assert(a@ =~= b@);
    }
    true
}

impl Json {
    /// The member `key` of this value, where it is an object that has one.
    pub fn get(&self, key: &str) -> (r: Option<&Json>)
        ensures
            match r {
                Some(x) => field(*self, key@) == Some(*x),
                None => field(*self, key@) is None,
            },
    {
        match self {
            Json::Object(members) => {
                let mut i: usize = 0;
                while i < members.len()
                    invariant
                        0 <= i <= members@.len(),
                        field(*self, key@) == member_from(members@, key@, 0),
                        member_from(members@, key@, 0) == member_from(members@, key@, i as int),
                    decreases members@.len() - i,
                {
                    if same_text(members[i].0.as_str(), key) {
                        assert(member_from(members@, key@, i as int) == Some(members@[i as int].1));
                        let found = &members[i].1;
                        return Some(found);
                    }
                    i = i + 1;
                }
                None
            },
            _ => None,
        }
    }
}

} // verus!
