//! A plain model of a JSON document, and the lookups that the key and
//! query handling perform on it.
use vstd::prelude::*;

verus! {

/// A JSON number as the document holds it: its integer reading (when it
/// is an integer that fits in `i64`) and its text.
pub struct JsonNumber {
    pub integer: Option<i64>,
    pub text: String,
}

/// A JSON value. An object keeps its members in document order.
pub enum JsonValue {
    Null,
    Bool(bool),
    Number(JsonNumber),
    Str(String),
    Array(Vec<JsonValue>),
    Object(Vec<(String, JsonValue)>),
}

/// The index of the first member of `members` whose key is `key`, if any.
pub open spec fn first_member_index(members: Seq<(String, JsonValue)>, key: Seq<char>) -> Option<int>
    decreases members.len(),
{
    if members.len() == 0 {
        None
    } else {
        match first_member_index(members.drop_last(), key) {
            Some(i) => Some(i),
            None => if members.last().0@ == key {
                Some(members.len() - 1)
            } else {
                None
            },
        }
    }
}

impl JsonValue {
    /// Member lookup: on an object, the value of the first member named
    /// `key`; on any other value, nothing.
    pub open spec fn member(self, key: Seq<char>) -> Option<JsonValue> {
        match self {
            JsonValue::Object(members) => match first_member_index(members@, key) {
                Some(i) => Some(members@[i].1),
                None => None,
            },
            _ => None,
        }
    }

    /// The elements of an array, nothing for any other value.
    pub open spec fn elements(self) -> Option<Seq<JsonValue>> {
        match self {
            JsonValue::Array(items) => Some(items@),
            _ => None,
        }
    }

    /// The text of a string, nothing for any other value.
    pub open spec fn text(self) -> Option<Seq<char>> {
        match self {
            JsonValue::Str(s) => Some(s@),
            _ => None,
        }
    }

    /// The integer reading of a number, nothing for any other value.
    pub open spec fn integer(self) -> Option<i64> {
        match self {
            JsonValue::Number(n) => n.integer,
            _ => None,
        }
    }

    /// Looks up the member named `key` of an object.
    pub fn get(&self, key: &str) -> (r: Option<&JsonValue>)
        ensures
            match self.member(key@) {
                Some(v) => r == Some(&v),
                None => r is None,
            },
    {
        match self {
            JsonValue::Object(members) => {
                let wanted = String::from_str(key);
                let n = members.len();
                let mut i: usize = 0;
                while i < n
                    invariant
                        n == members@.len(),
                        i <= n,
                        *self == JsonValue::Object(*members),
                        wanted@ == key@,
                        first_member_index(members@.take(i as int), key@) is None,
                    decreases n - i,
                {
                    assert(members@.take(i as int + 1).drop_last() =~= members@.take(i as int));
                    if members[i].0 == wanted {
                        proof {
                            lemma_first_index_prefix(members@, i as int + 1, key@);
                        }
                        return Some(&members[i].1);
                    }
                    i += 1;
                }
                assert(members@.take(n as int) =~= members@);
                None
            },
            _ => None,
        }
    }

    /// The elements of an array.
    pub fn as_array(&self) -> (r: Option<&Vec<JsonValue>>)
        ensures
            match self.elements() {
                Some(items) => r is Some && r->0@ == items,
                None => r is None,
            },
    {
        match self {
            JsonValue::Array(items) => Some(items),
            _ => None,
        }
    }

    /// The text of a string.
    pub fn as_str(&self) -> (r: Option<&String>)
        ensures
            match self.text() {
                Some(t) => r is Some && r->0@ == t,
                None => r is None,
            },
    {
        match self {
            JsonValue::Str(s) => Some(s),
            _ => None,
        }
    }

    /// The integer reading of a number.
    pub fn as_i64(&self) -> (r: Option<i64>)
        ensures
            r == self.integer(),
    {
        match self {
            JsonValue::Number(n) => n.integer,
            _ => None,
        }
    }
}

/// When the first match in a longer prefix lies in a shorter one, it is the
/// first match of the whole sequence too.
proof fn lemma_first_index_prefix(members: Seq<(String, JsonValue)>, k: int, key: Seq<char>)
    requires
        0 < k <= members.len(),
        first_member_index(members.take(k - 1), key) is None,
        members[k - 1].0@ == key,
    ensures
        first_member_index(members, key) == Some(k - 1),
    decreases members.len(),
{
    assert(members.take(k).drop_last() =~= members.take(k - 1));
    if k < members.len() {
        assert(members.drop_last().take(k) =~= members.take(k));
        assert(members.drop_last().take(k - 1) =~= members.take(k - 1));
        lemma_first_index_prefix(members.drop_last(), k, key);
    } else {
        assert(members.take(k) =~= members);
    }
}

/// A sequence of members none of which is named `key` has no first match.
proof fn lemma_no_member_named(members: Seq<(String, JsonValue)>, key: Seq<char>)
    requires
        forall|j: int| 0 <= j < members.len() ==> (#[trigger] members[j]).0@ != key,
    ensures
        first_member_index(members, key) is None,
    decreases members.len(),
{
    if members.len() > 0 {
        let init = members.drop_last();
        assert forall|j: int| 0 <= j < init.len() implies (#[trigger] init[j]).0@ != key by {
            assert(init[j] == members[j]);
        }
        lemma_no_member_named(init, key);
        assert(members.last() == members[members.len() - 1]);
    }
}

/// Member lookup on an object finds the first member named `key`, at
/// whatever position it stands, and gives that member's value.
pub proof fn lemma_member_is_first_named(members: Vec<(String, JsonValue)>, key: Seq<char>, i: int)
    requires
        0 <= i < members@.len(),
        members@[i].0@ == key,
        forall|j: int| 0 <= j < i ==> (#[trigger] members@[j]).0@ != key,
    ensures
        JsonValue::Object(members).member(key) == Some(members@[i].1),
{
    let ms = members@;
    assert forall|j: int| 0 <= j < ms.take(i).len() implies (#[trigger] ms.take(i)[j]).0@ != key by {
        assert(ms.take(i)[j] == ms[j]);
    }
    lemma_no_member_named(ms.take(i), key);
    lemma_first_index_prefix(ms, i + 1, key);
}

/// Member lookup gives nothing on an object without a member named `key`,
/// and on any value that is not an object.
pub proof fn lemma_member_absent(v: JsonValue, key: Seq<char>)
    requires
        v matches JsonValue::Object(ms) ==> forall|j: int| 0 <= j < ms@.len() ==> (#[trigger] ms@[j]).0@ != key,
    ensures
        v.member(key) is None,
{
    if let JsonValue::Object(ms) = v {
        lemma_no_member_named(ms@, key);
    }
}

} // verus!
