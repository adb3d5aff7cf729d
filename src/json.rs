//! What the worker reads of a JSON value: whether it is a boolean, and the
//! members of an object. Member values are carried as their compact JSON text.

use vstd::prelude::*;
use crate::text::text_eq;

verus! {

/// One member of a JSON object.
#[derive(Debug, Clone, PartialEq, Eq)]
pub struct Member {
    pub key: String,
    /// The member's value, as compact JSON text.
    pub text: String,
    /// The member's value when it is a JSON string.
    pub string: Option<String>,
}

/// A JSON value as far as the worker looks into it.
#[derive(Debug, Clone, PartialEq, Eq)]
pub enum JsonValue {
    Bool(bool),
    Object(Vec<Member>),
    /// Any other value (null, number, string, array), as compact JSON text.
    Other(String),
}

/// What `text` parses to as JSON, or `None` when it is not JSON.
pub uninterp spec fn parsed_json(text: Seq<char>) -> Option<JsonValue>;

/// Relies on serde_json::from_str into serde_json::Value, and on the value's
/// `Display`, which writes compact JSON, for each member of an object.
#[verifier::external_body]
pub(crate) fn parse_json(text: &str) -> (r: Option<JsonValue>)
    ensures
        r == parsed_json(text@),
{
    match serde_json::from_str::<serde_json::Value>(text) {
        Ok(serde_json::Value::Bool(b)) => Some(JsonValue::Bool(b)),
        Ok(serde_json::Value::Object(m)) => Some(JsonValue::Object(m.into_iter().map(|(key, v)| Member {
            key,
            text: v.to_string(),
            string: v.as_str().map(String::from),
        }).collect())),
        Ok(v) => Some(JsonValue::Other(v.to_string())),
        Err(_) => None,
    }
}

/// Whether some member is named `k`.
pub open spec fn has_key(ms: Seq<Member>, k: Seq<char>) -> bool {
    exists|i: int| 0 <= i < ms.len() && #[trigger] ms[i].key@ == k
}

/// `i` is the position of the first member named `k`.
pub open spec fn is_first_key(ms: Seq<Member>, k: Seq<char>, i: int) -> bool {
    &&& 0 <= i < ms.len()
    &&& ms[i].key@ == k
    &&& forall|j: int| 0 <= j < i ==> #[trigger] ms[j].key@ != k
}

/// The members other than those named `k`, in their order.
pub open spec fn without_key(ms: Seq<Member>, k: Seq<char>) -> Seq<Member>
    decreases ms.len(),
{
    if ms.len() == 0 {
        ms
    } else if ms.last().key@ == k {
        without_key(ms.drop_last(), k)
    } else {
        without_key(ms.drop_last(), k).push(ms.last())
    }
}

/// No member named `k` is left once those named `k` are removed.
pub proof fn lemma_without_key_lacks(ms: Seq<Member>, k: Seq<char>)
    ensures
        !has_key(without_key(ms, k), k),
    decreases ms.len(),
{
    if ms.len() > 0 {
        lemma_without_key_lacks(ms.drop_last(), k);
        let rest = without_key(ms.drop_last(), k);
        if ms.last().key@ != k {
            assert forall|i: int| 0 <= i < rest.push(ms.last()).len() implies #[trigger] rest.push(ms.last())[i].key@ != k by {
                if i < rest.len() {
                    assert(rest.push(ms.last())[i] == rest[i]);
                }
            }
        }
    }
}

/// Two first positions of one key are the same position.
pub proof fn lemma_first_key_unique(ms: Seq<Member>, k: Seq<char>, i: int, j: int)
    requires
        is_first_key(ms, k, i),
        is_first_key(ms, k, j),
    ensures
        i == j,
{
    if i < j {
        assert(ms[i].key@ != k);
    } else if j < i {
        assert(ms[j].key@ != k);
    }
}

/// The position of the first member named `k`, if any.
pub fn find_key(ms: &Vec<Member>, k: &str) -> (r: Option<usize>)
    ensures
        r.is_some() == has_key(ms@, k@),
        r.is_some() ==> is_first_key(ms@, k@, r.unwrap() as int),
{
    let mut i: usize = 0;
    while i < ms.len()
        invariant
            i <= ms.len(),
            forall|j: int| 0 <= j < i ==> #[trigger] ms@[j].key@ != k@,
        decreases ms.len() - i,
    {
        if text_eq(ms[i].key.as_str(), k) {
            return Some(i);
        }
        i = i + 1;
    }
    None
}

/// The members other than those named `k`.
pub fn remove_key(ms: Vec<Member>, k: &str) -> (r: Vec<Member>)
    ensures
        r@ == without_key(ms@, k@),
{
    let mut out: Vec<Member> = Vec::new();
    let mut rest = ms;
    let ghost orig = rest@;
    let mut taken: Vec<Member> = Vec::new();
    // Members are moved out from the back; `taken` holds them reversed.
    while rest.len() > 0
        invariant
            orig == rest@ + taken@.reverse(),
        decreases rest.len(),
    {
        let m = rest.pop().unwrap();
        proof {
            assert(orig =~= rest@ + taken@.push(m).reverse());
        }
        taken.push(m);
    }
    assert(orig =~= taken@.reverse());
    assert(orig.subrange(0, orig.len() as int) =~= orig);
    assert(orig.subrange(0, 0) =~= Seq::<Member>::empty());
    let ghost n = taken@.len();
    while taken.len() > 0
        invariant
            taken@.reverse() == orig.subrange(n - taken@.len(), n as int),
            taken@.len() <= n,
            n == orig.len(),
            out@ == without_key(orig.subrange(0, n - taken@.len()), k@),
        decreases taken.len(),
    {
        let ghost before = orig.subrange(0, n - taken@.len());
        let ghost old_taken = taken@;
        assert(old_taken.reverse()[0] == orig[n - old_taken.len()]);
        let m = taken.pop().unwrap();
        assert(taken@.reverse() =~= orig.subrange(n - taken@.len(), n as int)) by {
            assert(taken@ =~= old_taken.drop_last());
            assert forall|j: int| 0 <= j < taken@.len() implies taken@.reverse()[j] == orig.subrange(n - taken@.len(), n as int)[j] by {
                assert(old_taken.reverse()[j + 1] == orig[n - old_taken.len() + j + 1]);
            }
        }
        let ghost after = orig.subrange(0, n - taken@.len());
        proof {
            assert(after.drop_last() =~= before);
            assert(after.last() == m);
        }
        if !text_eq(m.key.as_str(), k) {
            out.push(m);
        }
    }
    assert(orig.subrange(0, n as int) =~= orig);
    out
}

} // verus!
