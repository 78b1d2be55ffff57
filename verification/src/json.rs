//! The library's own JSON value model. A configuration tree arrives as one of
//! these values (the host turns raw bytes into it) and every command payload
//! is read out of it by the verified parsers in the command modules.

use vstd::prelude::*;

use crate::text::str_eq;

verus! {

/// One key/value pair of a JSON object, in document order.
pub struct JsonMember {
    pub key: String,
    pub value: JsonValue,
}

/// A JSON document as the interpreter sees it. Numbers that are not unsigned
/// 32-bit integers keep only the fact that they existed: no command accepts
/// them, so a faithful failure is all that is needed of them.
pub enum JsonValue {
    Null,
    Bool(bool),
    UInt(u32),
    UnsupportedNumber,
    Str(String),
    Array(Vec<JsonValue>),
    Object(Vec<JsonMember>),
}

/// The mathematical shape of a [`JsonValue`].
pub enum SpecJson {
    Null,
    Bool(bool),
    UInt(u32),
    UnsupportedNumber,
    Str(Seq<char>),
    Arr(Seq<SpecJson>),
    Obj(Seq<(Seq<char>, SpecJson)>),
}

/// The shape of one JSON value.
pub open spec fn spec_json_of(v: JsonValue) -> SpecJson
    decreases v, 1int,
{
    match v {
        JsonValue::Null => SpecJson::Null,
        JsonValue::Bool(b) => SpecJson::Bool(b),
        JsonValue::UInt(n) => SpecJson::UInt(n),
        JsonValue::UnsupportedNumber => SpecJson::UnsupportedNumber,
        JsonValue::Str(s) => SpecJson::Str(s@),
        JsonValue::Array(a) => SpecJson::Arr(spec_arr_of(a@)),
        JsonValue::Object(m) => SpecJson::Obj(spec_members_of(m@)),
    }
}

/// The shapes of the elements of a JSON array.
pub open spec fn spec_arr_of(a: Seq<JsonValue>) -> Seq<SpecJson>
    decreases a, 0int,
{
    if a.len() == 0 {
        Seq::empty()
    } else {
        seq![spec_json_of(a[0])] + spec_arr_of(a.subrange(1, a.len() as int))
    }
}

/// The keys and value shapes of the members of a JSON object.
pub open spec fn spec_members_of(m: Seq<JsonMember>) -> Seq<(Seq<char>, SpecJson)>
    decreases m, 0int,
{
    if m.len() == 0 {
        Seq::empty()
    } else {
        seq![(m[0].key@, spec_json_of(m[0].value))] + spec_members_of(
            m.subrange(1, m.len() as int),
        )
    }
}

impl View for JsonValue {
    type V = SpecJson;

    open spec fn view(&self) -> SpecJson {
        spec_json_of(*self)
    }
}

/// Pointwise description of `spec_arr_of`.
pub proof fn lemma_arr_of(a: Seq<JsonValue>)
    ensures
        spec_arr_of(a).len() == a.len(),
        forall|i: int| 0 <= i < a.len() ==> spec_arr_of(a)[i] == spec_json_of(a[i]),
    decreases a.len(),
{
    if a.len() > 0 {
        lemma_arr_of(a.subrange(1, a.len() as int));
    }
}

/// Pointwise description of `spec_members_of`.
pub proof fn lemma_members_of(m: Seq<JsonMember>)
    ensures
        spec_members_of(m).len() == m.len(),
        forall|i: int|
            0 <= i < m.len() ==> spec_members_of(m)[i] == (m[i].key@, spec_json_of(m[i].value)),
    decreases m.len(),
{
    if m.len() > 0 {
        lemma_members_of(m.subrange(1, m.len() as int));
    }
}

/// First-match lookup of `k` among the members of an object.
pub open spec fn spec_lookup(m: Seq<(Seq<char>, SpecJson)>, k: Seq<char>) -> Option<SpecJson>
    decreases m.len(),
{
    if m.len() == 0 {
        None
    } else if m[0].0 == k {
        Some(m[0].1)
    } else {
        spec_lookup(m.drop_first(), k)
    }
}

/// The member of key `k`, if the object has one. The member is part of the
/// object, so recursing into it terminates; the second clause records that.
pub fn obj_get<'a>(members: &'a Vec<JsonMember>, key: &str) -> (r: Option<&'a JsonValue>)
    ensures
        ({
            let m = spec_members_of(members@);
            match r {
                Some(v) => spec_lookup(m, key@) == Some(v@),
                None => spec_lookup(m, key@) is None,
            }
        }),
        r matches Some(v) ==> (decreases_to!(*members => *v)),
{
    let ghost m = spec_members_of(members@);
    proof {
        lemma_members_of(members@);
    }
    let mut i: usize = 0;
    assert(m.skip(0) =~= m);
    while i < members.len()
        invariant
            i <= members@.len(),
            m == spec_members_of(members@),
            m.len() == members@.len(),
            forall|j: int|
                0 <= j < members@.len() ==> m[j] == (members@[j].key@, spec_json_of(
                    members@[j].value,
                )),
            spec_lookup(m, key@) == spec_lookup(m.skip(i as int), key@),
        decreases members@.len() - i,
    {
        assert(m.skip(i as int)[0] == m[i as int]);
        if str_eq(members[i].key.as_str(), key) {
            proof {
                assert(decreases_to!(members@ => members@[i as int]));
                assert(decreases_to!(members@[i as int] => members@[i as int].value));
            }
            return Some(&members[i].value);
        }
        assert(m.skip(i as int).drop_first() =~= m.skip(i + 1));
        i = i + 1;
    }
    assert(m.skip(i as int).len() == 0);
    None
}

/// A value equal to `v` in shape, character for character.
#[verifier::loop_isolation(false)]
pub fn json_clone(v: &JsonValue) -> (r: JsonValue)
    ensures
        r@ == v@,
    decreases v,
{
    match v {
        JsonValue::Null => JsonValue::Null,
        JsonValue::Bool(b) => JsonValue::Bool(*b),
        JsonValue::UInt(n) => JsonValue::UInt(*n),
        JsonValue::UnsupportedNumber => JsonValue::UnsupportedNumber,
        JsonValue::Str(s) => JsonValue::Str(s.clone()),
        JsonValue::Array(a) => {
            let mut out: Vec<JsonValue> = Vec::new();
            let mut i: usize = 0;
            while i < a.len()
                invariant
                    i <= a@.len(),
                    out@.len() == i,
                    forall|j: int| 0 <= j < i ==> out@[j]@ == a@[j]@,
                decreases a@.len() - i,
            {
                let c = json_clone(&a[i]);
                out.push(c);
                i = i + 1;
            }
            proof {
                lemma_arr_of(a@);
                lemma_arr_of(out@);
                assert(spec_arr_of(out@) =~= spec_arr_of(a@));
            }
            JsonValue::Array(out)
        },
        JsonValue::Object(m) => {
            let mut out: Vec<JsonMember> = Vec::new();
            let mut i: usize = 0;
            while i < m.len()
                invariant
                    i <= m@.len(),
                    out@.len() == i,
                    forall|j: int|
                        0 <= j < i ==> out@[j].key@ == m@[j].key@ && spec_json_of(out@[j].value)
                            == spec_json_of(m@[j].value),
                decreases m@.len() - i,
            {
                let c = json_clone(&m[i].value);
                let k = m[i].key.clone();
                out.push(JsonMember { key: k, value: c });
                i = i + 1;
            }
            proof {
                lemma_members_of(m@);
                lemma_members_of(out@);
                assert(spec_members_of(out@) =~= spec_members_of(m@));
            }
            JsonValue::Object(out)
        },
    }
}

} // verus!
