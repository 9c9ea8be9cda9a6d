use vstd::prelude::*;

verus! {

/// A JSON value as the protocol sees it.
///
/// Integers keep their exact value; any other number (a fraction, an exponent,
/// an integer beyond 64 bits) is kept as the text it was written with.
/// An object is a list of members in the order they were written.
#[derive(Debug, PartialEq)]
pub enum JsonValue {
    Null,
    Bool(bool),
    UInt(u64),
    NegInt(i64),
    OtherNumber(String),
    Str(String),
    Array(Vec<JsonValue>),
    Object(Vec<(String, JsonValue)>),
}

/// The value of the first member named `key`, if any.
pub open spec fn lookup(members: Seq<(String, JsonValue)>, key: Seq<char>) -> Option<JsonValue>
    decreases members.len(),
{
    if members.len() == 0 {
        None
    } else {
        let earlier = lookup(members.drop_last(), key);
        if earlier is Some {
            earlier
        } else if members.last().0@ == key {
            Some(members.last().1)
        } else {
            None
        }
    }
}

/// Takes an object's members apart: for each key, the value of the first member
/// with that name.
pub fn take_members(members: Vec<(String, JsonValue)>, keys: &Vec<String>) -> (r: Vec<
    Option<JsonValue>,
>)
    requires
        forall|a: int, b: int|
            0 <= a < b < keys.len() ==> #[trigger] keys[a]@ != #[trigger] keys[b]@,
    ensures
        r.len() == keys.len(),
        forall|j: int| 0 <= j < keys.len() ==> #[trigger] r[j] == lookup(members@, keys[j]@),
{
    let ghost all = members@;
    let mut rest = members;
    let total: usize = rest.len();
    let mut slots: Vec<Option<JsonValue>> = Vec::new();
    let mut k: usize = 0;
    while k < keys.len()
        invariant
            k <= keys.len(),
            slots.len() == k,
            forall|j: int| 0 <= j < k ==> #[trigger] slots[j] == lookup(seq![], keys[j]@),
        decreases keys.len() - k,
    {
        slots.push(None);
        k = k + 1;
    }
    let mut done: usize = 0;
    while rest.len() > 0
        invariant
            done + rest.len() == all.len(),
            all.len() == total,
            forall|a: int, b: int|
                0 <= a < b < keys.len() ==> #[trigger] keys[a]@ != #[trigger] keys[b]@,
            rest@ == all.subrange(done as int, all.len() as int),
            slots.len() == keys.len(),
            forall|j: int|
                0 <= j < keys.len() ==> #[trigger] slots[j] == lookup(
                    all.subrange(0, done as int),
                    keys[j]@,
                ),
        decreases rest.len(),
    {
        let ghost before = slots@;
        let (name, value) = rest.remove(0);
        let ghost member = all[done as int];
        assert(all.subrange(0, done + 1).drop_last() == all.subrange(0, done as int));
        let mut pending: Option<JsonValue> = Some(value);
        let mut j: usize = 0;
        while j < keys.len()
            invariant
                j <= keys.len(),
                slots.len() == keys.len(),
                before.len() == keys.len(),
                done < all.len(),
                all.len() == total,
                done + 1 + rest.len() == all.len(),
                rest@ == all.subrange(done + 1, all.len() as int),
                member == all[done as int],
                all.subrange(0, done + 1).drop_last() == all.subrange(0, done as int),
                forall|a: int, b: int|
                    0 <= a < b < keys.len() ==> #[trigger] keys[a]@ != #[trigger] keys[b]@,
                forall|i: int|
                    0 <= i < keys.len() ==> #[trigger] before[i] == lookup(
                        all.subrange(0, done as int),
                        keys[i]@,
                    ),
                member.0 == name,
                pending is Some ==> pending == Some(member.1),
                pending is None ==> exists|i: int| 0 <= i < j && #[trigger] keys[i]@ == name@,
                forall|i: int|
                    0 <= i < j ==> #[trigger] slots[i] == lookup(
                        all.subrange(0, done + 1),
                        keys[i]@,
                    ),
                forall|i: int| j <= i < keys.len() ==> #[trigger] slots[i] == before[i],
            decreases keys.len() - j,
        {
            if slots[j].is_none() && keys[j] == name {
                let v = pending.take();
                slots.set(j, v);
            }
            j = j + 1;
        }
        done = done + 1;
    }
    assert(all.subrange(0, all.len() as int) == all);
    slots
}

} // verus!
