//! Parameter lists: what a request sends, as an ordered list of `(name, value)` pairs.
//!
//! A request is a fixed list of named fields. A field that holds a value sends one pair, a
//! field that holds none sends nothing, and the pairs keep the order of the fields.

use crate::transport::{pairs_of, Pair};
use vstd::prelude::*;

verus! {

/// One field of a request: its name, and its value in the form it is sent in, if it has one.
pub ghost struct Field {
    pub name: Seq<char>,
    pub value: Option<Seq<char>>,
}

/// The pair that `field` sends, if it sends one.
pub open spec fn slot(field: Field) -> Option<Pair> {
    match field.value {
        Some(value) => Some((field.name, value)),
        None => None,
    }
}

/// The pairs among `slots`, in their order.
pub open spec fn kept(slots: Seq<Option<Pair>>) -> Seq<Pair>
    decreases slots.len(),
{
    if slots.len() == 0 {
        Seq::empty()
    } else {
        match slots.last() {
            Some(pair) => kept(slots.drop_last()).push(pair),
            None => kept(slots.drop_last()),
        }
    }
}

/// The parameter list of a request with the fields `fields`.
pub open spec fn assemble(fields: Seq<Field>) -> Seq<Pair> {
    kept(fields.map_values(|field: Field| slot(field)))
}

/// No two fields have the same name.
pub open spec fn distinct_names(fields: Seq<Field>) -> bool {
    forall|i: int, j: int|
        0 <= i < j < fields.len() ==> (#[trigger] fields[i]).name != (#[trigger] fields[j]).name
}

/// No pair of `pairs` is called `name`.
pub open spec fn unnamed(pairs: Seq<Pair>, name: Seq<char>) -> bool {
    forall|k: int| 0 <= k < pairs.len() ==> (#[trigger] pairs[k]).0 != name
}

/// Exactly one pair of `pairs` is called `name`, and its value is `value`.
pub open spec fn named_once(pairs: Seq<Pair>, name: Seq<char>, value: Seq<char>) -> bool {
    exists|j: int|
        0 <= j < pairs.len() && #[trigger] pairs[j] == (name, value) && forall|k: int|
            0 <= k < pairs.len() && (#[trigger] pairs[k]).0 == name ==> k == j
}

/// How a flag is sent.
pub open spec fn flag_text(flag: bool) -> Seq<char> {
    if flag {
        "true"@
    } else {
        "false"@
    }
}

/// How an optional flag is sent.
pub open spec fn flag_value(flag: Option<bool>) -> Option<Seq<char>> {
    match flag {
        Some(b) => Some(flag_text(b)),
        None => None,
    }
}

/// The pairs of an owned parameter list, as sequences of characters.
pub open spec fn owned(params: Seq<(&'static str, String)>) -> Seq<Pair> {
    Seq::new(params.len(), |i: int| (params[i].0@, params[i].1@))
}

/// An owned slot, as sequences of characters.
pub open spec fn slot_of(made: Option<(&'static str, String)>) -> Option<Pair> {
    match made {
        Some(pair) => Some((pair.0@, pair.1@)),
        None => None,
    }
}

/// The slots of an owned list, as sequences of characters.
pub open spec fn slots_of(slots: Seq<Option<(&'static str, String)>>) -> Seq<Option<Pair>> {
    Seq::new(slots.len(), |i: int| slot_of(slots[i]))
}

proof fn lemma_kept_without(slots: Seq<Option<Pair>>, name: Seq<char>)
    requires
        forall|i: int|
            0 <= i < slots.len() ==> (#[trigger] slots[i] matches Some(pair) ==> pair.0 != name),
    ensures
        unnamed(kept(slots), name),
    decreases slots.len(),
{
    if slots.len() > 0 {
        let front = slots.drop_last();
        assert forall|i: int| 0 <= i < front.len() implies (#[trigger] front[i] matches Some(pair)
            ==> pair.0 != name) by {
            assert(front[i] == slots[i]);
        }
        lemma_kept_without(front, name);
        assert(slots.last() == slots[slots.len() - 1]);
    }
}

proof fn lemma_kept_with(slots: Seq<Option<Pair>>, at: int, name: Seq<char>, value: Seq<char>)
    requires
        0 <= at < slots.len(),
        slots[at] == Some((name, value)),
        forall|i: int|
            0 <= i < slots.len() && i != at ==> (#[trigger] slots[i] matches Some(pair) ==> pair.0
                != name),
    ensures
        named_once(kept(slots), name, value),
    decreases slots.len(),
{
    let front = slots.drop_last();
    let rest = kept(front);
    let last = slots.len() - 1;
    assert(slots.last() == slots[last]);
    if at == last {
        assert forall|i: int| 0 <= i < front.len() implies (#[trigger] front[i] matches Some(pair)
            ==> pair.0 != name) by {
            assert(front[i] == slots[i]);
        }
        lemma_kept_without(front, name);
        let whole = kept(slots);
        assert(whole == rest.push((name, value)));
        let j = rest.len() as int;
        assert(whole[j] == (name, value));
        assert forall|k: int| 0 <= k < whole.len() && (#[trigger] whole[k]).0 == name implies k
            == j by {
            if k < j {
                assert(whole[k] == rest[k]);
            }
        }
    } else {
        assert(front[at] == slots[at]);
        assert forall|i: int| 0 <= i < front.len() && i != at implies (#[trigger] front[i]
            matches Some(pair) ==> pair.0 != name) by {
            assert(front[i] == slots[i]);
        }
        lemma_kept_with(front, at, name, value);
        let j = choose|j: int|
            0 <= j < rest.len() && #[trigger] rest[j] == (name, value) && forall|k: int|
                0 <= k < rest.len() && (#[trigger] rest[k]).0 == name ==> k == j;
        let whole = kept(slots);
        assert(whole[j] == rest[j]);
        assert forall|k: int| 0 <= k < whole.len() && (#[trigger] whole[k]).0 == name implies k
            == j by {
            if k < rest.len() {
                assert(whole[k] == rest[k]);
            }
        }
    }
}

/// A field without a value sends nothing: no pair of the parameter list has its name.
pub proof fn lemma_absent_field_sends_nothing(fields: Seq<Field>, at: int)
    requires
        distinct_names(fields),
        0 <= at < fields.len(),
        fields[at].value is None,
    ensures
        unnamed(assemble(fields), fields[at].name),
{
    let slots = fields.map_values(|field: Field| slot(field));
    assert forall|i: int| 0 <= i < slots.len() implies (#[trigger] slots[i] matches Some(pair)
        ==> pair.0 != fields[at].name) by {
        assert(slots[i] == slot(fields[i]));
        if i < at {
            assert(fields[i].name != fields[at].name);
        } else if at < i {
            assert(fields[at].name != fields[i].name);
        }
    }
    lemma_kept_without(slots, fields[at].name);
}

/// A field with a value sends exactly one pair: its name with that value.
pub proof fn lemma_present_field_sends_one(fields: Seq<Field>, at: int)
    requires
        distinct_names(fields),
        0 <= at < fields.len(),
        fields[at].value is Some,
    ensures
        named_once(assemble(fields), fields[at].name, fields[at].value->Some_0),
{
    let slots = fields.map_values(|field: Field| slot(field));
    assert(slots[at] == slot(fields[at]));
    assert forall|i: int| 0 <= i < slots.len() && i != at implies (#[trigger] slots[i] matches Some(
        pair,
    ) ==> pair.0 != fields[at].name) by {
        assert(slots[i] == slot(fields[i]));
        if i < at {
            assert(fields[i].name != fields[at].name);
        } else {
            assert(fields[at].name != fields[i].name);
        }
    }
    lemma_kept_with(slots, at, fields[at].name, fields[at].value->Some_0);
}

/// The slot of a text field: the name with a copy of the text, if there is a text.
pub fn text_slot(name: &'static str, value: &Option<String>) -> (made: Option<
    (&'static str, String),
>)
    ensures
        slot_of(made) == slot(Field { name: name@, value: value.deep_view() }),
{
    match value {
        Some(text) => Some((name, text.clone())),
        None => None,
    }
}

/// The slot of a flag field: the name with `true` or `false`, if there is a flag.
pub fn flag_slot(name: &'static str, value: &Option<bool>) -> (made: Option<
    (&'static str, String),
>)
    ensures
        slot_of(made) == slot(Field { name: name@, value: flag_value(*value) }),
{
    match value {
        Some(flag) => if *flag {
            Some((name, "true".to_owned()))
        } else {
            Some((name, "false".to_owned()))
        },
        None => None,
    }
}

/// The slot of a required text field: the name with a copy of the text.
pub fn required_slot(name: &'static str, value: &String) -> (made: Option<
    (&'static str, String),
>)
    ensures
        slot_of(made) == slot(Field { name: name@, value: Some(value@) }),
{
    Some((name, value.clone()))
}

/// Drops the empty slots and keeps the pairs, in their order.
pub fn collect(slots: Vec<Option<(&'static str, String)>>) -> (params: Vec<(&'static str, String)>)
    ensures
        owned(params@) == kept(slots_of(slots@)),
{
    let mut params: Vec<(&'static str, String)> = Vec::new();
    let mut i: usize = 0;
    assert(slots_of(slots@).take(0) =~= Seq::empty());
    while i < slots.len()
        invariant
            i <= slots.len(),
            owned(params@) == kept(slots_of(slots@).take(i as int)),
        decreases slots.len() - i,
    {
        let ghost before = owned(params@);
        proof {
            let next = slots_of(slots@).take(i + 1);
            assert(next.drop_last() =~= slots_of(slots@).take(i as int));
            assert(next.last() == slots_of(slots@)[i as int]);
        }
        match &slots[i] {
            Some(pair) => {
                params.push((pair.0, pair.1.clone()));
                assert(owned(params@) =~= before.push((pair.0@, pair.1@)));
            },
            None => {},
        }
        i = i + 1;
    }
    assert(slots_of(slots@).take(i as int) =~= slots_of(slots@));
    params
}

/// The same list with its values borrowed, as a transport takes it.
pub fn borrowed<'a>(params: &'a Vec<(&'static str, String)>) -> (list: Vec<(&'a str, &'a str)>)
    ensures
        pairs_of(list@) == owned(params@),
{
    let mut list: Vec<(&'a str, &'a str)> = Vec::new();
    let mut i: usize = 0;
    while i < params.len()
        invariant
            i <= params.len(),
            list@.len() == i,
            forall|k: int|
                0 <= k < i ==> (#[trigger] list@[k]).0@ == params@[k].0@ && list@[k].1@
                    == params@[k].1@,
        decreases params.len() - i,
    {
        list.push((params[i].0, params[i].1.as_str()));
        i = i + 1;
    }
    assert(pairs_of(list@) =~= owned(params@));
    list
}

} // verus!
