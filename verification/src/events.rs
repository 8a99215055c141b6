//! What a finished call reports back: events that carry attributes, keyed
//! texts. A reply handler reads its inputs out of them.

use vstd::prelude::*;
use vstd::string::*;
use crate::decimal::{parse_bounded, parse_u128};
use crate::text::same_text;

verus! {

/// A keyed text that a call reports.
#[derive(Debug, PartialEq, Eq)]
pub struct Attribute {
    pub key: String,
    pub value: String,
}

/// An [`Attribute`] as two sequences of characters.
pub ghost struct AttributeView {
    pub key: Seq<char>,
    pub value: Seq<char>,
}

impl DeepView for Attribute {
    type V = AttributeView;

    open spec fn deep_view(&self) -> AttributeView {
        AttributeView { key: self.key@, value: self.value@ }
    }
}

impl Clone for Attribute {
    fn clone(&self) -> (copy: Self)
        ensures
            copy.deep_view() == self.deep_view(),
    {
        Attribute { key: self.key.clone(), value: self.value.clone() }
    }
}

/// The attribute that holds `value` under `key`.
pub fn attr(key: &str, value: &str) -> (a: Attribute)
    ensures
        a.deep_view() == (AttributeView { key: key@, value: value@ }),
{
    Attribute { key: key.to_owned(), value: value.to_owned() }
}

/// A group of attributes that one contract reported.
#[derive(Debug, Clone, PartialEq, Eq)]
pub struct Event {
    pub ty: String,
    pub attributes: Vec<Attribute>,
}

/// An [`Event`] with its texts as sequences of characters.
pub ghost struct EventView {
    pub ty: Seq<char>,
    pub attributes: Seq<AttributeView>,
}

impl DeepView for Event {
    type V = EventView;

    open spec fn deep_view(&self) -> EventView {
        EventView { ty: self.ty@, attributes: self.attributes.deep_view() }
    }
}

/// What a call that succeeded reports.
#[derive(Debug, Clone, PartialEq, Eq)]
pub struct SubMsgExecutionResponse {
    pub events: Vec<Event>,
}

/// How a call ended: with a report, or with the text of its failure.
#[derive(Debug, Clone, PartialEq, Eq)]
pub enum ContractResult<S> {
    /// The call succeeded and reports this.
    Success(S),
    /// The call failed, for the reason that the text gives.
    Failure(String),
}

/// The outcome of a deferred call, handed back under the tag that the call was made with.
#[derive(Debug, Clone, PartialEq, Eq)]
pub struct Reply {
    pub id: u64,
    pub result: ContractResult<SubMsgExecutionResponse>,
}

/// How a deferred call ended, as a reply handler sees it: the events of a
/// call that succeeded, or nothing.
pub open spec fn reported(result: ContractResult<SubMsgExecutionResponse>) -> Option<
    Seq<EventView>,
> {
    match result {
        ContractResult::Success(report) => Some(report.events.deep_view()),
        ContractResult::Failure(_) => None,
    }
}

/// The attributes of all of `events`, in the order in which they were reported.
pub open spec fn all_attributes(events: Seq<EventView>) -> Seq<AttributeView>
    decreases events.len(),
{
    if events.len() == 0 {
        Seq::empty()
    } else {
        all_attributes(events.drop_last()) + events.last().attributes
    }
}

/// The value of the last of `attrs` that has `key`.
pub open spec fn last_value(attrs: Seq<AttributeView>, key: Seq<char>) -> Option<Seq<char>>
    decreases attrs.len(),
{
    if attrs.len() == 0 {
        None
    } else if attrs.last().key == key {
        Some(attrs.last().value)
    } else {
        last_value(attrs.drop_last(), key)
    }
}

/// Whether every value that `attrs` hold under `key` denotes a number of at most `max`.
pub open spec fn numbers_under(attrs: Seq<AttributeView>, key: Seq<char>, max: nat) -> bool {
    forall|i: int|
        0 <= i < attrs.len() && (#[trigger] attrs[i]).key == key ==> parse_bounded(
            attrs[i].value,
            max,
        ) is Some
}

/// What reading a number under a key finds.
#[derive(Debug, Clone, Copy, PartialEq, Eq)]
pub enum Scanned {
    /// Some value under the key denotes no number, or one that is too large.
    Malformed,
    /// No attribute has the key.
    Missing,
    /// The number that the last attribute with the key denotes.
    Value(u128),
}

/// The number that `attrs` report under `key`: that of the last attribute
/// with the key, provided that every value under the key denotes a number of
/// at most `max`.
pub open spec fn scan_spec(attrs: Seq<AttributeView>, key: Seq<char>, max: nat) -> Scanned {
    if !numbers_under(attrs, key, max) {
        Scanned::Malformed
    } else {
        match last_value(attrs, key) {
            None => Scanned::Missing,
            Some(v) => Scanned::Value(parse_bounded(v, max).unwrap() as u128),
        }
    }
}

/// The number that must stand under `key`: a missing one is as bad as a malformed one.
pub open spec fn required_spec(attrs: Seq<AttributeView>, key: Seq<char>, max: nat) -> Option<nat> {
    match scan_spec(attrs, key, max) {
        Scanned::Value(v) => Some(v as nat),
        _ => None,
    }
}

/// The number that may stand under `key`: a missing one counts as zero.
pub open spec fn optional_spec(attrs: Seq<AttributeView>, key: Seq<char>, max: nat) -> Option<nat> {
    match scan_spec(attrs, key, max) {
        Scanned::Value(v) => Some(v as nat),
        Scanned::Missing => Some(0),
        Scanned::Malformed => None,
    }
}

/// One more attribute at the end decides the last value if it has the key,
/// and leaves it alone if not.
pub proof fn lemma_last_value_push(attrs: Seq<AttributeView>, a: AttributeView, key: Seq<char>)
    ensures
        last_value(attrs.push(a), key) == if a.key == key {
            Some(a.value)
        } else {
            last_value(attrs, key)
        },
{
    assert(attrs.push(a).drop_last() =~= attrs);
}

/// Of two runs of attributes one after the other, the later one decides the
/// last value where it has the key.
pub proof fn lemma_last_value_concat(
    first: Seq<AttributeView>,
    second: Seq<AttributeView>,
    key: Seq<char>,
)
    ensures
        last_value(first + second, key) == match last_value(second, key) {
            Some(v) => Some(v),
            None => last_value(first, key),
        },
    decreases second.len(),
{
    if second.len() == 0 {
        assert(first + second =~= first);
    } else {
        assert((first + second).drop_last() =~= first + second.drop_last());
        lemma_last_value_concat(first, second.drop_last(), key);
    }
}

/// The attributes of one more event come after those of the events before it.
pub proof fn lemma_all_attributes_push(events: Seq<EventView>, e: EventView)
    ensures
        all_attributes(events.push(e)) == all_attributes(events) + e.attributes,
{
    assert(events.push(e).drop_last() =~= events);
}

/// The last value under a key is the value of some attribute with the key.
pub proof fn lemma_last_value_occurs(attrs: Seq<AttributeView>, key: Seq<char>) -> (at: int)
    requires
        last_value(attrs, key) is Some,
    ensures
        0 <= at < attrs.len(),
        attrs[at].key == key,
        last_value(attrs, key) == Some(attrs[at].value),
    decreases attrs.len(),
{
    if attrs.last().key == key {
        attrs.len() - 1
    } else {
        let at = lemma_last_value_occurs(attrs.drop_last(), key);
        assert(attrs.drop_last()[at] == attrs[at]);
        at
    }
}

/// A number that is read is at most the bound it was read with, and it is
/// what the last value under the key denotes.
pub proof fn lemma_scan_bounded(attrs: Seq<AttributeView>, key: Seq<char>, max: nat)
    requires
        scan_spec(attrs, key, max) is Value,
    ensures
        last_value(attrs, key) is Some,
        parse_bounded(last_value(attrs, key).unwrap(), max) is Some,
        parse_bounded(last_value(attrs, key).unwrap(), max).unwrap() <= max,
        max <= u128::MAX ==> scan_spec(attrs, key, max)->Value_0 == parse_bounded(
            last_value(attrs, key).unwrap(),
            max,
        ).unwrap(),
        max <= u128::MAX ==> scan_spec(attrs, key, max)->Value_0 <= max,
{
    let at = lemma_last_value_occurs(attrs, key);
    assert(parse_bounded(attrs[at].value, max) is Some);
}

/// Whether none of `attrs` has `key`.
pub open spec fn silent(attrs: Seq<AttributeView>, key: Seq<char>) -> bool {
    forall|i: int| 0 <= i < attrs.len() ==> (#[trigger] attrs[i]).key != key
}

/// Attributes that do not have the key report nothing under it.
pub proof fn lemma_scan_silent(attrs: Seq<AttributeView>, key: Seq<char>, max: nat)
    requires
        silent(attrs, key),
    ensures
        last_value(attrs, key) is None,
        scan_spec(attrs, key, max) == Scanned::Missing,
    decreases attrs.len(),
{
    if attrs.len() > 0 {
        assert(attrs.last() == attrs[attrs.len() - 1]);
        assert forall|i: int| 0 <= i < attrs.drop_last().len() implies (
        #[trigger] attrs.drop_last()[i]).key != key by {
            assert(attrs.drop_last()[i] == attrs[i]);
        }
        lemma_scan_silent(attrs.drop_last(), key, max);
    }
}

/// One more attribute at the end decides the number if it has the key, and
/// leaves it alone if not.
pub proof fn lemma_scan_push(attrs: Seq<AttributeView>, a: AttributeView, key: Seq<char>, max: nat)
    ensures
        scan_spec(attrs.push(a), key, max) == if scan_spec(attrs, key, max) == Scanned::Malformed {
            Scanned::Malformed
        } else if a.key != key {
            scan_spec(attrs, key, max)
        } else {
            match parse_bounded(a.value, max) {
                Some(v) => Scanned::Value(v as u128),
                None => Scanned::Malformed,
            }
        },
{
    let next = attrs.push(a);
    lemma_last_value_push(attrs, a, key);
    assert(next[attrs.len() as int] == a);
    assert forall|k: int| 0 <= k < attrs.len() implies #[trigger] next[k] == attrs[k] by {}
    if numbers_under(attrs, key, max) && (a.key != key || parse_bounded(a.value, max) is Some) {
        assert forall|k: int| 0 <= k < next.len() && (#[trigger] next[k]).key == key implies parse_bounded(
            next[k].value,
            max,
        ) is Some by {
            if k < attrs.len() {
                assert(attrs[k].key == key);
            }
        }
    } else if !numbers_under(attrs, key, max) {
        let k = choose|k: int|
            0 <= k < attrs.len() && (#[trigger] attrs[k]).key == key && !(parse_bounded(
                attrs[k].value,
                max,
            ) is Some);
        assert(next[k].key == key);
    }
}

/// Of two runs of attributes one after the other, the later one decides the
/// number where it has the key, and a malformed value in either spoils both.
pub proof fn lemma_scan_concat(
    first: Seq<AttributeView>,
    second: Seq<AttributeView>,
    key: Seq<char>,
    max: nat,
)
    ensures
        scan_spec(first + second, key, max) == if scan_spec(first, key, max) == Scanned::Malformed
            || scan_spec(second, key, max) == Scanned::Malformed {
            Scanned::Malformed
        } else if scan_spec(second, key, max) == Scanned::Missing {
            scan_spec(first, key, max)
        } else {
            scan_spec(second, key, max)
        },
    decreases second.len(),
{
    if second.len() == 0 {
        assert(first + second =~= first);
    } else {
        let init = second.drop_last();
        assert(first + second =~= (first + init).push(second.last()));
        assert(second =~= init.push(second.last()));
        lemma_scan_concat(first, init, key, max);
        lemma_scan_push(first + init, second.last(), key, max);
        lemma_scan_push(init, second.last(), key, max);
    }
}

/// Where exactly one attribute has the key, its value is what is read.
pub proof fn lemma_scan_single(attrs: Seq<AttributeView>, at: int, key: Seq<char>, max: nat)
    requires
        0 <= at < attrs.len(),
        attrs[at].key == key,
        forall|j: int| 0 <= j < attrs.len() && j != at ==> (#[trigger] attrs[j]).key != key,
    ensures
        last_value(attrs, key) == Some(attrs[at].value),
        scan_spec(attrs, key, max) == match parse_bounded(attrs[at].value, max) {
            Some(v) => Scanned::Value(v as u128),
            None => Scanned::Malformed,
        },
{
    let head = attrs.subrange(0, at);
    let tail = attrs.subrange(at + 1, attrs.len() as int);
    assert(attrs =~= head.push(attrs[at]) + tail);
    assert(silent(head, key)) by {
        assert forall|j: int| 0 <= j < head.len() implies (#[trigger] head[j]).key != key by {
            assert(head[j] == attrs[j]);
        }
    }
    assert(silent(tail, key)) by {
        assert forall|j: int| 0 <= j < tail.len() implies (#[trigger] tail[j]).key != key by {
            assert(tail[j] == attrs[at + 1 + j]);
        }
    }
    lemma_scan_silent(head, key, max);
    lemma_scan_silent(tail, key, max);
    lemma_scan_push(head, attrs[at], key, max);
    lemma_last_value_push(head, attrs[at], key);
    lemma_scan_concat(head.push(attrs[at]), tail, key, max);
    lemma_last_value_concat(head.push(attrs[at]), tail, key);
}

/// Each attribute of each event stands among the attributes of all events.
pub proof fn lemma_attribute_at(events: Seq<EventView>, i: int, j: int)
    requires
        0 <= i < events.len(),
        0 <= j < events[i].attributes.len(),
    ensures
        all_attributes(events.subrange(0, i)).len() + j < all_attributes(events).len(),
        all_attributes(events)[all_attributes(events.subrange(0, i)).len() + j]
            == events[i].attributes[j],
    decreases events.len(),
{
    if i == events.len() - 1 {
        assert(events.drop_last() =~= events.subrange(0, i));
    } else {
        lemma_attribute_at(events.drop_last(), i, j);
        assert(events.drop_last().subrange(0, i) =~= events.subrange(0, i));
    }
}

/// Reads the number that `events` report under `key`.
pub fn scan_number(events: &Vec<Event>, key: &str, max: u128) -> (found: Scanned)
    ensures
        found == scan_spec(all_attributes(events.deep_view()), key@, max as nat),
        found matches Scanned::Value(v) ==> v <= max,
{
    let ghost all = events.deep_view();
    let mut found = Scanned::Missing;
    let mut i: usize = 0;
    let ghost mut seen: Seq<AttributeView> = Seq::empty();
    assert(all.subrange(0, 0) =~= Seq::<EventView>::empty());
    while i < events.len()
        invariant
            i <= events.len(),
            all == events.deep_view(),
            seen == all_attributes(all.subrange(0, i as int)),
            found == scan_spec(seen, key@, max as nat),
            found != Scanned::Malformed,
            found matches Scanned::Value(v) ==> v <= max,
        decreases events.len() - i,
    {
        let attributes = &events[i].attributes;
        let ghost here = attributes.deep_view();
        let ghost before = seen;
        let mut j: usize = 0;
        assert(here.subrange(0, 0) =~= Seq::<AttributeView>::empty());
        assert(before + here.subrange(0, 0) =~= before);
        while j < attributes.len()
            invariant
                j <= attributes.len(),
                i < events.len(),
                all == events.deep_view(),
                here == attributes.deep_view(),
                here == all[i as int].attributes,
                before == all_attributes(all.subrange(0, i as int)),
                seen == before + here.subrange(0, j as int),
                found == scan_spec(seen, key@, max as nat),
                found != Scanned::Malformed,
                found matches Scanned::Value(v) ==> v <= max,
            decreases attributes.len() - j,
        {
            let a = &attributes[j];
            let ghost next = seen.push(a.deep_view());
            proof {
                assert(here[j as int] == a.deep_view());
                assert(next =~= before + here.subrange(0, j + 1));
                lemma_last_value_push(seen, a.deep_view(), key@);
                assert forall|k: int| 0 <= k < seen.len() implies #[trigger] next[k]
                    == seen[k] by {}
                assert(next[seen.len() as int] == a.deep_view());
            }
            if same_text(a.key.as_str(), key) {
                match parse_u128(a.value.as_str()) {
                    Some(v) => {
                        if v > max {
                            proof {
                                lemma_attribute_at(all, i as int, j as int);
                            }
                            return Scanned::Malformed;
                        }
                        found = Scanned::Value(v);
                    },
                    None => {
                        proof {
                            lemma_attribute_at(all, i as int, j as int);
                        }
                        return Scanned::Malformed;
                    },
                }
            }
            proof {
                assert(numbers_under(next, key@, max as nat)) by {
                    assert(numbers_under(seen, key@, max as nat));
                    assert forall|k: int|
                        0 <= k < next.len() && (#[trigger] next[k]).key == key@ implies parse_bounded(
                        next[k].value,
                        max as nat,
                    ) is Some by {
                        if k < seen.len() {
                            assert(seen[k].key == key@);
                        }
                    }
                }
                seen = next;
            }
            j = j + 1;
        }
        proof {
            assert(here.subrange(0, j as int) =~= here);
            assert(all.subrange(0, i + 1) =~= all.subrange(0, i as int).push(all[i as int]));
            lemma_all_attributes_push(all.subrange(0, i as int), all[i as int]);
        }
        i = i + 1;
    }
    assert(all.subrange(0, i as int) =~= all);
    found
}

/// Reads the number of 64 bits that must stand under `key`.
pub fn required_u64(events: &Vec<Event>, key: &str) -> (found: Option<u64>)
    ensures
        match required_spec(all_attributes(events.deep_view()), key@, u64::MAX as nat) {
            Some(v) => found == Some(v as u64),
            None => found is None,
        },
{
    match scan_number(events, key, u64::MAX as u128) {
        Scanned::Value(v) => Some(v as u64),
        _ => None,
    }
}

/// Reads the number of 64 bits that may stand under `key`; a missing one is zero.
pub fn optional_u64(events: &Vec<Event>, key: &str) -> (found: Option<u64>)
    ensures
        match optional_spec(all_attributes(events.deep_view()), key@, u64::MAX as nat) {
            Some(v) => found == Some(v as u64),
            None => found is None,
        },
{
    match scan_number(events, key, u64::MAX as u128) {
        Scanned::Value(v) => Some(v as u64),
        Scanned::Missing => Some(0),
        Scanned::Malformed => None,
    }
}

/// Reads the number of 128 bits that must stand under `key`.
pub fn required_u128(events: &Vec<Event>, key: &str) -> (found: Option<u128>)
    ensures
        match required_spec(all_attributes(events.deep_view()), key@, u128::MAX as nat) {
            Some(v) => found == Some(v as u128),
            None => found is None,
        },
{
    match scan_number(events, key, u128::MAX) {
        Scanned::Value(v) => Some(v),
        _ => None,
    }
}

/// Reads the percentage that must stand under `key`: a number of at most 100.
pub fn required_percentage(events: &Vec<Event>, key: &str) -> (found: Option<u16>)
    ensures
        match required_spec(all_attributes(events.deep_view()), key@, 100) {
            Some(v) => found == Some(v as u16),
            None => found is None,
        },
        found matches Some(p) ==> p <= 100,
{
    match scan_number(events, key, 100) {
        Scanned::Value(v) => Some(v as u16),
        _ => None,
    }
}

/// The text that `events` report under `key`: the value of the last attribute with the key.
pub fn last_text(events: &Vec<Event>, key: &str) -> (found: Option<String>)
    ensures
        found.deep_view() == last_value(all_attributes(events.deep_view()), key@),
{
    let ghost all = events.deep_view();
    let mut found: Option<String> = None;
    let mut i: usize = 0;
    let ghost mut seen: Seq<AttributeView> = Seq::empty();
    assert(all.subrange(0, 0) =~= Seq::<EventView>::empty());
    while i < events.len()
        invariant
            i <= events.len(),
            all == events.deep_view(),
            seen == all_attributes(all.subrange(0, i as int)),
            found.deep_view() == last_value(seen, key@),
        decreases events.len() - i,
    {
        let attributes = &events[i].attributes;
        let ghost here = attributes.deep_view();
        let ghost before = seen;
        let mut j: usize = 0;
        assert(before + here.subrange(0, 0) =~= before);
        while j < attributes.len()
            invariant
                j <= attributes.len(),
                here == attributes.deep_view(),
                seen == before + here.subrange(0, j as int),
                found.deep_view() == last_value(seen, key@),
            decreases attributes.len() - j,
        {
            let a = &attributes[j];
            proof {
                assert(here[j as int] == a.deep_view());
                assert(seen.push(a.deep_view()) =~= before + here.subrange(0, j + 1));
                lemma_last_value_push(seen, a.deep_view(), key@);
                seen = seen.push(a.deep_view());
            }
            if same_text(a.key.as_str(), key) {
                found = Some(a.value.clone());
            }
            j = j + 1;
        }
        proof {
            assert(here.subrange(0, j as int) =~= here);
            assert(all.subrange(0, i + 1) =~= all.subrange(0, i as int).push(all[i as int]));
            lemma_all_attributes_push(all.subrange(0, i as int), all[i as int]);
        }
        i = i + 1;
    }
    assert(all.subrange(0, i as int) =~= all);
    found
}

} // verus!
