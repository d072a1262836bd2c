//! The field map: the fields of one message by tag, and the order in which
//! they are enumerated.

use std::collections::HashMap;
use vstd::prelude::*;
use vstd::utf8::{decode_utf8, encode_utf8, valid_utf8};
use crate::calendar::{strftime_text, CalendarTime};
use crate::decimal::{parse_i32, render_i32};
use crate::error::{bad_format_reject, missing_field_reject, MessageRejectError, RejectView};
use crate::field::{FieldInterface, FieldValueReader, FieldValueWriter};
use crate::fix_boolean::bool_text;
use crate::fix_utc_timestamp::{layout, timestamp_of, FIXUTCTimestamp};
use crate::tag_value::{encode, TagValue, TagValueView};

verus! {

/// One slot of a field map: a single tag-value pair.
pub struct Field {
    field: Vec<TagValue>,
}

impl View for Field {
    type V = TagValueView;

    closed spec fn view(&self) -> TagValueView {
        self.field@[0]@
    }
}

impl Field {
    #[verifier::type_invariant]
    spec fn one_pair(self) -> bool {
        self.field@.len() == 1
    }

    /// A field that holds the unset pair.
    pub fn new() -> (f: Field)
        ensures
            f@ == TagValue::spec_empty(),
    {
        Field { field: vec![TagValue::empty()] }
    }

    /// A field that holds the pair `tag_value`.
    pub fn with_tag_value(tag_value: TagValue) -> (f: Field)
        ensures
            f@ == tag_value@,
    {
        Field { field: vec![tag_value] }
    }

    /// The tag of the pair that the field holds.
    pub fn field_tag(&self) -> (tag: u32)
        ensures
            tag == self@.tag,
    {
        proof {
            use_type_invariant(self);
        }
        self.field[0].tag()
    }

    /// The pair that the field holds.
    pub fn tag_value(&self) -> (tag_value: &TagValue)
        ensures
            tag_value@ == self@,
    {
        proof {
            use_type_invariant(self);
        }
        &self.field[0]
    }

    /// Makes the field hold `tag` and `value`, with their byte form.
    pub fn init_field(&mut self, tag: u32, value: &[u8])
        ensures
            final(self)@ == written_pair(tag, value@),
    {
        self.field = vec![TagValue::new(tag, value)];
    }
}

/// The pair that setting `tag` to `value` stores.
pub open spec fn written_pair(tag: u32, value: Seq<u8>) -> TagValueView {
    TagValueView { tag, value, bytes: encode(tag, value) }
}

/// An ordering policy for tags: which of two tags is enumerated first.
pub trait TagOrder {
    /// Whether `i` goes before `j`.
    spec fn precedes(&self, i: u32, j: u32) -> bool;

    fn less(&self, i: u32, j: u32) -> (r: bool)
        ensures
            r == self.precedes(i, j),
    ;
}

/// The default policy: ascending tag numbers.
pub struct NormalFieldOrder;

impl TagOrder for NormalFieldOrder {
    open spec fn precedes(&self, i: u32, j: u32) -> bool {
        i < j
    }

    fn less(&self, i: u32, j: u32) -> (r: bool) {
        FieldMap::normal_field_order(i, j)
    }
}

/// The tags of a field map in the order of enumeration, with the policy that
/// sorts them.
pub struct TagSort<O: TagOrder> {
    tags: Vec<u32>,
    compare: O,
}

/// The ordering policy that `ordering` stands for: whether a tag goes before
/// another.
pub open spec fn policy_of<O: TagOrder>(ordering: O) -> spec_fn(u32, u32) -> bool {
    |i: u32, j: u32| ordering.precedes(i, j)
}

/// The default ordering policy.
pub open spec fn ascending() -> spec_fn(u32, u32) -> bool {
    |i: u32, j: u32| i < j
}

/// Whether `less` is a strict weak order: no two tags go before each other,
/// and where neither `j` goes before `i` nor `k` before `j`, `k` does not go
/// before `i`.
pub open spec fn is_strict_weak_order(less: spec_fn(u32, u32) -> bool) -> bool {
    &&& forall|i: u32, j: u32| #[trigger] less(i, j) ==> !less(j, i)
    &&& forall|i: u32, j: u32, k: u32|
        !#[trigger] less(j, i) && !#[trigger] less(k, j) ==> !less(k, i)
}

/// Whether no tag of `order` stands behind one that it goes before.
pub open spec fn sorted_by(order: Seq<u32>, less: spec_fn(u32, u32) -> bool) -> bool {
    forall|a: int, b: int| 0 <= a < b < order.len() ==> !less(#[trigger] order[b], #[trigger] order[a])
}

/// `order` with the tags at `i` and `j` exchanged.
pub open spec fn swapped(order: Seq<u32>, i: int, j: int) -> Seq<u32> {
    order.update(i, order[j]).update(j, order[i])
}

/// Exchanging two tags keeps the tags that a sequence holds, each as often
/// as before.
pub proof fn lemma_swapped_multiset(order: Seq<u32>, i: int, j: int)
    requires
        0 <= i < order.len(),
        0 <= j < order.len(),
    ensures
        swapped(order, i, j).to_multiset() == order.to_multiset(),
{
    broadcast use vstd::multiset::group_multiset_axioms;

    vstd::seq_lib::to_multiset_update(order, i, order[j]);
    vstd::seq_lib::to_multiset_update(order.update(i, order[j]), j, order[i]);
    vstd::seq_lib::to_multiset_contains(order, order[i]);
    vstd::seq_lib::to_multiset_contains(order, order[j]);
}

/// Two sequences that hold the same tags, each as often, hold the same set
/// of tags, and one is free of duplicates where the other is.
pub proof fn lemma_same_tags(a: Seq<u32>, b: Seq<u32>)
    requires
        a.to_multiset() == b.to_multiset(),
    ensures
        a.to_set() == b.to_set(),
        a.len() == b.len(),
        a.no_duplicates() ==> b.no_duplicates(),
{
    broadcast use vstd::multiset::group_multiset_axioms;

    assert forall|t: u32| a.to_set().contains(t) <==> b.to_set().contains(t) by {
        vstd::seq_lib::to_multiset_contains(a, t);
        vstd::seq_lib::to_multiset_contains(b, t);
    }
    vstd::seq_lib::to_multiset_len(a);
    vstd::seq_lib::to_multiset_len(b);
    if a.no_duplicates() {
        a.lemma_multiset_has_no_duplicates();
        b.lemma_multiset_has_no_duplicates_conv();
    }
}

/// Whether the tags of `order` up to `hi`, the one at `j` left out, stand in
/// the order of `less`, and the one at `j` goes before all that follow it.
spec fn sorted_around(order: Seq<u32>, less: spec_fn(u32, u32) -> bool, hi: int, j: int) -> bool {
    &&& forall|a: int, b: int|
        0 <= a < b <= hi && a != j && b != j ==> !less(#[trigger] order[b], #[trigger] order[a])
    &&& forall|b: int| j < b <= hi ==> less(order[j], #[trigger] order[b])
}

impl<O: TagOrder> TagSort<O> {
    /// The tags, first to last.
    pub closed spec fn order(&self) -> Seq<u32> {
        self.tags@
    }

    /// The ordering policy: whether a tag goes before another.
    pub closed spec fn policy(&self) -> spec_fn(u32, u32) -> bool {
        policy_of(self.compare)
    }

    /// The tags `tags` in the order given, to be sorted by `compare`.
    pub fn new(tags: Vec<u32>, compare: O) -> (sorter: TagSort<O>)
        ensures
            sorter.order() == tags@,
            sorter.policy() == policy_of(compare),
    {
        TagSort { tags, compare }
    }

    /// The tags, first to last.
    pub fn tags(&self) -> (tags: &[u32])
        ensures
            tags@ == self.order(),
    {
        self.tags.as_slice()
    }

    /// How many tags there are.
    pub fn len(&self) -> (n: usize)
        ensures
            n == self.order().len(),
    {
        self.tags.len()
    }

    /// Exchanges the tags at `i` and `j`.
    pub fn swap(&mut self, i: usize, j: usize)
        requires
            i < old(self).order().len(),
            j < old(self).order().len(),
        ensures
            final(self).order() == swapped(old(self).order(), i as int, j as int),
            final(self).policy() == old(self).policy(),
    {
        let tmp = self.tags[i];
        let other = self.tags[j];
        self.tags.set(i, other);
        self.tags.set(j, tmp);
    }

    /// Whether the policy puts the tag at `i` before the tag at `j`.
    pub fn less(&self, i: usize, j: usize) -> (r: bool)
        requires
            i < self.order().len(),
            j < self.order().len(),
        ensures
            r == (self.policy())(self.order()[i as int], self.order()[j as int]),
    {
        self.compare.less(self.tags[i], self.tags[j])
    }

    /// Puts the tags in the order of the policy. The tags stay the same; they
    /// end up sorted where the policy is a strict weak order.
    pub fn sort(&mut self)
        ensures
            final(self).order().to_multiset() == old(self).order().to_multiset(),
            final(self).policy() == old(self).policy(),
            is_strict_weak_order(old(self).policy()) ==> sorted_by(
                final(self).order(),
                old(self).policy(),
            ),
    {
        let n = self.len();
        let ghost less = self.policy();
        if n < 2 {
            return ;
        }
        let mut i: usize = 1;
        while i < n
            invariant
                1 <= i <= n,
                n == self.order().len(),
                self.policy() == less,
                self.order().to_multiset() == old(self).order().to_multiset(),
                is_strict_weak_order(less) ==> sorted_by(self.order().take(i as int), less),
            decreases n - i,
        {
            let mut j: usize = i;
            proof {
                if is_strict_weak_order(less) {
                    let order = self.order();
                    assert forall|a: int, b: int| 0 <= a < b <= i && a != j && b != j implies !less(
                        #[trigger] order[b],
                        #[trigger] order[a],
                    ) by {
                        assert(order.take(i as int)[a] == order[a]);
                        assert(order.take(i as int)[b] == order[b]);
                    }
                }
            }
            while j > 0 && self.less(j, j - 1)
                invariant
                    j <= i < n,
                    n == self.order().len(),
                    self.policy() == less,
                    self.order().to_multiset() == old(self).order().to_multiset(),
                    is_strict_weak_order(less) ==> sorted_around(self.order(), less, i as int, j as int),
                decreases j,
            {
                let ghost before = self.order();
                self.swap(j, j - 1);
                proof {
                    lemma_swapped_multiset(before, j as int, j - 1);
                    if is_strict_weak_order(less) {
                        let order = self.order();
                        assert forall|a: int, b: int|
                            0 <= a < b <= i && a != j - 1 && b != j - 1 implies !less(
                            #[trigger] order[b],
                            #[trigger] order[a],
                        ) by {
                            let pa = if a == j { j - 1 } else { a };
                            let pb = if b == j { j - 1 } else { b };
                            assert(order[a] == before[pa]);
                            assert(order[b] == before[pb]);
                        }
                        assert forall|b: int| j - 1 < b <= i implies less(
                            order[j - 1],
                            #[trigger] order[b],
                        ) by {
                            if b > j {
                                assert(order[b] == before[b]);
                            }
                        }
                    }
                }
                j = j - 1;
            }
            proof {
                if is_strict_weak_order(less) {
                    let order = self.order();
                    assert forall|a: int, b: int| 0 <= a < b < i + 1 implies !less(
                        #[trigger] order.take(i + 1)[b],
                        #[trigger] order.take(i + 1)[a],
                    ) by {
                        if b == j {
                            if a != j - 1 {
                                assert(!less(order[j - 1], order[a]));
                            }
                            assert(!less(order[j as int], order[j - 1]));
                        } else if a == j {
                            assert(less(order[j as int], order[b]));
                        }
                    }
                }
            }
            i = i + 1;
        }
        assert(self.order().take(n as int) =~= self.order());
    }
}

/// What a field map holds: the pair stored under each tag, and the tags in
/// the order of enumeration.
pub struct FieldMapView {
    pub fields: Map<u32, TagValueView>,
    pub order: Seq<u32>,
}

impl FieldMapView {
    /// The invariant of a field map: the order names each stored tag once
    /// and no other tag.
    pub open spec fn wf(self) -> bool {
        &&& self.order.no_duplicates()
        &&& self.order.to_set() == self.fields.dom()
    }

    /// The map once `pair` is stored under `tag`: a new tag goes to the end
    /// of the order, a known one keeps its place.
    pub open spec fn store(self, tag: u32, pair: TagValueView) -> FieldMapView {
        FieldMapView {
            fields: self.fields.insert(tag, pair),
            order: if self.fields.contains_key(tag) {
                self.order
            } else {
                self.order.push(tag)
            },
        }
    }
}

/// Storing a pair keeps the invariant.
pub proof fn lemma_store_wf(m: FieldMapView, tag: u32, pair: TagValueView)
    requires
        m.wf(),
    ensures
        m.store(tag, pair).wf(),
{
    let n = m.store(tag, pair);
    if m.fields.contains_key(tag) {
        assert(n.fields.dom() =~= m.fields.dom());
    } else {
        assert forall|t: u32| n.order.to_set().contains(t) <==> n.fields.dom().contains(t) by {
            if n.fields.dom().contains(t) {
                if t == tag {
                    assert(n.order[m.order.len() as int] == t);
                } else {
                    let i = choose|i: int| 0 <= i < m.order.len() && m.order[i] == t;
                    assert(n.order[i] == t);
                }
            }
        }
        assert(n.order.to_set() =~= n.fields.dom());
    }
}

/// Storing two pairs under one tag leaves one entry for the tag, which holds
/// the second pair, at the place that the first store gave it.
pub proof fn lemma_store_twice(m: FieldMapView, tag: u32, first: TagValueView, second: TagValueView)
    requires
        m.wf(),
    ensures
        ({
            let once = m.store(tag, first);
            let twice = once.store(tag, second);
            &&& twice.wf()
            &&& twice.fields[tag] == second
            &&& twice.fields.dom() == m.fields.dom().insert(tag)
            &&& twice.order == once.order
            &&& twice.order.to_multiset().count(tag) == 1
        }),
{
    let once = m.store(tag, first);
    let twice = once.store(tag, second);
    lemma_store_wf(m, tag, first);
    lemma_store_wf(once, tag, second);
    vstd::seq_lib::to_multiset_contains(twice.order, tag);
    twice.order.lemma_multiset_has_no_duplicates();
}

/// The fields of one message: the stored pairs by tag, the tags in the order
/// of enumeration, and the ordering policy `O` that sorts them.
pub struct FieldMap<O: TagOrder = NormalFieldOrder> {
    tag_lookup: HashMap<u32, Field>,
    tag_sort: TagSort<O>,
}

impl<O: TagOrder> View for FieldMap<O> {
    type V = FieldMapView;

    closed spec fn view(&self) -> FieldMapView {
        FieldMapView { fields: pairs(self.tag_lookup@), order: self.tag_sort.order() }
    }
}

/// The pair that each field of `lookup` holds.
spec fn pairs(lookup: Map<u32, Field>) -> Map<u32, TagValueView> {
    Map::new(|k: u32| lookup.contains_key(k), |k: u32| lookup[k]@)
}

/// Putting a field into the lookup stores its pair.
proof fn lemma_pairs_insert(lookup: Map<u32, Field>, tag: u32, f: Field)
    ensures
        pairs(lookup.insert(tag, f)) == pairs(lookup).insert(tag, f@),
{
}

impl FieldMap<NormalFieldOrder> {
    /// Ascending tags.
    pub fn normal_field_order(i: u32, j: u32) -> (r: bool)
        ensures
            r == (i < j),
    {
        i < j
    }

    /// An empty map with the default ordering policy.
    pub fn new() -> (m: FieldMap)
        ensures
            m@.fields == Map::<u32, TagValueView>::empty(),
            m@.order == Seq::<u32>::empty(),
            m.wf(),
            m.policy() == ascending(),
    {
        let m = FieldMap {
            tag_lookup: HashMap::new(),
            tag_sort: TagSort::new(Vec::new(), NormalFieldOrder),
        };
        assert(m@.order.to_set() =~= m@.fields.dom());
        m
    }

    /// Makes the map use the default ordering policy, ascending tags, and
    /// puts the stored tags in that order.
    pub fn init(&mut self)
        requires
            old(self).wf(),
        ensures
            final(self)@.fields == old(self)@.fields,
            final(self)@.order.to_multiset() == old(self)@.order.to_multiset(),
            final(self)@.order.to_set() == old(self)@.order.to_set(),
            final(self).wf(),
            final(self).policy() == ascending(),
            sorted_by(final(self)@.order, final(self).policy()),
    {
        self.init_with_ordering(NormalFieldOrder);
    }
}

impl<O: TagOrder> FieldMap<O> {
    /// An empty map that enumerates its tags by the policy `ordering`.
    pub fn with_ordering(ordering: O) -> (m: FieldMap<O>)
        ensures
            m@.fields == Map::<u32, TagValueView>::empty(),
            m@.order == Seq::<u32>::empty(),
            m.wf(),
            m.policy() == policy_of(ordering),
    {
        let m = FieldMap {
            tag_lookup: HashMap::new(),
            tag_sort: TagSort::new(Vec::new(), ordering),
        };
        assert(m@.order.to_set() =~= m@.fields.dom());
        m
    }

    /// Whether the map keeps its invariant.
    pub open spec fn wf(&self) -> bool {
        self@.wf()
    }

    /// The ordering policy of the map: whether a tag goes before another.
    pub closed spec fn policy(&self) -> spec_fn(u32, u32) -> bool {
        self.tag_sort.policy()
    }

    /// The field stored under `tag`, if there is one.
    pub fn lookup_field(&self, tag: u32) -> (r: Option<&Field>)
        ensures
            match r {
                Some(f) => self@.fields.contains_key(tag) && f@ == self@.fields[tag],
                None => !self@.fields.contains_key(tag),
            },
    {
        broadcast use vstd::std_specs::hash::group_hash_axioms;

        self.tag_lookup.get(&tag)
    }

    /// Stores `f` under its own tag. A new tag goes to the end of the order;
    /// a field already stored under the tag is replaced and keeps its place.
    pub fn add(&mut self, f: Field)
        requires
            old(self).wf(),
        ensures
            final(self)@ == old(self)@.store(f@.tag, f@),
            final(self).wf(),
            final(self).policy() == old(self).policy(),
    {
        broadcast use vstd::std_specs::hash::group_hash_axioms;

        let tag = f.field_tag();
        proof {
            lemma_store_wf(self@, tag, f@);
        }
        if !self.tag_lookup.contains_key(&tag) {
            self.tag_sort.tags.push(tag);
        }
        self.tag_lookup.insert(tag, f);
        assert(self@.fields =~= old(self)@.store(tag, f@).fields);
    }

    /// The field stored under `tag`, to be changed in place. Where there is
    /// none, an unset field is stored under `tag` first, at the end of the
    /// order.
    pub fn get_or_create(&mut self, tag: u32) -> (f: &mut Field)
        requires
            old(self).wf(),
        ensures
            f@ == (if old(self)@.fields.contains_key(tag) {
                old(self)@.fields[tag]
            } else {
                TagValue::spec_empty()
            }),
            final(self)@ == old(self)@.store(tag, final(f)@),
            final(self).wf(),
            final(self).policy() == old(self).policy(),
    {
        broadcast use vstd::std_specs::hash::group_hash_axioms;

        if !self.tag_lookup.contains_key(&tag) {
            self.tag_lookup.insert(tag, Field::new());
            self.tag_sort.tags.push(tag);
        }
        let ghost lookup = self.tag_lookup@;
        proof {
            assert forall|v: Field| #[trigger]
                pairs(lookup.insert(tag, v)) == old(self)@.store(tag, v@).fields && old(
                    self,
                )@.store(tag, v@).wf() by {
                lemma_pairs_insert(lookup, tag, v);
                lemma_store_wf(old(self)@, tag, v@);
            }
        }
        self.tag_lookup.entry(tag).or_insert(Field::new())
    }

    /// Makes the map use the ordering policy `ordering` and puts the stored
    /// tags in its order. The stored fields stay as they are.
    pub fn init_with_ordering(&mut self, ordering: O)
        requires
            old(self).wf(),
        ensures
            final(self)@.fields == old(self)@.fields,
            final(self)@.order.to_multiset() == old(self)@.order.to_multiset(),
            final(self)@.order.to_set() == old(self)@.order.to_set(),
            final(self).wf(),
            final(self).policy() == policy_of(ordering),
            is_strict_weak_order(final(self).policy()) ==> sorted_by(
                final(self)@.order,
                final(self).policy(),
            ),
    {
        self.tag_sort.compare = ordering;
        self.tag_sort.sort();
        proof {
            lemma_same_tags(old(self)@.order, self@.order);
        }
    }

    /// The stored fields, in the order of the maintained tag sequence.
    pub fn tags(&self) -> (fields: Vec<&Field>)
        requires
            self.wf(),
        ensures
            fields@.len() == self@.order.len(),
            forall|i: int|
                0 <= i < fields@.len() ==> (#[trigger] fields@[i])@ == self@.fields[self@.order[i]],
    {
        broadcast use vstd::std_specs::hash::group_hash_axioms;

        let mut fields: Vec<&Field> = Vec::new();
        let n = self.tag_sort.len();
        let mut i: usize = 0;
        while i < n
            invariant
                self.wf(),
                n == self@.order.len(),
                i <= n,
                fields@.len() == i,
                forall|k: int|
                    0 <= k < i ==> (#[trigger] fields@[k])@ == self@.fields[self@.order[k]],
            decreases n - i,
        {
            let tag = self.tag_sort.tags[i];
            assert(self@.order.to_set().contains(tag));
            match self.tag_lookup.get(&tag) {
                Some(field) => {
                    fields.push(field);
                },
                None => {
                    assert(false);
                },
            }
            i = i + 1;
        }
        fields
    }

    /// Reads the value stored under `tag` into `parser`. The reject tells
    /// whether the field is not there or `parser` cannot read its value; what
    /// `parser` reports of a value it cannot read is dropped.
    pub fn get_field<T: FieldValueReader>(&self, tag: u32, parser: &mut T) -> (r: Result<
        (),
        MessageRejectError,
    >)
        ensures
            match r {
                Ok(_) => {
                    &&& self@.fields.contains_key(tag)
                    &&& old(parser).accepts(self@.fields[tag].value)
                    &&& old(parser).holds_read(self@.fields[tag].value, final(parser))
                },
                Err(e) => Some(e@) == reject_for(
                    self@,
                    tag,
                    old(parser).accepts(self@.fields[tag].value),
                ),
            },
            !self@.fields.contains_key(tag) ==> *final(parser) == *old(parser),
    {
        let field = match self.lookup_field(tag) {
            Some(f) => f,
            None => {
                return Err(MessageRejectError::conditionally_required_field_missing(tag));
            },
        };
        match parser.read(field.tag_value().value()) {
            Err(_) => Err(MessageRejectError::incorrect_data_format_for_value(tag)),
            _ => Ok(()),
        }
    }

    /// The undecoded value stored under `tag`.
    pub fn get_bytes(&self, tag: u32) -> (r: Result<&[u8], MessageRejectError>)
        ensures
            match r {
                Ok(bytes) => self@.fields.contains_key(tag) && bytes@ == self@.fields[tag].value,
                Err(e) => Some(e@) == reject_for(self@, tag, true),
            },
    {
        match self.lookup_field(tag) {
            Some(f) => Ok(f.tag_value().value()),
            None => Err(MessageRejectError::conditionally_required_field_missing(tag)),
        }
    }

    /// Stores under `tag` the bytes that `field` writes.
    pub fn set_field<T: FieldValueWriter>(&mut self, tag: u32, field: T)
        requires
            old(self).wf(),
        ensures
            final(self)@ == old(self)@.store(tag, written_pair(tag, field.written())),
            final(self).wf(),
            final(self).policy() == old(self).policy(),
    {
        let bytes = field.write();
        self.set_bytes(tag, bytes.as_slice())
    }

    /// Stores the bytes `value` under `tag`.
    pub fn set_bytes(&mut self, tag: u32, value: &[u8])
        requires
            old(self).wf(),
        ensures
            final(self)@ == old(self)@.store(tag, written_pair(tag, value@)),
            final(self).wf(),
            final(self).policy() == old(self).policy(),
    {
        let f = self.get_or_create(tag);
        f.init_field(tag, value);
    }

    /// Stores `value` under `tag` as decimal text.
    pub fn set_int(&mut self, tag: u32, value: i32)
        requires
            old(self).wf(),
        ensures
            final(self)@ == old(self)@.store(tag, written_pair(tag, render_i32(value))),
            final(self).wf(),
            final(self).policy() == old(self).policy(),
    {
        let bytes = value.write();
        self.set_bytes(tag, bytes.as_slice());
    }

    /// Stores `value` under `tag` as `Y` or `N`.
    pub fn set_bool(&mut self, tag: u32, value: bool)
        requires
            old(self).wf(),
        ensures
            final(self)@ == old(self)@.store(tag, written_pair(tag, bool_text(value))),
            final(self).wf(),
            final(self).policy() == old(self).policy(),
    {
        let bytes = value.write();
        self.set_bytes(tag, bytes.as_slice());
    }

    /// Stores `value` under `tag` as a timestamp with a fraction of a second.
    pub fn set_time(&mut self, tag: u32, value: CalendarTime)
        requires
            old(self).wf(),
            value.renderable(),
        ensures
            final(self)@ == old(self)@.store(
                tag,
                written_pair(tag, encode_utf8(strftime_text(layout(false), value))),
            ),
            final(self).wf(),
            final(self).policy() == old(self).policy(),
    {
        let bytes = FIXUTCTimestamp::new(value).write();
        self.set_bytes(tag, bytes.as_slice());
    }

    /// Stores the text `value` under `tag`.
    pub fn set_string(&mut self, tag: u32, value: &str)
        requires
            old(self).wf(),
        ensures
            final(self)@ == old(self)@.store(tag, written_pair(tag, encode_utf8(value@))),
            final(self).wf(),
            final(self).policy() == old(self).policy(),
    {
        self.set_bytes(tag, value.as_bytes());
    }

    /// Reads the field that `parser` names into `parser`. The reject tells
    /// whether the field is not there or its value cannot be read.
    pub fn get<T: FieldInterface>(&self, parser: &mut T) -> (r: Result<(), MessageRejectError>)
        ensures
            match r {
                Ok(_) => {
                    &&& self@.fields.contains_key(old(parser).spec_tag())
                    &&& old(parser).accepts(self@.fields[old(parser).spec_tag()].value)
                    &&& old(parser).holds_read(
                        self@.fields[old(parser).spec_tag()].value,
                        final(parser),
                    )
                },
                Err(e) => Some(e@) == reject_for(
                    self@,
                    old(parser).spec_tag(),
                    old(parser).accepts(self@.fields[old(parser).spec_tag()].value),
                ),
            },
            !self@.fields.contains_key(old(parser).spec_tag()) ==> *final(parser) == *old(parser),
    {
        let tag = parser.tag();
        self.get_field(tag, parser)
    }

    /// The value stored under `tag` as text.
    pub fn get_string(&self, tag: u32) -> (r: Result<String, MessageRejectError>)
        ensures
            match r {
                Ok(text) => {
                    &&& self@.fields.contains_key(tag)
                    &&& valid_utf8(self@.fields[tag].value)
                    &&& text@ == decode_utf8(self@.fields[tag].value)
                },
                Err(e) => Some(e@) == reject_for(self@, tag, valid_utf8(self@.fields[tag].value)),
            },
    {
        let mut value = String::new();
        match self.get_field(tag, &mut value) {
            Err(e) => {
                return Err(e);
            },
            _ => {},
        }
        Ok(value)
    }

    /// The value stored under `tag` as a boolean.
    pub fn get_bool(&self, tag: u32) -> (r: Result<bool, MessageRejectError>)
        ensures
            match r {
                Ok(v) => self@.fields.contains_key(tag) && self@.fields[tag].value == bool_text(v),
                Err(e) => Some(e@) == reject_for(
                    self@,
                    tag,
                    self@.fields[tag].value == bool_text(true) || self@.fields[tag].value
                        == bool_text(false),
                ),
            },
    {
        let mut value = false;
        match self.get_field(tag, &mut value) {
            Err(e) => {
                return Err(e);
            },
            _ => {},
        }
        Ok(value)
    }

    /// The value stored under `tag` as an integer.
    pub fn get_int(&self, tag: u32) -> (r: Result<i32, MessageRejectError>)
        ensures
            match r {
                Ok(v) => self@.fields.contains_key(tag) && parse_i32(self@.fields[tag].value)
                    == Some(v),
                Err(e) => Some(e@) == reject_for(
                    self@,
                    tag,
                    parse_i32(self@.fields[tag].value) is Some,
                ),
            },
    {
        let mut value: i32 = 0;
        match self.get_field(tag, &mut value) {
            Err(e) => {
                return Err(e);
            },
            _ => {},
        }
        Ok(value)
    }

    /// The value stored under `tag` as a timestamp.
    pub fn get_time(&self, tag: u32) -> (r: Result<CalendarTime, MessageRejectError>)
        ensures
            match r {
                Ok(time) => {
                    &&& self@.fields.contains_key(tag)
                    &&& valid_utf8(self@.fields[tag].value)
                    &&& timestamp_of(decode_utf8(self@.fields[tag].value)) is Some
                    &&& timestamp_of(decode_utf8(self@.fields[tag].value))->Some_0.time == time
                    &&& time.renderable()
                },
                Err(e) => Some(e@) == reject_for(
                    self@,
                    tag,
                    valid_utf8(self@.fields[tag].value) && timestamp_of(
                        decode_utf8(self@.fields[tag].value),
                    ) is Some,
                ),
            },
    {
        let mut value = FIXUTCTimestamp::empty();
        match self.get_field(tag, &mut value) {
            Err(e) => {
                return Err(e);
            },
            _ => {},
        }
        Ok(value.into())
    }
}

/// The reject that a lookup of `tag` in `m` ends in, where `readable` tells
/// whether the stored value can be read: none where the field is there and
/// readable, else the one for a missing field or for a malformed value.
pub open spec fn reject_for(m: FieldMapView, tag: u32, readable: bool) -> Option<RejectView> {
    if !m.fields.contains_key(tag) {
        Some(missing_field_reject(tag))
    } else if !readable {
        Some(bad_format_reject(tag))
    } else {
        None
    }
}

} // verus!
