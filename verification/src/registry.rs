//! The registry: the controls of one processor, found by their identifier.

use crate::parameter::PropInfo;
use std::collections::HashMap;
use vstd::prelude::*;

verus! {

broadcast use vstd::std_specs::hash::group_hash_axioms;

/// The identifier that a signed index stands for: its 32 bits read as an unsigned number.
pub open spec fn key_of(index: i32) -> u32 {
    index as u32
}

/// A signed index that is not negative stands for the identifier of the same value; a negative
/// one stands for the identifier 2^32 above it, so that -1 stands for 4294967295.
pub proof fn lemma_key_of(index: i32)
    ensures
        index >= 0 ==> key_of(index) == index,
        index < 0 ==> key_of(index) == index + 0x1_0000_0000,
{
    assert(index >= 0 ==> index as u32 == index) by (bit_vector);
    assert(index < 0 ==> index as u32 == index + 0x1_0000_0000) by (bit_vector);
}

/// `HashMap::get_mut` for a map keyed by `u32`: it hands out the value stored under `k`, if
/// there is one, and whatever the caller then writes through the reference replaces that value
/// and nothing else in the map.
#[verifier::external_body]
fn map_get_mut<'m, V>(m: &'m mut HashMap<u32, V>, k: u32) -> (found: Option<&'m mut V>)
    ensures
        match found {
            Some(v) => {
                &&& old(m)@.contains_key(k)
                &&& *v == old(m)@[k]
                &&& final(m)@ == old(m)@.insert(k, *final(v))
            },
            None => !old(m)@.contains_key(k) && final(m)@ == old(m)@,
        },
{
    m.get_mut(&k)
}

/// The controls of a processor of type `P`, each under its identifier.
#[verifier::reject_recursive_types(T)]
#[verifier::reject_recursive_types(P)]
pub struct PropStorage<'a, T: Copy, P, ToN: Fn(T) -> T, FromN: Fn(T) -> T, C: Fn(&mut P)> {
    properties: HashMap<u32, PropInfo<'a, T, P, ToN, FromN, C>>,
}

impl<'a, T: Copy, P, ToN: Fn(T) -> T, FromN: Fn(T) -> T, C: Fn(&mut P)> View for PropStorage<
    'a,
    T,
    P,
    ToN,
    FromN,
    C,
> {
    type V = Map<u32, PropInfo<'a, T, P, ToN, FromN, C>>;

    closed spec fn view(&self) -> Map<u32, PropInfo<'a, T, P, ToN, FromN, C>> {
        self.properties@
    }
}

impl<'a, T: Copy, P, ToN: Fn(T) -> T, FromN: Fn(T) -> T, C: Fn(&mut P)> PropStorage<
    'a,
    T,
    P,
    ToN,
    FromN,
    C,
> {
    /// The engineering value that a lookup of `id` gives: that of the control registered under
    /// `id`, or `zero` where there is none.
    pub open spec fn value_of(self, id: u32, zero: T) -> T {
        if self@.contains_key(id) {
            self@[id]@.value
        } else {
            zero
        }
    }

    /// `self` is `before` after a control built from these arguments was registered under
    /// `index`: that control stands under `index`, in place of what stood there, and every
    /// other entry is as it was.
    pub open spec fn registered(
        self,
        before: Self,
        index: u32,
        min: T,
        max: T,
        default: T,
        caption: Seq<char>,
        measure: Seq<char>,
        to_normal: ToN,
        from_normal: FromN,
        callback: C,
    ) -> bool {
        &&& self@.contains_key(index)
        &&& self@ == before@.insert(index, self@[index])
        &&& self@[index]@.fresh(
            index,
            min,
            max,
            default,
            caption,
            measure,
            to_normal,
            from_normal,
            callback,
        )
    }

    /// Right after a control is registered under `index`, a lookup of `index` gives the
    /// control's default, the control's normalized value is a result of `to_normal` on the
    /// default, and a lookup of any other identifier gives what it gave before.
    pub proof fn lemma_registered_reads_default(
        self,
        before: Self,
        index: u32,
        min: T,
        max: T,
        default: T,
        caption: Seq<char>,
        measure: Seq<char>,
        to_normal: ToN,
        from_normal: FromN,
        callback: C,
        zero: T,
    )
        requires
            self.registered(
                before,
                index,
                min,
                max,
                default,
                caption,
                measure,
                to_normal,
                from_normal,
                callback,
            ),
        ensures
            self.value_of(index, zero) == default,
            call_ensures(to_normal, (default,), self@[index]@.norm_value),
            self@.dom() == before@.dom().insert(index),
            forall|other: u32|
                other != index ==> self.value_of(other, zero) == before.value_of(other, zero),
    {
    }

    /// Registering a control under an identifier that was not registered adds one to the
    /// number of controls; registering under one that was leaves the number as it is.
    pub proof fn lemma_registered_counts(
        self,
        before: Self,
        index: u32,
        min: T,
        max: T,
        default: T,
        caption: Seq<char>,
        measure: Seq<char>,
        to_normal: ToN,
        from_normal: FromN,
        callback: C,
    )
        requires
            before@.dom().finite(),
            self.registered(
                before,
                index,
                min,
                max,
                default,
                caption,
                measure,
                to_normal,
                from_normal,
                callback,
            ),
        ensures
            self@.dom().finite(),
            before@.contains_key(index) ==> self@.len() == before@.len(),
            !before@.contains_key(index) ==> self@.len() == before@.len() + 1,
    {
    }

    /// A lookup of an identifier under which nothing is registered gives `zero`.
    pub proof fn lemma_unknown_id_reads_zero(self, id: u32, zero: T)
        requires
            !self@.contains_key(id),
        ensures
            self.value_of(id, zero) == zero,
    {
    }

    /// After the control registered under `id` was set from `norm`, that control holds `norm`
    /// on the normalized scale, a lookup of `id` gives a result of the control's `from_normal`
    /// on `norm`, the same identifiers are registered as before, and a lookup of any other
    /// identifier gives what it gave before.
    pub proof fn lemma_set_reads_back(self, before: Self, id: u32, norm: T, zero: T)
        requires
            before@.contains_key(id),
            self@ == before@.insert(id, self@[id]),
            self@[id]@.set_from(before@[id]@, norm),
        ensures
            self@[id]@.norm_value == norm,
            call_ensures(before@[id]@.from_normal, (norm,), self.value_of(id, zero)),
            self@.dom() == before@.dom(),
            forall|other: u32|
                other != id ==> self.value_of(other, zero) == before.value_of(other, zero),
    {
    }

    /// An empty registry.
    pub fn new() -> (storage: Self)
        ensures
            storage@ == Map::<u32, PropInfo<'a, T, P, ToN, FromN, C>>::empty(),
    {
        PropStorage { properties: HashMap::new() }
    }

    /// The number of registered controls.
    pub fn len(&self) -> (count: usize)
        ensures
            count == self@.len(),
            self@.dom().finite(),
    {
        self.properties.len()
    }

    /// Registers a control under `index`, built from the range, the default, the display
    /// strings, the two directions of its normalization strategy and its callback. A control
    /// that was registered under `index` before is replaced. The range is not checked.
    ///
    /// The strategy has to accept the default in `to_normal` and every value in `from_normal`,
    /// and the callback every processor.
    pub fn add_prop(
        &mut self,
        index: u32,
        min: T,
        max: T,
        default: T,
        caption: &'a str,
        measure: &'a str,
        to_normal: ToN,
        from_normal: FromN,
        callback: C,
    )
        requires
            call_requires(to_normal, (default,)),
            forall|norm: T| call_requires(from_normal, (norm,)),
            forall|processor: &mut P| call_requires(callback, (processor,)),
        ensures
            final(self).registered(
                *old(self),
                index,
                min,
                max,
                default,
                caption@,
                measure@,
                to_normal,
                from_normal,
                callback,
            ),
    {
        let info = PropInfo::new(
            index,
            min,
            max,
            default,
            caption,
            measure,
            to_normal,
            from_normal,
            callback,
        );
        self.properties.insert(index, info);
    }

    /// The current engineering value of the control registered under `i`, or `zero` if there
    /// is none.
    pub fn get_value(&self, i: u32, zero: T) -> (value: T)
        ensures
            value == self.value_of(i, zero),
    {
        match self.properties.get(&i) {
            Some(info) => info.get_value(),
            None => zero,
        }
    }

    /// The control registered under the identifier that `index` stands for, if there is one.
    pub fn get_propinfo(&self, index: i32) -> (found: Option<&PropInfo<'a, T, P, ToN, FromN, C>>)
        ensures
            match found {
                Some(info) => self@.contains_key(key_of(index)) && *info == self@[key_of(index)],
                None => !self@.contains_key(key_of(index)),
            },
    {
        let i: u32 = index as u32;
        self.properties.get(&i)
    }

    /// The control registered under the identifier that `index` stands for, if there is one, for
    /// writing. What the caller leaves behind the reference is what the registry then holds
    /// under that identifier; no other entry changes.
    pub fn get_mut_propinfo(&mut self, index: i32) -> (found: Option<
        &mut PropInfo<'a, T, P, ToN, FromN, C>,
    >)
        ensures
            match found {
                Some(info) => {
                    &&& old(self)@.contains_key(key_of(index))
                    &&& *info == old(self)@[key_of(index)]
                    &&& final(self)@ == old(self)@.insert(key_of(index), *final(info))
                },
                None => !old(self)@.contains_key(key_of(index)) && final(self)@ == old(self)@,
            },
    {
        let i: u32 = index as u32;
        map_get_mut(&mut self.properties, i)
    }
}

impl<'a, T: Copy, P, ToN: Fn(T) -> T, FromN: Fn(T) -> T, C: Fn(&mut P)> Default for PropStorage<
    'a,
    T,
    P,
    ToN,
    FromN,
    C,
> {
    /// An empty registry.
    fn default() -> (storage: Self)
        ensures
            storage@ == Map::<u32, PropInfo<'a, T, P, ToN, FromN, C>>::empty(),
    {
        PropStorage::new()
    }
}

} // verus!
