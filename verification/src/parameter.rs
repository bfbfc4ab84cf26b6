//! One automatable control: its range, its current value in both representations, its display
//! strings, its normalization strategy and its change callback.

use std::marker::PhantomData;
use vstd::prelude::*;

verus! {

/// What a control holds, with its display strings as sequences of characters.
///
/// `to_normal` and `from_normal` are the two directions of the control's normalization strategy,
/// `callback` is what the control runs on its processor when it is set.
pub struct PropView<T, ToN, FromN, C> {
    pub id: u32,
    pub min: T,
    pub max: T,
    pub default: T,
    pub value: T,
    pub norm_value: T,
    pub caption: Seq<char>,
    pub measure: Seq<char>,
    pub to_normal: ToN,
    pub from_normal: FromN,
    pub callback: C,
}

impl<T, ToN: Fn(T) -> T, FromN: Fn(T) -> T, C> PropView<T, ToN, FromN, C> {
    /// The engineering value and the normalized value belong together under the strategy:
    /// either the control holds its default, and the normalized value is a result of
    /// `to_normal` on it, or the engineering value is a result of `from_normal` on the
    /// normalized one.
    pub open spec fn consistent(self) -> bool {
        ||| self.value == self.default && call_ensures(
            self.to_normal,
            (self.default,),
            self.norm_value,
        )
        ||| call_ensures(self.from_normal, (self.norm_value,), self.value)
    }

    /// The state of a control that was just built from these arguments: it holds its default,
    /// and its normalized value is a result of `to_normal` on the default.
    pub open spec fn fresh(
        self,
        id: u32,
        min: T,
        max: T,
        default: T,
        caption: Seq<char>,
        measure: Seq<char>,
        to_normal: ToN,
        from_normal: FromN,
        callback: C,
    ) -> bool {
        &&& self == (PropView {
            id,
            min,
            max,
            default,
            value: default,
            norm_value: self.norm_value,
            caption,
            measure,
            to_normal,
            from_normal,
            callback,
        })
        &&& call_ensures(to_normal, (default,), self.norm_value)
    }

    /// The state of a control that was in the state `before` and was then set from `norm`: the
    /// normalized value is `norm`, the engineering value is a result of `from_normal` on it,
    /// and nothing else has changed.
    pub open spec fn set_from(self, before: Self, norm: T) -> bool {
        &&& self == (PropView { value: self.value, norm_value: norm, ..before })
        &&& call_ensures(before.from_normal, (norm,), self.value)
    }

    /// A control that was just built reads back its default in engineering units and, on the
    /// normalized scale, a result of `to_normal` on the default.
    pub proof fn lemma_fresh_holds_default(
        self,
        id: u32,
        min: T,
        max: T,
        default: T,
        caption: Seq<char>,
        measure: Seq<char>,
        to_normal: ToN,
        from_normal: FromN,
        callback: C,
    )
        requires
            self.fresh(id, min, max, default, caption, measure, to_normal, from_normal, callback),
        ensures
            self.value == default,
            call_ensures(to_normal, (default,), self.norm_value),
            self.consistent(),
    {
    }

    /// After a control was set from `norm`, it reads back `norm` on the normalized scale and,
    /// in engineering units, a result of `from_normal` on `norm`: both at once. Its identity,
    /// range, default, display strings, strategy and callback are what they were.
    pub proof fn lemma_set_from_reads_back(self, before: Self, norm: T)
        requires
            self.set_from(before, norm),
        ensures
            self.norm_value == norm,
            call_ensures(self.from_normal, (norm,), self.value),
            self.consistent(),
            self.id == before.id,
            self.min == before.min,
            self.max == before.max,
            self.default == before.default,
            self.caption == before.caption,
            self.measure == before.measure,
            self.to_normal == before.to_normal,
            self.from_normal == before.from_normal,
            self.callback == before.callback,
    {
    }
}

/// The two representations of a control's current value. They are one field of the control,
/// so that no write can change one without the other.
struct Setting<T> {
    value: T,
    norm_value: T,
}

/// An automatable control of a processor of type `P`, with values of type `T`.
#[verifier::reject_recursive_types(T)]
#[verifier::reject_recursive_types(P)]
pub struct PropInfo<'a, T: Copy, P, ToN: Fn(T) -> T, FromN: Fn(T) -> T, C: Fn(&mut P)> {
    id: u32,
    min: T,
    max: T,
    default: T,
    current: Setting<T>,
    caption: &'a str,
    measure: &'a str,
    to_normal: ToN,
    from_normal: FromN,
    callback: C,
    processor: PhantomData<P>,
}

impl<'a, T: Copy, P, ToN: Fn(T) -> T, FromN: Fn(T) -> T, C: Fn(&mut P)> View for PropInfo<
    'a,
    T,
    P,
    ToN,
    FromN,
    C,
> {
    type V = PropView<T, ToN, FromN, C>;

    closed spec fn view(&self) -> PropView<T, ToN, FromN, C> {
        PropView {
            id: self.id,
            min: self.min,
            max: self.max,
            default: self.default,
            value: self.current.value,
            norm_value: self.current.norm_value,
            caption: self.caption@,
            measure: self.measure@,
            to_normal: self.to_normal,
            from_normal: self.from_normal,
            callback: self.callback,
        }
    }
}

impl<'a, T: Copy, P, ToN: Fn(T) -> T, FromN: Fn(T) -> T, C: Fn(&mut P)> PropInfo<
    'a,
    T,
    P,
    ToN,
    FromN,
    C,
> {
    /// Holds of every control: its strategy converts every normalized value, its callback takes
    /// every processor, and its two values belong together.
    #[verifier::type_invariant]
    spec fn inv(&self) -> bool {
        &&& forall|norm: T| call_requires(self.from_normal, (norm,))
        &&& forall|processor: &mut P| call_requires(self.callback, (processor,))
        &&& self@.consistent()
    }

    /// Builds a control that holds its default: the engineering value is `default`, the
    /// normalized value is what `to_normal` gives for it. The range is not checked, and the
    /// callback does not run.
    ///
    /// The strategy has to accept the default in `to_normal` and every value in `from_normal`,
    /// and the callback every processor.
    pub fn new(
        id: u32,
        min: T,
        max: T,
        default: T,
        caption: &'a str,
        measure: &'a str,
        to_normal: ToN,
        from_normal: FromN,
        callback: C,
    ) -> (info: Self)
        requires
            call_requires(to_normal, (default,)),
            forall|norm: T| call_requires(from_normal, (norm,)),
            forall|processor: &mut P| call_requires(callback, (processor,)),
        ensures
            info@.fresh(
                id,
                min,
                max,
                default,
                caption@,
                measure@,
                to_normal,
                from_normal,
                callback,
            ),
    {
        let norm_value = to_normal(default);
        PropInfo {
            id,
            min,
            max,
            default,
            current: Setting { value: default, norm_value },
            caption,
            measure,
            to_normal,
            from_normal,
            callback,
            processor: PhantomData,
        }
    }

    /// Sets the control from a normalized value: stores `norm` as it is, without clamping it,
    /// together with what the strategy's `from_normal` gives for it as the engineering value,
    /// then runs the callback once on `processor`. The processor ends in a state that one run
    /// of the callback leads to from the state in which it came.
    pub fn set_from_norm(&mut self, norm: T, processor: &mut P)
        ensures
            final(self)@.set_from(old(self)@, norm),
            exists|context: &mut P|
                {
                    &&& *context == *old(processor)
                    &&& *final(context) == *final(processor)
                    &&& call_ensures(old(self)@.callback, (context,), ())
                },
    {
        proof {
            use_type_invariant(&*self);
        }
        let value = (self.from_normal)(norm);
        self.current = Setting { value, norm_value: norm };
        (self.callback)(processor);
    }

    /// The current value in engineering units. It belongs to the normalized value under the
    /// strategy, as every control's does at all times.
    pub fn get_value(&self) -> (value: T)
        ensures
            value == self@.value,
            self@.consistent(),
    {
        proof {
            use_type_invariant(self);
        }
        self.current.value
    }

    /// The current value on the normalized scale. It belongs to the engineering value under
    /// the strategy, as every control's does at all times.
    pub fn get_norm_value(&self) -> (norm: T)
        ensures
            norm == self@.norm_value,
            self@.consistent(),
    {
        proof {
            use_type_invariant(self);
        }
        self.current.norm_value
    }

    /// A copy of the display name.
    pub fn get_caption(&self) -> (caption: String)
        ensures
            caption@ == self@.caption,
    {
        self.caption.to_string()
    }

    /// A copy of the display unit.
    pub fn get_measure(&self) -> (measure: String)
        ensures
            measure@ == self@.measure,
    {
        self.measure.to_string()
    }
}

} // verus!
