//! `cfg`-like conditions over items.
use vstd::prelude::*;

verus! {

/// A `cfg`-like condition over items of type `T`.
#[verifier::reject_recursive_types(T)]
#[derive(Debug)]
pub enum ConditionalExpr<T> {
    /// A single condition.
    Item(T),
    /// True when every sub-condition is.
    All(Vec<ConditionalExpr<T>>),
    /// True when some sub-condition is.
    Any(Vec<ConditionalExpr<T>>),
    /// True when the sub-condition is not.
    Not(Box<ConditionalExpr<T>>),
}

/// The truth of `e` when each item's truth is given by `p`.
pub open spec fn eval_spec<T>(e: ConditionalExpr<T>, p: spec_fn(T) -> bool) -> bool
    decreases e, 1nat,
{
    match e {
        ConditionalExpr::Item(t) => p(t),
        ConditionalExpr::Not(b) => !eval_spec(*b, p),
        ConditionalExpr::All(v) => all_spec(v@, p),
        ConditionalExpr::Any(v) => any_spec(v@, p),
    }
}

/// Every condition of `s` holds.
pub open spec fn all_spec<T>(s: Seq<ConditionalExpr<T>>, p: spec_fn(T) -> bool) -> bool
    decreases s, 0nat,
{
    if s.len() == 0 {
        true
    } else {
        eval_spec(s[0], p) && all_spec(s.drop_first(), p)
    }
}

/// Some condition of `s` holds.
pub open spec fn any_spec<T>(s: Seq<ConditionalExpr<T>>, p: spec_fn(T) -> bool) -> bool
    decreases s, 0nat,
{
    if s.len() == 0 {
        false
    } else {
        eval_spec(s[0], p) || any_spec(s.drop_first(), p)
    }
}

/// The predicate computed by a deterministic closure on items.
pub open spec fn item_pred<T, F: Fn(&T) -> bool>(f: F) -> spec_fn(T) -> bool {
    |t: T| f.ensures((&t,), true)
}

/// `f` can be called on every item and answers the same for the same item.
pub open spec fn is_item_pred<T, F: Fn(&T) -> bool>(f: F) -> bool {
    &&& forall|t: &T| #[trigger] f.requires((t,))
    &&& forall|t: &T, b: bool| #[trigger] f.ensures((t,), b) ==> b == f.ensures((t,), true)
}

/// Law: the empty conjunction holds whatever the items mean.
pub proof fn law_empty_all_holds<T>(p: spec_fn(T) -> bool)
    ensures all_spec(Seq::<ConditionalExpr<T>>::empty(), p),
{
}

/// Law: `all_add` conjoins — `All([v, e])` holds exactly when both `v` and `e` do.
pub proof fn law_all_add_conjoins<T>(v: ConditionalExpr<T>, e: ConditionalExpr<T>, p: spec_fn(T) -> bool)
    ensures all_spec(seq![v, e], p) == (eval_spec(v, p) && eval_spec(e, p)),
{
    let s = seq![v, e];
    assert(s.drop_first() == seq![e]);
    assert(s.drop_first().drop_first() == Seq::<ConditionalExpr<T>>::empty());
    reveal_with_fuel(all_spec, 3);
}

/// Law: appending `v` to a conjunction conjoins it.
pub proof fn law_all_push<T>(vs: Seq<ConditionalExpr<T>>, v: ConditionalExpr<T>, p: spec_fn(T) -> bool)
    ensures all_spec(vs.push(v), p) == (all_spec(vs, p) && eval_spec(v, p)),
    decreases vs.len(),
{
    if vs.len() == 0 {
        assert(vs.push(v).drop_first() == Seq::<ConditionalExpr<T>>::empty());
        reveal_with_fuel(all_spec, 2);
    } else {
        assert(vs.push(v).drop_first() == vs.drop_first().push(v));
        law_all_push(vs.drop_first(), v, p);
    }
}

/// Law: appending `v` to a disjunction disjoins it (so `add` on an `Any` widens
/// the condition rather than narrowing it).
pub proof fn law_any_push<T>(vs: Seq<ConditionalExpr<T>>, v: ConditionalExpr<T>, p: spec_fn(T) -> bool)
    ensures any_spec(vs.push(v), p) == (any_spec(vs, p) || eval_spec(v, p)),
    decreases vs.len(),
{
    if vs.len() == 0 {
        assert(vs.push(v).drop_first() == Seq::<ConditionalExpr<T>>::empty());
        reveal_with_fuel(any_spec, 2);
    } else {
        assert(vs.push(v).drop_first() == vs.drop_first().push(v));
        law_any_push(vs.drop_first(), v, p);
    }
}

impl<T> ConditionalExpr<T> {
    /// The empty conjunction, which is always true.
    pub fn new_all() -> (r: Self)
        ensures r is All, r->All_0@ == Seq::<ConditionalExpr<T>>::empty(),
    {
        ConditionalExpr::All(Vec::new())
    }

    /// Conjoin `v` with the current condition: it becomes `All([v, old])`.
    pub fn all_add(&mut self, v: ConditionalExpr<T>)
        ensures
            *final(self) is All,
            (*final(self))->All_0@ == seq![v, *old(self)],
    {
        let mut this = ConditionalExpr::new_all();
        std::mem::swap(&mut this, self);
        let mut values: Vec<ConditionalExpr<T>> = Vec::new();
        values.push(v);
        values.push(this);
        *self = ConditionalExpr::All(values);
    }

    /// Add `v` to the condition: appended to an `All` or `Any`, conjoined with an
    /// `Item` or `Not`.
    pub fn add(&mut self, v: ConditionalExpr<T>)
        ensures
            match *old(self) {
                ConditionalExpr::All(vs) => *final(self) is All && (*final(self))->All_0@ == vs@.push(v),
                ConditionalExpr::Any(vs) => *final(self) is Any && (*final(self))->Any_0@ == vs@.push(v),
                _ => *final(self) is All && (*final(self))->All_0@ == seq![v, *old(self)],
            },
    {
        let mut this = ConditionalExpr::new_all();
        std::mem::swap(&mut this, self);
        match this {
            ConditionalExpr::All(mut vs) => {
                vs.push(v);
                *self = ConditionalExpr::All(vs);
            },
            ConditionalExpr::Any(mut vs) => {
                vs.push(v);
                *self = ConditionalExpr::Any(vs);
            },
            other => {
                *self = other;
                self.all_add(v);
            },
        }
    }

    /// Evaluate the condition, asking `f` for the truth of each item.
    pub fn eval<F: Fn(&T) -> bool>(&self, f: &F) -> (r: bool)
        requires is_item_pred::<T, F>(*f),
        ensures r == eval_spec(*self, item_pred::<T, F>(*f)),
        decreases self,
    {
        match self {
            ConditionalExpr::Item(i) => f(i),
            ConditionalExpr::Not(i) => !i.eval(f),
            ConditionalExpr::All(v) => {
                let mut k: usize = 0;
                assert(v@.skip(0) == v@);
                while k < v.len()
                    invariant
                        is_item_pred::<T, F>(*f),
                        k <= v.len(),
                        all_spec(v@, item_pred::<T, F>(*f)) == all_spec(v@.skip(k as int), item_pred::<T, F>(*f)),
                        *self is All,
                        self->All_0@ == v@,
                    decreases v.len() - k,
                {
                    assert(v@.skip(k as int).drop_first() == v@.skip(k as int + 1));
                    assert(v@.skip(k as int)[0] == v@[k as int]);
                    proof {
                        assert(decreases_to!(self => self->All_0));
                        assert(decreases_to!(self->All_0 => self->All_0@));
                        assert(self->All_0@ == v@);
                        assert(decreases_to!(self->All_0@ => self->All_0@[k as int]));
                    }
                    if !v[k].eval(f) {
                        return false;
                    }
                    k = k + 1;
                }
                true
            },
            ConditionalExpr::Any(v) => {
                let mut k: usize = 0;
                assert(v@.skip(0) == v@);
                while k < v.len()
                    invariant
                        is_item_pred::<T, F>(*f),
                        k <= v.len(),
                        any_spec(v@, item_pred::<T, F>(*f)) == any_spec(v@.skip(k as int), item_pred::<T, F>(*f)),
                        *self is Any,
                        self->Any_0@ == v@,
                    decreases v.len() - k,
                {
                    assert(v@.skip(k as int).drop_first() == v@.skip(k as int + 1));
                    assert(v@.skip(k as int)[0] == v@[k as int]);
                    proof {
                        assert(decreases_to!(self => self->Any_0));
                        assert(decreases_to!(self->Any_0 => self->Any_0@));
                        assert(self->Any_0@ == v@);
                        assert(decreases_to!(self->Any_0@ => self->Any_0@[k as int]));
                    }
                    if v[k].eval(f) {
                        return true;
                    }
                    k = k + 1;
                }
                false
            },
        }
    }
}

} // verus!
