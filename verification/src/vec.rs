//! A vector that keeps zero or one element without allocating.
use vstd::prelude::*;
use vstd::std_specs::cmp::PartialEqSpec;
use vstd::std_specs::iter::IteratorSpec;

verus! {

/// A simple vector that acts like `Vec`, but holds zero or one element
/// without an allocation.
#[derive(Debug, Clone)]
pub enum Vector<T> {
    Empty,
    One(T),
    Dynamic(Vec<T>),
}

impl<T> View for Vector<T> {
    type V = Seq<T>;

    /// The elements in order.
    open spec fn view(&self) -> Seq<T> {
        match self {
            Vector::Empty => Seq::empty(),
            Vector::One(v) => seq![*v],
            Vector::Dynamic(list) => list@,
        }
    }
}

/// The elements of `s` whose flag in `dropped` is false, in order.
pub open spec fn kept<T>(s: Seq<T>, dropped: Seq<bool>) -> Seq<T>
    decreases s.len(),
{
    if s.len() == 0 {
        Seq::empty()
    } else {
        let rest = kept(s.drop_first(), dropped.drop_first());
        if dropped[0] {
            rest
        } else {
            seq![s[0]].add(rest)
        }
    }
}

/// `answers[i]` is an answer that `predicater` may give for `s[i]`.
pub open spec fn answered_by<T, F: Fn(&T) -> bool>(predicater: F, s: Seq<T>, answers: Seq<bool>) -> bool {
    &&& answers.len() == s.len()
    &&& forall|i: int| 0 <= i < answers.len() ==> call_ensures(predicater, (&s[i],), #[trigger] answers[i])
}

/// `s[k]` is the last element for which `predicater` answered true: it
/// answered true for `s[k]` and false for every later element.
pub open spec fn last_match<T, F: Fn(&T) -> bool>(predicater: F, s: Seq<T>, k: int) -> bool {
    &&& 0 <= k < s.len()
    &&& call_ensures(predicater, (&s[k],), true)
    &&& forall|j: int| k < j < s.len() ==> call_ensures(predicater, (&s[j],), false)
}

/// The form that pushes give a vector: `Empty` without elements, `One` with
/// a single element and `Dynamic` beyond.
pub open spec fn pushed_form<T>(v: Vector<T>) -> bool {
    if v@.len() == 0 {
        v is Empty
    } else if v@.len() == 1 {
        v is One
    } else {
        v is Dynamic
    }
}

/// A removal keeps a `Dynamic` vector `Dynamic`; a vector without a `Vec`
/// stays without one, and becomes `Empty` when its element is removed.
pub open spec fn removal_keeps_form<T>(before: Vector<T>, after: Vector<T>) -> bool {
    match before {
        Vector::Dynamic(_) => after is Dynamic,
        _ => if after@.len() == 0 {
            after is Empty
        } else {
            after is One
        },
    }
}

/// What a call of `next` yields when `s` remains.
pub open spec fn next_item<T>(s: Seq<T>) -> Option<T> {
    if s.len() == 0 {
        None
    } else {
        Some(s[0])
    }
}

/// What remains of `s` after `k` calls of `next`.
pub open spec fn after_nexts<T>(s: Seq<T>, k: nat) -> Seq<T>
    decreases k,
{
    if k == 0 || s.len() == 0 {
        s
    } else {
        after_nexts(s.drop_first(), (k - 1) as nat)
    }
}

/// `std::slice::from_ref`: the slice of length one that views `v`.
#[verifier::external_body]
fn slice_from_ref<T>(v: &T) -> (s: &[T])
    ensures
        s@ == seq![*v],
{
    std::slice::from_ref(v)
}

/// `std::slice::from_mut`: the mutable slice of length one that views `v`.
#[verifier::external_body]
fn slice_from_mut<T>(v: &mut T) -> (s: &mut [T])
    ensures
        s@ == seq![*old(v)],
        final(s)@.len() == 1,
        final(s)@ == seq![*final(v)],
{
    std::slice::from_mut(v)
}

impl<T> Default for Vector<T> {
    fn default() -> (r: Vector<T>)
        ensures
            r == Vector::<T>::Empty,
    {
        Vector::Empty
    }
}

impl<T> Vector<T> {
    /// An empty vector.
    pub fn new() -> (r: Self)
        ensures
            r == Vector::<T>::Empty,
            r@ == Seq::<T>::empty(),
    {
        Vector::Empty
    }

    /// Number of elements.
    pub fn len(&self) -> (n: usize)
        ensures
            n == self@.len(),
    {
        match self {
            Vector::Empty => 0,
            Vector::One(_) => 1,
            Vector::Dynamic(v) => v.len(),
        }
    }

    /// Whether the vector holds no element.
    pub fn is_empty(&self) -> (r: bool)
        ensures
            r == (self@.len() == 0),
    {
        self.len() == 0
    }

    /// Appends `v` at the end. A first element is kept without allocating;
    /// a second one moves both into a `Vec`.
    pub fn push(&mut self, v: T)
        ensures
            final(self)@ == old(self)@.push(v),
            *old(self) is Empty ==> *final(self) is One,
            !(*old(self) is Empty) ==> *final(self) is Dynamic,
    {
        let mut current = Vector::Empty;
        std::mem::swap(&mut current, self);
        match current {
            Vector::Empty => {
                *self = Vector::One(v);
            },
            Vector::One(first) => {
                let mut list = Vec::with_capacity(2);
                list.push(first);
                list.push(v);
                *self = Vector::Dynamic(list);
            },
            Vector::Dynamic(mut list) => {
                list.push(v);
                *self = Vector::Dynamic(list);
            },
        }
    }

    /// Removes and returns the element at `index`, or returns `None` and
    /// changes nothing when `index` is out of range.
    pub fn remove_at(&mut self, index: usize) -> (r: Option<T>)
        ensures
            index < old(self)@.len() ==> r == Some(old(self)@[index as int]) && final(self)@ == old(
                self,
            )@.remove(index as int),
            index >= old(self)@.len() ==> r is None && final(self)@ == old(self)@,
            removal_keeps_form(*old(self), *final(self)),
    {
        let mut current = Vector::Empty;
        std::mem::swap(&mut current, self);
        match current {
            Vector::Empty => None,
            Vector::One(first) => {
                if index == 0 {
                    assert(seq![first].remove(0) =~= Seq::<T>::empty());
                    Some(first)
                } else {
                    *self = Vector::One(first);
                    None
                }
            },
            Vector::Dynamic(mut list) => {
                if index < list.len() {
                    let r = list.remove(index);
                    *self = Vector::Dynamic(list);
                    Some(r)
                } else {
                    *self = Vector::Dynamic(list);
                    None
                }
            },
        }
    }

    /// Removes every element on which `predicater` answers true; the elements
    /// are asked from the last to the first.
    pub fn remove_all<F: Fn(&T) -> bool>(&mut self, predicater: F)
        requires
            forall|i: int| 0 <= i < old(self)@.len() ==> call_requires(predicater, (&old(self)@[i],)),
        ensures
            exists|dropped: Seq<bool>| #[trigger]
                answered_by(predicater, old(self)@, dropped) && final(self)@ == kept(old(self)@, dropped),
            removal_keeps_form(*old(self), *final(self)),
    {
        let mut current = Vector::Empty;
        std::mem::swap(&mut current, self);
        match current {
            Vector::Empty => {
                assert(kept(Seq::<T>::empty(), Seq::<bool>::empty()) =~= Seq::<T>::empty());
                assert(answered_by(predicater, old(self)@, Seq::<bool>::empty()));
            },
            Vector::One(x) => {
                assert(old(self)@[0] == x);
                let d = predicater(&x);
                let ghost dropped = seq![d];
                assert(seq![x].drop_first() =~= Seq::<T>::empty());
                assert(dropped.drop_first() =~= Seq::<bool>::empty());
                assert(kept(Seq::<T>::empty(), Seq::<bool>::empty()) =~= Seq::<T>::empty());
                if d {
                    assert(kept(seq![x], dropped) =~= Seq::<T>::empty());
                } else {
                    *self = Vector::One(x);
                    assert(kept(seq![x], dropped) =~= seq![x]);
                }
                assert(call_ensures(predicater, (&seq![x][0],), dropped[0]));
                assert(answered_by(predicater, old(self)@, dropped));
            },
            Vector::Dynamic(mut list) => {
                let ghost initial = list@;
                assert(initial == old(self)@);
                let ghost mut dropped: Seq<bool> = Seq::empty();
                let mut index = list.len();
                assert(initial.skip(index as int) =~= Seq::<T>::empty());
                assert(initial.take(index as int) =~= initial);
                assert(list@ =~= initial.take(index as int) + kept(initial.skip(index as int), dropped));
                while index > 0
                    invariant
                        index <= initial.len(),
                        dropped.len() == initial.len() - index,
                        forall|i: int| 0 <= i < initial.len() ==> call_requires(predicater, (&initial[i],)),
                        forall|i: int|
                            0 <= i < dropped.len() ==> call_ensures(
                                predicater,
                                (&initial[index + i],),
                                #[trigger] dropped[i],
                            ),
                        list@ == initial.take(index as int) + kept(initial.skip(index as int), dropped),
                    decreases index,
                {
                    index = index - 1;
                    assert(list@[index as int] == initial[index as int]);
                    let d = predicater(&list[index]);
                    let ghost next_dropped = seq![d].add(dropped);
                    assert(initial.skip(index as int).drop_first() =~= initial.skip(index + 1));
                    assert(next_dropped.drop_first() =~= dropped);
                    if d {
                        list.remove(index);
                        assert(list@ =~= initial.take(index as int) + kept(
                            initial.skip(index as int),
                            next_dropped,
                        ));
                    } else {
                        assert(list@ =~= initial.take(index as int) + kept(
                            initial.skip(index as int),
                            next_dropped,
                        ));
                    }
                    proof {
                        assert forall|i: int| 0 <= i < next_dropped.len() implies call_ensures(
                            predicater,
                            (&initial[index + i],),
                            #[trigger] next_dropped[i],
                        ) by {
                            if i > 0 {
                                assert(next_dropped[i] == dropped[i - 1]);
                            }
                        }
                        dropped = next_dropped;
                    }
                }
                assert(initial.skip(0) =~= initial);
                assert(initial.take(0) =~= Seq::<T>::empty());
                assert(list@ =~= kept(initial, dropped));
                assert(answered_by(predicater, old(self)@, dropped));
                *self = Vector::Dynamic(list);
            },
        }
    }

    /// Removes and returns the last element on which `predicater` answers
    /// true; the elements are asked from the last to the first, and asking
    /// stops at the first true answer.
    pub fn remove_last<F: Fn(&T) -> bool>(&mut self, predicater: F) -> (r: Option<T>)
        requires
            forall|i: int| 0 <= i < old(self)@.len() ==> call_requires(predicater, (&old(self)@[i],)),
        ensures
            r matches Some(x) ==> exists|k: int| #[trigger]
                last_match(predicater, old(self)@, k) && x == old(self)@[k] && final(self)@ == old(
                    self,
                )@.remove(k),
            r is None ==> final(self)@ == old(self)@ && forall|i: int|
                0 <= i < old(self)@.len() ==> call_ensures(predicater, (&old(self)@[i],), false),
            removal_keeps_form(*old(self), *final(self)),
    {
        let mut current = Vector::Empty;
        std::mem::swap(&mut current, self);
        match current {
            Vector::Empty => None,
            Vector::One(x) => {
                assert(old(self)@[0] == x);
                if predicater(&x) {
                    assert(seq![x].remove(0) =~= Seq::<T>::empty());
                    assert(last_match(predicater, old(self)@, 0));
                    Some(x)
                } else {
                    *self = Vector::One(x);
                    None
                }
            },
            Vector::Dynamic(mut list) => {
                let ghost initial = list@;
                assert(initial == old(self)@);
                let mut index = list.len();
                while index > 0
                    invariant
                        index <= initial.len(),
                        list@ == initial,
                        initial == old(self)@,
                        *old(self) is Dynamic,
                        forall|i: int| 0 <= i < initial.len() ==> call_requires(predicater, (&initial[i],)),
                        forall|j: int|
                            index <= j < initial.len() ==> call_ensures(predicater, (&initial[j],), false),
                    decreases index,
                {
                    index = index - 1;
                    if predicater(&list[index]) {
                        let x = list.remove(index);
                        assert(last_match(predicater, initial, index as int));
                        *self = Vector::Dynamic(list);
                        assert(x == initial[index as int] && self@ == initial.remove(index as int));
                        return Some(x);
                    }
                }
                *self = Vector::Dynamic(list);
                None
            },
        }
    }

    /// The elements as a slice.
    pub fn as_slice(&self) -> (s: &[T])
        ensures
            s@ == self@,
    {
        match self {
            Vector::Empty => &[],
            Vector::One(v) => slice_from_ref(v),
            Vector::Dynamic(list) => list.as_slice(),
        }
    }

    /// The elements as a mutable slice; what is written through it is what
    /// the vector holds afterwards.
    pub fn as_mut_slice(&mut self) -> (s: &mut [T])
        ensures
            s@ == old(self)@,
            final(s)@ == final(self)@,
    {
        match self {
            Vector::Empty => &mut [],
            Vector::One(v) => slice_from_mut(v),
            Vector::Dynamic(list) => list.as_mut_slice(),
        }
    }

    /// A vector of the elements of `items`, in order, pushed one by one.
    pub fn from_vec(items: Vec<T>) -> (r: Vector<T>)
        ensures
            r@ == items@,
            pushed_form(r),
    {
        let mut items = items;
        let ghost initial = items@;
        let mut reversed: Vec<T> = Vec::new();
        while items.len() > 0
            invariant
                initial == items@ + reversed@.reverse(),
            decreases items.len(),
        {
            let x = items.pop().unwrap();
            reversed.push(x);
            assert(initial =~= items@ + reversed@.reverse());
        }
        let mut r = Vector::new();
        assert(initial =~= reversed@.reverse());
        while reversed.len() > 0
            invariant
                initial == r@ + reversed@.reverse(),
                pushed_form(r),
            decreases reversed.len(),
        {
            let x = reversed.pop().unwrap();
            r.push(x);
            assert(initial =~= r@ + reversed@.reverse());
        }
        assert(initial =~= r@);
        r
    }

    /// Consumes the vector into an iterator over its elements in order.
    pub fn into_iter(self) -> (it: IntoIter<T>)
        ensures
            it@ == self@,
    {
        let rest = match self {
            Vector::Empty => Vec::new(),
            Vector::One(v) => {
                let mut list = Vec::with_capacity(1);
                list.push(v);
                list
            },
            Vector::Dynamic(list) => list,
        };
        IntoIter { rest }
    }

    /// Empties the vector.
    pub fn clear(&mut self)
        ensures
            final(self)@ == Seq::<T>::empty(),
            *final(self) == Vector::<T>::Empty,
    {
        *self = Vector::Empty;
    }
}

impl<T: PartialEq> Vector<T> {
    /// Whether an element equals `x`.
    pub fn contains(&self, x: &T) -> (r: bool)
        ensures
            T::obeys_eq_spec() ==> (r <==> exists|i: int| 0 <= i < self@.len() && #[trigger] self@[i].eq_spec(x)),
    {
        match self {
            Vector::Empty => false,
            Vector::One(v) => {
                let r = v == x;
                proof {
                    if T::obeys_eq_spec() && r {
                        assert(self@[0].eq_spec(x));
                    }
                }
                r
            },
            Vector::Dynamic(list) => {
                let mut i: usize = 0;
                while i < list.len()
                    invariant
                        i <= list@.len(),
                        list@ == self@,
                        T::obeys_eq_spec() ==> forall|j: int| 0 <= j < i ==> !(#[trigger] list@[j].eq_spec(x)),
                    decreases list@.len() - i,
                {
                    if list[i] == *x {
                        proof {
                            if T::obeys_eq_spec() {
                                assert(self@[i as int].eq_spec(x));
                            }
                        }
                        return true;
                    }
                    i = i + 1;
                }
                false
            },
        }
    }
}

impl<T> std::ops::Index<usize> for Vector<T> {
    type Output = T;

    /// The element at `index`; `index` must be in range.
    fn index(&self, index: usize) -> (r: &T)
        ensures
            *r == self@[index as int],
    {
        match self {
            Vector::One(v) => v,
            Vector::Dynamic(list) => &list[index],
            Vector::Empty => unreached(),
        }
    }
}

impl<T> vstd::std_specs::core::IndexSpecImpl<usize> for Vector<T> {
    open spec fn index_req(&self, index: &usize) -> bool {
        *index < self@.len()
    }
}

impl<T> std::ops::Deref for Vector<T> {
    type Target = [T];

    fn deref(&self) -> (s: &[T])
        ensures
            s@ == self@,
    {
        self.as_slice()
    }
}

/// What a push adds, removing at the last index takes back.
pub proof fn law_push_then_remove_last<T>(s: Seq<T>, v: T)
    ensures
        s.push(v).len() == s.len() + 1,
        s.push(v)[s.len() as int] == v,
        s.push(v).remove(s.len() as int) == s,
{
    assert(s.push(v).remove(s.len() as int) =~= s);
}

/// A removal that drops nothing keeps every element; one that drops
/// everything leaves nothing; and it never adds an element.
pub proof fn law_kept_bounds<T>(s: Seq<T>, dropped: Seq<bool>)
    requires
        dropped.len() == s.len(),
    ensures
        (forall|i: int| 0 <= i < s.len() ==> !dropped[i]) ==> kept(s, dropped) == s,
        (forall|i: int| 0 <= i < s.len() ==> dropped[i]) ==> kept(s, dropped).len() == 0,
        kept(s, dropped).len() <= s.len(),
    decreases s.len(),
{
    if s.len() > 0 {
        law_kept_bounds(s.drop_first(), dropped.drop_first());
        if forall|i: int| 0 <= i < s.len() ==> !dropped[i] {
            assert forall|i: int| 0 <= i < s.len() - 1 implies !dropped.drop_first()[i] by {
                assert(dropped.drop_first()[i] == dropped[i + 1]);
            }
            assert(s =~= seq![s[0]].add(s.drop_first()));
        }
        if forall|i: int| 0 <= i < s.len() ==> dropped[i] {
            assert forall|i: int| 0 <= i < s.len() - 1 implies dropped.drop_first()[i] by {
                assert(dropped.drop_first()[i] == dropped[i + 1]);
            }
        }
    }
}

/// What remains after `k` calls of `next` is `s` without its first `k`
/// elements.
proof fn lemma_after_nexts_skip<T>(s: Seq<T>, k: nat)
    ensures
        after_nexts(s, k) == (if k <= s.len() {
            s.skip(k as int)
        } else {
            Seq::<T>::empty()
        }),
    decreases k,
{
    if k == 0 {
        assert(s.skip(0) =~= s);
    } else if s.len() == 0 {
        assert(s =~= Seq::<T>::empty());
    } else {
        lemma_after_nexts_skip(s.drop_first(), (k - 1) as nat);
        if k <= s.len() {
            assert(s.drop_first().skip(k - 1) =~= s.skip(k as int));
        }
    }
}

/// After `k` calls of `next` on the items `s` of a consumed vector, what
/// remains (what `as_slice` and `as_mut_slice` show) is `s` without its first
/// `k` elements, `s.len() - k` of them; the next call yields `s[k]`, or `None`
/// once every item was yielded, and leaves what `k + 1` calls leave.
pub proof fn law_iter_after_nexts<T>(s: Seq<T>, k: nat)
    ensures
        after_nexts(s, k) == (if k <= s.len() {
            s.skip(k as int)
        } else {
            Seq::<T>::empty()
        }),
        after_nexts(s, k).len() == (if k <= s.len() {
            (s.len() - k) as nat
        } else {
            0nat
        }),
        forall|j: int| 0 <= j < after_nexts(s, k).len() ==> #[trigger] after_nexts(s, k)[j] == s[k + j],
        next_item(after_nexts(s, k)) == (if k < s.len() {
            Some(s[k as int])
        } else {
            None
        }),
        after_nexts(after_nexts(s, k), 1) == after_nexts(s, k + 1),
{
    lemma_after_nexts_skip(s, k);
    lemma_after_nexts_skip(s, k + 1);
    let rest = after_nexts(s, k);
    lemma_after_nexts_skip(rest, 1);
    if k < s.len() {
        assert(rest.skip(1) =~= s.skip((k + 1) as int));
    } else {
        assert(rest =~= Seq::<T>::empty());
    }
}

impl<'a, T> IntoIterator for &'a Vector<T> {
    type Item = &'a T;

    type IntoIter = std::slice::Iter<'a, T>;

    /// Iterates over the elements in order.
    fn into_iter(self) -> (it: std::slice::Iter<'a, T>)
        ensures
            it.remaining() == self@.as_ref(),
    {
        broadcast use vstd::std_specs::slice::axiom_spec_slice_iter;

        self.as_slice().iter()
    }
}

/// The elements of a consumed [`Vector`] that are still to come.
pub struct IntoIter<T> {
    rest: Vec<T>,
}

impl<T> View for IntoIter<T> {
    type V = Seq<T>;

    closed spec fn view(&self) -> Seq<T> {
        self.rest@
    }
}

impl<T> IntoIter<T> {
    /// The remaining items as a slice.
    pub fn as_slice(&self) -> (s: &[T])
        ensures
            s@ == self@,
    {
        self.rest.as_slice()
    }

    /// The remaining items as a mutable slice.
    pub fn as_mut_slice(&mut self) -> (s: &mut [T])
        ensures
            s@ == old(self)@,
            final(s)@ == final(self)@,
    {
        self.rest.as_mut_slice()
    }

    /// The next item, if any.
    pub fn next(&mut self) -> (r: Option<T>)
        ensures
            r == next_item(old(self)@),
            final(self)@ == after_nexts(old(self)@, 1),
            old(self)@.len() == 0 ==> r is None && final(self)@ == old(self)@,
            old(self)@.len() > 0 ==> r == Some(old(self)@[0]) && final(self)@ == old(self)@.drop_first(),
    {
        if self.rest.len() == 0 {
            None
        } else {
            let x = self.rest.remove(0);
            assert(old(self)@.remove(0) =~= old(self)@.drop_first());
            assert(after_nexts(old(self)@.drop_first(), 0) == old(self)@.drop_first());
            Some(x)
        }
    }

    /// Exact bounds of the number of remaining items.
    pub fn size_hint(&self) -> (r: (usize, Option<usize>))
        ensures
            r.0 == self@.len(),
            r.1 == Some(r.0),
    {
        let size = self.rest.len();
        (size, Some(size))
    }
}


/// What a removal keeps grows from the left as the elements come: an
/// element whose flag is false is kept after those kept before it, one whose
/// flag is true is not kept.
pub proof fn law_kept_appends<T>(s: Seq<T>, dropped: Seq<bool>, x: T, drop_x: bool)
    requires
        dropped.len() == s.len(),
    ensures
        kept(Seq::<T>::empty(), Seq::<bool>::empty()) == Seq::<T>::empty(),
        kept(s.push(x), dropped.push(drop_x)) == (if drop_x {
            kept(s, dropped)
        } else {
            kept(s, dropped).push(x)
        }),
    decreases s.len(),
{
    if s.len() == 0 {
        assert(s.push(x).drop_first() =~= Seq::<T>::empty());
        assert(dropped.push(drop_x).drop_first() =~= Seq::<bool>::empty());
        assert(s =~= Seq::<T>::empty());
        assert(seq![x].add(Seq::<T>::empty()) =~= Seq::<T>::empty().push(x));
    } else {
        law_kept_appends(s.drop_first(), dropped.drop_first(), x, drop_x);
        assert(s.push(x).drop_first() =~= s.drop_first().push(x));
        assert(dropped.push(drop_x).drop_first() =~= dropped.drop_first().push(drop_x));
        if !dropped[0] {
            let rest = kept(s.drop_first(), dropped.drop_first());
            assert(seq![s[0]].add(rest.push(x)) =~= seq![s[0]].add(rest).push(x));
        }
    }
}

/// The element that `remove_last` takes is the last one on which the
/// predicate answered true: it answered true there and false for every
/// later element; so two such positions are the same.
pub proof fn law_last_match_is_last<T, F: Fn(&T) -> bool>(predicater: F, s: Seq<T>, k: int, j: int)
    requires
        last_match(predicater, s, k),
    ensures
        0 <= k < s.len(),
        call_ensures(predicater, (&s[k],), true),
        k < j < s.len() ==> call_ensures(predicater, (&s[j],), false),
        last_match(predicater, s, j) && call_ensures(predicater, (&s[j],), true) && !call_ensures(
            predicater,
            (&s[j],),
            false,
        ) ==> j <= k,
{
}

} // verus!
