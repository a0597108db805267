//! A sequence that always holds at least one element.
use vstd::prelude::*;

verus! {

/// An ordered sequence with at least one element.
#[derive(Debug)]
pub struct NonEmptyVec<T> {
    items: Vec<T>,
}

impl<T> NonEmptyVec<T> {
    #[verifier::type_invariant]
    spec fn inv(&self) -> bool {
        self.items@.len() > 0
    }

    /// The elements, in order.
    pub closed spec fn items(&self) -> Seq<T> {
        self.items@
    }

    /// Takes `v` when it has an element; `None` when it is empty.
    pub fn try_from_vec(v: Vec<T>) -> (r: Option<Self>)
        ensures
            r is Some <==> v@.len() > 0,
            r matches Some(n) ==> n.items() == v@,
    {
        if v.len() == 0 {
            None
        } else {
            Some(NonEmptyVec { items: v })
        }
    }

    pub fn len(&self) -> (r: usize)
        ensures
            r == self.items().len(),
            r > 0,
    {
        proof {
            use_type_invariant(self);
        }
        self.items.len()
    }

    /// The first element.
    pub fn first(&self) -> (r: &T)
        ensures
            self.items().len() > 0,
            *r == self.items()[0],
    {
        proof {
            use_type_invariant(self);
        }
        &self.items[0]
    }

    pub fn as_vec(&self) -> (r: &Vec<T>)
        ensures
            r@ == self.items(),
    {
        &self.items
    }

    pub fn into_vec(self) -> (r: Vec<T>)
        ensures
            r@ == self.items(),
    {
        self.items
    }

    /// The first element and the rest, in order.
    pub fn split_off_first(self) -> (r: (T, Vec<T>))
        ensures
            self.items().len() > 0,
            r.0 == self.items()[0],
            r.1@ == self.items().drop_first(),
    {
        proof {
            use_type_invariant(&self);
        }
        let mut items = self.items;
        let first = items.remove(0);
        (first, items)
    }
}

impl<T: View> View for NonEmptyVec<T> {
    type V = Seq<T::V>;

    open spec fn view(&self) -> Seq<T::V> {
        self.items().map_values(|x: T| x@)
    }
}

} // verus!
