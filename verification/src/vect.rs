//! The container: a contiguous sequence of elements tagged with a [`Size`].

use vstd::prelude::*;

use crate::size::{index_provably_in, Size};

verus! {

/// A contiguous, order-preserving sequence of values of type `T`, tagged
/// with a [`Size`] describing its length. The tag always equals the true
/// element count of the backing storage; operations that change the storage
/// consume the container and produce a new one whose tag reflects the
/// change in the same step.
pub struct Vect<T> {
    data: Vec<T>,
    size: Size,
}

impl<T> View for Vect<T> {
    type V = Seq<T>;

    closed spec fn view(&self) -> Seq<T> {
        self.data@
    }
}

impl<T> Vect<T> {
    /// The size tag always equals the true element count of the storage.
    #[verifier::type_invariant]
    spec fn size_matches(self) -> bool {
        self.size.value() == self.data@.len()
    }

    /// The size tag attached to the container.
    pub closed spec fn size_model(self) -> Size {
        self.size
    }

    /// Create an empty container whose zero length is exact.
    pub fn new() -> (r: Self)
        ensures
            r@ == Seq::<T>::empty(),
            r.size_model() == Size::Exact(0),
    {
        Vect { data: Vec::new(), size: Size::Exact(0) }
    }

    /// Create an empty container whose zero length is exact, with storage
    /// for `capacity` elements reserved up front.
    pub fn with_capacity(capacity: usize) -> (r: Self)
        ensures
            r@ == Seq::<T>::empty(),
            r.size_model() == Size::Exact(0),
    {
        Vect { data: Vec::with_capacity(capacity), size: Size::Exact(0) }
    }

    /// Wrap an existing vector. Its length is known only by inspecting it,
    /// so the container's tag is dynamic.
    pub fn from_vec(data: Vec<T>) -> (r: Self)
        ensures
            r@ == data@,
            r.size_model() is Dyn,
            r.size_model().value() == data@.len(),
    {
        let n = data.len();
        Vect { data, size: Size::Dyn(n) }
    }

    /// The number of elements. It is read off the size tag, which the
    /// container invariant keeps equal to the true storage length, so the
    /// answer is correct for every reachable container with no precondition.
    pub fn len(&self) -> (r: usize)
        ensures
            r == self@.len(),
            r == self.size_model().value(),
    {
        proof {
            use_type_invariant(&*self);
        }
        self.size.to_usize()
    }

    /// Append an element to the end. The content grows by exactly the
    /// appended element, the length by one, and the tag is incremented with
    /// the way it is known kept.
    pub fn push(self, elem: T) -> (r: Self)
        ensures
            r@ == self@.push(elem),
            r@.len() == self@.len() + 1,
            r.size_model().spec_is_dyn() == self.size_model().spec_is_dyn(),
            r.size_model().value() == self.size_model().value() + 1,
    {
        proof {
            use_type_invariant(&self);
        }
        let Vect { mut data, size } = self;
        data.push(elem);
        // the grown storage length is a machine integer, so the old tag
        // value lies strictly below the machine bound and can be incremented
        let _grown: usize = data.len();
        proof {
            assert(size.value() < usize::MAX);
        }
        Vect { data, size: size.increment() }
    }

    /// Remove the last element, returning it with the shortened container.
    /// The length must be known positive ahead of the call, so a container
    /// whose emptiness is exact can never reach this path.
    pub fn pop(self) -> (r: (Self, T))
        requires
            self@.len() > 0,
        ensures
            r.1 == self@.last(),
            r.0@ == self@.drop_last(),
            r.0@.len() == self@.len() - 1,
            r.0.size_model().spec_is_dyn() == self.size_model().spec_is_dyn(),
            r.0.size_model().value() == self.size_model().value() - 1,
    {
        proof {
            use_type_invariant(&self);
        }
        let Vect { mut data, size } = self;
        let elem = data.pop().unwrap();
        (Vect { data, size: size.decrement() }, elem)
    }

    /// Remove the last element of a dynamically sized container, checking
    /// for emptiness at the moment of use: an empty container is consumed
    /// and yields the absence indicator, with no container produced.
    pub fn try_pop(self) -> (r: Option<(Self, T)>)
        requires
            self.size_model() is Dyn,
        ensures
            r is Some <==> self@.len() > 0,
            r matches Some(p) ==> {
                &&& p.1 == self@.last()
                &&& p.0@ == self@.drop_last()
                &&& p.0.size_model() is Dyn
                &&& p.0.size_model().value() == self.size_model().value() - 1
            },
    {
        proof {
            use_type_invariant(&self);
        }
        let Vect { mut data, size } = self;
        match size.try_decrement() {
            None => None,
            Some(shrunk) => {
                let elem = data.pop().unwrap();
                Some((Vect { data, size: shrunk }, elem))
            },
        }
    }

    /// Read the element at an index that is provably in range ahead of use:
    /// the length and the index are both exact and the strict bound holds,
    /// so no comparison is needed at the moment of use and the reference is
    /// returned directly.
    pub fn get(&self, index: Size) -> (r: &T)
        requires
            index_provably_in(self.size_model(), index),
        ensures
            *r == self@[index.value() as int],
    {
        proof {
            use_type_invariant(&*self);
        }
        let i = index.to_usize();
        &self.data[i]
    }

    /// Read the element at an index checked at the moment of use: the true
    /// length is re-derived from storage and compared against the index,
    /// and an out-of-range index yields the absence indicator.
    pub fn try_get(&self, index: Size) -> (r: Option<&T>)
        ensures
            r is Some <==> index.value() < self@.len(),
            r matches Some(e) ==> *e == self@[index.value() as int],
    {
        let i = index.to_usize();
        if i < self.data.len() {
            Some(&self.data[i])
        } else {
            None
        }
    }

    /// Insert an element at `index`, shifting what follows it. The index
    /// must satisfy the inclusive bound — inserting at the position one past
    /// the last element is legal — ahead of the call; an out-of-range index
    /// has no verified call form. The tag is incremented with the way it is
    /// known kept.
    pub fn insert(self, index: Size, elem: T) -> (r: Self)
        requires
            index.value() <= self@.len(),
        ensures
            r@ == self@.insert(index.value() as int, elem),
            r@.len() == self@.len() + 1,
            r.size_model().spec_is_dyn() == self.size_model().spec_is_dyn(),
            r.size_model().value() == self.size_model().value() + 1,
    {
        proof {
            use_type_invariant(&self);
        }
        let Vect { mut data, size } = self;
        let i = index.to_usize();
        data.insert(i, elem);
        // as in push: the grown storage length bounds the old tag value
        let _grown: usize = data.len();
        proof {
            assert(size.value() < usize::MAX);
        }
        Vect { data, size: size.increment() }
    }

    /// Remove the element at `index`, returning it with the shortened
    /// container; what followed the index shifts down. The index must
    /// satisfy the strict bound ahead of the call; an out-of-range index has
    /// no verified call form. The tag is decremented with the way it is
    /// known kept.
    pub fn remove(self, index: Size) -> (r: (Self, T))
        requires
            index.value() < self@.len(),
        ensures
            r.1 == self@[index.value() as int],
            r.0@ == self@.remove(index.value() as int),
            r.0@.len() == self@.len() - 1,
            r.0.size_model().spec_is_dyn() == self.size_model().spec_is_dyn(),
            r.0.size_model().value() == self.size_model().value() - 1,
    {
        proof {
            use_type_invariant(&self);
        }
        let Vect { mut data, size } = self;
        let i = index.to_usize();
        let elem = data.remove(i);
        (Vect { data, size: size.decrement() }, elem)
    }

    /// Retag the container as dynamically sized at its current length; the
    /// storage is untouched. Always succeeds.
    pub fn into_dyn(self) -> (r: Self)
        ensures
            (r@, r.size_model()) == spec_into_dyn((self@, self.size_model())),
            r@ == self@,
            r.size_model() is Dyn,
            r.size_model().value() == self@.len(),
    {
        proof {
            use_type_invariant(&self);
        }
        let Vect { data, size } = self;
        let n = size.to_usize();
        Vect { data, size: Size::Dyn(n) }
    }

    /// Retag the container with the exact size `n`. Succeeds — returning the
    /// container with its storage untouched — exactly when the current
    /// runtime length equals `n`; any other target yields the absence
    /// indicator.
    pub fn into_static(self, n: usize) -> (r: Option<Self>)
        ensures
            r is Some <==> spec_into_static((self@, self.size_model()), n) is Some,
            r is Some <==> n == self@.len(),
            r matches Some(c) ==> {
                &&& Some((c@, c.size_model())) == spec_into_static((self@, self.size_model()), n)
                &&& c@ == self@
                &&& c.size_model() == Size::Exact(n)
            },
    {
        proof {
            use_type_invariant(&self);
        }
        let Vect { data, size } = self;
        if data.len() == n {
            Some(Vect { data, size: Size::Exact(n) })
        } else {
            None
        }
    }

    /// Unwrap the container into its backing vector, leaving the
    /// abstraction. The content is handed out unchanged.
    pub fn into_vec(self) -> (r: Vec<T>)
        ensures
            r@ == self@,
    {
        self.data
    }
}

/// Spec-level model of retagging a container — content paired with its size
/// tag — as dynamic: the content is kept and the tag becomes the dynamic
/// form of its length.
pub open spec fn spec_into_dyn<T>(c: (Seq<T>, Size)) -> (Seq<T>, Size) {
    (c.0, Size::Dyn(c.0.len() as usize))
}

/// Spec-level model of retagging a container as exactly `n` long: the
/// content is kept and the tag becomes `Exact(n)`, but only when `n` is the
/// true length; otherwise there is no result.
pub open spec fn spec_into_static<T>(c: (Seq<T>, Size), n: usize) -> Option<(Seq<T>, Size)> {
    if c.0.len() == n {
        Some((c.0, Size::Exact(n)))
    } else {
        None
    }
}

/// Law: retagging a container as dynamic and then back to an exact size is a
/// round trip. Converting back at the container's own length succeeds and
/// restores a container of the same content and length; converting back at
/// any other target — in particular one past the length — yields the absence
/// indicator.
pub proof fn lemma_retag_round_trip<T>(c: (Seq<T>, Size))
    requires
        c.1.value() == c.0.len(),
        c.0.len() < usize::MAX,
    ensures
        spec_into_static(spec_into_dyn(c), c.0.len() as usize) matches Some(d) && d.0 == c.0
            && d.1.value() == c.0.len(),
        forall|m: usize| m != c.0.len() ==> spec_into_static(spec_into_dyn(c), m) is None,
        spec_into_static(spec_into_dyn(c), (c.0.len() + 1) as usize) is None,
{
}

} // verus!
