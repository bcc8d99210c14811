//! Length and index quantities that are either fixed ahead of use or known
//! only at runtime, with the arithmetic and bound checks over them.

use vstd::prelude::*;

verus! {

/// A length or index quantity. It is either `Exact` — fixed and known ahead
/// of any use, so that bound checks over it can be discharged before the
/// program runs — or `Dyn` — carried alongside the value and known only by
/// inspecting it at runtime.
#[derive(Clone, Copy, Debug, PartialEq, Eq, Structural)]
pub enum Size {
    /// The quantity is fixed and known before use.
    Exact(usize),
    /// The quantity is known only at the moment of use.
    Dyn(usize),
}

impl Size {
    /// The numeric value of the quantity, however it is known.
    pub open spec fn value(self) -> usize {
        match self {
            Size::Exact(n) => n,
            Size::Dyn(n) => n,
        }
    }

    /// Whether the quantity is dynamic.
    pub open spec fn spec_is_dyn(self) -> bool {
        self is Dyn
    }

    /// True exactly when the quantity is dynamic.
    pub fn is_dyn(self) -> (r: bool)
        ensures
            r == self.spec_is_dyn(),
    {
        match self {
            Size::Exact(_) => false,
            Size::Dyn(_) => true,
        }
    }

    /// The numeric value of the quantity.
    pub fn to_usize(self) -> (r: usize)
        ensures
            r == self.value(),
    {
        match self {
            Size::Exact(n) => n,
            Size::Dyn(n) => n,
        }
    }

    /// Increment by one. Total; the way the quantity is known is kept.
    pub fn increment(self) -> (r: Size)
        requires
            self.value() < usize::MAX,
        ensures
            r.spec_is_dyn() == self.spec_is_dyn(),
            r.value() == self.value() + 1,
    {
        match self {
            Size::Exact(n) => Size::Exact(n + 1),
            Size::Dyn(n) => Size::Dyn(n + 1),
        }
    }

    /// Decrement by one. The quantity must be known positive ahead of the
    /// call, so a quantity that is exactly zero can never reach this path.
    pub fn decrement(self) -> (r: Size)
        requires
            self.value() > 0,
        ensures
            r.spec_is_dyn() == self.spec_is_dyn(),
            r.value() == self.value() - 1,
    {
        match self {
            Size::Exact(n) => Size::Exact(n - 1),
            Size::Dyn(n) => Size::Dyn(n - 1),
        }
    }

    /// Decrement a dynamic quantity by one, checking for zero at the moment
    /// of use: zero has no predecessor and yields the absence indicator.
    /// An exact quantity takes the `decrement` path instead, where a zero is
    /// rejected ahead of use rather than detected afterward.
    pub fn try_decrement(self) -> (r: Option<Size>)
        requires
            self.spec_is_dyn(),
        ensures
            r is Some <==> self.value() > 0,
            r matches Some(d) ==> d is Dyn && d.value() == self.value() - 1,
    {
        let n = self.to_usize();
        if n > 0 {
            Some(Size::Dyn(n - 1))
        } else {
            None
        }
    }

    /// Add two quantities. The sum is exact only when both operands are;
    /// one dynamic operand makes the whole sum dynamic.
    pub fn add(self, other: Size) -> (r: Size)
        requires
            self.value() + other.value() <= usize::MAX,
        ensures
            r.spec_is_dyn() == (self.spec_is_dyn() || other.spec_is_dyn()),
            r.value() == self.value() + other.value(),
    {
        match (self, other) {
            (Size::Exact(m), Size::Exact(n)) => Size::Exact(m + n),
            (m, n) => Size::Dyn(m.to_usize() + n.to_usize()),
        }
    }
}

/// Conversion of a caller-supplied operand into a `Size`.
pub trait IntoSize: Sized {
    /// The size quantity the operand stands for.
    spec fn spec_size(self) -> Size;

    /// Convert the operand into its size quantity.
    fn into_size(self) -> (r: Size)
        ensures
            r == self.spec_size(),
    ;
}

/// A bare machine integer is known only at runtime: it becomes dynamic.
impl IntoSize for usize {
    open spec fn spec_size(self) -> Size {
        Size::Dyn(self)
    }

    fn into_size(self) -> (r: Size) {
        Size::Dyn(self)
    }
}

/// A size quantity stands for itself.
impl IntoSize for Size {
    open spec fn spec_size(self) -> Size {
        self
    }

    fn into_size(self) -> (r: Size) {
        self
    }
}

/// Outcome of checking an index against a container length ahead of use.
#[derive(Clone, Copy, Debug, PartialEq, Eq, Structural)]
pub enum IndexCheck {
    /// Both quantities are exact and the index satisfies the bound.
    InBounds,
    /// Both quantities are exact and the index violates the bound: no call
    /// carrying this combination can be verified.
    OutOfBounds,
    /// At least one quantity is dynamic: the check is undecidable ahead of
    /// use and must be redone against the true length at the moment of use.
    Deferred,
}

/// The index is provably within the strict bound ahead of use: both
/// quantities are exact and `index < length`.
pub open spec fn index_provably_in(length: Size, index: Size) -> bool {
    &&& !length.spec_is_dyn()
    &&& !index.spec_is_dyn()
    &&& index.value() < length.value()
}

/// The index is provably within the inclusive bound ahead of use: both
/// quantities are exact and `index <= length`, so that the position one
/// past the last element is admitted.
pub open spec fn index_provably_in_inclusive(length: Size, index: Size) -> bool {
    &&& !length.spec_is_dyn()
    &&& !index.spec_is_dyn()
    &&& index.value() <= length.value()
}

/// Decide ahead of use whether `index` satisfies the strict bound
/// `index < length`: decidable exactly when both quantities are exact.
pub fn check_index(length: Size, index: Size) -> (r: IndexCheck)
    ensures
        r is Deferred <==> (length.spec_is_dyn() || index.spec_is_dyn()),
        r is InBounds <==> index_provably_in(length, index),
        r is OutOfBounds <==> (!length.spec_is_dyn() && !index.spec_is_dyn()
            && index.value() >= length.value()),
{
    match (length, index) {
        (Size::Exact(l), Size::Exact(i)) => {
            if i < l {
                IndexCheck::InBounds
            } else {
                IndexCheck::OutOfBounds
            }
        },
        (_, _) => IndexCheck::Deferred,
    }
}

/// Decide ahead of use whether `index` satisfies the inclusive bound
/// `index <= length`: decidable exactly when both quantities are exact.
pub fn check_index_inclusive(length: Size, index: Size) -> (r: IndexCheck)
    ensures
        r is Deferred <==> (length.spec_is_dyn() || index.spec_is_dyn()),
        r is InBounds <==> index_provably_in_inclusive(length, index),
        r is OutOfBounds <==> (!length.spec_is_dyn() && !index.spec_is_dyn()
            && index.value() > length.value()),
{
    match (length, index) {
        (Size::Exact(l), Size::Exact(i)) => {
            if i <= l {
                IndexCheck::InBounds
            } else {
                IndexCheck::OutOfBounds
            }
        },
        (_, _) => IndexCheck::Deferred,
    }
}

} // verus!
