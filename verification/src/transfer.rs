//! The capability trait for ownership transfer, with its base-case
//! implementations.

use vstd::prelude::*;

verus! {

/// The capability every participating type offers: `deep_clone` snapshots a
/// value — which may hold borrowed or shared data — into the fully owned
/// counterpart type `DeepCloned`.
///
/// `deep_eq` is the structural-equality relation between a value and its
/// owned counterpart; every implementation must produce a copy that is
/// structurally equal to the original, which is the round-trip guarantee.
pub trait DeepClone {
    /// The fully owned counterpart type, free of borrowed references.
    type DeepCloned: 'static;

    /// Structural equality between a value and an owned counterpart.
    ///
    /// The default relation is trivial, so that an implementation outside
    /// this crate — in particular one whose text the generator emitted —
    /// need only supply the owned counterpart type and the operation.
    /// Every implementation in this crate overrides it with the real
    /// structural relation, and `deep_clone`'s contract is only as strong
    /// as the override.
    open spec fn deep_eq(&self, other: &Self::DeepCloned) -> bool {
        true
    }

    /// Produce an independent, fully owned copy, structurally equal to
    /// `self`.
    fn deep_clone(&self) -> (r: Self::DeepCloned)
        ensures
            self.deep_eq(&r),
    ;
}

impl DeepClone for usize {
    type DeepCloned = usize;

    open spec fn deep_eq(&self, other: &usize) -> bool {
        *self == *other
    }

    fn deep_clone(&self) -> (r: usize) {
        *self
    }
}

impl DeepClone for str {
    type DeepCloned = String;

    open spec fn deep_eq(&self, other: &String) -> bool {
        self@ == other@
    }

    fn deep_clone(&self) -> (r: String) {
        self.to_owned()
    }
}

impl DeepClone for String {
    type DeepCloned = String;

    open spec fn deep_eq(&self, other: &String) -> bool {
        self@ == other@
    }

    fn deep_clone(&self) -> (r: String) {
        self.clone()
    }
}

impl<T: DeepClone> DeepClone for [T] {
    type DeepCloned = Vec<T::DeepCloned>;

    open spec fn deep_eq(&self, other: &Vec<T::DeepCloned>) -> bool {
        &&& self@.len() == other@.len()
        &&& forall|i: int| 0 <= i < self@.len() ==> #[trigger] self@[i].deep_eq(&other@[i])
    }

    fn deep_clone(&self) -> (r: Vec<T::DeepCloned>) {
        let mut r: Vec<T::DeepCloned> = Vec::new();
        let mut i: usize = 0;
        while i < self.len()
            invariant
                i <= self@.len(),
                r@.len() == i,
                forall|k: int| 0 <= k < i ==> #[trigger] self@[k].deep_eq(&r@[k]),
            decreases self@.len() - i,
        {
            r.push(self[i].deep_clone());
            i = i + 1;
        }
        r
    }
}

impl<T: DeepClone> DeepClone for Vec<T> {
    type DeepCloned = Vec<T::DeepCloned>;

    open spec fn deep_eq(&self, other: &Vec<T::DeepCloned>) -> bool {
        &&& self@.len() == other@.len()
        &&& forall|i: int| 0 <= i < self@.len() ==> #[trigger] self@[i].deep_eq(&other@[i])
    }

    fn deep_clone(&self) -> (r: Vec<T::DeepCloned>) {
        let mut r: Vec<T::DeepCloned> = Vec::new();
        let mut i: usize = 0;
        while i < self.len()
            invariant
                i <= self@.len(),
                r@.len() == i,
                forall|k: int| 0 <= k < i ==> #[trigger] self@[k].deep_eq(&r@[k]),
            decreases self@.len() - i,
        {
            r.push(self[i].deep_clone());
            i = i + 1;
        }
        r
    }
}

impl<'a> DeepClone for std::borrow::Cow<'a, str> {
    type DeepCloned = std::borrow::Cow<'static, str>;

    open spec fn deep_eq(&self, other: &std::borrow::Cow<'static, str>) -> bool {
        self@ == other@
    }

    fn deep_clone(&self) -> (r: std::borrow::Cow<'static, str>)
        ensures
            r is Owned,
    {
        match self {
            std::borrow::Cow::Borrowed(s) => std::borrow::Cow::Owned((*s).to_owned()),
            std::borrow::Cow::Owned(s) => std::borrow::Cow::Owned(s.clone()),
        }
    }
}

} // verus!
