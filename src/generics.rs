//! Smallest and largest element of a vector, over any type whose ordering
//! is transitive.

use vstd::prelude::*;
use core::cmp::Ordering;
use vstd::std_specs::cmp::PartialOrdSpec;

verus! {

/// `a < b` under the type's ordering.
pub open spec fn less<T: PartialOrd>(a: T, b: T) -> bool {
    a.partial_cmp_spec(&b) == Some(Ordering::Less)
}

/// `a > b` under the type's ordering.
pub open spec fn greater<T: PartialOrd>(a: T, b: T) -> bool {
    a.partial_cmp_spec(&b) == Some(Ordering::Greater)
}

/// The type's `<` and `>` are specified, and each is a strict weak order:
/// irreflexive, transitive, and whatever lies between two ordered values is
/// ordered against at least one of them.
pub open spec fn strict_weak_order<T: PartialOrd>() -> bool {
    &&& T::obeys_partial_cmp_spec()
    &&& forall|x: T| !less(x, x) && !greater(x, x)
    &&& forall|x: T, y: T, z: T|
        #![trigger less(x, y), less(y, z)]
        less(x, y) && less(y, z) ==> less(x, z)
    &&& forall|x: T, y: T, z: T|
        #![trigger greater(x, y), greater(y, z)]
        greater(x, y) && greater(y, z) ==> greater(x, z)
    &&& forall|x: T, y: T, z: T|
        #![trigger less(x, y), less(x, z)]
        less(x, y) ==> less(x, z) || less(z, y)
    &&& forall|x: T, y: T, z: T|
        #![trigger greater(x, y), greater(x, z)]
        greater(x, y) ==> greater(x, z) || greater(z, y)
}

/// `s[i]` is a minimum of `s`, and the first of them: nothing in `s` is
/// below it, and everything before it is above it.
pub open spec fn is_first_min<T: PartialOrd>(s: Seq<T>, i: int) -> bool {
    &&& 0 <= i < s.len()
    &&& forall|j: int| 0 <= j < s.len() ==> !less(#[trigger] s[j], s[i])
    &&& forall|j: int| 0 <= j < i ==> less(s[i], #[trigger] s[j])
}

/// `s[i]` is a maximum of `s`, and the first of them.
pub open spec fn is_first_max<T: PartialOrd>(s: Seq<T>, i: int) -> bool {
    &&& 0 <= i < s.len()
    &&& forall|j: int| 0 <= j < s.len() ==> !greater(#[trigger] s[j], s[i])
    &&& forall|j: int| 0 <= j < i ==> greater(s[i], #[trigger] s[j])
}

/// Returns the first minimum and the first maximum of `data`, or two `None`
/// when `data` is empty.
pub fn find_min_max<T: Copy + PartialOrd>(data: Vec<T>) -> (r: (Option<T>, Option<T>))
    requires
        strict_weak_order::<T>(),
    ensures
        data@.len() == 0 ==> r.0 is None && r.1 is None,
        data@.len() > 0 ==> (exists|i: int| is_first_min(data@, i) && r.0 == Some(data@[i])),
        data@.len() > 0 ==> (exists|i: int| is_first_max(data@, i) && r.1 == Some(data@[i])),
{
    if data.len() == 0 {
        return (None, None);
    }
    let mut min_at: usize = 0;
    let mut max_at: usize = 0;
    let mut min: T = data[0];
    let mut max: T = data[0];
    let mut k: usize = 1;
    assert(!less(data@[0], data@[0]) && !greater(data@[0], data@[0]));
    while k < data.len()
        invariant
            strict_weak_order::<T>(),
            1 <= k <= data@.len(),
            min_at < k,
            max_at < k,
            min == data@[min_at as int],
            max == data@[max_at as int],
            forall|j: int| 0 <= j < k ==> !less(#[trigger] data@[j], min),
            forall|j: int| 0 <= j < min_at ==> less(min, #[trigger] data@[j]),
            forall|j: int| 0 <= j < k ==> !greater(#[trigger] data@[j], max),
            forall|j: int| 0 <= j < max_at ==> greater(max, #[trigger] data@[j]),
        decreases data@.len() - k,
    {
        let elem: T = data[k];
        if elem < min {
            assert(less(elem, min));
            assert forall|j: int| 0 <= j < k implies less(elem, #[trigger] data@[j]) by {
                if j < min_at {
                    assert(less(min, data@[j]));
                }
            }
            assert forall|j: int| 0 <= j <= k implies !less(#[trigger] data@[j], elem) by {
                if j < k {
                    assert(less(elem, data@[j]));
                } else {
                    assert(!less(elem, elem));
                }
                if less(data@[j], elem) && j < k {
                    assert(less(data@[j], data@[j]));
                }
            }
            min = elem;
            min_at = k;
        }
        if elem > max {
            assert(greater(elem, max));
            assert forall|j: int| 0 <= j < k implies greater(elem, #[trigger] data@[j]) by {
                if j < max_at {
                    assert(greater(max, data@[j]));
                }
            }
            assert forall|j: int| 0 <= j <= k implies !greater(#[trigger] data@[j], elem) by {
                if j < k {
                    assert(greater(elem, data@[j]));
                } else {
                    assert(!greater(elem, elem));
                }
                if greater(data@[j], elem) && j < k {
                    assert(greater(data@[j], data@[j]));
                }
            }
            max = elem;
            max_at = k;
        }
        k = k + 1;
    }
    assert(is_first_min(data@, min_at as int));
    assert(is_first_max(data@, max_at as int));
    (Some(min), Some(max))
}

/// A person, ordered by height alone.
#[derive(PartialEq, Eq, Structural, Debug, Copy, Clone)]
pub struct Person {
    pub id: u32,
    pub height: u32,
}

impl PartialOrd for Person {
    fn partial_cmp(&self, other: &Person) -> (r: Option<Ordering>) {
        self.height.partial_cmp(&other.height)
    }
}

impl vstd::std_specs::cmp::PartialOrdSpecImpl for Person {
    open spec fn obeys_partial_cmp_spec() -> bool {
        true
    }

    open spec fn partial_cmp_spec(&self, other: &Person) -> Option<Ordering> {
        if self.height < other.height {
            Some(Ordering::Less)
        } else if self.height > other.height {
            Some(Ordering::Greater)
        } else {
            Some(Ordering::Equal)
        }
    }
}

/// Ordering people by height is a strict weak order, so `find_min_max`
/// accepts them.
pub proof fn lemma_person_order()
    ensures
        strict_weak_order::<Person>(),
{
}

} // verus!
