//! Range bounds for the tree's range-scan logic: a three-state comparison
//! key that is inclusive, exclusive, or unbounded above everything. The
//! ordering puts an exclusive bound just below the inclusive bound on the
//! same key, and the unbounded value above all finite bounds.

use vstd::prelude::*;

use core::cmp::Ordering;

verus! {

/// Lexicographic order of byte strings, as std orders byte slices: compare
/// element by element, and on a common prefix the shorter string comes
/// first.
pub open spec fn lex_cmp(a: Seq<u8>, b: Seq<u8>) -> Ordering
    decreases a.len(),
{
    if a.len() == 0 && b.len() == 0 {
        Ordering::Equal
    } else if a.len() == 0 {
        Ordering::Less
    } else if b.len() == 0 {
        Ordering::Greater
    } else if a[0] < b[0] {
        Ordering::Less
    } else if a[0] > b[0] {
        Ordering::Greater
    } else {
        lex_cmp(a.skip(1), b.skip(1))
    }
}

/// Compare two byte strings lexicographically.
pub fn cmp_bytes(a: &Vec<u8>, b: &Vec<u8>) -> (r: Ordering)
    ensures
        r == lex_cmp(a@, b@),
{
    let mut i: usize = 0;
    proof {
        assert(a@.skip(0) =~= a@);
        assert(b@.skip(0) =~= b@);
    }
    while i < a.len() && i < b.len()
        invariant
            i <= a@.len(),
            i <= b@.len(),
            lex_cmp(a@, b@) == lex_cmp(a@.skip(i as int), b@.skip(i as int)),
        decreases a@.len() - i,
    {
        let x = a[i];
        let y = b[i];
        proof {
            assert(a@.skip(i as int)[0] == a@[i as int]);
            assert(b@.skip(i as int)[0] == b@[i as int]);
        }
        if x < y {
            return Ordering::Less;
        }
        if x > y {
            return Ordering::Greater;
        }
        proof {
            assert(a@.skip(i as int).skip(1) =~= a@.skip(i + 1));
            assert(b@.skip(i as int).skip(1) =~= b@.skip(i + 1));
        }
        i = i + 1;
    }
    if a.len() < b.len() {
        Ordering::Less
    } else if a.len() > b.len() {
        Ordering::Greater
    } else {
        Ordering::Equal
    }
}

/// One end of a key range: bounded by a key inclusively or exclusively, or
/// unbounded.
#[derive(Clone, Debug)]
pub enum Bound {
    Inclusive(Vec<u8>),
    Exclusive(Vec<u8>),
    Inf,
}

impl Bound {
    /// The bounding key of a finite bound.
    pub open spec fn spec_inner(&self) -> Seq<u8>
        recommends
            !(self is Inf),
    {
        match self {
            Bound::Inclusive(v) => v@,
            Bound::Exclusive(v) => v@,
            Bound::Inf => Seq::<u8>::empty(),
        }
    }

    /// The bounding key of a finite bound. An unbounded value has none and
    /// is excluded by contract.
    pub fn inner(&self) -> (r: &[u8])
        requires
            !(self is Inf),
        ensures
            r@ == self.spec_inner(),
    {
        match self {
            Bound::Inclusive(v) => v.as_slice(),
            Bound::Exclusive(v) => v.as_slice(),
            Bound::Inf => vstd::pervasive::unreached(),
        }
    }

    /// The in-memory footprint this bound accounts for: the enum itself
    /// plus, for a finite bound, the key's heap bytes and the vector header.
    pub open spec fn spec_size_in_bytes(&self) -> nat {
        vstd::layout::size_of::<Bound>() + match self {
            Bound::Inclusive(v) => v@.len() + vstd::layout::size_of::<Vec<u8>>(),
            Bound::Exclusive(v) => v@.len() + vstd::layout::size_of::<Vec<u8>>(),
            Bound::Inf => 0,
        }
    }

    /// The in-memory footprint this bound accounts for.
    pub fn size_in_bytes(&self) -> (n: usize)
        requires
            self.spec_size_in_bytes() <= usize::MAX,
        ensures
            n == self.spec_size_in_bytes(),
    {
        let self_sz = core::mem::size_of::<Bound>();
        match self {
            Bound::Inclusive(v) => self_sz + v.len() + core::mem::size_of::<Vec<u8>>(),
            Bound::Exclusive(v) => self_sz + v.len() + core::mem::size_of::<Vec<u8>>(),
            Bound::Inf => self_sz,
        }
    }

    /// Where this bound stands relative to another: finite bounds order by
    /// their keys; on equal keys an exclusive bound comes before an
    /// inclusive one seen from the inclusive side; the unbounded value is
    /// above every finite bound.
    pub open spec fn spec_cmp(&self, other: &Bound) -> Ordering {
        match self {
            Bound::Inclusive(lhs) => match other {
                Bound::Inf => Ordering::Less,
                Bound::Inclusive(rhs) => lex_cmp(lhs@, rhs@),
                Bound::Exclusive(rhs) => if lex_cmp(lhs@, rhs@) == Ordering::Less {
                    Ordering::Less
                } else {
                    Ordering::Greater
                },
            },
            Bound::Exclusive(lhs) => match other {
                Bound::Inf => Ordering::Less,
                Bound::Inclusive(rhs) => if lex_cmp(lhs@, rhs@) == Ordering::Less || lex_cmp(
                    lhs@,
                    rhs@,
                ) == Ordering::Equal {
                    Ordering::Less
                } else {
                    Ordering::Greater
                },
                Bound::Exclusive(rhs) => lex_cmp(lhs@, rhs@),
            },
            Bound::Inf => match other {
                Bound::Inf => Ordering::Equal,
                Bound::Inclusive(_) => Ordering::Greater,
                Bound::Exclusive(_) => Ordering::Greater,
            },
        }
    }
}

impl PartialEq for Bound {
    fn eq(&self, other: &Bound) -> (r: bool) {
        let r = match (self, other) {
            (Bound::Inclusive(a), Bound::Inclusive(b)) => *a == *b,
            (Bound::Exclusive(a), Bound::Exclusive(b)) => *a == *b,
            (Bound::Inf, Bound::Inf) => true,
            _ => false,
        };
        proof {
            match (self, other) {
                (Bound::Inclusive(a), Bound::Inclusive(b)) => {
                    if r {
                        assert(a@ =~= b@);
                    }
                },
                (Bound::Exclusive(a), Bound::Exclusive(b)) => {
                    if r {
                        assert(a@ =~= b@);
                    }
                },
                _ => {},
            }
        }
        r
    }
}

impl vstd::std_specs::cmp::PartialEqSpecImpl for Bound {
    open spec fn obeys_eq_spec() -> bool {
        true
    }

    open spec fn eq_spec(&self, other: &Bound) -> bool {
        match (self, other) {
            (Bound::Inclusive(a), Bound::Inclusive(b)) => a@ == b@,
            (Bound::Exclusive(a), Bound::Exclusive(b)) => a@ == b@,
            (Bound::Inf, Bound::Inf) => true,
            _ => false,
        }
    }
}

impl PartialOrd for Bound {
    fn partial_cmp(&self, other: &Bound) -> (r: Option<Ordering>) {
        match self {
            Bound::Inclusive(lhs) => match other {
                Bound::Inf => Some(Ordering::Less),
                Bound::Inclusive(rhs) => Some(cmp_bytes(lhs, rhs)),
                Bound::Exclusive(rhs) => match cmp_bytes(lhs, rhs) {
                    Ordering::Less => Some(Ordering::Less),
                    _ => Some(Ordering::Greater),
                },
            },
            Bound::Exclusive(lhs) => match other {
                Bound::Inf => Some(Ordering::Less),
                Bound::Inclusive(rhs) => match cmp_bytes(lhs, rhs) {
                    Ordering::Less => Some(Ordering::Less),
                    Ordering::Equal => Some(Ordering::Less),
                    Ordering::Greater => Some(Ordering::Greater),
                },
                Bound::Exclusive(rhs) => Some(cmp_bytes(lhs, rhs)),
            },
            Bound::Inf => match other {
                Bound::Inf => Some(Ordering::Equal),
                Bound::Inclusive(_) => Some(Ordering::Greater),
                Bound::Exclusive(_) => Some(Ordering::Greater),
            },
        }
    }
}

impl vstd::std_specs::cmp::PartialOrdSpecImpl for Bound {
    open spec fn obeys_partial_cmp_spec() -> bool {
        true
    }

    open spec fn partial_cmp_spec(&self, other: &Bound) -> Option<Ordering> {
        Some(self.spec_cmp(other))
    }
}

} // verus!
