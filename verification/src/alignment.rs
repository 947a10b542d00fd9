//! The alignment lattice: a closed set of memory-alignment classes with a
//! merge operator that tracks the strongest alignment requirement seen so
//! far across the members of a struct, in declaration order.
//!
//! `Bool` and `Ptr` have no portable byte value; their size is known only
//! to the target compiler, so each class carries a C rendering that is
//! used verbatim in emitted code instead of a computed number.
use vstd::prelude::*;

verus! {

/// One memory-alignment class of the target C ABI.
#[derive(Clone, Copy, PartialEq, Eq, Structural, Debug)]
pub enum AlignmentType {
    One,
    Bool,
    OneOrBool,
    Two,
    TwoOrBool,
    Four,
    Ptr,
    Eight,
}

/// The fixed byte value of an alignment class; 0 where the value is
/// platform dependent (`Bool`, `OneOrBool`, `TwoOrBool`, `Ptr`).
pub open spec fn spec_value(t: AlignmentType) -> u32 {
    match t {
        AlignmentType::One => 1,
        AlignmentType::Bool => 0,
        AlignmentType::OneOrBool => 0,
        AlignmentType::Two => 2,
        AlignmentType::TwoOrBool => 0,
        AlignmentType::Four => 4,
        AlignmentType::Ptr => 0,
        AlignmentType::Eight => 8,
    }
}

/// The total-order rank of an alignment class, used by `merge` to pick
/// the stronger of two classes.
pub open spec fn spec_ordering(t: AlignmentType) -> u32 {
    match t {
        AlignmentType::One => 0,
        AlignmentType::Bool => 0,
        AlignmentType::OneOrBool => 1,
        AlignmentType::Two => 2,
        AlignmentType::TwoOrBool => 3,
        AlignmentType::Four => 4,
        AlignmentType::Ptr => 6,
        AlignmentType::Eight => 8,
    }
}

/// The C expression that renders an alignment class in emitted code.
pub open spec fn spec_rendering(t: AlignmentType) -> Seq<char> {
    match t {
        AlignmentType::One => "1u"@,
        AlignmentType::Bool => "sizeof(bool)"@,
        AlignmentType::OneOrBool => "(sizeof(bool)>1u)?sizeof(bool):1u)"@,
        AlignmentType::Two => "2u"@,
        AlignmentType::TwoOrBool => "(sizeof(bool)>2u)?sizeof(bool):2u"@,
        AlignmentType::Four => "4u"@,
        AlignmentType::Ptr => "sizeof (char *)"@,
        AlignmentType::Eight => "8u"@,
    }
}

/// The merge of two alignment classes, written `merge(current, next)`.
///
/// Merging `Bool` into `One` gives `OneOrBool` and into `Two` gives
/// `TwoOrBool`; into anything else it leaves the current class unchanged,
/// because a bool's platform-dependent size cannot enlarge an alignment
/// that is already at least four. For any other right operand the class
/// with the strictly larger rank wins, the left operand on a tie.
pub open spec fn merge(a: AlignmentType, b: AlignmentType) -> AlignmentType {
    if b is Bool {
        if a is One {
            AlignmentType::OneOrBool
        } else if a is Two {
            AlignmentType::TwoOrBool
        } else {
            a
        }
    } else if spec_ordering(b) > spec_ordering(a) {
        b
    } else {
        a
    }
}

/// An alignment class together with its byte value, its merge rank, and
/// its C rendering. Built only by `Alignment::new`, which keeps the three
/// derived fields consistent with the class (`wf`).
#[derive(Clone, Copy)]
pub struct Alignment {
    alignment: AlignmentType,
    value: u32,
    ordering: u32,
    rendering: &'static str,
}

impl Alignment {
    /// The alignment class this record describes.
    pub closed spec fn alignment_type(self) -> AlignmentType {
        self.alignment
    }

    /// The stored byte value.
    pub closed spec fn value_spec(self) -> u32 {
        self.value
    }

    /// The stored merge rank.
    pub closed spec fn ordering_spec(self) -> u32 {
        self.ordering
    }

    /// The stored C rendering.
    pub closed spec fn rendering_spec(self) -> Seq<char> {
        self.rendering@
    }

    /// The derived fields agree with the alignment class.
    pub open spec fn wf(self) -> bool {
        &&& self.value_spec() == spec_value(self.alignment_type())
        &&& self.ordering_spec() == spec_ordering(self.alignment_type())
        &&& self.rendering_spec() == spec_rendering(self.alignment_type())
    }

    /// The canonical record of an alignment class.
    pub fn new(alignment: AlignmentType) -> (r: Self)
        ensures
            r.alignment_type() == alignment,
            r.wf(),
    {
        match alignment {
            AlignmentType::One => Alignment {
                alignment,
                value: 1,
                ordering: 0,
                rendering: "1u",
            },
            AlignmentType::Bool => Alignment {
                alignment,
                value: 0,
                ordering: 0,
                rendering: "sizeof(bool)",
            },
            AlignmentType::OneOrBool => Alignment {
                alignment,
                value: 0,
                ordering: 1,
                rendering: "(sizeof(bool)>1u)?sizeof(bool):1u)",
            },
            AlignmentType::Two => Alignment {
                alignment,
                value: 2,
                ordering: 2,
                rendering: "2u",
            },
            AlignmentType::TwoOrBool => Alignment {
                alignment,
                value: 0,
                ordering: 3,
                rendering: "(sizeof(bool)>2u)?sizeof(bool):2u",
            },
            AlignmentType::Four => Alignment {
                alignment,
                value: 4,
                ordering: 4,
                rendering: "4u",
            },
            AlignmentType::Ptr => Alignment {
                alignment,
                value: 0,
                ordering: 6,
                rendering: "sizeof (char *)",
            },
            AlignmentType::Eight => Alignment {
                alignment,
                value: 8,
                ordering: 8,
                rendering: "8u",
            },
        }
    }

    /// The byte value of the class, 0 where platform dependent.
    pub fn get_value(&self) -> (r: i32)
        ensures
            r == self.value_spec() as i32,
    {
        self.value as i32
    }

    /// The merge rank of the class.
    pub fn get_ordering(&self) -> (r: i32)
        ensures
            r == self.ordering_spec() as i32,
    {
        self.ordering as i32
    }

    /// The C rendering of the class, used verbatim in emitted code.
    pub fn to_str(&self) -> (r: &'static str)
        ensures
            r@ == self.rendering_spec(),
    {
        self.rendering
    }

    /// Merge another class into this one; used as a left fold
    /// `current.maximum(next_member)` over a struct's members.
    pub fn maximum(self, rhs: Self) -> (r: Self)
        requires
            self.wf(),
            rhs.wf(),
        ensures
            r.wf(),
            r.alignment_type() == merge(self.alignment_type(), rhs.alignment_type()),
    {
        if rhs.alignment == AlignmentType::Bool {
            if self.alignment == AlignmentType::One {
                Alignment::new(AlignmentType::OneOrBool)
            } else if self.alignment == AlignmentType::Two {
                Alignment::new(AlignmentType::TwoOrBool)
            } else {
                self
            }
        } else {
            if rhs.ordering > self.ordering {
                rhs
            } else {
                self
            }
        }
    }
}

/// The left fold of `merge` over a non-empty sequence of classes,
/// starting from its first element.
pub open spec fn merge_fold(s: Seq<AlignmentType>) -> AlignmentType
    recommends
        s.len() > 0,
    decreases s.len(),
{
    if s.len() <= 1 {
        s[0]
    } else {
        merge(merge_fold(s.drop_last()), s.last())
    }
}

/// No element of the sequence is the `Bool` class.
pub open spec fn no_bool(s: Seq<AlignmentType>) -> bool {
    forall|i: int| 0 <= i < s.len() ==> !(s[i] is Bool)
}

/// Among the classes other than `Bool`, the merge rank identifies the
/// class: two non-`Bool` classes with the same rank are the same class.
pub proof fn lemma_rank_identifies_class(a: AlignmentType, b: AlignmentType)
    requires
        !(a is Bool),
        !(b is Bool),
        spec_ordering(a) == spec_ordering(b),
    ensures
        a == b,
{
}

/// Merging a sequence of non-`Bool` classes yields an element of the
/// sequence whose merge rank is the maximum over the whole sequence.
pub proof fn lemma_merge_fold_is_max(s: Seq<AlignmentType>)
    requires
        s.len() > 0,
        no_bool(s),
    ensures
        s.contains(merge_fold(s)),
        forall|i: int| 0 <= i < s.len() ==> spec_ordering(s[i]) <= spec_ordering(merge_fold(s)),
    decreases s.len(),
{
    if s.len() > 1 {
        lemma_merge_fold_is_max(s.drop_last());
        assert(s.drop_last().contains(merge_fold(s.drop_last())));
        let j = choose|j: int|
            0 <= j < s.drop_last().len() && s.drop_last()[j] == merge_fold(s.drop_last());
        assert(s[j] == merge_fold(s.drop_last()));
        if merge_fold(s) == s.last() {
            assert(s[s.len() - 1] == merge_fold(s));
        } else {
            assert(merge_fold(s) == merge_fold(s.drop_last()));
        }
        assert(forall|i: int|
            0 <= i < s.len() - 1 ==> s.drop_last()[i] == s[i]);
    }
}

/// Merging a sequence of non-`Bool` classes does not depend on their
/// order: two sequences holding the same classes the same number of
/// times merge to the same class.
pub proof fn lemma_merge_fold_order_independent(s1: Seq<AlignmentType>, s2: Seq<AlignmentType>)
    requires
        s1.len() > 0,
        no_bool(s1),
        s1.to_multiset() == s2.to_multiset(),
    ensures
        merge_fold(s1) == merge_fold(s2),
{
    s1.to_multiset_ensures();
    s2.to_multiset_ensures();
    assert(s2.len() == s1.len());
    assert(no_bool(s2)) by {
        assert forall|i: int| 0 <= i < s2.len() implies !(s2[i] is Bool) by {
            assert(s2.to_multiset().count(s2[i]) > 0);
            assert(s1.contains(s2[i]));
        }
    }
    lemma_merge_fold_is_max(s1);
    lemma_merge_fold_is_max(s2);
    let m1 = merge_fold(s1);
    let m2 = merge_fold(s2);
    assert(s2.to_multiset().count(m1) > 0);
    assert(s2.contains(m1));
    assert(s1.to_multiset().count(m2) > 0);
    assert(s1.contains(m2));
    assert(spec_ordering(m1) <= spec_ordering(m2));
    assert(spec_ordering(m2) <= spec_ordering(m1));
    lemma_rank_identifies_class(m1, m2);
}

} // verus!
