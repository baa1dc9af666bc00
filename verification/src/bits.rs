//! Sets of numbers, kept as bit fields or as sorted lists.
use fvm_ipld_bitfield::BitField;
use vstd::prelude::*;

use crate::bytes::ActorID;

verus! {

/// `BitField` of `fvm_ipld_bitfield`: a set of numbers below `u64::MAX`.
#[verifier::external_type_specification]
#[verifier::external_body]
pub struct ExBitField(BitField);

/// The numbers that a bit field holds.
pub uninterp spec fn held_bits(field: BitField) -> Set<u64>;

/// `BitField::new` of `fvm_ipld_bitfield`. It claims that the new field holds nothing.
#[verifier::external_body]
pub(crate) fn no_bits() -> (r: BitField)
    ensures
        held_bits(r) == Set::<u64>::empty(),
{
    BitField::new()
}

/// `BitField::set` of `fvm_ipld_bitfield`, which panics on `u64::MAX`. It claims that the number is
/// then held, and that nothing else changes.
#[verifier::external_body]
pub(crate) fn set_bit(field: &mut BitField, bit: u64)
    requires
        bit < u64::MAX,
    ensures
        held_bits(*final(field)) == held_bits(*old(field)).insert(bit),
{
    field.set(bit)
}

/// `BitField::unset` of `fvm_ipld_bitfield`. It claims that the number is then not held, and that
/// nothing else changes; `u64::MAX` never is.
#[verifier::external_body]
pub(crate) fn unset_bit(field: &mut BitField, bit: u64)
    ensures
        held_bits(*final(field)) == held_bits(*old(field)).remove(bit),
{
    field.unset(bit)
}

/// `BitField::get` of `fvm_ipld_bitfield`. It claims that the result says whether the number is
/// held.
#[verifier::external_body]
pub(crate) fn get_bit(field: &BitField, bit: u64) -> (r: bool)
    ensures
        r == held_bits(*field).contains(bit),
{
    field.get(bit)
}

/// `BitField::is_empty` of `fvm_ipld_bitfield`. It claims that the result says whether nothing is
/// held.
#[verifier::external_body]
pub(crate) fn bits_are_empty(field: &BitField) -> (r: bool)
    ensures
        r == (held_bits(*field) == Set::<u64>::empty()),
{
    field.is_empty()
}

/// `BitField::iter` of `fvm_ipld_bitfield`. It claims that the result holds each number once, the
/// smallest first; `u64::MAX` is never among them.
#[verifier::external_body]
pub(crate) fn listed_bits(field: &BitField) -> (r: Vec<u64>)
    ensures
        ascending(r@),
        r@.to_set() == held_bits(*field),
        forall|i: int| 0 <= i < r@.len() ==> r@[i] < u64::MAX,
{
    field.iter().collect()
}

/// `BitField::clone` of `fvm_ipld_bitfield`. It claims that the copy holds the same numbers.
#[verifier::external_body]
pub(crate) fn copied_bits(field: &BitField) -> (r: BitField)
    ensures
        held_bits(r) == held_bits(*field),
{
    field.clone()
}

/// Whether numbers are in strictly rising order: sorted, and none twice.
pub open spec fn ascending(list: Seq<u64>) -> bool {
    forall|i: int, j: int| 0 <= i < j < list.len() ==> list[i] < list[j]
}

/// The operators that have been authorised.
pub trait OperatorSet {
    /// The operators.
    spec fn members(&self) -> Set<ActorID>;

    /// The set is in the form that the operations rely on.
    spec fn ordered(&self) -> bool;

    /// Whether an operator can be in the set at all.
    spec fn admits(operator: ActorID) -> bool;

    /// Attempts to add the operator to the authorised list.
    fn add_operator(&mut self, operator: ActorID)
        requires
            old(self).ordered(),
            Self::admits(operator),
        ensures
            final(self).ordered(),
            final(self).members() == old(self).members().insert(operator),
    ;

    /// Removes the operator from the authorised list.
    fn remove_operator(&mut self, operator: &ActorID)
        requires
            old(self).ordered(),
        ensures
            final(self).ordered(),
            final(self).members() == old(self).members().remove(*operator),
    ;

    /// Checks if the operator is present in the list.
    fn contains_actor(&self, operator: &ActorID) -> (r: bool)
        requires
            self.ordered(),
        ensures
            r == self.members().contains(*operator),
    ;
}

impl OperatorSet for BitField {
    open spec fn members(&self) -> Set<ActorID> {
        held_bits(*self)
    }

    open spec fn ordered(&self) -> bool {
        true
    }

    open spec fn admits(operator: ActorID) -> bool {
        operator < u64::MAX
    }

    fn add_operator(&mut self, operator: ActorID) {
        set_bit(self, operator);
    }

    fn remove_operator(&mut self, operator: &ActorID) {
        unset_bit(self, *operator);
    }

    fn contains_actor(&self, operator: &ActorID) -> (r: bool) {
        get_bit(self, *operator)
    }
}

/// The position at which a number stands in a sorted list, or where it would have to be put.
fn position(list: &Vec<u64>, id: u64) -> (r: Result<usize, usize>)
    requires
        ascending(list@),
    ensures
        r is Ok ==> r->Ok_0 < list.len() && list[r->Ok_0 as int] == id,
        r is Err ==> r->Err_0 <= list.len() && !list@.contains(id),
        r is Err ==> forall|i: int| 0 <= i < r->Err_0 ==> list[i] < id,
        r is Err ==> forall|i: int| r->Err_0 <= i < list.len() ==> list[i] > id,
{
    let mut low: usize = 0;
    let mut high: usize = list.len();
    while low < high
        invariant
            low <= high <= list.len(),
            ascending(list@),
            forall|i: int| 0 <= i < low ==> list[i] < id,
            forall|i: int| high <= i < list.len() ==> list[i] > id,
        decreases high - low,
    {
        let middle: usize = low + (high - low) / 2;
        if list[middle] == id {
            return Ok(middle);
        } else if list[middle] < id {
            low = middle + 1;
        } else {
            high = middle;
        }
    }
    Err(low)
}

/// Maintains set-like invariants in-memory by maintaining sorted order of the underlying array.
///
/// Insertion and deletion are O(n) operations but we expect operator lists to be a relatively
/// small size.
impl OperatorSet for Vec<ActorID> {
    open spec fn members(&self) -> Set<ActorID> {
        self@.to_set()
    }

    open spec fn ordered(&self) -> bool {
        ascending(self@)
    }

    open spec fn admits(operator: ActorID) -> bool {
        true
    }

    fn add_operator(&mut self, operator: ActorID) {
        let ghost before = self@;
        if let Err(at) = position(self, operator) {
            self.insert(at, operator);
            proof {
                assert forall|x: u64| #[trigger] self@.to_set().contains(x) == before.to_set().insert(
                    operator,
                ).contains(x) by {
                    if before.contains(x) {
                        let i = choose|i: int| 0 <= i < before.len() && before[i] == x;
                        assert(self@[if i < at { i } else { i + 1 }] == x);
                    }
                    if self@.contains(x) {
                        let i = choose|i: int| 0 <= i < self@.len() && self@[i] == x;
                        if i != at {
                            assert(before[if i < at { i } else { i - 1 }] == x);
                        }
                    }
                    assert(self@[at as int] == operator);
                }
                assert(self@.to_set() =~= before.to_set().insert(operator));
            }
        } else {
            assert(before.to_set().contains(operator));
            assert(before.to_set() =~= before.to_set().insert(operator));
        }
    }

    fn remove_operator(&mut self, operator: &ActorID) {
        let ghost before = self@;
        if let Ok(at) = position(self, *operator) {
            self.remove(at);
            proof {
                assert forall|x: u64| #[trigger] self@.to_set().contains(x) == before.to_set().remove(
                    *operator,
                ).contains(x) by {
                    if before.contains(x) && x != *operator {
                        let i = choose|i: int| 0 <= i < before.len() && before[i] == x;
                        assert(self@[if i < at { i } else { i - 1 }] == x);
                    }
                    if self@.contains(x) {
                        let i = choose|i: int| 0 <= i < self@.len() && self@[i] == x;
                        assert(before[if i < at { i } else { i + 1 }] == x);
                    }
                }
                assert(self@.to_set() =~= before.to_set().remove(*operator));
            }
        } else {
            assert(!before.to_set().contains(*operator));
            assert(before.to_set() =~= before.to_set().remove(*operator));
        }
    }

    fn contains_actor(&self, operator: &ActorID) -> (r: bool) {
        match position(self, *operator) {
            Ok(at) => {
                assert(self@.contains(*operator));
                true
            },
            Err(_) => false,
        }
    }
}

/// Adding an operator that is already there changes nothing.
pub proof fn adding_twice_is_adding_once(members: Set<ActorID>, operator: ActorID)
    ensures
        members.insert(operator).insert(operator) == members.insert(operator),
{
    assert(members.insert(operator).insert(operator) =~= members.insert(operator));
}

/// Removing an operator right after adding it leaves the set without it.
pub proof fn removing_undoes_adding(members: Set<ActorID>, operator: ActorID)
    ensures
        members.insert(operator).remove(operator) == members.remove(operator),
        !members.insert(operator).remove(operator).contains(operator),
{
    assert(members.insert(operator).remove(operator) =~= members.remove(operator));
}

/// An operator that was added is found, one that was removed is not, and all others are found where they
/// were found before.
pub proof fn an_operator_is_found_until_removed<T: OperatorSet>(
    set: &mut T,
    other: &mut T,
    operator: ActorID,
    x: ActorID,
    before: bool,
    added: bool,
    removed: bool,
)
    requires
        old(set).ordered(),
        T::admits(operator),
        *old(other) == *old(set),
        call_ensures(T::contains_actor, (&*old(set), &x), before),
        call_ensures(T::add_operator, (set, operator), ()),
        call_ensures(T::contains_actor, (&*final(set), &x), added),
        call_ensures(T::remove_operator, (other, &operator), ()),
        call_ensures(T::contains_actor, (&*final(other), &x), removed),
    ensures
        added == (before || x == operator),
        removed == (before && x != operator),
{
}

} // verus!
