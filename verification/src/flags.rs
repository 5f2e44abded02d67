use vstd::prelude::*;

verus! {

/// Independent boolean capabilities a finished path advertises to the planner.
#[derive(Debug, Copy, Clone, PartialEq, Eq, Structural)]
pub enum Flags {
    /// The path can be iterated in reverse.
    BackwardScan,
    /// The path supports saving and restoring its iteration position.
    MarkRestore,
    /// The path can compute output columns itself.
    Projection,
}

/// The bit the planner assigns to each capability within a path's flag mask.
pub open spec fn flag_bit(f: Flags) -> u32 {
    match f {
        Flags::BackwardScan => 0x0001,
        Flags::MarkRestore => 0x0002,
        Flags::Projection => 0x0004,
    }
}

/// The planner-facing bitmask of a capability set: the OR of the bits of the
/// distinct flags present.
pub open spec fn mask_of(s: Set<Flags>) -> u32 {
    (if s.contains(Flags::BackwardScan) {
        flag_bit(Flags::BackwardScan)
    } else {
        0u32
    }) | (if s.contains(Flags::MarkRestore) {
        flag_bit(Flags::MarkRestore)
    } else {
        0u32
    }) | (if s.contains(Flags::Projection) {
        flag_bit(Flags::Projection)
    } else {
        0u32
    })
}

/// Deduplicated set of capability flags, viewed as a `Set<Flags>`: re-adding a
/// flag is a no-op and clearing removes all.
#[derive(Debug, Copy, Clone, PartialEq, Eq, Structural)]
pub struct FlagSet {
    pub backward_scan: bool,
    pub mark_restore: bool,
    pub projection: bool,
}

impl View for FlagSet {
    type V = Set<Flags>;

    open spec fn view(&self) -> Set<Flags> {
        Set::new(
            |f: Flags|
                match f {
                    Flags::BackwardScan => self.backward_scan,
                    Flags::MarkRestore => self.mark_restore,
                    Flags::Projection => self.projection,
                },
        )
    }
}

impl FlagSet {
    /// The empty capability set.
    pub fn empty() -> (r: FlagSet)
        ensures
            r@ == Set::<Flags>::empty(),
    {
        let r = FlagSet { backward_scan: false, mark_restore: false, projection: false };
        proof {
            assert(r@ =~= Set::<Flags>::empty());
        }
        r
    }

    /// Adds one flag; idempotent.
    pub fn insert(self, flag: Flags) -> (r: FlagSet)
        ensures
            r@ == self@.insert(flag),
    {
        let mut r = self;
        match flag {
            Flags::BackwardScan => r.backward_scan = true,
            Flags::MarkRestore => r.mark_restore = true,
            Flags::Projection => r.projection = true,
        }
        proof {
            assert(r@ =~= self@.insert(flag));
        }
        r
    }

    /// Whether the set holds the flag.
    pub fn contains(&self, flag: Flags) -> (r: bool)
        ensures
            r == self@.contains(flag),
    {
        match flag {
            Flags::BackwardScan => self.backward_scan,
            Flags::MarkRestore => self.mark_restore,
            Flags::Projection => self.projection,
        }
    }

    /// Folds the set into the planner's single capability bitmask.
    pub fn mask(&self) -> (r: u32)
        ensures
            r == mask_of(self@),
    {
        let b: u32 = if self.backward_scan {
            1
        } else {
            0
        };
        let m: u32 = if self.mark_restore {
            2
        } else {
            0
        };
        let p: u32 = if self.projection {
            4
        } else {
            0
        };
        (b | m) | p
    }
}

/// The flag set that results from applying a sequence of single-flag
/// insertions, oldest call first, to an initially empty set.
pub open spec fn flags_after(calls: Seq<Flags>) -> Set<Flags>
    decreases calls.len(),
{
    if calls.len() == 0 {
        Set::empty()
    } else {
        flags_after(calls.drop_last()).insert(calls.last())
    }
}

/// Law: after any sequence of flag insertions the flag set is exactly the set
/// of distinct flags named by the calls — so the mask built from it is the OR
/// of the distinct flags' bits, independent of call order and of duplicates.
pub proof fn lemma_flags_after_is_distinct_set(calls: Seq<Flags>)
    ensures
        flags_after(calls) == calls.to_set(),
    decreases calls.len(),
{
    if calls.len() == 0 {
        assert(flags_after(calls) =~= calls.to_set());
    } else {
        lemma_flags_after_is_distinct_set(calls.drop_last());
        assert forall|f: Flags| flags_after(calls).contains(f) implies calls.to_set().contains(
            f,
        ) by {
            if f == calls.last() {
                assert(calls[calls.len() - 1] == f);
            } else {
                let i = choose|i: int|
                    0 <= i < calls.drop_last().len() && calls.drop_last()[i] == f;
                assert(calls[i] == f);
            }
        }
        assert forall|f: Flags| calls.to_set().contains(f) implies flags_after(calls).contains(
            f,
        ) by {
            let i = choose|i: int| 0 <= i < calls.len() && calls[i] == f;
            if i < calls.len() - 1 {
                assert(calls.drop_last()[i] == f);
            }
        }
        assert(flags_after(calls) =~= calls.to_set());
    }
}

/// Law: inserting two flags yields the same set in either order.
pub proof fn lemma_set_flag_order_irrelevant(s: Set<Flags>, f: Flags, g: Flags)
    ensures
        s.insert(f).insert(g) == s.insert(g).insert(f),
{
    assert(s.insert(f).insert(g) =~= s.insert(g).insert(f));
}

/// Law: inserting a flag twice yields the same set as inserting it once.
pub proof fn lemma_set_flag_idempotent(s: Set<Flags>, f: Flags)
    ensures
        s.insert(f).insert(f) == s.insert(f),
{
    assert(s.insert(f).insert(f) =~= s.insert(f));
}

/// Law: an empty capability set folds to a zero mask.
pub proof fn lemma_empty_flags_zero_mask()
    ensures
        mask_of(Set::<Flags>::empty()) == 0,
{
    assert((0u32 | 0u32) | 0u32 == 0u32) by (bit_vector);
}

} // verus!
