use vstd::prelude::*;

verus! {

/// Opaque handle to one filter condition ("restriction") owned by the planner.
pub type RestrictionHandle = usize;

/// Which filter-condition list applies to this path: the base relation's
/// restrictions when any exist, otherwise the join-derived ones. Base
/// restrictions are always safely evaluable at this scan, while join-derived
/// ones may depend on values not yet available, so base takes precedence
/// whenever both lists are populated.
pub open spec fn selected_restrictions(
    base: Seq<RestrictionHandle>,
    join: Seq<RestrictionHandle>,
) -> Seq<RestrictionHandle> {
    if base.len() > 0 {
        base
    } else {
        join
    }
}

/// Copies a list of restriction handles.
fn copy_handles(src: &Vec<RestrictionHandle>) -> (r: Vec<RestrictionHandle>)
    ensures
        r@ == src@,
{
    let mut r: Vec<RestrictionHandle> = Vec::new();
    let mut i: usize = 0;
    while i < src.len()
        invariant
            i <= src.len(),
            r@ == src@.subrange(0, i as int),
        decreases src.len() - i,
    {
        r.push(src[i]);
        i = i + 1;
        proof {
            assert(r@ =~= src@.subrange(0, i as int));
        }
    }
    proof {
        assert(src@.subrange(0, src@.len() as int) =~= src@);
    }
    r
}

/// The restriction selector: yields a copy of exactly one of the two lists —
/// the base list when non-empty, else the join list (itself possibly empty).
pub fn select_restrictions(
    base: &Vec<RestrictionHandle>,
    join: &Vec<RestrictionHandle>,
) -> (r: Vec<RestrictionHandle>)
    ensures
        r@ == selected_restrictions(base@, join@),
        base@.len() == 0 && join@.len() == 0 ==> r@.len() == 0,
        base@.len() > 0 ==> r@ == base@,
        base@.len() == 0 ==> r@ == join@,
{
    if base.len() == 0 && join.len() == 0 {
        let r: Vec<RestrictionHandle> = Vec::new();
        proof {
            assert(r@ =~= join@);
        }
        r
    } else if base.len() == 0 {
        copy_handles(join)
    } else {
        copy_handles(base)
    }
}

} // verus!
