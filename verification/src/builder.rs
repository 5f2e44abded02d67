use vstd::prelude::*;

use crate::flags::{mask_of, FlagSet, Flags};
use crate::order_by::{OrderByStyle, PathKey};
use crate::restriction::{select_restrictions, selected_restrictions, RestrictionHandle};
use crate::rounding::{clamp_to_i32, round_millis, round_millis_to_i32};

verus! {

/// Opaque handle to a nested candidate path owned by the host planner.
pub type PathHandle = usize;

/// Global planning state this component reads. The row-limit hint is carried
/// in thousandths of a row, so common decimal hints stay exact; a negative
/// hint means the planner knows of no limit.
pub struct PlannerRoot {
    pub limit_hint_millis: i64,
}

/// The relation being scanned: an opaque handle identifying it, its
/// output-column target, and its two filter-condition lists.
pub struct RelationInfo {
    pub handle: usize,
    pub target: usize,
    pub base_restrictions: Vec<RestrictionHandle>,
    pub join_restrictions: Vec<RestrictionHandle>,
}

/// Range-table entry identifying the scanned relation within the query.
#[derive(Debug, Copy, Clone, PartialEq, Eq, Structural)]
pub struct RangeTableEntry {
    pub handle: usize,
}

/// Planning context the builder is seeded from, valid for one planning call.
pub struct Args {
    pub root: PlannerRoot,
    pub rel: RelationInfo,
    pub rti: u32,
    pub rte: RangeTableEntry,
}

impl Args {
    /// The global planning state.
    pub fn root(&self) -> (r: &PlannerRoot)
        ensures
            r == &self.root,
    {
        &self.root
    }

    /// The relation being scanned.
    pub fn rel(&self) -> (r: &RelationInfo)
        ensures
            r == &self.rel,
    {
        &self.rel
    }

    /// The range-table entry of the scanned relation.
    pub fn rte(&self) -> (r: &RangeTableEntry)
        ensures
            r == &self.rte,
    {
        &self.rte
    }
}

/// The finished candidate-path descriptor handed to the planner: immutable
/// once produced by `build`.
pub struct CandidatePathDescriptor {
    /// The relation this path scans.
    pub parent: usize,
    /// The path's output-column target, taken from the relation.
    pub target: usize,
    /// Cardinality estimate, thousandths of a row; the builder keeps it
    /// nonnegative.
    pub rows_millis: i64,
    /// Cost to produce the first row, thousandths of a cost unit.
    pub startup_cost_millis: i64,
    /// Cost to produce all rows, thousandths of a cost unit.
    pub total_cost_millis: i64,
    /// Requested sort order the path satisfies, most-significant key first.
    pub sort_keys: Vec<PathKey>,
    /// Capability bitmask: the OR of the advertised flags' bits.
    pub flags_mask: u32,
    /// Nested candidate paths this path subsumes; order is caller-significant.
    pub sub_paths: Vec<PathHandle>,
    /// Engine-specific payload in a structural form the planner can traverse.
    pub custom_private: Vec<u64>,
}

/// Fluent assembler of one candidate path. Every setter consumes the builder
/// and returns the updated one, and `build` consumes it for good, so a stale
/// intermediate state or an already-built builder cannot be reused.
pub struct CustomPathBuilder {
    pub args: Args,
    pub flags: FlagSet,
    pub rows_millis: i64,
    pub startup_cost_millis: i64,
    pub total_cost_millis: i64,
    pub sort_keys: Vec<PathKey>,
    pub custom_paths: Vec<PathHandle>,
    pub custom_private: Vec<u64>,
}

impl CustomPathBuilder {
    /// Well-formedness: the cardinality estimate is never negative.
    pub open spec fn wf(&self) -> bool {
        self.rows_millis >= 0
    }

    /// Seeds a builder from the planning context: default (zero) costs and
    /// rows, no flags, no sort keys, no sub-paths, an empty payload.
    pub fn new(root: PlannerRoot, rel: RelationInfo, rti: u32, rte: RangeTableEntry) -> (r:
        CustomPathBuilder)
        ensures
            r.args.root == root,
            r.args.rel == rel,
            r.args.rti == rti,
            r.args.rte == rte,
            r.flags@ == Set::<Flags>::empty(),
            r.rows_millis == 0,
            r.startup_cost_millis == 0,
            r.total_cost_millis == 0,
            r.sort_keys@ == Seq::<PathKey>::empty(),
            r.custom_paths@ == Seq::<PathHandle>::empty(),
            r.custom_private@ == Seq::<u64>::empty(),
            r.wf(),
    {
        let r = CustomPathBuilder {
            args: Args { root, rel, rti, rte },
            flags: FlagSet::empty(),
            rows_millis: 0,
            startup_cost_millis: 0,
            total_cost_millis: 0,
            sort_keys: Vec::new(),
            custom_paths: Vec::new(),
            custom_private: Vec::new(),
        };
        proof {
            assert(r.sort_keys@ =~= Seq::<PathKey>::empty());
            assert(r.custom_paths@ =~= Seq::<PathHandle>::empty());
            assert(r.custom_private@ =~= Seq::<u64>::empty());
        }
        r
    }

    /// The planning context the builder was seeded from.
    pub fn args(&self) -> (r: &Args)
        ensures
            r == &self.args,
    {
        &self.args
    }

    /// The filter conditions this path should be costed against, chosen by the
    /// restriction selector from the seeded relation's two lists.
    pub fn restrict_info(&self) -> (r: Vec<RestrictionHandle>)
        ensures
            r@ == selected_restrictions(
                self.args.rel.base_restrictions@,
                self.args.rel.join_restrictions@,
            ),
    {
        select_restrictions(&self.args.rel.base_restrictions, &self.args.rel.join_restrictions)
    }

    /// The output-column target of the scanned relation.
    pub fn path_target(&self) -> (r: usize)
        ensures
            r == self.args.rel.target,
    {
        self.args.rel.target
    }

    /// The planner's global row-limit hint, rounded to the nearest whole row
    /// (ties away from zero) and saturated to the `i32` range.
    pub fn limit(&self) -> (r: i32)
        ensures
            r as int == clamp_to_i32(round_millis(self.args.root.limit_hint_millis as int)),
    {
        round_millis_to_i32(self.args.root.limit_hint_millis)
    }

    /// Empties the capability-flag set; idempotent.
    pub fn clear_flags(self) -> (r: Self)
        ensures
            r.flags@ == Set::<Flags>::empty(),
            r.args == self.args,
            r.rows_millis == self.rows_millis,
            r.startup_cost_millis == self.startup_cost_millis,
            r.total_cost_millis == self.total_cost_millis,
            r.sort_keys@ == self.sort_keys@,
            r.custom_paths@ == self.custom_paths@,
            r.custom_private@ == self.custom_private@,
    {
        let mut r = self;
        r.flags = FlagSet::empty();
        r
    }

    /// Adds one capability flag; re-adding a flag is a no-op.
    pub fn set_flag(self, flag: Flags) -> (r: Self)
        ensures
            r.flags@ == self.flags@.insert(flag),
            r.args == self.args,
            r.rows_millis == self.rows_millis,
            r.startup_cost_millis == self.startup_cost_millis,
            r.total_cost_millis == self.total_cost_millis,
            r.sort_keys@ == self.sort_keys@,
            r.custom_paths@ == self.custom_paths@,
            r.custom_private@ == self.custom_private@,
    {
        let mut r = self;
        r.flags = r.flags.insert(flag);
        r
    }

    /// Appends one sub-path handle to the end of the ordered sub-path list.
    pub fn add_custom_path(self, path: PathHandle) -> (r: Self)
        ensures
            r.custom_paths@ == self.custom_paths@.push(path),
            r.args == self.args,
            r.flags@ == self.flags@,
            r.rows_millis == self.rows_millis,
            r.startup_cost_millis == self.startup_cost_millis,
            r.total_cost_millis == self.total_cost_millis,
            r.sort_keys@ == self.sort_keys@,
            r.custom_private@ == self.custom_private@,
    {
        let mut r = self;
        r.custom_paths.push(path);
        r
    }

    /// Mutable access to the opaque private payload, for its incremental
    /// population prior to build; everything else in the builder stays as it
    /// was.
    pub fn custom_private(&mut self) -> (r: &mut Vec<u64>)
        ensures
            *r == old(self).custom_private,
            final(self).custom_private == *final(r),
            final(self).args == old(self).args,
            final(self).flags == old(self).flags,
            final(self).rows_millis == old(self).rows_millis,
            final(self).startup_cost_millis == old(self).startup_cost_millis,
            final(self).total_cost_millis == old(self).total_cost_millis,
            final(self).sort_keys == old(self).sort_keys,
            final(self).custom_paths == old(self).custom_paths,
    {
        &mut self.custom_private
    }

    /// Overwrites the cardinality estimate (thousandths of a row); the last
    /// write wins. The estimate must not be negative.
    pub fn set_rows(self, rows: i64) -> (r: Self)
        requires
            rows >= 0,
        ensures
            r.rows_millis == rows,
            r.wf(),
            r.args == self.args,
            r.flags@ == self.flags@,
            r.startup_cost_millis == self.startup_cost_millis,
            r.total_cost_millis == self.total_cost_millis,
            r.sort_keys@ == self.sort_keys@,
            r.custom_paths@ == self.custom_paths@,
            r.custom_private@ == self.custom_private@,
    {
        let mut r = self;
        r.rows_millis = rows;
        r
    }

    /// Overwrites the startup cost (thousandths of a cost unit); the last
    /// write wins.
    pub fn set_startup_cost(self, cost: i64) -> (r: Self)
        ensures
            r.startup_cost_millis == cost,
            r.args == self.args,
            r.flags@ == self.flags@,
            r.rows_millis == self.rows_millis,
            r.total_cost_millis == self.total_cost_millis,
            r.sort_keys@ == self.sort_keys@,
            r.custom_paths@ == self.custom_paths@,
            r.custom_private@ == self.custom_private@,
    {
        let mut r = self;
        r.startup_cost_millis = cost;
        r
    }

    /// Overwrites the total cost (thousandths of a cost unit); the last write
    /// wins.
    pub fn set_total_cost(self, cost: i64) -> (r: Self)
        ensures
            r.total_cost_millis == cost,
            r.args == self.args,
            r.flags@ == self.flags@,
            r.rows_millis == self.rows_millis,
            r.startup_cost_millis == self.startup_cost_millis,
            r.sort_keys@ == self.sort_keys@,
            r.custom_paths@ == self.custom_paths@,
            r.custom_private@ == self.custom_private@,
    {
        let mut r = self;
        r.total_cost_millis = cost;
        r
    }

    /// With `Some(style)`, appends the style's descriptor to the end of the
    /// sort-key list; with `None`, leaves the list unchanged, so a caller can
    /// contribute an ordering conditionally without branching.
    pub fn add_path_key(self, pathkey: &Option<OrderByStyle>) -> (r: Self)
        ensures
            (match pathkey {
                Some(style) => r.sort_keys@ == self.sort_keys@.push(style.spec_pathkey()),
                None => r.sort_keys@ == self.sort_keys@,
            }),
            r.args == self.args,
            r.flags@ == self.flags@,
            r.rows_millis == self.rows_millis,
            r.startup_cost_millis == self.startup_cost_millis,
            r.total_cost_millis == self.total_cost_millis,
            r.custom_paths@ == self.custom_paths@,
            r.custom_private@ == self.custom_private@,
    {
        let mut r = self;
        match pathkey {
            Some(style) => {
                let pk = style.pathkey();
                r.sort_keys.push(pk);
            },
            None => {},
        }
        r
    }

    /// Terminal step: folds the flag set into the planner's capability bitmask
    /// and freezes the accumulated state into an immutable descriptor. The
    /// builder is consumed — it is single-use, so building twice from one
    /// configured state is ruled out at the type level.
    pub fn build(self) -> (r: CandidatePathDescriptor)
        ensures
            r.parent == self.args.rel.handle,
            r.target == self.args.rel.target,
            r.rows_millis == self.rows_millis,
            r.startup_cost_millis == self.startup_cost_millis,
            r.total_cost_millis == self.total_cost_millis,
            r.sort_keys@ == self.sort_keys@,
            r.flags_mask == mask_of(self.flags@),
            r.sub_paths@ == self.custom_paths@,
            r.custom_private@ == self.custom_private@,
    {
        let mask = self.flags.mask();
        CandidatePathDescriptor {
            parent: self.args.rel.handle,
            target: self.args.rel.target,
            rows_millis: self.rows_millis,
            startup_cost_millis: self.startup_cost_millis,
            total_cost_millis: self.total_cost_millis,
            sort_keys: self.sort_keys,
            flags_mask: mask,
            sub_paths: self.custom_paths,
            custom_private: self.custom_private,
        }
    }
}

} // verus!
