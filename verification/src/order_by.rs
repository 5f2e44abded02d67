use vstd::prelude::*;

use crate::sort_direction::{direction_of_strategy, recognized_strategy, SortDirection};

verus! {

/// Neutral ordering descriptor ("pathkey"): the planner structure describing
/// one requested sort key. It carries the comparison-strategy code and an
/// opaque handle identifying the sort expression within the planning context.
#[derive(Debug, Copy, Clone, PartialEq, Eq, Structural)]
pub struct PathKey {
    /// Comparison-strategy code of the requested order.
    pub strategy: u32,
    /// Opaque handle to the host's sort-key structure, usable as a sort key.
    pub sort_handle: usize,
}

/// Classifies one requested sort key: either the path satisfies it by producing
/// rows already ordered by a computed relevance score, or by a stored field's
/// natural order. Both variants carry the underlying ordering descriptor, so
/// direction resolution is uniform across them.
#[derive(Debug)]
pub enum OrderByStyle {
    /// Rows arrive ordered by a computed relevance score; no field is named.
    Score(PathKey),
    /// Rows arrive ordered by the named stored field.
    Field(PathKey, String),
}

impl OrderByStyle {
    /// The ordering descriptor carried by either variant.
    pub open spec fn spec_pathkey(&self) -> PathKey {
        match self {
            OrderByStyle::Score(pathkey) => *pathkey,
            OrderByStyle::Field(pathkey, _) => *pathkey,
        }
    }

    /// Returns the underlying ordering descriptor regardless of variant.
    pub fn pathkey(&self) -> (r: PathKey)
        ensures
            r == self.spec_pathkey(),
    {
        match self {
            OrderByStyle::Score(pathkey) => *pathkey,
            OrderByStyle::Field(pathkey, _) => *pathkey,
        }
    }

    /// Resolves the sort direction by decoding the descriptor's strategy code.
    /// A style is never constructed from a descriptor with an unrecognized
    /// strategy, so the decoding is owed to succeed.
    pub fn direction(&self) -> (r: SortDirection)
        requires
            recognized_strategy(self.spec_pathkey().strategy),
        ensures
            r == direction_of_strategy(self.spec_pathkey().strategy),
    {
        let pathkey = self.pathkey();
        SortDirection::from_native(pathkey.strategy)
    }
}

} // verus!
