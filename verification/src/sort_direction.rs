use vstd::prelude::*;

verus! {

/// Strategy code the planner assigns to its "less than" comparison operator
/// class; a sort key carrying it asks for ascending order.
pub const SORT_ASCENDING: u32 = 1;

/// Strategy code the planner assigns to its "greater than" comparison operator
/// class; a sort key carrying it asks for descending order.
pub const SORT_DESCENDING: u32 = 5;

/// Ascending/descending tag bridging the planner's native strategy codes and
/// the ordering the search engine is asked to produce.
#[derive(Debug, Copy, Clone, PartialEq, Eq, Structural)]
pub enum SortDirection {
    Asc,
    Desc,
}

/// The two strategy codes this component understands. Any other code means the
/// surrounding planner broke the protocol, which must never be tolerated
/// silently.
pub open spec fn recognized_strategy(code: u32) -> bool {
    code == SORT_ASCENDING || code == SORT_DESCENDING
}

/// The direction a recognized strategy code denotes.
pub open spec fn direction_of_strategy(code: u32) -> SortDirection
    recommends
        recognized_strategy(code),
{
    if code == SORT_ASCENDING {
        SortDirection::Asc
    } else {
        SortDirection::Desc
    }
}

/// The native strategy code denoting a direction.
pub open spec fn strategy_of_direction(d: SortDirection) -> u32 {
    match d {
        SortDirection::Asc => SORT_ASCENDING,
        SortDirection::Desc => SORT_DESCENDING,
    }
}

/// Textual rendering of a direction, for diagnostics and explain output.
pub open spec fn direction_label(d: SortDirection) -> Seq<char> {
    match d {
        SortDirection::Asc => "asc"@,
        SortDirection::Desc => "desc"@,
    }
}

impl SortDirection {
    /// Decodes a planner strategy code. An unrecognized code is a protocol
    /// violation between planner and extension: the `requires` clause makes any
    /// such call a contract breach rather than a silent default.
    pub fn from_native(code: u32) -> (r: SortDirection)
        requires
            recognized_strategy(code),
        ensures
            r == direction_of_strategy(code),
    {
        if code == SORT_ASCENDING {
            SortDirection::Asc
        } else {
            SortDirection::Desc
        }
    }

    /// Encodes the direction as the planner's native strategy code; total.
    pub fn to_native(self) -> (r: u32)
        ensures
            r == strategy_of_direction(self),
    {
        match self {
            SortDirection::Asc => SORT_ASCENDING,
            SortDirection::Desc => SORT_DESCENDING,
        }
    }

    /// Renders the direction as `"asc"` or `"desc"`.
    pub fn as_str(&self) -> (r: &'static str)
        ensures
            r@ == direction_label(*self),
    {
        match self {
            SortDirection::Asc => "asc",
            SortDirection::Desc => "desc",
        }
    }
}

impl Default for SortDirection {
    /// The default direction is ascending.
    fn default() -> (r: Self)
        ensures
            r == SortDirection::Asc,
    {
        SortDirection::Asc
    }
}

/// Law: decoding a recognized strategy code and re-encoding the direction
/// returns the original code.
pub proof fn lemma_strategy_round_trip(code: u32)
    requires
        recognized_strategy(code),
    ensures
        strategy_of_direction(direction_of_strategy(code)) == code,
{
}

/// Law: encoding a direction and decoding the resulting code returns the
/// original direction.
pub proof fn lemma_direction_round_trip(d: SortDirection)
    ensures
        direction_of_strategy(strategy_of_direction(d)) == d,
{
}

} // verus!
