//! The record of the hardware breakpoints that are set on a core.

use vstd::prelude::*;
use crate::source::{Source, SourceLocation, SourceLocationView, SourceView};

verus! {

/// What a breakpoint was set for.
#[derive(Debug, PartialEq, Eq)]
pub enum BreakpointType {
    /// At an address that the client named, as for a single step.
    InstructionBreakpoint,
    /// At a place in the source: the descriptor the client sent, and the
    /// place the resolver found. Both are kept to resolve it again.
    SourceBreakpoint(Source, SourceLocation),
}

pub enum BreakpointTypeView {
    InstructionBreakpoint,
    SourceBreakpoint(SourceView, SourceLocationView),
}

impl View for BreakpointType {
    type V = BreakpointTypeView;

    open spec fn view(&self) -> BreakpointTypeView {
        match self {
            BreakpointType::InstructionBreakpoint => BreakpointTypeView::InstructionBreakpoint,
            BreakpointType::SourceBreakpoint(source, location) => {
                BreakpointTypeView::SourceBreakpoint(source@, location@)
            },
        }
    }
}

impl Clone for BreakpointType {
    fn clone(&self) -> (copy: Self)
        ensures
            copy == *self,
    {
        match self {
            BreakpointType::InstructionBreakpoint => BreakpointType::InstructionBreakpoint,
            BreakpointType::SourceBreakpoint(source, location) => {
                BreakpointType::SourceBreakpoint(source.clone(), location.clone())
            },
        }
    }
}

/// Whether a breakpoint of kind `kind` falls under `filter`. A filter selects
/// the breakpoints of exactly its kind; no filter selects the source
/// breakpoints, whatever their place.
pub open spec fn selects(filter: Option<BreakpointType>, kind: BreakpointType) -> bool {
    match filter {
        Some(wanted) => kind@ == wanted@,
        None => kind is SourceBreakpoint,
    }
}

impl BreakpointType {
    pub fn is_source(&self) -> (source: bool)
        ensures
            source == (*self is SourceBreakpoint),
    {
        match self {
            BreakpointType::SourceBreakpoint(_, _) => true,
            BreakpointType::InstructionBreakpoint => false,
        }
    }

    /// Whether two kinds are the same, place and descriptor included.
    pub fn same_as(&self, other: &BreakpointType) -> (same: bool)
        ensures
            same == (self@ == other@),
    {
        match (self, other) {
            (BreakpointType::InstructionBreakpoint, BreakpointType::InstructionBreakpoint) => true,
            (
                BreakpointType::SourceBreakpoint(source, location),
                BreakpointType::SourceBreakpoint(other_source, other_location),
            ) => source.same_as(other_source) && location.same_as(other_location),
            _ => false,
        }
    }

    /// Whether this kind falls under `filter`.
    pub fn selected_by(&self, filter: &Option<BreakpointType>) -> (selected: bool)
        ensures
            selected == selects(*filter, *self),
    {
        match filter {
            Some(wanted) => self.same_as(wanted),
            None => self.is_source(),
        }
    }
}

/// One hardware breakpoint that is set, and what it was set for.
#[derive(Debug, PartialEq, Eq)]
pub struct ActiveBreakpoint {
    pub breakpoint_type: BreakpointType,
    pub address: u64,
}

impl Clone for ActiveBreakpoint {
    fn clone(&self) -> (copy: Self)
        ensures
            copy == *self,
    {
        ActiveBreakpoint { breakpoint_type: self.breakpoint_type.clone(), address: self.address }
    }
}

/// Whether some recorded breakpoint is at `address`.
pub open spec fn has_address(breakpoints: Seq<ActiveBreakpoint>, address: u64) -> bool {
    exists|i: int| 0 <= i < breakpoints.len() && #[trigger] breakpoints[i].address == address
}

/// Whether no two recorded breakpoints share an address.
pub open spec fn distinct_addresses(breakpoints: Seq<ActiveBreakpoint>) -> bool {
    forall|i: int, j: int|
        0 <= i < j < breakpoints.len() ==> #[trigger] breakpoints[i].address
            != #[trigger] breakpoints[j].address
}

/// Whether `i` is the place of the first recorded breakpoint at `address`.
pub open spec fn first_at(breakpoints: Seq<ActiveBreakpoint>, address: u64, i: int) -> bool {
    &&& 0 <= i < breakpoints.len()
    &&& breakpoints[i].address == address
    &&& forall|j: int| 0 <= j < i ==> #[trigger] breakpoints[j].address != address
}

/// The record without its first breakpoint at `address`; the record itself
/// where none is there.
pub open spec fn without_first(breakpoints: Seq<ActiveBreakpoint>, address: u64) -> Seq<
    ActiveBreakpoint,
> {
    if exists|i: int| first_at(breakpoints, address, i) {
        breakpoints.remove(choose|i: int| first_at(breakpoints, address, i))
    } else {
        breakpoints
    }
}

/// The breakpoints of the record that `filter` selects, in the order of the
/// record.
pub open spec fn selected(
    breakpoints: Seq<ActiveBreakpoint>,
    filter: Option<BreakpointType>,
) -> Seq<ActiveBreakpoint>
    decreases breakpoints.len(),
{
    if breakpoints.len() == 0 {
        Seq::empty()
    } else {
        let before = selected(breakpoints.drop_last(), filter);
        if selects(filter, breakpoints.last().breakpoint_type) {
            before.push(breakpoints.last())
        } else {
            before
        }
    }
}

/// The breakpoints of the record that `filter` does not select, in the
/// order of the record.
pub open spec fn unselected(
    breakpoints: Seq<ActiveBreakpoint>,
    filter: Option<BreakpointType>,
) -> Seq<ActiveBreakpoint>
    decreases breakpoints.len(),
{
    if breakpoints.len() == 0 {
        Seq::empty()
    } else {
        let before = unselected(breakpoints.drop_last(), filter);
        if selects(filter, breakpoints.last().breakpoint_type) {
            before
        } else {
            before.push(breakpoints.last())
        }
    }
}

/// The addresses of some breakpoints, in their order.
pub open spec fn addresses(breakpoints: Seq<ActiveBreakpoint>) -> Seq<u64> {
    Seq::new(breakpoints.len(), |i: int| breakpoints[i].address)
}

/// Two places cannot both be the first at an address.
pub proof fn lemma_first_at_unique(
    breakpoints: Seq<ActiveBreakpoint>,
    address: u64,
    i: int,
    j: int,
)
    requires
        first_at(breakpoints, address, i),
        first_at(breakpoints, address, j),
    ensures
        i == j,
{
    if i < j {
        assert(breakpoints[i].address != address);
    } else if j < i {
        assert(breakpoints[j].address != address);
    }
}

/// Removing the first breakpoint at an address, spelled out for a known place.
pub proof fn lemma_without_first_at(breakpoints: Seq<ActiveBreakpoint>, address: u64, i: int)
    requires
        first_at(breakpoints, address, i),
    ensures
        without_first(breakpoints, address) == breakpoints.remove(i),
{
    let k = choose|k: int| first_at(breakpoints, address, k);
    lemma_first_at_unique(breakpoints, address, i, k);
}

/// Where no breakpoint is at an address, removing one there changes nothing.
pub proof fn lemma_without_first_absent(breakpoints: Seq<ActiveBreakpoint>, address: u64)
    requires
        !has_address(breakpoints, address),
    ensures
        without_first(breakpoints, address) == breakpoints,
{
    if exists|i: int| first_at(breakpoints, address, i) {
        let i = choose|i: int| first_at(breakpoints, address, i);
        assert(breakpoints[i].address == address);
    }
}

} // verus!
