//! What the session remembers about one core, and the handle through which
//! one request at a time works on it.

use vstd::prelude::*;
use crate::breakpoint::ActiveBreakpoint;
use crate::protocol::DebugAdapter;
use crate::rtt::RttConnection;
use crate::source::SourceLocation;
use crate::status::CoreStatus;

verus! {

/// One frame of the call stack, as captured when the core halted.
#[derive(Debug, PartialEq, Eq)]
pub struct StackFrame {
    pub id: i64,
    pub function_name: String,
    pub source_location: Option<SourceLocation>,
    pub pc: u64,
    pub frame_base: Option<u64>,
    pub is_inlined: bool,
}

/// What the session remembers about one core, from attach to detach.
#[derive(Debug, PartialEq, Eq)]
pub struct CoreData {
    pub core_index: usize,
    /// The status that the last poll saw, or that a request made the session
    /// expect. The client has been told of it.
    pub last_known_status: CoreStatus,
    pub target_name: String,
    /// The call stack at the last halt. It is replaced as a whole.
    pub stack_frames: Vec<StackFrame>,
    /// The hardware breakpoints that are set, oldest first.
    pub breakpoints: Vec<ActiveBreakpoint>,
    /// The logging transport, where one is attached.
    pub rtt_connection: Option<RttConnection>,
}

impl CoreData {
    /// The memory of a core that was just attached: status unknown, no
    /// frames, no breakpoints, no logging transport.
    pub fn new(core_index: usize, target_name: String) -> (core_data: Self)
        ensures
            core_data.core_index == core_index,
            core_data.last_known_status == CoreStatus::Unknown,
            core_data.target_name == target_name,
            core_data.stack_frames@ == Seq::<StackFrame>::empty(),
            core_data.breakpoints@ == Seq::<ActiveBreakpoint>::empty(),
            core_data.rtt_connection is None,
    {
        CoreData {
            core_index,
            last_known_status: CoreStatus::Unknown,
            target_name,
            stack_frames: Vec::new(),
            breakpoints: Vec::new(),
            rtt_connection: None,
        }
    }
}

/// The right to work on one core for the length of one request. It holds
/// the core's memory while the request runs, so no second handle to the same
/// core can exist.
#[derive(Debug, PartialEq, Eq)]
pub struct CoreHandle {
    /// The identifier by which the probe knows the core.
    pub core_id: usize,
    pub core_data: CoreData,
}

/// Whether `i` is the place of the first frame with identifier `id`.
pub open spec fn first_frame_at(frames: Seq<StackFrame>, id: i64, i: int) -> bool {
    &&& 0 <= i < frames.len()
    &&& frames[i].id == id
    &&& forall|j: int| 0 <= j < i ==> #[trigger] frames[j].id != id
}

impl CoreHandle {
    /// Whether two handles differ in the record of breakpoints at most.
    pub open spec fn same_but_breakpoints(self, other: CoreHandle) -> bool {
        &&& self.core_id == other.core_id
        &&& self.core_data.core_index == other.core_data.core_index
        &&& self.core_data.last_known_status == other.core_data.last_known_status
        &&& self.core_data.target_name == other.core_data.target_name
        &&& self.core_data.stack_frames == other.core_data.stack_frames
        &&& self.core_data.rtt_connection == other.core_data.rtt_connection
    }

    /// Whether two handles differ in the logging connection at most.
    pub open spec fn same_but_rtt(self, other: CoreHandle) -> bool {
        &&& self.core_id == other.core_id
        &&& self.core_data.core_index == other.core_data.core_index
        &&& self.core_data.last_known_status == other.core_data.last_known_status
        &&& self.core_data.target_name == other.core_data.target_name
        &&& self.core_data.stack_frames == other.core_data.stack_frames
        &&& self.core_data.breakpoints == other.core_data.breakpoints
    }

    /// Checks the memory of a core out for a request.
    pub fn new(core_id: usize, core_data: CoreData) -> (handle: Self)
        ensures
            handle.core_id == core_id,
            handle.core_data == core_data,
    {
        CoreHandle { core_id, core_data }
    }

    /// Ends the request and gives the memory of the core back.
    pub fn release(self) -> (core_data: CoreData)
        ensures
            core_data == self.core_data,
    {
        self.core_data
    }

    /// Makes the session expect a running core, for a request that resumes
    /// the core on its way and then waits for it to halt. The client is told
    /// nothing: the next poll then sees the halt as a change and announces it.
    pub fn reset_core_status(&mut self, debug_adapter: &mut DebugAdapter)
        ensures
            *final(self) == (CoreHandle {
                core_data: CoreData {
                    last_known_status: CoreStatus::Running,
                    ..old(self).core_data
                },
                ..*old(self)
            }),
            *final(debug_adapter) == (DebugAdapter {
                all_cores_halted: false,
                ..*old(debug_adapter)
            }),
            final(debug_adapter).sent() == old(debug_adapter).sent(),
    {
        self.core_data.last_known_status = CoreStatus::Running;
        debug_adapter.all_cores_halted = false;
        assert(debug_adapter.sent() =~= old(debug_adapter).sent());
    }

    /// The place among the captured frames of the first frame whose
    /// identifier is `id`. An identifier that no frame has, as one from
    /// before the last halt, gives nothing.
    pub fn stackframe_position(&self, id: i64) -> (position: Option<usize>)
        ensures
            match position {
                Some(i) => first_frame_at(self.core_data.stack_frames@, id, i as int),
                None => forall|i: int|
                    0 <= i < self.core_data.stack_frames@.len()
                        ==> #[trigger] self.core_data.stack_frames@[i].id != id,
            },
    {
        let mut position: usize = 0;
        while position < self.core_data.stack_frames.len()
            invariant
                position <= self.core_data.stack_frames@.len(),
                forall|j: int|
                    0 <= j < position ==> #[trigger] self.core_data.stack_frames@[j].id != id,
            decreases self.core_data.stack_frames@.len() - position,
        {
            if self.core_data.stack_frames[position].id == id {
                return Some(position);
            }
            position = position + 1;
        }
        None
    }

    /// The first captured frame whose identifier is `id`. An identifier
    /// that no frame has, as one from before the last halt, gives nothing.
    pub fn get_stackframe(&self, id: i64) -> (frame: Option<&StackFrame>)
        ensures
            match frame {
                Some(found) => exists|i: int|
                    first_frame_at(self.core_data.stack_frames@, id, i)
                        && *found == self.core_data.stack_frames@[i],
                None => forall|i: int|
                    0 <= i < self.core_data.stack_frames@.len()
                        ==> #[trigger] self.core_data.stack_frames@[i].id != id,
            },
    {
        match self.stackframe_position(id) {
            Some(position) => Some(&self.core_data.stack_frames[position]),
            None => None,
        }
    }
}

} // verus!
