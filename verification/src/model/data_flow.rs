use vstd::prelude::*;

verus! {

/// The lifecycle states of a data flow.
#[derive(Clone, Copy, Debug, PartialEq, Eq, Structural)]
pub enum DataFlowState {
    Initiating,
    Peparing,
    Prepared,
    Starting,
    Started,
    Suspended,
    Completed,
    Terminated,
}

} // verus!
