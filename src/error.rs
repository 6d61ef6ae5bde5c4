use vstd::prelude::*;

use crate::jobs::ReturnCode;

verus! {

/// Failures of the decision core.
#[derive(Debug)]
pub enum Error {
    /// A unit's state could not be encoded for storage.
    Serialize(String),
    /// A unit's stored state could not be read: its name and position.
    Deserialize(String, u8, u8),
    /// A target no longer resolves to a live object.
    IDResolve,
    /// No candidate object exists for a required decision.
    NoneFound,
    /// The executor returned an outcome that the state machine has no policy for.
    UnhandledErrorCode(ReturnCode),
    /// A unit lacks something every live unit has (a position, a room).
    Unknown,
}

} // verus!
