use vstd::prelude::*;

verus! {

/// A unit of requested work.
#[derive(Debug, Clone)]
pub enum Action {
    /// Read the file at `Path`.
    Read { Path: String },
    /// Write `Content` to the file at `Path`.
    Write { Path: String, Content: String },
}

/// The recorded outcome of processing one action: the action itself and
/// either a success payload or an error message.
#[derive(Debug)]
pub struct ActionResult {
    pub Action: Action,
    pub Result: Result<String, String>,
}

impl Clone for ActionResult {
    fn clone(&self) -> (r: ActionResult) {
        let result = match &self.Result {
            Ok(payload) => Ok(payload.clone()),
            Err(message) => Err(message.clone()),
        };
        ActionResult { Action: self.Action.clone(), Result: result }
    }
}

impl ActionResult {
    /// Pairs an action with its outcome.
    pub fn New(action: Action, result: Result<String, String>) -> (r: ActionResult)
        ensures
            r.Action == action,
            r.Result == result,
    {
        ActionResult { Action: action, Result: result }
    }
}

} // verus!
