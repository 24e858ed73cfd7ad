//! What crosses over to the handler's runtime with each logical event.
//!
//! The handler is an object of another runtime with one method that takes
//! the ordinal of the kind, the watched root and the changed path. This
//! module says what each call carries; attaching the thread, making the call
//! and surfacing its failure are the embedding code's part.

use vstd::prelude::*;
use crate::kind::Kind;

verus! {

/// The name of the handler's method.
pub const HANDLER_METHOD: &'static str = "handle";

/// The signature of the handler's method: an `int` and two strings, no
/// result.
pub const HANDLER_SIGNATURE: &'static str = "(ILjava/lang/String;Ljava/lang/String;)V";

/// The arguments of one call of the handler's method, in their order.
#[derive(Clone, Debug, PartialEq, Eq)]
pub struct HandlerCall {
    /// The ordinal of the kind.
    pub ordinal: i32,
    /// The root that the stream watches.
    pub root: String,
    /// The path that changed.
    pub path: String,
}

/// Marshals logical events for the handler of one watched root.
pub struct HandlerExecutor {
    path: String,
}

impl HandlerExecutor {
    /// The root that every call carries.
    pub closed spec fn root(&self) -> Seq<char> {
        self.path@
    }

    /// An executor for the handler of the stream that watches `path`.
    pub fn new(path: String) -> (executor: Self)
        ensures
            executor.root() == path@,
    {
        HandlerExecutor { path }
    }

    /// The call that tells the handler of one logical event: the kind by
    /// its ordinal, then the watched root, then the changed path.
    pub fn execute(&self, kind: Kind, path: &String) -> (call: HandlerCall)
        ensures
            call.ordinal == kind.ordinal_of(),
            call.root@ == self.root(),
            call.path@ == path@,
    {
        HandlerCall { ordinal: kind.ordinal(), root: self.path.clone(), path: path.clone() }
    }
}

} // verus!
