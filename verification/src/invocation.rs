use vstd::prelude::*;

verus! {

/// One pending call to a named function.
///
/// The request payload itself is owned by the HTTP layer; the scheduler
/// core only needs the function name to route the invocation and the
/// request identifier to correlate its eventual response.
pub struct Invocation {
    /// Name of the function the call is addressed to.
    pub function_name: String,
    /// Caller-supplied identifier, globally unique per invocation.
    pub request_id: String,
}

/// Mathematical model of an [`Invocation`]: both fields as character
/// sequences.
pub ghost struct InvocationModel {
    pub function_name: Seq<char>,
    pub request_id: Seq<char>,
}

impl View for Invocation {
    type V = InvocationModel;

    open spec fn view(&self) -> InvocationModel {
        InvocationModel { function_name: self.function_name@, request_id: self.request_id@ }
    }
}

impl Invocation {
    /// Builds an invocation from its two identifying strings.
    pub fn new(function_name: String, request_id: String) -> (inv: Invocation)
        ensures
            inv@.function_name == function_name@,
            inv@.request_id == request_id@,
    {
        Invocation { function_name, request_id }
    }
}

} // verus!
