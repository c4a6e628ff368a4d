//! The plugin that stops the whole program when it receives an HTTP request.
use vstd::prelude::*;

verus! {

/// The body of the answer to every request, sent once the program has been
/// asked to stop.
pub fn stop_response() -> (s: &'static str)
    ensures
        s@ == "shutdown initiated"@,
{
    "shutdown initiated"
}

pub struct HttpStopPluginBuilder;

impl HttpStopPluginBuilder {
    pub fn kind_name() -> (s: &'static str)
        ensures
            s@ == "httpstop"@,
    {
        "httpstop"
    }
}

} // verus!
