use vstd::prelude::*;

verus! {

/// Error returned when a pool is requested with zero worker threads.
///
/// A pool without workers could accept tasks that no thread would ever
/// run, so such a configuration is rejected outright at creation time.
#[derive(Debug)]
pub struct ThreadPoolCreationError;

impl ThreadPoolCreationError {
    /// A human-readable description of the error.
    pub fn message(&self) -> (r: String)
        ensures
            r@ == "ThreadPool contains 0 thread"@,
    {
        "ThreadPool contains 0 thread".to_owned()
    }
}

} // verus!
