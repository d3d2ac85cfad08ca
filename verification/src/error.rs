//! The errors that the library reports.
use vstd::prelude::*;

verus! {

/// Error returned by this library, described by a text.
#[derive(Debug)]
pub struct WasapiError {
    desc: String,
}

impl View for WasapiError {
    type V = Seq<char>;

    /// The description.
    closed spec fn view(&self) -> Seq<char> {
        self.desc@
    }
}

impl WasapiError {
    /// An error with the description `desc`.
    pub fn new(desc: &str) -> (r: Self)
        ensures
            r@ == desc@,
    {
        WasapiError { desc: desc.to_owned() }
    }

    /// The description of the error.
    pub fn description(&self) -> (r: &str)
        ensures
            r@ == self@,
    {
        self.desc.as_str()
    }
}

/// Why an operation failed: this library refused it, or a call into the system did not succeed.
#[derive(Debug)]
pub enum Failure<E> {
    /// Refused here, with a description.
    Wasapi(WasapiError),
    /// The error that the system call returned, as it came.
    System(E),
}

impl<E> Failure<E> {
    /// This failure comes from the library and has the given description.
    pub open spec fn says(self, desc: Seq<char>) -> bool {
        self matches Failure::Wasapi(e) && e@ == desc
    }
}

/// The result of an operation that makes system calls with errors of type `E`.
pub type WasapiRes<T, E> = Result<T, Failure<E>>;

/// A failure says a text exactly if it comes from the library and is described by that text. So
/// an error of the system says nothing, and no failure says two texts.
pub proof fn law_failure_says_its_description<E>(failure: Failure<E>, desc: Seq<char>)
    ensures
        match failure {
            Failure::Wasapi(e) => failure.says(desc) <==> e@ == desc,
            Failure::System(_) => !failure.says(desc),
        },
{
}

/// An error is described by the text that it was made with.
pub proof fn law_description_reads_back(desc: &str, error: WasapiError, r: &str)
    requires
        call_ensures(WasapiError::new, (desc,), error),
        call_ensures(WasapiError::description, (&error,), r),
    ensures
        r@ == desc@,
        error@ == desc@,
{
}

} // verus!
