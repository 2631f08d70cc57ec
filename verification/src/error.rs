//! The error that every operation of the monitor reports.
use vstd::prelude::*;

verus! {

/// What an error tells its reader: a text, and the code to exit with.
#[verifier::ext_equal]
pub struct ErrorView {
    pub message: Seq<char>,
    pub exit_code: int,
}

/// An error with the text to show and the code the process should exit with.
#[derive(Debug)]
pub struct ConmonError {
    message: String,
    exit_code: i32,
}

/// Result of an operation of the monitor.
pub type ConmonResult<T> = Result<T, ConmonError>;

impl View for ConmonError {
    type V = ErrorView;

    closed spec fn view(&self) -> ErrorView {
        ErrorView { message: self.message@, exit_code: self.exit_code as int }
    }
}

impl ConmonError {
    pub fn new(message: String, exit_code: i32) -> (error: Self)
        ensures
            error@ == (ErrorView { message: message@, exit_code: exit_code as int }),
    {
        ConmonError { message, exit_code }
    }

    /// The text of the error.
    pub fn message(&self) -> (text: &str)
        ensures
            text@ == self@.message,
    {
        self.message.as_str()
    }

    /// The code the process should exit with.
    pub fn exit_code(&self) -> (code: i32)
        ensures
            code == self@.exit_code,
    {
        self.exit_code
    }
}

/// A result by the views of what it holds.
pub open spec fn result_view<T: View>(result: ConmonResult<T>) -> Result<T::V, ErrorView> {
    match result {
        Ok(value) => Ok(value@),
        Err(error) => Err(error@),
    }
}

/// A result by its plain value or by the view of its error.
pub open spec fn plain_view<T>(result: ConmonResult<T>) -> Result<T, ErrorView> {
    match result {
        Ok(value) => Ok(value),
        Err(error) => Err(error@),
    }
}

/// An error with exit code 1, which is what the operations of this crate report.
pub open spec fn failure(message: Seq<char>) -> ErrorView {
    ErrorView { message, exit_code: 1 }
}

/// Builds an error with exit code 1.
pub(crate) fn fail(message: String) -> (error: ConmonError)
    ensures
        error@ == failure(message@),
{
    ConmonError::new(message, 1)
}

/// An error of the library says what it is said to say, and asks for exit code 1; a result is
/// seen as what it holds.
pub proof fn law_errors<T: View>(message: Seq<char>, value: T, error: ConmonError)
    ensures
        failure(message).message == message,
        failure(message).exit_code == 1,
        result_view(Ok::<T, ConmonError>(value)) == Ok::<T::V, ErrorView>(value@),
        result_view(Err::<T, ConmonError>(error)) == Err::<T::V, ErrorView>(error@),
        plain_view(Ok::<T, ConmonError>(value)) == Ok::<T, ErrorView>(value),
        plain_view(Err::<T, ConmonError>(error)) == Err::<T, ErrorView>(error@),
{
}

} // verus!
