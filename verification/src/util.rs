use vstd::prelude::*;

use crate::error::{backend_failure, Backend, Error, ErrorView};

verus! {

/// Builds the failure for an argument that could not be converted from
/// `from` to `to`, with an optional explanation.
pub fn conversion_error(from: &'static str, to: &str, message: Option<&str>) -> (e: Error)
    ensures
        e@ == (ErrorView::ConversionError {
            from: from@,
            to: to@,
            message: match message {
                Some(m) => Some(m@),
                None => None,
            },
        }),
{
    let message = match message {
        Some(m) => Some(m.to_owned()),
        None => None,
    };
    Error::ConversionError { from: from.to_owned(), to: to.to_owned(), message }
}

/// Passes a collaborator's success through and turns its failure into the
/// error of that collaborator, keeping the reported reason unchanged.
pub fn external_error<T>(origin: Backend, outcome: Result<T, String>) -> (r: Result<T, Error>)
    ensures
        match outcome {
            Ok(v) => r == Ok::<T, Error>(v),
            Err(reason) => r matches Err(e) && e@ == backend_failure(origin, reason@),
        },
{
    match outcome {
        Ok(v) => Ok(v),
        Err(reason) => Err(Error::backend(origin, reason)),
    }
}

} // verus!
