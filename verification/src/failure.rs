//! The ways in which a run ends without a listing.

use vstd::prelude::*;
use vstd::string::StringExecFns;

verus! {

/// A response that is valid JSON but not laid out as a registry response.
#[derive(Clone, Copy, Debug, PartialEq, Eq, Structural)]
pub enum Shape {
    /// The response is not a JSON object.
    NotAnObject,
    /// The response object has no entry under the results key.
    ResultsMissing,
    /// The value under the results key is not a JSON array.
    ResultsNotAList,
    /// An element of the results list is not a JSON object.
    EntryNotAnObject,
}

/// Why a run ends without a listing. Every failure is final: nothing is
/// retried and nothing is printed in part.
#[derive(Clone, Copy, Debug, PartialEq, Eq, Structural)]
pub enum Failure {
    /// More than one filter was given on the command line.
    Usage,
    /// The response does not have the expected layout.
    Shape(Shape),
    /// No manufacturer is left after filtering.
    NoneFound,
}

impl Failure {
    /// The short message that tells the operator what went wrong.
    pub open spec fn message_text(self) -> Seq<char> {
        match self {
            Failure::Usage => "help"@,
            Failure::Shape(Shape::NotAnObject) => "Response is not a json object"@,
            Failure::Shape(Shape::ResultsMissing) => "Results not found in response"@,
            Failure::Shape(Shape::ResultsNotAList) => "Results is not a json array"@,
            Failure::Shape(Shape::EntryNotAnObject) => "Manufacturer is not a json object"@,
            Failure::NoneFound => "No manufacturer found"@,
        }
    }

    /// The short message that tells the operator what went wrong.
    pub fn message(&self) -> (out: String)
        ensures
            out@ == self.message_text(),
    {
        match self {
            Failure::Usage => String::from_str("help"),
            Failure::Shape(Shape::NotAnObject) => String::from_str(
                "Response is not a json object",
            ),
            Failure::Shape(Shape::ResultsMissing) => String::from_str(
                "Results not found in response",
            ),
            Failure::Shape(Shape::ResultsNotAList) => String::from_str(
                "Results is not a json array",
            ),
            Failure::Shape(Shape::EntryNotAnObject) => String::from_str(
                "Manufacturer is not a json object",
            ),
            Failure::NoneFound => String::from_str("No manufacturer found"),
        }
    }
}

} // verus!
