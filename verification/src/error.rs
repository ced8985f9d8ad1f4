//! The conditions under which a step of the program gives up.

use vstd::prelude::*;

verus! {

/// Why a step gave up.
#[derive(Debug, Clone, PartialEq, Eq)]
pub enum ProgramErrors {
    /// The request could not be carried out; holds the transport's message.
    FetchError(String),
    /// The response was not structured data; holds the decoder's message.
    JsonParsingError(String),
    /// The input line named no user.
    NoArguments,
    /// The user, named here, has no recent events.
    NoEvents(String),
    /// The service knows no such user.
    NoUserFound,
    /// The console could not be read or written; holds the system's message.
    StdError(String),
    /// An event carries a type outside the known ones.
    UncheckedEventType,
    /// A value does not have the shape that a reader of it relies on.
    TypeMismatch,
}

/// The mathematical content of a [`ProgramErrors`].
pub enum ProgramErrorsView {
    FetchError(Seq<char>),
    JsonParsingError(Seq<char>),
    NoArguments,
    NoEvents(Seq<char>),
    NoUserFound,
    StdError(Seq<char>),
    UncheckedEventType,
    TypeMismatch,
}

impl View for ProgramErrors {
    type V = ProgramErrorsView;

    open spec fn view(&self) -> ProgramErrorsView {
        match self {
            ProgramErrors::FetchError(m) => ProgramErrorsView::FetchError(m@),
            ProgramErrors::JsonParsingError(m) => ProgramErrorsView::JsonParsingError(m@),
            ProgramErrors::NoArguments => ProgramErrorsView::NoArguments,
            ProgramErrors::NoEvents(u) => ProgramErrorsView::NoEvents(u@),
            ProgramErrors::NoUserFound => ProgramErrorsView::NoUserFound,
            ProgramErrors::StdError(m) => ProgramErrorsView::StdError(m@),
            ProgramErrors::UncheckedEventType => ProgramErrorsView::UncheckedEventType,
            ProgramErrors::TypeMismatch => ProgramErrorsView::TypeMismatch,
        }
    }
}

impl ProgramErrorsView {
    /// The sentence shown to the user for this condition.
    pub open spec fn message(self) -> Seq<char> {
        match self {
            ProgramErrorsView::FetchError(m) => "Fetch Error: "@ + m,
            ProgramErrorsView::JsonParsingError(m) => "Serde Json Error: "@ + m,
            ProgramErrorsView::NoArguments => "No arguments provided."@,
            ProgramErrorsView::NoEvents(u) => "No recent events were found for "@ + u + "."@,
            ProgramErrorsView::NoUserFound => "No User Found."@,
            ProgramErrorsView::StdError(m) => "STD Error: "@ + m,
            ProgramErrorsView::UncheckedEventType => "Event type was not accounted for"@,
            ProgramErrorsView::TypeMismatch => "Event data did not have the expected shape"@,
        }
    }
}

impl ProgramErrors {
    /// The sentence shown to the user for this condition.
    pub fn message(&self) -> (text: String)
        ensures
            text@ == self@.message(),
    {
        match self {
            ProgramErrors::FetchError(m) => String::from_str("Fetch Error: ").concat(m.as_str()),
            ProgramErrors::JsonParsingError(m) => String::from_str("Serde Json Error: ").concat(
                m.as_str(),
            ),
            ProgramErrors::NoArguments => String::from_str("No arguments provided."),
            ProgramErrors::NoEvents(u) => String::from_str(
                "No recent events were found for ",
            ).concat(u.as_str()).concat("."),
            ProgramErrors::NoUserFound => String::from_str("No User Found."),
            ProgramErrors::StdError(m) => String::from_str("STD Error: ").concat(m.as_str()),
            ProgramErrors::UncheckedEventType => String::from_str(
                "Event type was not accounted for",
            ),
            ProgramErrors::TypeMismatch => String::from_str(
                "Event data did not have the expected shape",
            ),
        }
    }
}

} // verus!
