//! Judging a response before its events are narrated.

use crate::decode::{decode, document, lower};
use crate::error::{ProgramErrors, ProgramErrorsView};
use crate::json::{views, Json, JsonValue};
use crate::text::same_text;
use vstd::prelude::*;

verus! {

/// Whether a value is the service's answer for a user it does not know: an
/// object whose `message` is the text `Not Found`.
pub open spec fn says_not_found(value: JsonValue) -> bool {
    match value.field("message"@) {
        Some(message) => message.text() == Some("Not Found"@),
        None => false,
    }
}

/// The judgement on a decoded response, for the user it was asked for.
///
/// The answer for an unknown user is refused first, then an array without
/// elements; any other array is the list of events. A value that is
/// neither is refused as misshapen.
pub open spec fn validation(value: JsonValue, username: Seq<char>) -> Result<
    Seq<JsonValue>,
    ProgramErrorsView,
> {
    if says_not_found(value) {
        Err(ProgramErrorsView::NoUserFound)
    } else {
        match value.items() {
            Some(events) => if events.len() == 0 {
                Err(ProgramErrorsView::NoEvents(username))
            } else {
                Ok(events)
            },
            None => Err(ProgramErrorsView::TypeMismatch),
        }
    }
}

/// The mathematical content of a judgement.
pub open spec fn judged(result: Result<Vec<Json>, ProgramErrors>) -> Result<
    Seq<JsonValue>,
    ProgramErrorsView,
> {
    match result {
        Ok(events) => Ok(views(events@)),
        Err(e) => Err(e@),
    }
}

/// Judges a decoded response and hands out its events.
pub fn validate(value: Json, username: &str) -> (result: Result<Vec<Json>, ProgramErrors>)
    ensures
        judged(result) == validation(value@, username@),
{
    let message = match value.field("message") {
        Some(message) => message.as_text(),
        None => None,
    };
    let unknown = match message {
        Some(text) => same_text(text, "Not Found"),
        None => false,
    };
    if unknown {
        return Err(ProgramErrors::NoUserFound);
    }
    match value {
        Json::Array(events) => {
            assert(views(events@) =~= value@->Array_0);
            if events.len() < 1 {
                Err(ProgramErrors::NoEvents(String::from_str(username)))
            } else {
                Ok(events)
            }
        },
        _ => Err(ProgramErrors::TypeMismatch),
    }
}

/// Decodes the text of a response and judges it.
///
/// Text that the decoder refuses gives a decoding error with the decoder's
/// message; text that it accepts is judged as [`validate`] judges the
/// decoded value.
pub fn process_user_data(data: &str, username: &str) -> (result: Result<
    Vec<Json>,
    ProgramErrors,
>)
    ensures
        match document(data@) {
            None => result matches Err(e) && e is JsonParsingError,
            Some(value) => judged(result) == validation(value, username@),
        },
{
    match decode(data) {
        Ok(value) => validate(lower(value), username),
        Err(error) => Err(ProgramErrors::JsonParsingError(error.to_string())),
    }
}

/// The answer for an unknown user is refused as such, whoever was asked for
/// and whatever else the answer holds.
pub proof fn unknown_user_is_refused(value: JsonValue, username: Seq<char>)
    requires
        says_not_found(value),
    ensures
        validation(value, username) == Err::<Seq<JsonValue>, ProgramErrorsView>(
            ProgramErrorsView::NoUserFound,
        ),
{
}

/// An array without elements is refused for want of events, with the name
/// of the user asked for.
pub proof fn empty_feed_is_refused(username: Seq<char>)
    ensures
        validation(JsonValue::Array(Seq::empty()), username) == Err::<
            Seq<JsonValue>,
            ProgramErrorsView,
        >(ProgramErrorsView::NoEvents(username)),
{
}

} // verus!
