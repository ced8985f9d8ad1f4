//! The program's loop as a machine: what was received decides what is
//! shown and what is done next.

use crate::decode::document;
use crate::error::{ProgramErrors, ProgramErrorsView};
use crate::event::{narration, process_events};
use crate::input::{
    asks_to_quit, blank_line_names_nobody, is_blank, folded, parse_user_input, quit_is_heard,
    reading, Command, CommandView,
};
use crate::json::JsonValue;
use crate::request::{events_address, events_url};
use crate::response::{process_user_data, validation};
use crate::text::texts;
use vstd::prelude::*;

verus! {

/// Shown once, before the first prompt.
pub const BANNER: &'static str =
    "\nFetch events of a user by providing their username. Enter q to close program.";

/// Shown, without a line break after it, before each line is read.
pub const PROMPT: &'static str = "\nGithub-Activity > ";

/// Shown when the user asks to leave.
pub const FAREWELL: &'static str = "\nProgram has been closed successfully.";

/// Shown after an accepted line and after a batch narrated to its end.
pub const SPACER: &'static str = "\n";

/// Where the loop stands, which is also what has to be done next.
#[derive(Debug, Clone, PartialEq, Eq)]
pub enum Session {
    /// Show the prompt and read a line.
    Prompting,
    /// Ask `url` for the events of `username`.
    Fetching { username: String, url: String },
    /// Leave with success.
    Closed,
}

/// The mathematical content of a [`Session`].
pub enum SessionView {
    Prompting,
    Fetching { username: Seq<char>, url: Seq<char> },
    Closed,
}

impl View for Session {
    type V = SessionView;

    open spec fn view(&self) -> SessionView {
        match self {
            Session::Prompting => SessionView::Prompting,
            Session::Fetching { username, url } => SessionView::Fetching {
                username: username@,
                url: url@,
            },
            Session::Closed => SessionView::Closed,
        }
    }
}

/// What came back from the work that the session asked for.
#[derive(Debug, Clone, PartialEq, Eq)]
pub enum Signal {
    /// The line that was read, empty at the end of the input.
    Line(String),
    /// The text of the response.
    Body(String),
    /// The work failed: the console while reading, or the transport while
    /// fetching.
    Failed(ProgramErrors),
}

/// The mathematical content of a [`Signal`].
pub enum SignalView {
    Line(Seq<char>),
    Body(Seq<char>),
    Failed(ProgramErrorsView),
}

impl View for Signal {
    type V = SignalView;

    open spec fn view(&self) -> SignalView {
        match self {
            Signal::Line(line) => SignalView::Line(line@),
            Signal::Body(text) => SignalView::Body(text@),
            Signal::Failed(e) => SignalView::Failed(e@),
        }
    }
}

/// One turn of the loop: where it stands now, the lines to show and the
/// condition to report.
#[derive(Debug, Clone, PartialEq, Eq)]
pub struct Turn {
    pub session: Session,
    pub lines: Vec<String>,
    pub error: Option<ProgramErrors>,
}

/// The mathematical content of a [`Turn`].
pub struct TurnView {
    pub session: SessionView,
    pub lines: Seq<Seq<char>>,
    pub error: Option<ProgramErrorsView>,
}

impl View for Turn {
    type V = TurnView;

    open spec fn view(&self) -> TurnView {
        TurnView {
            session: self.session@,
            lines: texts(self.lines@),
            error: match self.error {
                Some(e) => Some(e@),
                None => None,
            },
        }
    }
}

/// The turn that shows nothing but a condition and prompts again.
pub open spec fn refusal(e: ProgramErrorsView) -> TurnView {
    TurnView { session: SessionView::Prompting, lines: Seq::empty(), error: Some(e) }
}

/// The turn after a line was read.
///
/// A request to leave closes the session with the farewell. A line that
/// names a user is acknowledged and sets the session to fetching that
/// user's events. A line that names nobody is refused, and no request is
/// made for it.
pub open spec fn turn_on_line(line: Seq<char>) -> TurnView {
    match reading(line) {
        Ok(CommandView::Quit) => TurnView {
            session: SessionView::Closed,
            lines: seq![FAREWELL@],
            error: None,
        },
        Ok(CommandView::Lookup(username)) => TurnView {
            session: SessionView::Fetching { username, url: events_address(username) },
            lines: seq![SPACER@],
            error: None,
        },
        Err(e) => refusal(e),
    }
}

/// The turn after a response was decoded to `value`.
///
/// A response that is refused shows its condition. One that holds events
/// shows their narration, closed by a spacer where every event was
/// narrated, and else the condition that stopped it.
pub open spec fn turn_on_value(username: Seq<char>, value: JsonValue) -> TurnView {
    match validation(value, username) {
        Err(e) => refusal(e),
        Ok(events) => {
            let told = narration(events);
            TurnView {
                session: SessionView::Prompting,
                lines: if told.failure is None {
                    told.lines.push(SPACER@)
                } else {
                    told.lines
                },
                error: told.failure,
            }
        },
    }
}

/// The turn for every pair of session and signal but a response that
/// arrives while fetching.
///
/// Work that failed is reported with its condition, and the session
/// prompts again. A signal that does not answer what the session asked
/// for, and any signal to a closed session, changes nothing and shows
/// nothing.
pub open spec fn turn(session: SessionView, signal: SignalView) -> TurnView {
    match (session, signal) {
        (SessionView::Prompting, SignalView::Line(line)) => turn_on_line(line),
        (SessionView::Prompting, SignalView::Failed(e)) => refusal(e),
        (SessionView::Fetching { .. }, SignalView::Failed(e)) => refusal(e),
        _ => TurnView { session, lines: Seq::empty(), error: None },
    }
}

/// Takes the loop one turn further.
///
/// A response that arrives while fetching is decoded: where the decoder
/// refuses it, the turn is a refusal with a decoding error; else it is the
/// turn on the decoded value. Every other pair gives the turn that [`turn`]
/// describes.
pub fn advance(session: Session, signal: Signal) -> (result: Turn)
    ensures
        match (session@, signal@) {
            (SessionView::Fetching { username, .. }, SignalView::Body(text)) => match document(
                text,
            ) {
                Some(value) => result@ == turn_on_value(username, value),
                None => {
                    &&& result@.session == SessionView::Prompting
                    &&& result@.lines == Seq::<Seq<char>>::empty()
                    &&& result@.error matches Some(e) && e is JsonParsingError
                },
            },
            _ => result@ == turn(session@, signal@),
        },
{
    match (session, signal) {
        (Session::Prompting, Signal::Line(line)) => {
            match parse_user_input(line.as_str()) {
                Ok(Command::Quit) => {
                    let lines = vec![String::from_str(FAREWELL)];
                    let result = Turn { session: Session::Closed, lines, error: None };
                    assert(result@.lines =~= seq![FAREWELL@]);
                    result
                },
                Ok(Command::Lookup(username)) => {
                    let url = events_url(username.as_str());
                    let lines = vec![String::from_str(SPACER)];
                    let result = Turn {
                        session: Session::Fetching { username, url },
                        lines,
                        error: None,
                    };
                    assert(result@.lines =~= seq![SPACER@]);
                    result
                },
                Err(e) => refuse(e),
            }
        },
        (Session::Prompting, Signal::Failed(e)) => refuse(e),
        (Session::Fetching { username, url }, Signal::Failed(e)) => refuse(e),
        (Session::Fetching { username, url }, Signal::Body(text)) => {
            match process_user_data(text.as_str(), username.as_str()) {
                Err(e) => refuse(e),
                Ok(events) => {
                    let told = process_events(&events);
                    let mut lines = told.lines;
                    if told.failure.is_none() {
                        lines.push(String::from_str(SPACER));
                    }
                    let result = Turn { session: Session::Prompting, lines, error: told.failure };
                    assert(result@.lines =~= turn_on_value(
                        username@,
                        document(text@).unwrap(),
                    ).lines);
                    result
                },
            }
        },
        (session, _) => {
            let result = Turn { session, lines: Vec::new(), error: None };
            assert(result@.lines =~= Seq::<Seq<char>>::empty());
            result
        },
    }
}

/// The turn that shows nothing but a condition and prompts again.
fn refuse(e: ProgramErrors) -> (result: Turn)
    ensures
        result@ == refusal(e@),
{
    let result = Turn { session: Session::Prompting, lines: Vec::new(), error: Some(e) };
    assert(result@.lines =~= Seq::<Seq<char>>::empty());
    result
}

/// A line of nothing but white space, the empty line among them, is
/// refused while prompting: the session prompts again and no request is
/// made.
pub proof fn blank_line_makes_no_request(line: Seq<char>)
    requires
        forall|i: int| 0 <= i < line.len() ==> is_blank(#[trigger] line[i]),
    ensures
        turn(SessionView::Prompting, SignalView::Line(line)) == refusal(
            ProgramErrorsView::NoArguments,
        ),
{
    blank_line_names_nobody(line);
}

/// `q` and `quit`, in small or capital letters and with any white space
/// before and after, close the session with the farewell: no request is
/// made.
pub proof fn quit_closes_the_session(before: Seq<char>, word: Seq<char>, after: Seq<char>)
    requires
        forall|i: int| 0 <= i < before.len() ==> is_blank(#[trigger] before[i]),
        forall|i: int| 0 <= i < after.len() ==> is_blank(#[trigger] after[i]),
        folded(word) == "q"@ || folded(word) == "quit"@,
    ensures
        turn(SessionView::Prompting, SignalView::Line(before + word + after)) == (TurnView {
            session: SessionView::Closed,
            lines: seq![FAREWELL@],
            error: None,
        }),
{
    quit_is_heard(before, word, after);
}

/// A response that is refused is not narrated: nothing is shown but its
/// condition.
pub proof fn refused_response_is_not_narrated(username: Seq<char>, value: JsonValue)
    requires
        validation(value, username) is Err,
    ensures
        turn_on_value(username, value) == refusal(validation(value, username)->Err_0),
        turn_on_value(username, value).lines.len() == 0,
{
}

/// Only a request to leave closes a session: no condition that is
/// reported and no response does.
pub proof fn only_quit_closes(session: SessionView, signal: SignalView)
    requires
        session !is Closed,
    ensures
        turn(session, signal).session is Closed ==> {
            &&& session is Prompting
            &&& signal matches SignalView::Line(line) && asks_to_quit(line)
        },
        forall|username: Seq<char>, value: JsonValue|
            (#[trigger] turn_on_value(username, value)).session is Prompting,
{
}

} // verus!
