//! Turning event records into sentences.

use crate::error::{ProgramErrors, ProgramErrorsView};
use crate::json::{views, Json, JsonValue};
use crate::text::{same_text, texts};
use vstd::prelude::*;

verus! {

/// The kinds of event that can be narrated.
#[derive(Debug, Clone, Copy, PartialEq, Eq, Structural)]
pub enum EventType {
    CreateEvent,
    ForkEvent,
    IssueCommentEvent,
    IssuesEvent,
    PublicEvent,
    PullRequestEvent,
    PushEvent,
    WatchEvent,
}

impl EventType {
    /// The kind that a tag stands for, if it stands for one.
    pub open spec fn named(name: Seq<char>) -> Option<EventType> {
        if name == "CreateEvent"@ {
            Some(EventType::CreateEvent)
        } else if name == "ForkEvent"@ {
            Some(EventType::ForkEvent)
        } else if name == "IssueCommentEvent"@ {
            Some(EventType::IssueCommentEvent)
        } else if name == "IssuesEvent"@ {
            Some(EventType::IssuesEvent)
        } else if name == "PublicEvent"@ {
            Some(EventType::PublicEvent)
        } else if name == "PullRequestEvent"@ {
            Some(EventType::PullRequestEvent)
        } else if name == "PushEvent"@ {
            Some(EventType::PushEvent)
        } else if name == "WatchEvent"@ {
            Some(EventType::WatchEvent)
        } else {
            None
        }
    }

    /// Reads a tag.
    pub fn from_name(name: &str) -> (kind: Option<EventType>)
        ensures
            kind == EventType::named(name@),
    {
        if same_text(name, "CreateEvent") {
            Some(EventType::CreateEvent)
        } else if same_text(name, "ForkEvent") {
            Some(EventType::ForkEvent)
        } else if same_text(name, "IssueCommentEvent") {
            Some(EventType::IssueCommentEvent)
        } else if same_text(name, "IssuesEvent") {
            Some(EventType::IssuesEvent)
        } else if same_text(name, "PublicEvent") {
            Some(EventType::PublicEvent)
        } else if same_text(name, "PullRequestEvent") {
            Some(EventType::PullRequestEvent)
        } else if same_text(name, "PushEvent") {
            Some(EventType::PushEvent)
        } else if same_text(name, "WatchEvent") {
            Some(EventType::WatchEvent)
        } else {
            None
        }
    }
}

/// The tag of an event: the text under `type`.
pub open spec fn tag_of(event: JsonValue) -> Option<Seq<char>> {
    match event.field("type"@) {
        Some(tag) => tag.text(),
        None => None,
    }
}

/// Who acted: the text under `actor.display_login`.
pub open spec fn actor_of(event: JsonValue) -> Option<Seq<char>> {
    event.text_at("actor"@, "display_login"@)
}

/// Where it happened: the text under `repo.name`.
pub open spec fn repo_of(event: JsonValue) -> Option<Seq<char>> {
    event.text_at("repo"@, "name"@)
}

/// What was created: the text under `payload.ref_type`.
pub open spec fn ref_type_of(event: JsonValue) -> Option<Seq<char>> {
    event.text_at("payload"@, "ref_type"@)
}

/// The name of what was created: the text under `payload.ref`.
pub open spec fn ref_of(event: JsonValue) -> Option<Seq<char>> {
    event.text_at("payload"@, "ref"@)
}

/// The text under `payload.forkee.full_name`.
pub open spec fn forkee_of(event: JsonValue) -> Option<Seq<char>> {
    event.text_under("payload"@, "forkee"@, "full_name"@)
}

/// The text under `payload.issue.title`.
pub open spec fn issue_title_of(event: JsonValue) -> Option<Seq<char>> {
    event.text_under("payload"@, "issue"@, "title"@)
}

/// The text under `payload.pull_request.title`.
pub open spec fn pull_title_of(event: JsonValue) -> Option<Seq<char>> {
    event.text_under("payload"@, "pull_request"@, "title"@)
}

/// The elements of the array under `payload.commits`.
pub open spec fn commits_of(event: JsonValue) -> Option<Seq<JsonValue>> {
    match event.field("payload"@) {
        Some(payload) => match payload.field("commits"@) {
            Some(commits) => commits.items(),
            None => None,
        },
        None => None,
    }
}

/// The text under `message` of one commit.
pub open spec fn message_of(commit: JsonValue) -> Option<Seq<char>> {
    match commit.field("message"@) {
        Some(message) => message.text(),
        None => None,
    }
}

/// Whether an event holds, as text, every field that the sentences of its
/// kind are made of.
pub open spec fn well_formed(kind: EventType, event: JsonValue) -> bool {
    match kind {
        EventType::CreateEvent => {
            &&& actor_of(event) is Some
            &&& repo_of(event) is Some
            &&& ref_type_of(event) is Some
            &&& ref_type_of(event) == Some("branch"@) ==> ref_of(event) is Some
        },
        EventType::ForkEvent => {
            &&& actor_of(event) is Some
            &&& repo_of(event) is Some
            &&& forkee_of(event) is Some
        },
        EventType::IssueCommentEvent => {
            &&& actor_of(event) is Some
            &&& forkee_of(event) is Some
            &&& issue_title_of(event) is Some
        },
        EventType::IssuesEvent => {
            &&& actor_of(event) is Some
            &&& repo_of(event) is Some
            &&& issue_title_of(event) is Some
        },
        EventType::PullRequestEvent => {
            &&& actor_of(event) is Some
            &&& repo_of(event) is Some
            &&& pull_title_of(event) is Some
        },
        EventType::PushEvent => {
            &&& actor_of(event) is Some
            &&& repo_of(event) is Some
            &&& commits_of(event) is Some
            &&& forall|i: int|
                0 <= i < commits_of(event).unwrap().len() ==> message_of(
                    #[trigger] commits_of(event).unwrap()[i],
                ) is Some
        },
        EventType::PublicEvent | EventType::WatchEvent => {
            &&& actor_of(event) is Some
            &&& repo_of(event) is Some
        },
    }
}

/// The sentence for something made public.
pub open spec fn public_sentence(actor: Seq<char>, repo: Seq<char>) -> Seq<char> {
    actor + " made "@ + repo + " public"@
}

/// The sentence for one pushed commit.
pub open spec fn push_sentence(actor: Seq<char>, repo: Seq<char>, message: Seq<char>) -> Seq<
    char,
> {
    actor + " pushed new content to "@ + repo + " with the message "@ + message
}

/// The sentence for a creation, by what was created.
pub open spec fn create_sentence(
    actor: Seq<char>,
    repo: Seq<char>,
    ref_type: Seq<char>,
    name: Seq<char>,
) -> Seq<char> {
    if ref_type == "repository"@ {
        actor + " created a new repository named "@ + repo
    } else if ref_type == "branch"@ {
        actor + " created a new branch named "@ + name + " in "@ + repo
    } else {
        "JUSTIN THIS IS A NEW CREATE EVENT YOU NEED TO ADD: "@ + ref_type
    }
}

/// The sentences that narrate a well-formed event of the given kind.
///
/// A push gives one sentence for each commit, in their order, and then the
/// sentence of a publication.
pub open spec fn sentences(kind: EventType, event: JsonValue) -> Seq<Seq<char>> {
    let actor = actor_of(event).unwrap();
    let repo = repo_of(event).unwrap();
    match kind {
        EventType::CreateEvent => seq![
            create_sentence(actor, repo, ref_type_of(event).unwrap(), ref_of(event).unwrap()),
        ],
        EventType::ForkEvent => seq![
            actor + " forked from "@ + repo + " to "@ + forkee_of(event).unwrap(),
        ],
        EventType::IssueCommentEvent => seq![
            actor + " commented an issue in the repo "@ + forkee_of(event).unwrap()
                + " with the title "@ + issue_title_of(event).unwrap(),
        ],
        EventType::IssuesEvent => seq![
            actor + " opened an issue in "@ + repo + " with the title "@ + issue_title_of(
                event,
            ).unwrap(),
        ],
        EventType::PublicEvent => seq![public_sentence(actor, repo)],
        EventType::PullRequestEvent => seq![
            actor + " opened a pull request in "@ + repo + " with the title "@ + pull_title_of(
                event,
            ).unwrap(),
        ],
        EventType::PushEvent => {
            let commits = commits_of(event).unwrap();
            Seq::new(
                commits.len(),
                |i: int| push_sentence(actor, repo, message_of(commits[i]).unwrap()),
            ).push(public_sentence(actor, repo))
        },
        EventType::WatchEvent => seq![actor + " is watching "@ + repo],
    }
}

/// What narrating an event under a given tag comes to: its sentences, or
/// the reason why there are none.
pub open spec fn tagged_outcome(tag: Seq<char>, event: JsonValue) -> Result<
    Seq<Seq<char>>,
    ProgramErrorsView,
> {
    match EventType::named(tag) {
        None => Err(ProgramErrorsView::UncheckedEventType),
        Some(kind) => if well_formed(kind, event) {
            Ok(sentences(kind, event))
        } else {
            Err(ProgramErrorsView::TypeMismatch)
        },
    }
}

/// What narrating an event comes to, its tag read from the event itself.
pub open spec fn outcome(event: JsonValue) -> Result<Seq<Seq<char>>, ProgramErrorsView> {
    match tag_of(event) {
        None => Err(ProgramErrorsView::TypeMismatch),
        Some(tag) => tagged_outcome(tag, event),
    }
}

/// The mathematical content of what narrating an event gave.
pub open spec fn told(result: Result<Vec<String>, ProgramErrors>) -> Result<
    Seq<Seq<char>>,
    ProgramErrorsView,
> {
    match result {
        Ok(lines) => Ok(texts(lines@)),
        Err(e) => Err(e@),
    }
}

/// Two texts with a link between them.
fn joined(first: &str, link: &str, last: &str) -> (line: String)
    ensures
        line@ == first@ + link@ + last@,
{
    String::from_str(first).concat(link).concat(last)
}

/// A text with a link and a last part after it.
fn extended(head: String, link: &str, tail: &str) -> (line: String)
    ensures
        line@ == head@ + link@ + tail@,
{
    head.concat(link).concat(tail)
}

/// The sentences of a creation.
fn narrate_create(event: &Json) -> (found: Option<Vec<String>>)
    ensures
        match found {
            Some(lines) => well_formed(EventType::CreateEvent, event@) && texts(lines@)
                == sentences(EventType::CreateEvent, event@),
            None => !well_formed(EventType::CreateEvent, event@),
        },
{
    let actor = match event.text_at("actor", "display_login") {
        Some(actor) => actor,
        None => return None,
    };
    let repo = match event.text_at("repo", "name") {
        Some(repo) => repo,
        None => return None,
    };
    let ref_type = match event.text_at("payload", "ref_type") {
        Some(ref_type) => ref_type,
        None => return None,
    };
    proof {
        reveal_strlit("repository");
        reveal_strlit("branch");
        assert("repository"@.len() != "branch"@.len());
    }
    let line = if same_text(ref_type, "repository") {
        joined(actor, " created a new repository named ", repo)
    } else if same_text(ref_type, "branch") {
        let name = match event.text_at("payload", "ref") {
            Some(name) => name,
            None => return None,
        };
        extended(joined(actor, " created a new branch named ", name), " in ", repo)
    } else {
        String::from_str("JUSTIN THIS IS A NEW CREATE EVENT YOU NEED TO ADD: ").concat(ref_type)
    };
    let lines = vec![line];
    assert(texts(lines@) =~= sentences(EventType::CreateEvent, event@));
    Some(lines)
}

/// The sentences of a push: one for each commit, then that of a publication.
fn narrate_push(event: &Json) -> (found: Option<Vec<String>>)
    ensures
        match found {
            Some(lines) => well_formed(EventType::PushEvent, event@) && texts(lines@)
                == sentences(EventType::PushEvent, event@),
            None => !well_formed(EventType::PushEvent, event@),
        },
{
    let actor = match event.text_at("actor", "display_login") {
        Some(actor) => actor,
        None => return None,
    };
    let repo = match event.text_at("repo", "name") {
        Some(repo) => repo,
        None => return None,
    };
    let payload = match event.field("payload") {
        Some(payload) => payload,
        None => return None,
    };
    let listed = match payload.field("commits") {
        Some(listed) => listed,
        None => return None,
    };
    let commits = match listed.as_items() {
        Some(commits) => commits,
        None => return None,
    };
    let ghost all = commits_of(event@).unwrap();
    let mut lines: Vec<String> = Vec::new();
    let mut i: usize = 0;
    while i < commits.len()
        invariant
            i <= commits.len(),
            actor_of(event@) == Some(actor@),
            repo_of(event@) == Some(repo@),
            commits_of(event@) == Some(all),
            all == views(commits@),
            lines@.len() == i,
            forall|k: int| 0 <= k < i ==> message_of(#[trigger] all[k]) is Some,
            forall|k: int|
                0 <= k < i ==> (#[trigger] lines@[k])@ == push_sentence(
                    actor@,
                    repo@,
                    message_of(all[k]).unwrap(),
                ),
        decreases commits.len() - i,
    {
        let text = match commits[i].field("message") {
            Some(message) => message.as_text(),
            None => None,
        };
        assert(all[i as int] == commits@[i as int]@);
        let message = match text {
            Some(message) => message,
            None => {
                assert(message_of(all[i as int]) is None);
                return None;
            },
        };
        lines.push(
            extended(
                joined(actor, " pushed new content to ", repo),
                " with the message ",
                message,
            ),
        );
        i += 1;
    }
    lines.push(joined(actor, " made ", repo).concat(" public"));
    assert(texts(lines@) =~= sentences(EventType::PushEvent, event@));
    Some(lines)
}

/// The one sentence of a kind other than a creation or a push.
fn narrate_plain(kind: EventType, event: &Json) -> (found: Option<Vec<String>>)
    requires
        kind != EventType::CreateEvent,
        kind != EventType::PushEvent,
    ensures
        match found {
            Some(lines) => well_formed(kind, event@) && texts(lines@) == sentences(kind, event@),
            None => !well_formed(kind, event@),
        },
{
    let actor = match event.text_at("actor", "display_login") {
        Some(actor) => actor,
        None => return None,
    };
    let line = match kind {
        EventType::IssueCommentEvent => {
            let forkee = match event.text_under("payload", "forkee", "full_name") {
                Some(forkee) => forkee,
                None => return None,
            };
            let title = match event.text_under("payload", "issue", "title") {
                Some(title) => title,
                None => return None,
            };
            extended(
                joined(actor, " commented an issue in the repo ", forkee),
                " with the title ",
                title,
            )
        },
        _ => {
            let repo = match event.text_at("repo", "name") {
                Some(repo) => repo,
                None => return None,
            };
            match kind {
                EventType::ForkEvent => {
                    let forkee = match event.text_under("payload", "forkee", "full_name") {
                        Some(forkee) => forkee,
                        None => return None,
                    };
                    extended(joined(actor, " forked from ", repo), " to ", forkee)
                },
                EventType::IssuesEvent => {
                    let title = match event.text_under("payload", "issue", "title") {
                        Some(title) => title,
                        None => return None,
                    };
                    extended(
                        joined(actor, " opened an issue in ", repo),
                        " with the title ",
                        title,
                    )
                },
                EventType::PullRequestEvent => {
                    let title = match event.text_under("payload", "pull_request", "title") {
                        Some(title) => title,
                        None => return None,
                    };
                    extended(
                        joined(actor, " opened a pull request in ", repo),
                        " with the title ",
                        title,
                    )
                },
                EventType::PublicEvent => joined(actor, " made ", repo).concat(" public"),
                _ => joined(actor, " is watching ", repo),
            }
        },
    };
    let lines = vec![line];
    assert(texts(lines@) =~= sentences(kind, event@));
    Some(lines)
}

/// Narrates one event under the tag given for it.
///
/// A tag outside the known kinds is refused whatever the event holds. An
/// event of a known kind gives its sentences, all of them or none: where a
/// field that they are made of is missing or is no text, the event is
/// refused as misshapen.
pub fn process_event_type(event_type: &str, event: &Json) -> (result: Result<
    Vec<String>,
    ProgramErrors,
>)
    ensures
        told(result) == tagged_outcome(event_type@, event@),
        EventType::named(event_type@) matches Some(kind) && well_formed(kind, event@)
            ==> result is Ok,
{
    let kind = match EventType::from_name(event_type) {
        Some(kind) => kind,
        None => return Err(ProgramErrors::UncheckedEventType),
    };
    let found = match kind {
        EventType::CreateEvent => narrate_create(event),
        EventType::PushEvent => narrate_push(event),
        _ => narrate_plain(kind, event),
    };
    match found {
        Some(lines) => Ok(lines),
        None => Err(ProgramErrors::TypeMismatch),
    }
}

/// The first position at or after `from` whose event cannot be narrated;
/// the number of events where there is none.
pub open spec fn halt_from(events: Seq<JsonValue>, from: int) -> int
    decreases events.len() - from,
{
    if from < 0 || from >= events.len() {
        events.len() as int
    } else if outcome(events[from]) is Err {
        from
    } else {
        halt_from(events, from + 1)
    }
}

/// The sentences of the first `count` events, in order, each event's
/// sentences together.
pub open spec fn sentences_before(events: Seq<JsonValue>, count: int) -> Seq<Seq<char>>
    decreases count,
{
    if count <= 0 || count > events.len() {
        Seq::empty()
    } else {
        match outcome(events[count - 1]) {
            Ok(lines) => sentences_before(events, count - 1) + lines,
            Err(_) => sentences_before(events, count - 1),
        }
    }
}

/// What narrating a batch gives: the sentences to show, and the reason for
/// stopping early if it did.
#[derive(Debug, Clone, PartialEq, Eq)]
pub struct Narration {
    pub lines: Vec<String>,
    pub failure: Option<ProgramErrors>,
}

/// The mathematical content of a [`Narration`].
pub struct NarrationView {
    pub lines: Seq<Seq<char>>,
    pub failure: Option<ProgramErrorsView>,
}

impl View for Narration {
    type V = NarrationView;

    open spec fn view(&self) -> NarrationView {
        NarrationView {
            lines: texts(self.lines@),
            failure: match self.failure {
                Some(e) => Some(e@),
                None => None,
            },
        }
    }
}

/// The narration of a batch: the sentences of the events before the first
/// one that cannot be narrated, and that event's reason; the sentences of
/// all where every event can be.
pub open spec fn narration(events: Seq<JsonValue>) -> NarrationView {
    let halt = halt_from(events, 0);
    NarrationView {
        lines: sentences_before(events, halt),
        failure: if halt < events.len() {
            match outcome(events[halt]) {
                Err(e) => Some(e),
                Ok(_) => None,
            }
        } else {
            None
        },
    }
}

/// Narrates one event, its tag read from the event itself.
pub fn process_event(event: &Json) -> (result: Result<Vec<String>, ProgramErrors>)
    ensures
        told(result) == outcome(event@),
{
    let tag = match event.field("type") {
        Some(tag) => tag.as_text(),
        None => None,
    };
    match tag {
        Some(tag) => process_event_type(tag, event),
        None => Err(ProgramErrors::TypeMismatch),
    }
}

/// Narrates a batch of events in order and stops at the first that cannot
/// be narrated: what came before it stands, nothing after it is looked at.
pub fn process_events(events: &Vec<Json>) -> (result: Narration)
    ensures
        result@ == narration(views(events@)),
{
    let ghost all = views(events@);
    let mut lines: Vec<String> = Vec::new();
    let mut i: usize = 0;
    while i < events.len()
        invariant
            i <= events.len(),
            all == views(events@),
            halt_from(all, 0) == halt_from(all, i as int),
            texts(lines@) == sentences_before(all, i as int),
        decreases events.len() - i,
    {
        assert(all[i as int] == events@[i as int]@);
        match process_event(&events[i]) {
            Ok(mut more) => {
                let ghost before = lines@;
                let ghost added = more@;
                lines.append(&mut more);
                assert(texts(lines@) =~= texts(before) + texts(added));
            },
            Err(e) => {
                let result = Narration { lines, failure: Some(e) };
                assert(result@.lines == narration(all).lines);
                return result;
            },
        }
        i += 1;
    }
    Narration { lines, failure: None }
}

/// Where `halt_from` lands: at or after `from`, past events that can be
/// narrated, and on one that cannot unless it lands at the end.
pub proof fn lemma_halt_from(events: Seq<JsonValue>, from: int)
    requires
        0 <= from <= events.len(),
    ensures
        from <= halt_from(events, from) <= events.len(),
        forall|i: int| from <= i < halt_from(events, from) ==> outcome(#[trigger] events[i]) is Ok,
        halt_from(events, from) < events.len() ==> outcome(events[halt_from(events, from)]) is Err,
    decreases events.len() - from,
{
    if from < events.len() && outcome(events[from]) is Ok {
        lemma_halt_from(events, from + 1);
    }
}

/// The sentences before a position depend on the events before it alone.
pub proof fn lemma_sentences_before_prefix(
    events: Seq<JsonValue>,
    others: Seq<JsonValue>,
    count: int,
)
    requires
        0 <= count <= events.len(),
        count <= others.len(),
        forall|i: int| 0 <= i < count ==> events[i] == others[i],
    ensures
        sentences_before(events, count) == sentences_before(others, count),
    decreases count,
{
    if count > 0 {
        lemma_sentences_before_prefix(events, others, count - 1);
    }
}

/// A batch whose events can all be narrated is narrated to its end.
pub proof fn sound_batch_is_narrated_whole(events: Seq<JsonValue>)
    requires
        forall|i: int| 0 <= i < events.len() ==> outcome(#[trigger] events[i]) is Ok,
    ensures
        narration(events).failure is None,
        narration(events).lines == sentences_before(events, events.len() as int),
{
    lemma_halt_from(events, 0);
}

/// The first event that cannot be narrated ends the narration: the
/// sentences of the events before it are kept, its reason is the one
/// reported, and whatever follows it makes no difference.
pub proof fn first_failure_ends_the_narration(events: Seq<JsonValue>, at: int)
    requires
        0 <= at < events.len(),
        forall|i: int| 0 <= i < at ==> outcome(#[trigger] events[i]) is Ok,
        outcome(events[at]) is Err,
    ensures
        narration(events).lines == sentences_before(events, at),
        narration(events).failure == Some(outcome(events[at])->Err_0),
        narration(events) == narration(events.take(at + 1)),
{
    let kept = events.take(at + 1);
    lemma_halt_from(events, 0);
    lemma_halt_from(kept, 0);
    assert(kept[at] == events[at]);
    assert forall|i: int| 0 <= i < at implies outcome(#[trigger] kept[i]) is Ok by {
        assert(kept[i] == events[i]);
    }
    assert(halt_from(events, 0) == at);
    assert(halt_from(kept, 0) == at);
    lemma_sentences_before_prefix(events, kept, at);
}

/// An event whose tag names no known kind cannot be narrated, whatever
/// else it holds.
pub proof fn unknown_tag_is_refused(event: JsonValue)
    requires
        tag_of(event) matches Some(tag) && EventType::named(tag) is None,
    ensures
        outcome(event) == Err::<Seq<Seq<char>>, ProgramErrorsView>(
            ProgramErrorsView::UncheckedEventType,
        ),
{
}

/// An event of a known kind that holds every field of that kind is
/// narrated.
pub proof fn well_formed_event_is_narrated(event: JsonValue)
    requires
        tag_of(event) matches Some(tag) && (EventType::named(tag) matches Some(kind)
            && well_formed(kind, event)),
    ensures
        outcome(event) is Ok,
{
}

} // verus!
