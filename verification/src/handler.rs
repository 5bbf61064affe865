//! The request handler, as a machine that is told what happened and says
//! what to do next.
//!
//! One exchange runs from the arrival of a request to its reply. The caller
//! owns the socket, the file and the lock: it performs each [`Action`] and
//! hands back the [`Event`] that came of it.
//!
//! | state         | event            | action                                  |
//! |---------------|------------------|-----------------------------------------|
//! | `Arrived`     | `Method`         | `ReadBody`, or reply 405 if not `POST`  |
//! | `ReadingBody` | `Body`           | `Load`, or reply 400 if not records     |
//! | `Loading`     | `Content`        | `Write`, or reply 500 if not encodable  |
//! | `Loading`     | `Failed`         | reply 500                               |
//! | `Writing`     | `Written`        | reply 200                               |
//! | `Writing`     | `Failed`         | reply 500                               |
//!
//! `Load` asks for the lock and the content of the file, which is made if
//! it is not there. `Write` asks to replace the content. The lock is given
//! up with the reply.

use crate::codec::{decode_submission, encoding, records_of_trees, submission, DecodeError};
use crate::json::{parsed, Tree};
use crate::record::{record_views, Record, RecordView};
use crate::store::{
    append, appended, lemma_append_nothing, lemma_append_to_empty, stored, unreadable, Rewrite,
    StoreError,
};
use vstd::prelude::*;

verus! {

/// The replies that the handler gives.
#[derive(Debug, Clone, Copy, PartialEq, Eq, Structural)]
pub enum Reply {
    /// The records were appended.
    Appended,
    /// The body does not submit records.
    InvalidJson,
    /// The method is not the one that submits.
    MethodNotAllowed,
    /// The store could not be read or written, for the reason given.
    StoreFailure(StoreError),
}

impl Reply {
    /// The HTTP status of each reply.
    pub open spec fn status_code(self) -> u16 {
        match self {
            Reply::Appended => 200,
            Reply::InvalidJson => 400,
            Reply::MethodNotAllowed => 405,
            Reply::StoreFailure(_) => 500,
        }
    }

    /// The body of each reply.
    pub open spec fn text(self) -> Seq<char> {
        match self {
            Reply::Appended => "Data successfully appended to JSON file"@,
            Reply::InvalidJson => "Invalid JSON"@,
            Reply::MethodNotAllowed => "Method Not Allowed"@,
            Reply::StoreFailure(_) => "Internal Server Error"@,
        }
    }

    /// The HTTP status of the reply.
    pub fn status(&self) -> (code: u16)
        ensures
            code == self.status_code(),
    {
        match self {
            Reply::Appended => 200,
            Reply::InvalidJson => 400,
            Reply::MethodNotAllowed => 405,
            Reply::StoreFailure(_) => 500,
        }
    }

    /// The body of the reply.
    pub fn body(&self) -> (body: &'static str)
        ensures
            body@ == self.text(),
    {
        match self {
            Reply::Appended => "Data successfully appended to JSON file",
            Reply::InvalidJson => "Invalid JSON",
            Reply::MethodNotAllowed => "Method Not Allowed",
            Reply::StoreFailure(_) => "Internal Server Error",
        }
    }
}

/// The method that submits records.
pub open spec fn submit_method() -> Seq<char> {
    "POST"@
}

/// How far an exchange has come.
#[derive(Debug, PartialEq, Eq)]
pub enum State {
    /// A request has arrived; nothing is known of it yet.
    Arrived,
    /// The body of the request is being read.
    ReadingBody,
    /// The records of the request wait for the content of the store.
    Loading(Vec<Record>),
    /// The new content is being written.
    Writing,
    /// The reply was given.
    Done,
}

pub enum StateView {
    Arrived,
    ReadingBody,
    Loading(Seq<RecordView>),
    Writing,
    Done,
}

impl View for State {
    type V = StateView;

    open spec fn view(&self) -> StateView {
        match self {
            State::Arrived => StateView::Arrived,
            State::ReadingBody => StateView::ReadingBody,
            State::Loading(records) => StateView::Loading(record_views(records@)),
            State::Writing => StateView::Writing,
            State::Done => StateView::Done,
        }
    }
}

/// What the caller reports.
#[derive(Debug, PartialEq, Eq)]
pub enum Event {
    /// The method of the request, as HTTP writes it.
    Method(String),
    /// The whole body of the request.
    Body(Vec<u8>),
    /// The whole content of the store's file; the lock is held.
    Content(Vec<u8>),
    /// The new content is in the file.
    Written,
    /// The file could not be opened, read or written.
    Failed,
}

pub enum EventView {
    Method(Seq<char>),
    Body(Seq<u8>),
    Content(Seq<u8>),
    Written,
    Failed,
}

impl View for Event {
    type V = EventView;

    open spec fn view(&self) -> EventView {
        match self {
            Event::Method(method) => EventView::Method(method@),
            Event::Body(body) => EventView::Body(body@),
            Event::Content(content) => EventView::Content(content@),
            Event::Written => EventView::Written,
            Event::Failed => EventView::Failed,
        }
    }
}

/// What the caller is to do.
#[derive(Debug, PartialEq, Eq)]
pub enum Action {
    /// Read the whole body of the request.
    ReadBody,
    /// Take the lock and read the whole content of the store's file.
    Load,
    /// Replace the content of the store's file.
    Write(Rewrite),
    /// Give up the lock, if it is held, and answer.
    Reply(Reply),
}

pub enum ActionView {
    ReadBody,
    Load,
    Write { content: Seq<char>, discarded: bool },
    Reply(Reply),
}

impl View for Action {
    type V = ActionView;

    open spec fn view(&self) -> ActionView {
        match self {
            Action::ReadBody => ActionView::ReadBody,
            Action::Load => ActionView::Load,
            Action::Write(rewrite) => ActionView::Write {
                content: rewrite.content@,
                discarded: rewrite.discarded,
            },
            Action::Reply(reply) => ActionView::Reply(*reply),
        }
    }
}

/// The step that an event brings about in a state: the state that follows
/// and the action due. `None` where the state does not wait for the event.
pub open spec fn next(state: StateView, event: EventView) -> Option<(StateView, ActionView)> {
    match (state, event) {
        (StateView::Arrived, EventView::Method(method)) => if method == submit_method() {
            Some((StateView::ReadingBody, ActionView::ReadBody))
        } else {
            Some((StateView::Done, ActionView::Reply(Reply::MethodNotAllowed)))
        },
        (StateView::ReadingBody, EventView::Body(body)) => match submission(body) {
            Ok(records) => Some((StateView::Loading(records), ActionView::Load)),
            Err(_) => Some((StateView::Done, ActionView::Reply(Reply::InvalidJson))),
        },
        (StateView::Loading(records), EventView::Content(content)) => match encoding(
            appended(stored(content), records),
        ) {
            Some(text) => Some(
                (
                    StateView::Writing,
                    ActionView::Write { content: text, discarded: unreadable(content) },
                ),
            ),
            None => Some(
                (StateView::Done, ActionView::Reply(Reply::StoreFailure(StoreError::Encode))),
            ),
        },
        (StateView::Loading(_), EventView::Failed) => Some(
            (StateView::Done, ActionView::Reply(Reply::StoreFailure(StoreError::Io))),
        ),
        (StateView::Writing, EventView::Written) => Some(
            (StateView::Done, ActionView::Reply(Reply::Appended)),
        ),
        (StateView::Writing, EventView::Failed) => Some(
            (StateView::Done, ActionView::Reply(Reply::StoreFailure(StoreError::Io))),
        ),
        _ => None,
    }
}

/// Whether `method` is the method that submits records.
pub fn is_submission(method: &str) -> (b: bool)
    ensures
        b == (method@ == submit_method()),
{
    method.to_owned() == "POST".to_owned()
}

/// Takes one step of an exchange.
pub fn step(state: State, event: Event) -> (r: Option<(State, Action)>)
    ensures
        match r {
            Some((s, a)) => next(state@, event@) == Some((s@, a@)),
            None => next(state@, event@) is None,
        },
{
    match (state, event) {
        (State::Arrived, Event::Method(method)) => {
            if is_submission(method.as_str()) {
                Some((State::ReadingBody, Action::ReadBody))
            } else {
                Some((State::Done, Action::Reply(Reply::MethodNotAllowed)))
            }
        },
        (State::ReadingBody, Event::Body(body)) => match decode_submission(body.as_slice()) {
            Ok(records) => Some((State::Loading(records), Action::Load)),
            Err(_) => Some((State::Done, Action::Reply(Reply::InvalidJson))),
        },
        (State::Loading(records), Event::Content(content)) => match append(
            content.as_slice(),
            records,
        ) {
            Ok(rewrite) => Some((State::Writing, Action::Write(rewrite))),
            Err(e) => Some((State::Done, Action::Reply(Reply::StoreFailure(e)))),
        },
        (State::Loading(_), Event::Failed) => Some(
            (State::Done, Action::Reply(Reply::StoreFailure(StoreError::Io))),
        ),
        (State::Writing, Event::Written) => Some((State::Done, Action::Reply(Reply::Appended))),
        (State::Writing, Event::Failed) => Some(
            (State::Done, Action::Reply(Reply::StoreFailure(StoreError::Io))),
        ),
        _ => None,
    }
}

/// The actions that a run of events brings about, from `state` on. An event
/// that the state does not wait for brings about nothing.
pub open spec fn actions(state: StateView, events: Seq<EventView>) -> Seq<ActionView>
    decreases events.len(),
{
    if events.len() == 0 {
        Seq::empty()
    } else {
        match next(state, events[0]) {
            Some((following, action)) => seq![action] + actions(following, events.drop_first()),
            None => actions(state, events.drop_first()),
        }
    }
}

/// How many of the actions write to the store.
pub open spec fn writes(actions: Seq<ActionView>) -> nat
    decreases actions.len(),
{
    if actions.len() == 0 {
        0
    } else if actions[0] is Write {
        1 + writes(actions.drop_first())
    } else {
        writes(actions.drop_first())
    }
}

/// How many of the actions are replies.
pub open spec fn replies(actions: Seq<ActionView>) -> nat
    decreases actions.len(),
{
    if actions.len() == 0 {
        0
    } else if actions[0] is Reply {
        1 + replies(actions.drop_first())
    } else {
        replies(actions.drop_first())
    }
}

/// The actions of a run that begins with a step: the action of that step,
/// then those of the rest of the run.
pub proof fn lemma_actions_after_step(state: StateView, first: EventView, rest: Seq<EventView>)
    ensures
        actions(state, seq![first] + rest) == match next(state, first) {
            Some((following, action)) => seq![action] + actions(following, rest),
            None => actions(state, rest),
        },
{
    let events = seq![first] + rest;
    assert(events[0] == first);
    assert(events.drop_first() =~= rest);
}

/// Once the reply is given, nothing more is done, whatever is reported.
pub proof fn lemma_done_is_final(events: Seq<EventView>)
    ensures
        actions(StateView::Done, events) == Seq::<ActionView>::empty(),
    decreases events.len(),
{
    if events.len() > 0 {
        lemma_done_is_final(events.drop_first());
    }
}

/// One exchange writes to the store once at most, and not at all once the
/// write is under way; it replies once at most.
pub proof fn lemma_one_write_one_reply(state: StateView, events: Seq<EventView>)
    ensures
        writes(actions(state, events)) <= 1,
        state is Writing || state is Done ==> writes(actions(state, events)) == 0,
        replies(actions(state, events)) <= 1,
        state is Done ==> replies(actions(state, events)) == 0,
    decreases events.len(),
{
    if events.len() > 0 {
        match next(state, events[0]) {
            Some((following, action)) => {
                lemma_one_write_one_reply(following, events.drop_first());
                let rest = actions(following, events.drop_first());
                assert((seq![action] + rest).drop_first() =~= rest);
            },
            None => {
                lemma_one_write_one_reply(state, events.drop_first());
            },
        }
    }
}

/// A request with another method than the one that submits is answered
/// with 405, and nothing is read from or written to the store, whatever is
/// reported afterwards.
pub proof fn lemma_other_method_is_refused(method: Seq<char>, rest: Seq<EventView>)
    requires
        method != submit_method(),
    ensures
        actions(StateView::Arrived, seq![EventView::Method(method)] + rest) == seq![
            ActionView::Reply(Reply::MethodNotAllowed),
        ],
        Reply::MethodNotAllowed.status_code() == 405,
{
    lemma_actions_after_step(StateView::Arrived, EventView::Method(method), rest);
    lemma_done_is_final(rest);
}

/// A submission whose body does not hold records is answered with 400, and
/// nothing is read from or written to the store, whatever is reported
/// afterwards.
pub proof fn lemma_malformed_body_is_refused(body: Seq<u8>, rest: Seq<EventView>)
    requires
        submission(body) is Err,
    ensures
        actions(
            StateView::Arrived,
            seq![EventView::Method(submit_method()), EventView::Body(body)] + rest,
        ) == seq![ActionView::ReadBody, ActionView::Reply(Reply::InvalidJson)],
        Reply::InvalidJson.status_code() == 400,
{
    let tail = seq![EventView::Body(body)] + rest;
    assert(seq![EventView::Method(submit_method()), EventView::Body(body)] + rest =~= seq![
        EventView::Method(submit_method()),
    ] + tail);
    lemma_actions_after_step(StateView::Arrived, EventView::Method(submit_method()), tail);
    lemma_actions_after_step(StateView::ReadingBody, EventView::Body(body), rest);
    lemma_done_is_final(rest);
}

/// A submission of records to a store that can be read and written: the
/// new content is the text of what the store held, then the records
/// submitted, and the reply is 200.
pub proof fn lemma_submission_is_appended(
    body: Seq<u8>,
    content: Seq<u8>,
    records: Seq<RecordView>,
    text: Seq<char>,
)
    requires
        submission(body) == Ok::<Seq<RecordView>, DecodeError>(records),
        encoding(stored(content) + records) == Some(text),
    ensures
        actions(
            StateView::Arrived,
            seq![
                EventView::Method(submit_method()),
                EventView::Body(body),
                EventView::Content(content),
                EventView::Written,
            ],
        ) == seq![
            ActionView::ReadBody,
            ActionView::Load,
            ActionView::Write { content: text, discarded: unreadable(content) },
            ActionView::Reply(Reply::Appended),
        ],
        Reply::Appended.status_code() == 200,
{
    let e0 = EventView::Method(submit_method());
    let e1 = EventView::Body(body);
    let e2 = EventView::Content(content);
    let e3 = EventView::Written;
    assert(seq![e0, e1, e2, e3] =~= seq![e0] + seq![e1, e2, e3]);
    assert(seq![e1, e2, e3] =~= seq![e1] + seq![e2, e3]);
    assert(seq![e2, e3] =~= seq![e2] + seq![e3]);
    assert(seq![e3] =~= seq![e3] + Seq::<EventView>::empty());
    lemma_actions_after_step(StateView::Arrived, e0, seq![e1, e2, e3]);
    lemma_actions_after_step(StateView::ReadingBody, e1, seq![e2, e3]);
    lemma_actions_after_step(StateView::Loading(records), e2, seq![e3]);
    lemma_actions_after_step(StateView::Writing, e3, Seq::empty());
    lemma_done_is_final(Seq::empty());
    assert(seq![ActionView::ReadBody] + (seq![ActionView::Load] + (seq![
        ActionView::Write { content: text, discarded: unreadable(content) },
    ] + (seq![ActionView::Reply(Reply::Appended)] + Seq::<ActionView>::empty()))) =~= seq![
        ActionView::ReadBody,
        ActionView::Load,
        ActionView::Write { content: text, discarded: unreadable(content) },
        ActionView::Reply(Reply::Appended),
    ]);
}

/// A submission to a store without content: the new content is the text of
/// the records submitted, in their order, and of nothing else.
pub proof fn lemma_first_submission_is_stored(
    body: Seq<u8>,
    records: Seq<RecordView>,
    text: Seq<char>,
)
    requires
        submission(body) == Ok::<Seq<RecordView>, DecodeError>(records),
        encoding(records) == Some(text),
    ensures
        actions(
            StateView::Arrived,
            seq![
                EventView::Method(submit_method()),
                EventView::Body(body),
                EventView::Content(Seq::empty()),
                EventView::Written,
            ],
        ) == seq![
            ActionView::ReadBody,
            ActionView::Load,
            ActionView::Write { content: text, discarded: false },
            ActionView::Reply(Reply::Appended),
        ],
{
    lemma_append_to_empty(records);
    lemma_submission_is_appended(body, Seq::empty(), records, text);
}

/// A submission of an empty array: the new content is the text of the
/// records that the store held, no more and no fewer, and the reply is 200.
pub proof fn lemma_empty_submission_keeps_records(
    body: Seq<u8>,
    content: Seq<u8>,
    text: Seq<char>,
)
    requires
        parsed(body) == Some(Tree::Array(Seq::empty())),
        encoding(stored(content)) == Some(text),
    ensures
        submission(body) == Ok::<Seq<RecordView>, DecodeError>(Seq::empty()),
        actions(
            StateView::Arrived,
            seq![
                EventView::Method(submit_method()),
                EventView::Body(body),
                EventView::Content(content),
                EventView::Written,
            ],
        ) == seq![
            ActionView::ReadBody,
            ActionView::Load,
            ActionView::Write { content: text, discarded: unreadable(content) },
            ActionView::Reply(Reply::Appended),
        ],
        Reply::Appended.status_code() == 200,
{
    let none = Seq::<Tree>::empty();
    assert(records_of_trees(none).unwrap() =~= Seq::<RecordView>::empty());
    lemma_append_nothing(stored(content));
    lemma_submission_is_appended(body, content, Seq::empty(), text);
}

} // verus!
