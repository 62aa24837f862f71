//! The decisions of the server's message loop.
//!
//! The loop itself receives and sends, and asks a resolver for the word under
//! the cursor; that is not done here. Here is what the loop does next, given
//! where it stands and what has just happened: `step`. The caller performs the
//! action it is given and comes back with the next event.

use vstd::prelude::*;
use vstd::string::*;
use crate::index::InstructionIndex;
use crate::instruction::InstructionView;
use crate::render::instruction_text;
use crate::text::{lowercase, str_eq, to_lowercase};

verus! {

/// The identifier that ties a response to its request: a number or a string.
#[derive(Debug, Clone, PartialEq, Eq)]
pub enum RequestId {
    Number(i32),
    Text(String),
}

/// A `RequestId` in specifications.
pub enum RequestIdView {
    Number(i32),
    Text(Seq<char>),
}

impl View for RequestId {
    type V = RequestIdView;

    open spec fn view(&self) -> RequestIdView {
        match self {
            RequestId::Number(n) => RequestIdView::Number(*n),
            RequestId::Text(s) => RequestIdView::Text(s@),
        }
    }
}

/// A place in a document: the document's URI, and a line and a column that
/// count from zero.
#[derive(Debug, Clone, PartialEq, Eq)]
pub struct TextPosition {
    pub uri: String,
    pub line: u32,
    pub character: u32,
}

/// A `TextPosition` in specifications.
pub struct TextPositionView {
    pub uri: Seq<char>,
    pub line: u32,
    pub character: u32,
}

impl View for TextPosition {
    type V = TextPositionView;

    open spec fn view(&self) -> TextPositionView {
        TextPositionView { uri: self.uri@, line: self.line, character: self.character }
    }
}

/// A request: its identifier, its method, and the place that its parameters
/// name, where they have the shape of a hover query's.
#[derive(Debug, Clone, PartialEq, Eq)]
pub struct Request {
    pub id: RequestId,
    pub method: String,
    pub position: Option<TextPosition>,
}

/// A `Request` in specifications.
pub struct RequestView {
    pub id: RequestIdView,
    pub method: Seq<char>,
    pub position: Option<TextPositionView>,
}

/// A place that may be absent, in specifications.
pub open spec fn position_view(position: Option<TextPosition>) -> Option<TextPositionView> {
    match position {
        Some(p) => Some(p@),
        None => None,
    }
}

impl View for Request {
    type V = RequestView;

    open spec fn view(&self) -> RequestView {
        RequestView {
            id: self.id@,
            method: self.method@,
            position: position_view(self.position),
        }
    }
}

/// A message from the channel. Responses and notifications are only seen;
/// nothing of them is read.
#[derive(Debug, Clone, PartialEq, Eq)]
pub enum Message {
    Request(Request),
    Response,
    Notification,
}

/// A `Message` in specifications.
pub enum MessageView {
    Request(RequestView),
    Response,
    Notification,
}

impl View for Message {
    type V = MessageView;

    open spec fn view(&self) -> MessageView {
        match self {
            Message::Request(request) => MessageView::Request(request@),
            Message::Response => MessageView::Response,
            Message::Notification => MessageView::Notification,
        }
    }
}

/// What has just happened in the loop.
#[derive(Debug, Clone, PartialEq, Eq)]
pub enum Event {
    /// A message has arrived.
    Message(Message),
    /// The resolver has answered: with the word at the place it was asked
    /// for, or with none where it found none.
    Token(Option<String>),
    /// The channel is exhausted.
    Closed,
}

/// An `Event` in specifications.
pub enum EventView {
    Message(MessageView),
    Token(Option<Seq<char>>),
    Closed,
}

impl View for Event {
    type V = EventView;

    open spec fn view(&self) -> EventView {
        match self {
            Event::Message(message) => EventView::Message(message@),
            Event::Token(Some(word)) => EventView::Token(Some(word@)),
            Event::Token(None) => EventView::Token(None),
            Event::Closed => EventView::Closed,
        }
    }
}

/// Where the loop stands.
#[derive(Debug, Clone, PartialEq, Eq)]
pub enum State {
    /// It waits for a message.
    Running,
    /// It waits for the resolver's answer to the hover query with this
    /// identifier.
    Resolving(RequestId),
    /// It has ended.
    Stopped,
}

/// A `State` in specifications.
pub enum StateView {
    Running,
    Resolving(RequestIdView),
    Stopped,
}

impl View for State {
    type V = StateView;

    open spec fn view(&self) -> StateView {
        match self {
            State::Running => StateView::Running,
            State::Resolving(id) => StateView::Resolving(id@),
            State::Stopped => StateView::Stopped,
        }
    }
}

/// The answer to a hover query: the identifier of the request, and the text
/// to show, or none where there is nothing to show.
#[derive(Debug, Clone, PartialEq, Eq)]
pub struct Reply {
    pub id: RequestId,
    pub body: Option<String>,
}

/// A `Reply` in specifications.
pub struct ReplyView {
    pub id: RequestIdView,
    pub body: Option<Seq<char>>,
}

impl View for Reply {
    type V = ReplyView;

    open spec fn view(&self) -> ReplyView {
        ReplyView {
            id: self.id@,
            body: match self.body {
                Some(text) => Some(text@),
                None => None,
            },
        }
    }
}

/// What the loop does next.
#[derive(Debug, Clone, PartialEq, Eq)]
pub enum Action {
    /// Receive the next message.
    Receive,
    /// Acknowledge the shutdown request with this identifier, and return
    /// with success.
    AcknowledgeShutdown(RequestId),
    /// Ask the resolver for the word at this place.
    Resolve(TextPosition),
    /// Send this reply, then receive the next message.
    Respond(Reply),
    /// Return with success.
    Stop,
}

/// An `Action` in specifications.
pub enum ActionView {
    Receive,
    AcknowledgeShutdown(RequestIdView),
    Resolve(TextPositionView),
    Respond(ReplyView),
    Stop,
}

impl View for Action {
    type V = ActionView;

    open spec fn view(&self) -> ActionView {
        match self {
            Action::Receive => ActionView::Receive,
            Action::AcknowledgeShutdown(id) => ActionView::AcknowledgeShutdown(id@),
            Action::Resolve(position) => ActionView::Resolve(position@),
            Action::Respond(reply) => ActionView::Respond(reply@),
            Action::Stop => ActionView::Stop,
        }
    }
}

/// What a hover over a word shows: the text of the instruction that stands in
/// the index under the lowercase form of the word, or nothing where none
/// stands there.
pub open spec fn hover_text(index: Map<Seq<char>, InstructionView>, word: Seq<char>) -> Option<
    Seq<char>,
> {
    if index.contains_key(lowercase(word)) {
        Some(instruction_text(index[lowercase(word)]))
    } else {
        None
    }
}

/// What a message asks of a loop that waits for one: a shutdown request ends
/// it, a hover query with a place goes to the resolver, anything else is
/// passed over without an answer.
pub open spec fn on_message(message: MessageView) -> (StateView, ActionView) {
    match message {
        MessageView::Request(request) => if request.method == "shutdown"@ {
            (StateView::Stopped, ActionView::AcknowledgeShutdown(request.id))
        } else if request.method == "textDocument/hover"@ && request.position is Some {
            (StateView::Resolving(request.id), ActionView::Resolve(request.position->Some_0))
        } else {
            (StateView::Running, ActionView::Receive)
        },
        MessageView::Response => (StateView::Running, ActionView::Receive),
        MessageView::Notification => (StateView::Running, ActionView::Receive),
    }
}

/// The next state and the action, given the state and what has happened.
///
/// A loop that has ended stays ended. An answer of the resolver is of use
/// only to a loop that waits for it: a word gives a reply, with the text for
/// the word or with none, and no word gives no reply. A query that was
/// waiting when something else happens is dropped.
pub open spec fn next(
    index: Map<Seq<char>, InstructionView>,
    state: StateView,
    event: EventView,
) -> (StateView, ActionView) {
    match state {
        StateView::Stopped => (StateView::Stopped, ActionView::Stop),
        _ => match event {
            EventView::Closed => (StateView::Stopped, ActionView::Stop),
            EventView::Message(message) => on_message(message),
            EventView::Token(token) => match (state, token) {
                (StateView::Resolving(id), Some(word)) => (
                    StateView::Running,
                    ActionView::Respond(ReplyView { id, body: hover_text(index, word) }),
                ),
                _ => (StateView::Running, ActionView::Receive),
            },
        },
    }
}

/// The reply to a hover query over a word.
pub fn hover_reply(index: &InstructionIndex, id: RequestId, word: &str) -> (reply: Reply)
    ensures
        reply@ == (ReplyView { id: id@, body: hover_text(index@, word@) }),
{
    let key = to_lowercase(word);
    match index.get(key.as_str()) {
        Some(instruction) => Reply { id, body: Some(instruction.render()) },
        None => Reply { id, body: None },
    }
}

/// Decides on a message, for a loop that has not ended.
fn decide(message: Message) -> (r: (State, Action))
    ensures
        (r.0@, r.1@) == on_message(message@),
{
    match message {
        Message::Request(request) => {
            if str_eq(request.method.as_str(), "shutdown") {
                (State::Stopped, Action::AcknowledgeShutdown(request.id))
            } else if str_eq(request.method.as_str(), "textDocument/hover") {
                match request.position {
                    Some(position) => (State::Resolving(request.id), Action::Resolve(position)),
                    None => (State::Running, Action::Receive),
                }
            } else {
                (State::Running, Action::Receive)
            }
        },
        Message::Response => (State::Running, Action::Receive),
        Message::Notification => (State::Running, Action::Receive),
    }
}

/// One step of the loop: from where it stands and what has happened to where
/// it stands next and what it does.
pub fn step(index: &InstructionIndex, state: State, event: Event) -> (r: (State, Action))
    ensures
        (r.0@, r.1@) == next(index@, state@, event@),
{
    match state {
        State::Stopped => (State::Stopped, Action::Stop),
        State::Running => match event {
            Event::Closed => (State::Stopped, Action::Stop),
            Event::Message(message) => decide(message),
            Event::Token(_) => (State::Running, Action::Receive),
        },
        State::Resolving(id) => match event {
            Event::Closed => (State::Stopped, Action::Stop),
            Event::Message(message) => decide(message),
            Event::Token(Some(word)) => (
                State::Running,
                Action::Respond(hover_reply(index, id, word.as_str())),
            ),
            Event::Token(None) => (State::Running, Action::Receive),
        },
    }
}

/// Where the loop stands after a sequence of events.
pub open spec fn state_after(
    index: Map<Seq<char>, InstructionView>,
    state: StateView,
    events: Seq<EventView>,
) -> StateView
    decreases events.len(),
{
    if events.len() == 0 {
        state
    } else {
        state_after(index, next(index, state, events[0]).0, events.drop_first())
    }
}

/// What the loop does over a sequence of events: one action for each event.
pub open spec fn actions(
    index: Map<Seq<char>, InstructionView>,
    state: StateView,
    events: Seq<EventView>,
) -> Seq<ActionView>
    decreases events.len(),
{
    if events.len() == 0 {
        Seq::empty()
    } else {
        seq![next(index, state, events[0]).1] + actions(
            index,
            next(index, state, events[0]).0,
            events.drop_first(),
        )
    }
}

/// A hover query: a request with the method of hover queries and a place.
pub open spec fn hover_query(id: RequestIdView, position: TextPositionView) -> EventView {
    EventView::Message(
        MessageView::Request(
            RequestView { id, method: "textDocument/hover"@, position: Some(position) },
        ),
    )
}

/// A shutdown request.
pub open spec fn shutdown_request(
    id: RequestIdView,
    position: Option<TextPositionView>,
) -> EventView {
    EventView::Message(MessageView::Request(RequestView { id, method: "shutdown"@, position }))
}

/// The two methods that the loop knows are two different methods.
pub proof fn lemma_methods_differ()
    ensures
        "textDocument/hover"@ != "shutdown"@,
{
    reveal_strlit("textDocument/hover");
    reveal_strlit("shutdown");
    assert("textDocument/hover"@.len() == 18 && "shutdown"@.len() == 8);
}

/// A hover over a word that, in lowercase, is a key of the index: the query
/// goes to the resolver, and the word that comes back gives a reply to that
/// very request. The reply has a text, which holds the name of the
/// instruction and, for each of its forms, the names that the form has and
/// the type tag of each of its operands.
pub proof fn theorem_hover_hit(
    index: Map<Seq<char>, InstructionView>,
    id: RequestIdView,
    position: TextPositionView,
    word: Seq<char>,
)
    requires
        index.contains_key(lowercase(word)),
    ensures
        actions(
            index,
            StateView::Running,
            seq![hover_query(id, position), EventView::Token(Some(word))],
        ) == seq![
            ActionView::Resolve(position),
            ActionView::Respond(
                ReplyView { id, body: Some(instruction_text(index[lowercase(word)])) },
            ),
        ],
        state_after(
            index,
            StateView::Running,
            seq![hover_query(id, position), EventView::Token(Some(word))],
        ) == StateView::Running,
        ({
            let instruction = index[lowercase(word)];
            let text = instruction_text(instruction);
            &&& crate::render::mentions(text, instruction.name)
            &&& forall|i: int|
                0 <= i < instruction.forms.len() ==> ((
                #[trigger] instruction.forms[i]).gas_name matches Some(gas)
                    ==> crate::render::mentions(text, gas))
            &&& forall|i: int|
                0 <= i < instruction.forms.len() ==> ((
                #[trigger] instruction.forms[i]).go_name matches Some(go)
                    ==> crate::render::mentions(text, go))
            &&& forall|i: int, j: int|
                0 <= i < instruction.forms.len() && 0 <= j < instruction.forms[i].operands.len()
                    ==> crate::render::mentions(
                    text,
                    crate::render::type_tag(#[trigger] instruction.forms[i].operands[j]),
                )
        }),
{
    lemma_hover_round(index, id, position, word);
    crate::render::theorem_text_mentions(index[lowercase(word)]);
}

/// A hover over a word that, in lowercase, is no key of the index: the
/// request gets a reply all the same, to that very request, and the reply
/// has no text.
pub proof fn theorem_hover_miss(
    index: Map<Seq<char>, InstructionView>,
    id: RequestIdView,
    position: TextPositionView,
    word: Seq<char>,
)
    requires
        !index.contains_key(lowercase(word)),
    ensures
        actions(
            index,
            StateView::Running,
            seq![hover_query(id, position), EventView::Token(Some(word))],
        ) == seq![
            ActionView::Resolve(position),
            ActionView::Respond(ReplyView { id, body: None }),
        ],
        state_after(
            index,
            StateView::Running,
            seq![hover_query(id, position), EventView::Token(Some(word))],
        ) == StateView::Running,
{
    lemma_hover_round(index, id, position, word);
}

/// A hover query and the resolver's word, from a loop that waits for a
/// message: the query goes to the resolver, the word gives the reply.
pub proof fn lemma_hover_round(
    index: Map<Seq<char>, InstructionView>,
    id: RequestIdView,
    position: TextPositionView,
    word: Seq<char>,
)
    ensures
        actions(
            index,
            StateView::Running,
            seq![hover_query(id, position), EventView::Token(Some(word))],
        ) == seq![
            ActionView::Resolve(position),
            ActionView::Respond(ReplyView { id, body: hover_text(index, word) }),
        ],
        state_after(
            index,
            StateView::Running,
            seq![hover_query(id, position), EventView::Token(Some(word))],
        ) == StateView::Running,
{
    lemma_methods_differ();
    let events = seq![hover_query(id, position), EventView::Token(Some(word))];
    let rest = events.drop_first();
    assert(rest =~= seq![EventView::Token(Some(word))]);
    assert(rest.drop_first() =~= Seq::empty());
    assert(next(index, StateView::Running, events[0]) == (
        StateView::Resolving(id),
        ActionView::Resolve(position),
    ));
    assert(next(index, StateView::Resolving(id), rest[0]) == (
        StateView::Running,
        ActionView::Respond(ReplyView { id, body: hover_text(index, word) }),
    ));
    assert(actions(index, StateView::Running, rest.drop_first()) =~= Seq::empty());
    assert(state_after(index, StateView::Running, rest.drop_first()) == StateView::Running);
    assert(actions(index, StateView::Resolving(id), rest) =~= seq![
        ActionView::Respond(ReplyView { id, body: hover_text(index, word) }),
    ]);
    assert(state_after(index, StateView::Resolving(id), rest) == StateView::Running);
    assert(actions(index, StateView::Running, events) =~= seq![
        ActionView::Resolve(position),
        ActionView::Respond(ReplyView { id, body: hover_text(index, word) }),
    ]);
}

/// A loop that has ended stays ended, and does nothing but return.
pub proof fn lemma_stopped_stays(index: Map<Seq<char>, InstructionView>, events: Seq<EventView>)
    ensures
        state_after(index, StateView::Stopped, events) == StateView::Stopped,
        actions(index, StateView::Stopped, events) == Seq::new(
            events.len(),
            |i: int| ActionView::Stop,
        ),
    decreases events.len(),
{
    if events.len() > 0 {
        lemma_stopped_stays(index, events.drop_first());
        assert(actions(index, StateView::Stopped, events) =~= Seq::new(
            events.len(),
            |i: int| ActionView::Stop,
        ));
    } else {
        assert(actions(index, StateView::Stopped, events) =~= Seq::new(
            events.len(),
            |i: int| ActionView::Stop,
        ));
    }
}

/// The loop over two sequences of events in a row: what it does over the
/// first, then what it does over the second from where the first left it.
pub proof fn lemma_actions_concat(
    index: Map<Seq<char>, InstructionView>,
    state: StateView,
    first: Seq<EventView>,
    second: Seq<EventView>,
)
    ensures
        state_after(index, state, first + second) == state_after(
            index,
            state_after(index, state, first),
            second,
        ),
        actions(index, state, first + second) == actions(index, state, first) + actions(
            index,
            state_after(index, state, first),
            second,
        ),
    decreases first.len(),
{
    if first.len() == 0 {
        assert(first + second =~= second);
        assert(actions(index, state, first) + actions(index, state, second) =~= actions(
            index,
            state,
            second,
        ));
    } else {
        let step = next(index, state, first[0]);
        assert((first + second).drop_first() =~= first.drop_first() + second);
        assert((first + second)[0] == first[0]);
        lemma_actions_concat(index, step.0, first.drop_first(), second);
        assert(actions(index, state, first + second) =~= actions(index, state, first) + actions(
            index,
            state_after(index, state, first),
            second,
        ));
    }
}

/// A shutdown request ends the loop, wherever it arrives before the loop has
/// ended: the loop acknowledges that request and stops, and of what is
/// enqueued after it nothing is processed. No message after it is answered
/// or sent to the resolver.
pub proof fn theorem_shutdown(
    index: Map<Seq<char>, InstructionView>,
    before: Seq<EventView>,
    id: RequestIdView,
    position: Option<TextPositionView>,
    after: Seq<EventView>,
)
    requires
        state_after(index, StateView::Running, before) != StateView::Stopped,
    ensures
        state_after(
            index,
            StateView::Running,
            before + seq![shutdown_request(id, position)] + after,
        ) == StateView::Stopped,
        actions(index, StateView::Running, before + seq![shutdown_request(id, position)] + after)
            == actions(index, StateView::Running, before) + seq![
            ActionView::AcknowledgeShutdown(id),
        ] + Seq::new(after.len(), |i: int| ActionView::Stop),
{
    let request = seq![shutdown_request(id, position)];
    let middle = state_after(index, StateView::Running, before);
    assert(request.drop_first() =~= Seq::empty());
    assert(next(index, middle, request[0]) == (
        StateView::Stopped,
        ActionView::AcknowledgeShutdown(id),
    ));
    assert(actions(index, StateView::Stopped, request.drop_first()) =~= Seq::empty());
    assert(state_after(index, StateView::Stopped, request.drop_first()) == StateView::Stopped);
    assert(actions(index, middle, request) =~= seq![ActionView::AcknowledgeShutdown(id)]);
    assert(state_after(index, middle, request) == StateView::Stopped);
    lemma_actions_concat(index, StateView::Running, before, request);
    lemma_actions_concat(index, StateView::Running, before + request, after);
    lemma_stopped_stays(index, after);
}

} // verus!
