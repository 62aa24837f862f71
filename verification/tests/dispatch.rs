use assembly_lsp::dispatch::{
    hover_reply, step, Action, Event, Message, Reply, Request, RequestId, State, TextPosition,
};
use assembly_lsp::index::InstructionIndex;
use assembly_lsp::populate::populate_instructions;

const ADD: &str = "<InstructionSet name=\"x86-64\">\n  <Instruction name=\"ADD\" summary=\"Add\">\n    <InstructionForm gas-name=\"add\">\n      <Operand type=\"r32\" output=\"true\"/>\n      <Operand type=\"r32\" input=\"true\"/>\n    </InstructionForm>\n  </Instruction>\n</InstructionSet>\n";

const ADD_TEXT: &str = "add\nAdd\n\n\n## Forms\n\n\n- *GAS*: add\n\n  + [r32]    output = true \n  + [r32]    input = true  \n";

fn place() -> TextPosition {
    TextPosition { uri: "file:///tmp/a.s".to_string(), line: 3, character: 7 }
}

fn request(id: RequestId, method: &str, position: Option<TextPosition>) -> Event {
    Event::Message(Message::Request(Request { id, method: method.to_string(), position }))
}

fn hover(id: RequestId) -> Event {
    request(id, "textDocument/hover", Some(place()))
}

/// Runs the loop over the events, as a caller would, and gives every action.
fn drive(index: &InstructionIndex, events: Vec<Event>) -> (State, Vec<Action>) {
    let mut state = State::Running;
    let mut actions = Vec::new();
    for event in events {
        let (next, action) = step(index, state, event);
        state = next;
        actions.push(action);
    }
    (state, actions)
}

#[test]
fn hover_over_mixed_case_hits_the_lowercase_key() {
    let index = populate_instructions(ADD).unwrap();
    let (state, actions) = drive(
        &index,
        vec![hover(RequestId::Number(1)), Event::Token(Some("ADD".to_string()))],
    );
    assert_eq!(state, State::Running);
    assert_eq!(
        actions,
        vec![
            Action::Resolve(place()),
            Action::Respond(Reply { id: RequestId::Number(1), body: Some(ADD_TEXT.to_string()) }),
        ]
    );
    let text = match &actions[1] {
        Action::Respond(reply) => reply.body.clone().unwrap(),
        _ => unreachable!(),
    };
    assert!(text.contains("add"));
    assert!(text.contains("[r32]"));
    assert!(text.contains("input"));
    assert!(text.contains("output"));
}

#[test]
fn hover_hit_in_any_case() {
    let index = populate_instructions(ADD).unwrap();
    for word in ["add", "Add", "aDD", "ADD"] {
        let reply = hover_reply(&index, RequestId::Text("q".to_string()), word);
        assert_eq!(reply.id, RequestId::Text("q".to_string()));
        assert_eq!(reply.body, Some(ADD_TEXT.to_string()));
    }
}

#[test]
fn hover_miss_gets_a_reply_without_text() {
    let index = populate_instructions(ADD).unwrap();
    let (state, actions) = drive(
        &index,
        vec![hover(RequestId::Text("seven".to_string())), Event::Token(Some("sub".to_string()))],
    );
    assert_eq!(state, State::Running);
    assert_eq!(
        actions,
        vec![
            Action::Resolve(place()),
            Action::Respond(Reply { id: RequestId::Text("seven".to_string()), body: None }),
        ]
    );
    for word in ["", "ad", "addd", " add", "r32"] {
        assert_eq!(hover_reply(&index, RequestId::Number(0), word).body, None);
    }
}

#[test]
fn reply_goes_to_the_request_that_asked() {
    let index = populate_instructions(ADD).unwrap();
    for id in [RequestId::Number(-5), RequestId::Number(i32::MAX), RequestId::Text(String::new()), RequestId::Text("92".to_string())] {
        let (_, actions) = drive(&index, vec![hover(id.clone()), Event::Token(Some("add".to_string()))]);
        match &actions[1] {
            Action::Respond(reply) => assert_eq!(reply.id, id),
            other => panic!("{:?}", other),
        }
    }
}

#[test]
fn unresolved_word_gets_no_reply() {
    let index = populate_instructions(ADD).unwrap();
    let (state, actions) = drive(&index, vec![hover(RequestId::Number(1)), Event::Token(None)]);
    assert_eq!(state, State::Running);
    assert_eq!(actions, vec![Action::Resolve(place()), Action::Receive]);
}

#[test]
fn shutdown_ends_the_loop() {
    let index = populate_instructions(ADD).unwrap();
    let (state, action) = step(&index, State::Running, request(RequestId::Number(9), "shutdown", None));
    assert_eq!(state, State::Stopped);
    assert_eq!(action, Action::AcknowledgeShutdown(RequestId::Number(9)));
    // also while a query waits for its word, and whatever the parameters look like
    let (state, action) = step(
        &index,
        State::Resolving(RequestId::Number(1)),
        request(RequestId::Number(10), "shutdown", Some(place())),
    );
    assert_eq!(state, State::Stopped);
    assert_eq!(action, Action::AcknowledgeShutdown(RequestId::Number(10)));
}

#[test]
fn nothing_is_processed_after_shutdown() {
    let index = populate_instructions(ADD).unwrap();
    let (state, actions) = drive(
        &index,
        vec![
            hover(RequestId::Number(1)),
            Event::Token(Some("add".to_string())),
            Event::Message(Message::Notification),
            request(RequestId::Number(2), "shutdown", None),
            hover(RequestId::Number(3)),
            Event::Token(Some("add".to_string())),
            request(RequestId::Number(4), "shutdown", None),
            Event::Message(Message::Response),
            Event::Closed,
        ],
    );
    assert_eq!(state, State::Stopped);
    assert_eq!(
        actions,
        vec![
            Action::Resolve(place()),
            Action::Respond(Reply { id: RequestId::Number(1), body: Some(ADD_TEXT.to_string()) }),
            Action::Receive,
            Action::AcknowledgeShutdown(RequestId::Number(2)),
            Action::Stop,
            Action::Stop,
            Action::Stop,
            Action::Stop,
            Action::Stop,
        ]
    );
}

#[test]
fn closed_channel_ends_the_loop() {
    let index = InstructionIndex::new();
    assert_eq!(step(&index, State::Running, Event::Closed), (State::Stopped, Action::Stop));
    assert_eq!(
        step(&index, State::Resolving(RequestId::Number(1)), Event::Closed),
        (State::Stopped, Action::Stop)
    );
    assert_eq!(step(&index, State::Stopped, Event::Closed), (State::Stopped, Action::Stop));
}

#[test]
fn other_requests_are_passed_over_in_silence() {
    let index = populate_instructions(ADD).unwrap();
    let events = vec![
        request(RequestId::Number(1), "textDocument/hover", None),
        request(RequestId::Number(2), "textDocument/completion", Some(place())),
        request(RequestId::Number(3), "textDocument/Hover", Some(place())),
        request(RequestId::Number(4), "Shutdown", None),
        request(RequestId::Number(5), "", None),
        request(RequestId::Number(6), "initialize", None),
    ];
    for event in events {
        assert_eq!(step(&index, State::Running, event), (State::Running, Action::Receive));
    }
}

#[test]
fn responses_and_notifications_are_only_seen() {
    let index = populate_instructions(ADD).unwrap();
    for message in [Message::Response, Message::Notification] {
        assert_eq!(
            step(&index, State::Running, Event::Message(message.clone())),
            (State::Running, Action::Receive)
        );
        assert_eq!(
            step(&index, State::Resolving(RequestId::Number(1)), Event::Message(message)),
            (State::Running, Action::Receive)
        );
    }
}

#[test]
fn a_word_that_nobody_waits_for_is_dropped() {
    let index = populate_instructions(ADD).unwrap();
    assert_eq!(
        step(&index, State::Running, Event::Token(Some("add".to_string()))),
        (State::Running, Action::Receive)
    );
    assert_eq!(step(&index, State::Running, Event::Token(None)), (State::Running, Action::Receive));
    assert_eq!(
        step(&index, State::Stopped, Event::Token(Some("add".to_string()))),
        (State::Stopped, Action::Stop)
    );
}

#[test]
fn a_new_query_replaces_the_one_that_waits() {
    let index = populate_instructions(ADD).unwrap();
    let (state, actions) = drive(
        &index,
        vec![
            hover(RequestId::Number(1)),
            hover(RequestId::Number(2)),
            Event::Token(Some("add".to_string())),
        ],
    );
    assert_eq!(state, State::Running);
    assert_eq!(
        actions[2],
        Action::Respond(Reply { id: RequestId::Number(2), body: Some(ADD_TEXT.to_string()) })
    );
}
