use semi_e37::generic::Action;
use semi_e37::generic::DataMessage;
use semi_e37::generic::Message;
use semi_e37::generic::ProcedureCallbacks;
use semi_e37::generic::ProcedureKind;
use semi_e37::generic::SelectStatus;
use semi_e37::generic::SelectionState;
use semi_e37::primitive;
use semi_e37::primitive::ConnectionState;
use semi_e37::primitive::MessageHeader;
use semi_e37::primitive::DEFAULT_MAX_LENGTH;
use semi_e37::single::Client;
use semi_e37::single::ConnectionMode;
use semi_e37::single::MessageContents;
use semi_e37::single::MessageID;
use semi_e37::single::ParameterSettings;
use semi_e37::single::RejectReason;
use semi_e37::single::SingleSession;
use semi_e37::single::SESSION_ID;
use semi_e37::Error;

fn settings(connect_mode: ConnectionMode) -> ParameterSettings {
    ParameterSettings { connect_mode, t5: 10, t6: 5, ..ParameterSettings::default() }
}

fn id(system: u32) -> MessageID {
    MessageID { session: 0xFFFF, system }
}

fn control(session_type: u8, byte_2: u8, byte_3: u8, system: u32) -> primitive::Message {
    primitive::Message {
        header: MessageHeader {
            session_id: 0xFFFF,
            byte_2,
            byte_3,
            presentation_type: 0,
            session_type,
            system,
        },
        text: vec![],
    }
}

/// Carries a message over the wire: writes it as a frame and reads the frame
/// back on the other side.
fn wire(message: Message) -> primitive::Message {
    let frame = message.into_primitive().encode(DEFAULT_MAX_LENGTH).unwrap();
    primitive::Message::decode(&frame, DEFAULT_MAX_LENGTH).unwrap()
}

fn transmitted(actions: Vec<Action>) -> Message {
    assert_eq!(actions.len(), 1, "{:?}", actions);
    match actions.into_iter().next() {
        Some(Action::Transmit(message)) => message,
        other => panic!("expected a message to transmit, found {:?}", other),
    }
}

fn s1f1() -> DataMessage {
    DataMessage { stream: 1, function: 1, w: true, text: vec![] }
}

fn s1f2() -> DataMessage {
    DataMessage { stream: 1, function: 2, w: false, text: vec![0x01, 0x02, 0x41, 0x01, 0x61, 0x41, 0x00] }
}

/// An active and a passive client that have connected and selected.
fn selected_pair() -> (Client, Client) {
    let mut active = Client::new(settings(ConnectionMode::Active));
    let mut passive = Client::new(settings(ConnectionMode::Passive));
    assert!(matches!(passive.connect(0), Ok(None)));
    let select = active.connect(0).unwrap().unwrap();
    let answer = transmitted(passive.receive(wire(select)));
    active.receive(wire(answer));
    assert_eq!(active.selection_state(), SelectionState::Selected);
    assert_eq!(passive.selection_state(), SelectionState::Selected);
    (active, passive)
}

#[test]
fn profile_decides_as_hsms_ss_prescribes() {
    let passive = SingleSession { connect_mode: ConnectionMode::Passive };
    assert_eq!(passive.select(0xFFFF, 0), Some(SelectStatus::Okay));
    assert_eq!(passive.select(0xFFFF, 1), None);
    assert_eq!(passive.select(0xFFFE, 0), None);
    assert_eq!(passive.select(0, 0), None);
    assert_eq!(passive.deselect(0xFFFF, 1), None);
    assert_eq!(passive.separate(0xFFFF, 1), None);
    assert!(passive.restricts_linktest());
    let active = SingleSession { connect_mode: ConnectionMode::Active };
    assert_eq!(active.select(0xFFFF, 0), None);
    assert_eq!(active.deselect(0xFFFF, 0), None);
    assert_eq!(active.separate(0xFFFF, 0), None);
    assert!(active.restricts_linktest());
    assert_eq!(SESSION_ID, 0xFFFF);
}

#[test]
fn new_single_client_is_not_connected() {
    let client = Client::new(settings(ConnectionMode::Active));
    assert_eq!(client.connection_state(), ConnectionState::NotConnected);
    assert_eq!(client.selection_state(), SelectionState::NotSelected);
    assert_eq!(client.selection_count(), 0);
    assert_eq!(client.pending(), 0);
    assert_eq!(client.select_deadline(), None);
    assert_eq!(client.next_deadline(), None);
    assert_eq!(client.parameter_settings(), settings(ConnectionMode::Active));
}

#[test]
fn active_connect_and_select_happy_path() {
    let mut active = Client::new(settings(ConnectionMode::Active));
    let mut passive = Client::new(settings(ConnectionMode::Passive));
    assert!(matches!(passive.connect(0), Ok(None)));
    let select = active.connect(0).unwrap().unwrap();
    assert_eq!(
        select,
        Message {
            id: MessageID { session: 0xFFFF, system: 0x0000_0001 },
            contents: MessageContents::SelectRequest
        }
    );
    assert_eq!(active.selection_state(), SelectionState::SelectInProgress);
    assert_eq!(active.next_deadline(), Some(5000));
    let answer = transmitted(passive.receive(wire(select)));
    assert_eq!(
        answer,
        Message {
            id: MessageID { session: 0xFFFF, system: 0x0000_0001 },
            contents: MessageContents::SelectResponse(0)
        }
    );
    let actions = active.receive(wire(answer));
    assert_eq!(actions.len(), 1);
    assert!(matches!(&actions[0], Action::Complete(c) if c.system == 1 && c.kind == ProcedureKind::Select && matches!(c.result, Ok(None))));
    assert_eq!(active.selection_state(), SelectionState::Selected);
    assert_eq!(passive.selection_state(), SelectionState::Selected);
    assert_eq!(active.selection_count(), 1);
    assert_eq!(passive.selection_count(), 1);
    assert_eq!(passive.select_deadline(), None);
    assert!(matches!(passive.await_select(1_000_000), Ok(true)));
}

#[test]
fn single_connect_twice_is_refused() {
    let mut active = Client::new(settings(ConnectionMode::Active));
    active.connect(0).unwrap();
    assert!(matches!(active.connect(0), Err(Error::AlreadyConnected)));
    assert_eq!(active.pending(), 1);
    let mut passive = Client::new(settings(ConnectionMode::Passive));
    passive.connect(0).unwrap();
    assert!(matches!(passive.connect(5), Err(Error::AlreadyConnected)));
    assert_eq!(passive.select_deadline(), Some(10_000));
}

#[test]
fn select_timeout() {
    let mut active = Client::new(settings(ConnectionMode::Active));
    let mut passive = Client::new(settings(ConnectionMode::Passive));
    passive.connect(0).unwrap();
    active.connect(0).unwrap();
    assert!(active.expire(5000).is_empty());
    assert_eq!(active.connection_state(), ConnectionState::Connected);
    let actions = active.expire(5001);
    assert_eq!(actions.len(), 2);
    assert!(matches!(&actions[0], Action::Complete(c) if c.system == 1 && c.kind == ProcedureKind::Select && matches!(c.result, Err(Error::TimedOut))));
    assert!(matches!(&actions[1], Action::Disconnect));
    assert_eq!(active.connection_state(), ConnectionState::NotConnected);
    assert_eq!(active.selection_state(), SelectionState::NotSelected);
    let actions = passive.connection_lost();
    assert_eq!(actions.len(), 1);
    assert!(matches!(&actions[0], Action::Disconnect));
    assert_eq!(passive.connection_state(), ConnectionState::NotConnected);
    assert_eq!(passive.select_deadline(), None);
}

#[test]
fn passive_waits_for_select_until_t7() {
    let mut passive = Client::new(settings(ConnectionMode::Passive));
    assert!(matches!(passive.await_select(0), Err((Error::NotConnected, actions)) if actions.is_empty()));
    passive.connect(1000).unwrap();
    assert_eq!(passive.select_deadline(), Some(11_000));
    assert!(matches!(passive.await_select(1000), Ok(false)));
    assert!(matches!(passive.await_select(11_000), Ok(false)));
    match passive.await_select(11_001) {
        Err((Error::TimedOut, actions)) => {
            assert_eq!(actions.len(), 1);
            assert!(matches!(&actions[0], Action::Disconnect));
        },
        other => panic!("unexpected {:?}", other),
    }
    assert_eq!(passive.connection_state(), ConnectionState::NotConnected);
    assert_eq!(passive.select_deadline(), None);
}

#[test]
fn select_that_is_refused_ends_the_connection() {
    let mut active = Client::new(settings(ConnectionMode::Active));
    active.connect(0).unwrap();
    let actions = active.receive(control(2, 0, 1, 1));
    assert_eq!(actions.len(), 2);
    assert!(matches!(&actions[0], Action::Complete(c) if c.system == 1 && matches!(c.result, Err(Error::ProcedureRejected(1)))));
    assert!(matches!(&actions[1], Action::Disconnect));
    assert_eq!(active.connection_state(), ConnectionState::NotConnected);

    let mut active = Client::new(settings(ConnectionMode::Active));
    active.connect(0).unwrap();
    let actions = active.receive(control(7, 1, 1, 1));
    assert_eq!(actions.len(), 2);
    assert!(matches!(&actions[0], Action::Complete(c) if c.system == 1 && matches!(c.result, Err(Error::ProcedureRejected(1)))));
    assert!(matches!(&actions[1], Action::Disconnect));
    assert_eq!(active.connection_state(), ConnectionState::NotConnected);
}

#[test]
fn requests_against_the_profile_end_the_connection() {
    let (_, mut passive) = selected_pair();
    let actions = passive.receive(control(3, 0, 0, 9));
    assert_eq!(actions.len(), 1);
    assert!(matches!(&actions[0], Action::Disconnect));
    assert_eq!(passive.connection_state(), ConnectionState::NotConnected);

    let mut active = Client::new(settings(ConnectionMode::Active));
    active.connect(0).unwrap();
    let actions = active.receive(control(1, 0, 0, 9));
    assert_eq!(actions.len(), 2);
    assert!(matches!(&actions[0], Action::Complete(c) if c.system == 1 && matches!(c.result, Err(Error::Disconnected))));
    assert!(matches!(&actions[1], Action::Disconnect));

    let mut passive = Client::new(settings(ConnectionMode::Passive));
    passive.connect(0).unwrap();
    let mut select = control(1, 0, 0, 9);
    select.header.session_id = 1;
    let actions = passive.receive(select);
    assert_eq!(actions.len(), 1);
    assert!(matches!(&actions[0], Action::Disconnect));
}

#[test]
fn second_select_is_answered_as_already_active() {
    let (_, mut passive) = selected_pair();
    let answer = transmitted(passive.receive(control(1, 0, 0, 9)));
    assert_eq!(answer, Message { id: id(9), contents: MessageContents::SelectResponse(1) });
    assert_eq!(passive.selection_count(), 1);
    assert_eq!(passive.connection_state(), ConnectionState::Connected);
}

#[test]
fn data_round_trip_with_w_bit() {
    let (mut active, mut passive) = selected_pair();
    let primary = active.data(id(0x0000_0010), s1f1(), 1000).unwrap();
    assert_eq!(active.pending(), 1);
    assert_eq!(active.next_deadline(), Some(46_000));
    let actions = passive.receive(wire(primary));
    assert_eq!(actions.len(), 1);
    let delivered = match actions.into_iter().next() {
        Some(Action::Deliver(delivered, data)) => {
            assert_eq!(data, s1f1());
            delivered
        },
        other => panic!("unexpected {:?}", other),
    };
    assert_eq!(delivered, MessageID { session: 0xFFFF, system: 0x0000_0010 });
    let reply = passive.respond(delivered, s1f2()).unwrap();
    assert_eq!(reply.id.system, 0x0000_0010);
    let actions = active.receive(wire(reply));
    assert_eq!(actions.len(), 1);
    match actions.into_iter().next() {
        Some(Action::Complete(completion)) => {
            assert_eq!(completion.system, 0x10);
            assert_eq!(completion.kind, ProcedureKind::Data);
            match completion.result {
                Ok(Some(data)) => assert_eq!(data, s1f2()),
                other => panic!("unexpected {:?}", other),
            }
        },
        other => panic!("unexpected {:?}", other),
    }
    assert_eq!(active.pending(), 0);
}

#[test]
fn reject_on_non_selected_data() {
    let mut client = Client::new(settings(ConnectionMode::Passive));
    client.connect(0).unwrap();
    assert_eq!(client.selection_state(), SelectionState::NotSelected);
    let data = Message { id: id(0x99), contents: MessageContents::DataMessage(s1f1()) };
    let reject = transmitted(client.receive(wire(data)));
    assert_eq!(
        reject,
        Message {
            id: id(0x99),
            contents: MessageContents::RejectRequest(0, RejectReason::EntityNotSelected.code())
        }
    );
    let header = reject.into_primitive().header;
    assert_eq!(header.session_type, 7);
    assert_eq!(header.byte_3, 4);
    assert_eq!(header.system, 0x99);
    assert_eq!(client.selection_state(), SelectionState::NotSelected);
    assert_eq!(client.connection_state(), ConnectionState::Connected);
    assert_eq!(client.pending(), 0);
    assert_eq!(client.select_deadline(), Some(10_000));

    let mut active = Client::new(settings(ConnectionMode::Active));
    active.connect(0).unwrap();
    let data = Message { id: id(0x99), contents: MessageContents::DataMessage(s1f1()) };
    let reject = transmitted(active.receive(wire(data)));
    assert_eq!(reject, Message { id: id(0x99), contents: MessageContents::RejectRequest(0, 4) });
    assert_eq!(active.selection_state(), SelectionState::SelectInProgress);
    assert_eq!(active.connection_state(), ConnectionState::Connected);
    assert_eq!(active.pending(), 1);
}

#[test]
fn linktest_restricted_to_selected() {
    let mut active = Client::new(settings(ConnectionMode::Active));
    assert!(matches!(active.linktest(0x0A, 0), Err(Error::NotConnected)));
    let mut passive = Client::new(settings(ConnectionMode::Passive));
    passive.connect(0).unwrap();
    let select = active.connect(0).unwrap().unwrap();
    assert!(matches!(active.linktest(0x0A, 0), Err(Error::NotSelected)));
    assert!(matches!(passive.linktest(0x0A, 0), Err(Error::NotSelected)));
    assert_eq!(active.pending(), 1);
    assert_eq!(passive.pending(), 0);
    let reject = transmitted(passive.receive(control(5, 0, 0, 3)));
    assert_eq!(reject, Message { id: id(3), contents: MessageContents::RejectRequest(5, 4) });
    let answer = transmitted(passive.receive(wire(select)));
    active.receive(wire(answer));
    let request = active.linktest(0x0A, 100).unwrap();
    assert_eq!(request, Message { id: id(0x0A), contents: MessageContents::LinktestRequest });
    assert_eq!(active.next_deadline(), Some(5100));
    let response = transmitted(passive.receive(wire(request)));
    assert_eq!(response, Message { id: id(0x0A), contents: MessageContents::LinktestResponse });
    let actions = active.receive(wire(response));
    assert_eq!(actions.len(), 1);
    assert!(matches!(&actions[0], Action::Complete(c) if c.system == 0x0A && c.kind == ProcedureKind::Linktest && matches!(c.result, Ok(None))));
    assert!(active.expire(5100).is_empty());
    assert_eq!(active.pending(), 0);
}

#[test]
fn separate_on_disconnect() {
    let (mut active, mut passive) = selected_pair();
    active.data(id(0x20), s1f1(), 0).unwrap();
    active.data(id(0x21), s1f1(), 0).unwrap();
    let actions = active.disconnect().unwrap();
    assert_eq!(actions.len(), 4);
    let mut actions = actions.into_iter();
    let separate = match actions.next() {
        Some(Action::Transmit(message)) => message,
        other => panic!("unexpected {:?}", other),
    };
    assert_eq!(separate.id.session, 0xFFFF);
    assert_eq!(separate.contents, MessageContents::SeparateRequest);
    assert_eq!(separate.id.system, 2);
    assert!(matches!(actions.next(), Some(Action::Complete(c)) if c.system == 0x20 && matches!(c.result, Err(Error::Disconnected))));
    assert!(matches!(actions.next(), Some(Action::Complete(c)) if c.system == 0x21 && matches!(c.result, Err(Error::Disconnected))));
    assert!(matches!(actions.next(), Some(Action::Disconnect)));
    assert_eq!(active.connection_state(), ConnectionState::NotConnected);
    assert_eq!(active.selection_state(), SelectionState::NotSelected);
    assert_eq!(active.pending(), 0);
    assert!(matches!(active.disconnect(), Err(Error::NotConnected)));
    let actions = passive.receive(wire(separate));
    assert_eq!(actions.len(), 1);
    assert!(matches!(&actions[0], Action::Disconnect));
    assert_eq!(passive.connection_state(), ConnectionState::NotConnected);
    assert_eq!(passive.selection_state(), SelectionState::NotSelected);
}

#[test]
fn disconnect_without_session_sends_nothing() {
    let mut passive = Client::new(settings(ConnectionMode::Passive));
    passive.connect(0).unwrap();
    let actions = passive.disconnect().unwrap();
    assert_eq!(actions.len(), 1);
    assert!(matches!(&actions[0], Action::Disconnect));
    assert_eq!(passive.select_deadline(), None);
}

#[test]
fn single_reject_procedure_needs_a_connection() {
    let mut client = Client::new(settings(ConnectionMode::Passive));
    assert!(matches!(
        client.reject(id(1), 0, RejectReason::TransactionNotOpen),
        Err(Error::NotConnected)
    ));
    client.connect(0).unwrap();
    let message = client.reject(id(1), 0, RejectReason::TransactionNotOpen).unwrap();
    assert_eq!(message, Message { id: id(1), contents: MessageContents::RejectRequest(0, 3) });
}

#[test]
fn data_needs_the_session() {
    let mut client = Client::new(settings(ConnectionMode::Passive));
    assert!(matches!(client.data(id(1), s1f1(), 0), Err(Error::NotConnected)));
    client.connect(0).unwrap();
    assert!(matches!(client.data(id(1), s1f1(), 0), Err(Error::NotSelected)));
    assert!(matches!(client.respond(id(1), s1f2()), Err(Error::NotSelected)));
    let (mut active, _) = selected_pair();
    active.data(id(1), s1f1(), 0).unwrap();
    assert!(matches!(active.data(id(1), s1f1(), 0), Err(Error::TransactionOpen)));
}

#[test]
fn failure_of_the_connection_disconnects_everything() {
    let (mut active, _) = selected_pair();
    active.data(id(7), s1f1(), 0).unwrap();
    active.linktest(8, 0).unwrap();
    let error = Error::IoError(std::io::Error::from(std::io::ErrorKind::TimedOut));
    let actions = active.fail(8, error);
    assert_eq!(actions.len(), 3);
    assert!(matches!(&actions[0], Action::Complete(c) if c.system == 7 && matches!(c.result, Err(Error::Disconnected))));
    assert!(matches!(&actions[1], Action::Complete(c) if c.system == 8 && matches!(c.result, Err(Error::IoError(_)))));
    assert!(matches!(&actions[2], Action::Disconnect));
    assert!(active.fail(8, Error::Disconnected).is_empty());
}

#[test]
fn linktest_timer_tests_the_link_while_selected() {
    let timed = ParameterSettings { linktest_interval: 30, ..settings(ConnectionMode::Active) };
    let mut client = Client::new(timed);
    assert_eq!(client.linktest_period(), Some(30_000));
    assert_eq!(client.on_linktest_timer(0), None);
    client.connect(0).unwrap();
    assert_eq!(client.on_linktest_timer(0), None);
    client.receive(control(2, 0, 0, 1));
    assert_eq!(client.selection_state(), SelectionState::Selected);
    let request = client.on_linktest_timer(30_000).unwrap();
    assert_eq!(request, Message { id: id(2), contents: MessageContents::LinktestRequest });
    assert_eq!(client.next_deadline(), Some(35_000));
    assert_eq!(client.pending(), 1);
    let request = client.on_linktest_timer(31_000).unwrap();
    assert_eq!(request.id.system, 3);

    let (mut untimed, _) = selected_pair();
    assert_eq!(untimed.linktest_period(), None);
    assert_eq!(untimed.on_linktest_timer(30_000), None);
    assert_eq!(untimed.pending(), 0);
}

#[test]
fn loss_of_the_connection_disconnects_everything_and_sends_nothing() {
    let (mut active, _) = selected_pair();
    active.data(id(7), s1f1(), 0).unwrap();
    let actions = active.connection_lost();
    assert_eq!(actions.len(), 2);
    assert!(matches!(&actions[0], Action::Complete(c) if c.system == 7 && matches!(c.result, Err(Error::Disconnected))));
    assert!(matches!(&actions[1], Action::Disconnect));
    assert_eq!(active.connection_state(), ConnectionState::NotConnected);
    assert!(active.connection_lost().is_empty());
}
