use semi_e37::generic::client::deadline;
use semi_e37::generic::Action;
use semi_e37::generic::Client;
use semi_e37::generic::DataMessage;
use semi_e37::generic::DeselectStatus;
use semi_e37::generic::Message;
use semi_e37::generic::MessageContents;
use semi_e37::generic::MessageID;
use semi_e37::generic::ParameterSettings;
use semi_e37::generic::PendingReply;
use semi_e37::generic::ProcedureCallbacks;
use semi_e37::generic::ProcedureKind;
use semi_e37::generic::RejectReason;
use semi_e37::generic::SelectStatus;
use semi_e37::generic::SelectionState;
use semi_e37::generic::SessionType;
use semi_e37::generic::TransactionTable;
use semi_e37::primitive;
use semi_e37::primitive::ConnectionMode;
use semi_e37::primitive::ConnectionState;
use semi_e37::primitive::MessageHeader;
use semi_e37::Error;
use semi_e37::PresentationType;

/// A profile that accepts every request, and tests the link at any time.
struct Agreeable;

impl ProcedureCallbacks for Agreeable {
    fn select(&self, _session_id: u16, _selection_count: u64) -> Option<SelectStatus> {
        Some(SelectStatus::Okay)
    }

    fn deselect(&self, _session_id: u16, _selection_count: u64) -> Option<DeselectStatus> {
        Some(DeselectStatus::Okay)
    }

    fn separate(&self, _session_id: u16, _selection_count: u64) -> Option<bool> {
        Some(true)
    }

    fn restricts_linktest(&self) -> bool {
        false
    }
}

/// A profile that refuses what it can refuse with an answer.
struct Reluctant;

impl ProcedureCallbacks for Reluctant {
    fn select(&self, _session_id: u16, _selection_count: u64) -> Option<SelectStatus> {
        Some(SelectStatus::NotReady)
    }

    fn deselect(&self, _session_id: u16, _selection_count: u64) -> Option<DeselectStatus> {
        Some(DeselectStatus::Busy)
    }

    fn separate(&self, _session_id: u16, _selection_count: u64) -> Option<bool> {
        Some(false)
    }

    fn restricts_linktest(&self) -> bool {
        true
    }
}

fn id(system: u32) -> MessageID {
    MessageID { session: 0xFFFF, system }
}

fn control(session_type: u8, byte_2: u8, byte_3: u8, system: u32) -> primitive::Message {
    primitive::Message {
        header: MessageHeader {
            session_id: 0xFFFF,
            byte_2,
            byte_3,
            presentation_type: 0,
            session_type,
            system,
        },
        text: vec![],
    }
}

fn s1f1() -> DataMessage {
    DataMessage { stream: 1, function: 1, w: true, text: vec![] }
}

fn s1f2() -> DataMessage {
    DataMessage { stream: 1, function: 2, w: false, text: vec![0x01, 0x00] }
}

fn connected() -> Client<Agreeable> {
    let mut client = Client::new(ParameterSettings::default(), Agreeable);
    client.connect().unwrap();
    client
}

fn selected() -> Client<Agreeable> {
    let mut client = connected();
    let actions = client.receive(control(1, 0, 0, 1));
    assert_eq!(actions.len(), 1);
    assert_eq!(client.selection_state(), SelectionState::Selected);
    client
}

fn transmitted(action: &Action) -> &Message {
    match action {
        Action::Transmit(message) => message,
        other => panic!("expected a message to transmit, found {:?}", other),
    }
}

#[test]
fn default_settings_are_those_of_the_standard() {
    let settings = ParameterSettings::default();
    assert_eq!(settings.connect_mode, ConnectionMode::Passive);
    assert_eq!(settings.t3, 45);
    assert_eq!(settings.t5, 10);
    assert_eq!(settings.t6, 5);
    assert_eq!(settings.t7, 10);
    assert_eq!(settings.t8, 5);
    assert_eq!(settings.linktest_interval, 0);
    assert!(settings.is_valid());
}

#[test]
fn settings_outside_their_ranges_are_not_valid() {
    let good = ParameterSettings::default();
    assert!(!ParameterSettings { t3: 0, ..good }.is_valid());
    assert!(ParameterSettings { t3: 120, ..good }.is_valid());
    assert!(!ParameterSettings { t3: 121, ..good }.is_valid());
    assert!(!ParameterSettings { t5: 0, ..good }.is_valid());
    assert!(ParameterSettings { t5: 240, ..good }.is_valid());
    assert!(!ParameterSettings { t5: 241, ..good }.is_valid());
    assert!(!ParameterSettings { t6: 0, ..good }.is_valid());
    assert!(!ParameterSettings { t6: 241, ..good }.is_valid());
    assert!(!ParameterSettings { t7: 0, ..good }.is_valid());
    assert!(!ParameterSettings { t7: 241, ..good }.is_valid());
    assert!(!ParameterSettings { t8: 0, ..good }.is_valid());
    assert!(!ParameterSettings { t8: 121, ..good }.is_valid());
    assert!(ParameterSettings { t3: 1, t5: 1, t6: 1, t7: 1, t8: 1, ..good }.is_valid());
}

#[test]
fn deadline_is_in_milliseconds_and_saturates() {
    assert_eq!(deadline(0, 5), 5000);
    assert_eq!(deadline(1000, 45), 46000);
    assert_eq!(deadline(7, 0), 7);
    assert_eq!(deadline(u64::MAX, 1), u64::MAX);
    assert_eq!(deadline(u64::MAX - 999, 1), u64::MAX);
    assert_eq!(deadline(u64::MAX - 1000, 1), u64::MAX);
    assert_eq!(deadline(u64::MAX - 1001, 1), u64::MAX - 1);
}

#[test]
fn codes_of_the_session_types() {
    let all = [
        (SessionType::DataMessage, 0u8),
        (SessionType::SelectRequest, 1),
        (SessionType::SelectResponse, 2),
        (SessionType::DeselectRequest, 3),
        (SessionType::DeselectResponse, 4),
        (SessionType::LinktestRequest, 5),
        (SessionType::LinktestResponse, 6),
        (SessionType::RejectRequest, 7),
        (SessionType::SeparateRequest, 9),
    ];
    for (session_type, code) in all {
        assert_eq!(session_type.code(), code);
        assert_eq!(SessionType::from_code(code), Some(session_type));
    }
    assert_eq!(SessionType::from_code(8), None);
    assert_eq!(SessionType::from_code(10), None);
    assert_eq!(SessionType::from_code(255), None);
}

#[test]
fn codes_of_the_statuses_and_reasons() {
    assert_eq!(SelectStatus::Okay.code(), 0);
    assert_eq!(SelectStatus::AlreadyActive.code(), 1);
    assert_eq!(SelectStatus::NotReady.code(), 2);
    assert_eq!(SelectStatus::ExhaustedConnections.code(), 3);
    assert_eq!(SelectStatus::Failed.code(), 255);
    assert_eq!(SelectStatus::from_code(0), SelectStatus::Okay);
    assert_eq!(SelectStatus::from_code(3), SelectStatus::ExhaustedConnections);
    assert_eq!(SelectStatus::from_code(4), SelectStatus::Failed);
    assert_eq!(SelectStatus::from_code(255), SelectStatus::Failed);
    assert_eq!(DeselectStatus::Okay.code(), 0);
    assert_eq!(DeselectStatus::NotEstablished.code(), 1);
    assert_eq!(DeselectStatus::Busy.code(), 2);
    assert_eq!(DeselectStatus::from_code(2), Some(DeselectStatus::Busy));
    assert_eq!(DeselectStatus::from_code(3), None);
    assert_eq!(RejectReason::SessionTypeUnsupported.code(), 1);
    assert_eq!(RejectReason::PresentationTypeUnsupported.code(), 2);
    assert_eq!(RejectReason::TransactionNotOpen.code(), 3);
    assert_eq!(RejectReason::EntityNotSelected.code(), 4);
    assert_eq!(RejectReason::from_code(0), None);
    assert_eq!(RejectReason::from_code(4), Some(RejectReason::EntityNotSelected));
    assert_eq!(RejectReason::from_code(5), None);
    assert_eq!(PresentationType::SecsII.code(), 0);
    assert_eq!(PresentationType::from_code(0), Some(PresentationType::SecsII));
    assert_eq!(PresentationType::from_code(1), None);
}

#[test]
fn data_message_header_bytes() {
    let message = Message { id: id(0x10), contents: MessageContents::DataMessage(s1f1()) };
    let primitive = message.into_primitive();
    assert_eq!(primitive.header.session_id, 0xFFFF);
    assert_eq!(primitive.header.byte_2, 0x81);
    assert_eq!(primitive.header.byte_3, 1);
    assert_eq!(primitive.header.presentation_type, 0);
    assert_eq!(primitive.header.session_type, 0);
    assert_eq!(primitive.header.system, 0x10);
    let message = Message {
        id: id(3),
        contents: MessageContents::DataMessage(DataMessage {
            stream: 127,
            function: 254,
            w: false,
            text: vec![1, 2, 3],
        }),
    };
    let primitive = message.into_primitive();
    assert_eq!(primitive.header.byte_2, 127);
    assert_eq!(primitive.header.byte_3, 254);
    assert_eq!(primitive.text, vec![1, 2, 3]);
}

#[test]
fn control_message_header_bytes() {
    let cases = [
        (MessageContents::SelectRequest, 1u8, 0u8, 0u8),
        (MessageContents::SelectResponse(3), 2, 0, 3),
        (MessageContents::DeselectRequest, 3, 0, 0),
        (MessageContents::DeselectResponse(2), 4, 0, 2),
        (MessageContents::LinktestRequest, 5, 0, 0),
        (MessageContents::LinktestResponse, 6, 0, 0),
        (MessageContents::RejectRequest(5, 4), 7, 5, 4),
        (MessageContents::SeparateRequest, 9, 0, 0),
    ];
    for (contents, session_type, byte_2, byte_3) in cases {
        let message = Message { id: MessageID { session: 7, system: 8 }, contents: contents.clone() };
        let primitive = message.into_primitive();
        assert_eq!(primitive.header.session_id, 7);
        assert_eq!(primitive.header.system, 8);
        assert_eq!(primitive.header.session_type, session_type);
        assert_eq!(primitive.header.byte_2, byte_2);
        assert_eq!(primitive.header.byte_3, byte_3);
        assert_eq!(primitive.header.presentation_type, 0);
        assert!(primitive.text.is_empty());
        let read = Message::try_from_primitive(primitive).unwrap();
        assert_eq!(read.id, MessageID { session: 7, system: 8 });
        assert_eq!(read.contents, contents);
    }
}

#[test]
fn message_round_trip() {
    for w in [false, true] {
        for stream in [0u8, 1, 64, 127] {
            let message = Message {
                id: id(0xDEADBEEF),
                contents: MessageContents::DataMessage(DataMessage {
                    stream,
                    function: 13,
                    w,
                    text: vec![0xB1, 0x04, 1, 2, 3, 4],
                }),
            };
            let read = Message::try_from_primitive(message.clone().into_primitive()).unwrap();
            assert_eq!(read, message);
        }
    }
}

#[test]
fn unknown_types_are_named_as_the_reason_to_reject() {
    let mut message = control(0, 0, 0, 1);
    message.header.presentation_type = 1;
    assert_eq!(
        Message::try_from_primitive(message).err(),
        Some(RejectReason::PresentationTypeUnsupported)
    );
    assert_eq!(
        Message::try_from_primitive(control(8, 0, 0, 1)).err(),
        Some(RejectReason::SessionTypeUnsupported)
    );
    let mut message = control(8, 0, 0, 1);
    message.header.presentation_type = 200;
    assert_eq!(
        Message::try_from_primitive(message).err(),
        Some(RejectReason::PresentationTypeUnsupported)
    );
}

#[test]
fn primary_and_reply_are_told_apart() {
    assert!(DataMessage { stream: 1, function: 1, w: true, text: vec![] }.is_primary());
    assert!(DataMessage { stream: 1, function: 1, w: false, text: vec![] }.is_primary());
    assert!(DataMessage { stream: 1, function: 2, w: true, text: vec![] }.is_primary());
    assert!(!DataMessage { stream: 1, function: 2, w: false, text: vec![] }.is_primary());
    assert!(!DataMessage { stream: 1, function: 0, w: false, text: vec![] }.is_primary());
}

#[test]
fn table_keeps_one_entry_per_system_bytes() {
    let mut table = TransactionTable::new();
    assert_eq!(table.len(), 0);
    let a = PendingReply { system: 5, kind: ProcedureKind::Data, deadline: 100 };
    let b = PendingReply { system: 6, kind: ProcedureKind::Linktest, deadline: 50 };
    assert!(table.insert(a));
    assert!(table.insert(b));
    assert!(!table.insert(PendingReply { system: 5, kind: ProcedureKind::Select, deadline: 1 }));
    assert_eq!(table.len(), 2);
    assert_eq!(table.find(5), Some(a));
    assert_eq!(table.find(6), Some(b));
    assert_eq!(table.find(7), None);
    assert_eq!(table.position(5), 0);
    assert_eq!(table.position(6), 1);
    assert_eq!(table.position(7), 2);
    assert_eq!(table.next_deadline(), Some(50));
    assert_eq!(table.remove(5), Some(a));
    assert_eq!(table.remove(5), None);
    assert_eq!(table.len(), 1);
    assert_eq!(table.take_all(), vec![b]);
    assert_eq!(table.len(), 0);
    assert_eq!(table.next_deadline(), None);
}

#[test]
fn entry_expires_only_after_its_deadline() {
    let entry = PendingReply { system: 1, kind: ProcedureKind::Data, deadline: 100 };
    assert!(!entry.expired(0));
    assert!(!entry.expired(99));
    assert!(!entry.expired(100));
    assert!(entry.expired(101));
    let mut table = TransactionTable::new();
    table.insert(PendingReply { system: 1, kind: ProcedureKind::Data, deadline: 300 });
    table.insert(PendingReply { system: 2, kind: ProcedureKind::Linktest, deadline: 100 });
    table.insert(PendingReply { system: 3, kind: ProcedureKind::Linktest, deadline: 200 });
    assert_eq!(table.expired(100), None);
    assert_eq!(table.expired(101).map(|e| e.system), Some(2));
    assert_eq!(table.expired(201).map(|e| e.system), Some(2));
    assert_eq!(table.expired(301).map(|e| e.system), Some(1));
}

#[test]
fn new_client_is_not_connected() {
    let mut client = Client::new(ParameterSettings::default(), Agreeable);
    assert_eq!(client.connection_state(), ConnectionState::NotConnected);
    assert_eq!(client.selection_state(), SelectionState::NotSelected);
    assert_eq!(client.selection_count(), 0);
    assert_eq!(client.pending(), 0);
    assert_eq!(client.next_deadline(), None);
    assert_eq!(client.parameter_settings(), ParameterSettings::default());
    assert!(matches!(client.select(id(1), 0), Err(Error::NotConnected)));
    assert!(matches!(client.deselect(id(1), 0), Err(Error::NotConnected)));
    assert!(matches!(client.separate(id(1)), Err(Error::NotConnected)));
    assert!(matches!(client.linktest(1, 0), Err(Error::NotConnected)));
    assert!(matches!(client.data(id(1), s1f1(), 0), Err(Error::NotConnected)));
    assert!(matches!(client.respond(id(1), s1f2()), Err(Error::NotConnected)));
    assert!(matches!(
        client.reject(id(1), 0, RejectReason::EntityNotSelected),
        Err(Error::NotConnected)
    ));
    assert!(matches!(client.disconnect(), Err(Error::NotConnected)));
    assert!(client.receive(control(5, 0, 0, 1)).is_empty());
    assert!(client.expire(u64::MAX).is_empty());
    assert!(client.fail(1, Error::Disconnected).is_empty());
}

#[test]
fn connect_twice_is_refused() {
    let mut client = Client::new(ParameterSettings::default(), Agreeable);
    assert!(client.connect().is_ok());
    assert_eq!(client.connection_state(), ConnectionState::Connected);
    assert!(matches!(client.connect(), Err(Error::AlreadyConnected)));
    assert_eq!(client.connection_state(), ConnectionState::Connected);
}

#[test]
fn select_procedure_succeeds_on_good_status() {
    let mut client = connected();
    let message = client.select(id(1), 1000).unwrap();
    assert_eq!(message, Message { id: id(1), contents: MessageContents::SelectRequest });
    assert_eq!(client.selection_state(), SelectionState::SelectInProgress);
    assert_eq!(client.pending(), 1);
    assert_eq!(client.next_deadline(), Some(6000));
    assert!(matches!(client.select(id(2), 1000), Err(Error::TransactionOpen)));
    let actions = client.receive(control(2, 0, 0, 1));
    assert_eq!(actions.len(), 1);
    match &actions[0] {
        Action::Complete(completion) => {
            assert_eq!(completion.system, 1);
            assert_eq!(completion.kind, ProcedureKind::Select);
            assert!(matches!(completion.result, Ok(None)));
        },
        other => panic!("unexpected {:?}", other),
    }
    assert_eq!(client.selection_state(), SelectionState::Selected);
    assert_eq!(client.selection_count(), 1);
    assert_eq!(client.pending(), 0);
    assert!(matches!(client.select(id(2), 1000), Err(Error::AlreadyConnected)));
}

#[test]
fn select_procedure_is_rejected_on_bad_status() {
    let mut client = connected();
    client.select(id(1), 0).unwrap();
    let actions = client.receive(control(2, 0, 2, 1));
    assert_eq!(actions.len(), 1);
    match &actions[0] {
        Action::Complete(completion) => {
            assert_eq!(completion.system, 1);
            assert!(matches!(completion.result, Err(Error::ProcedureRejected(2))));
        },
        other => panic!("unexpected {:?}", other),
    }
    assert_eq!(client.selection_state(), SelectionState::NotSelected);
    assert_eq!(client.selection_count(), 0);
    assert_eq!(client.connection_state(), ConnectionState::Connected);
}

#[test]
fn unexpected_select_response_is_rejected() {
    let mut client = connected();
    let actions = client.receive(control(2, 0, 0, 77));
    assert_eq!(actions.len(), 1);
    assert_eq!(
        transmitted(&actions[0]),
        &Message { id: id(77), contents: MessageContents::RejectRequest(2, 3) }
    );
    assert_eq!(client.selection_state(), SelectionState::NotSelected);
}

#[test]
fn select_request_is_answered_as_the_profile_decides() {
    let mut client = connected();
    let actions = client.receive(control(1, 0, 0, 9));
    assert_eq!(
        transmitted(&actions[0]),
        &Message { id: id(9), contents: MessageContents::SelectResponse(0) }
    );
    assert_eq!(client.selection_state(), SelectionState::Selected);
    assert_eq!(client.selection_count(), 1);
    let actions = client.receive(control(1, 0, 0, 10));
    assert_eq!(
        transmitted(&actions[0]),
        &Message { id: id(10), contents: MessageContents::SelectResponse(1) }
    );
    assert_eq!(client.selection_count(), 1);

    let mut client = Client::new(ParameterSettings::default(), Reluctant);
    client.connect().unwrap();
    let actions = client.receive(control(1, 0, 0, 9));
    assert_eq!(
        transmitted(&actions[0]),
        &Message { id: id(9), contents: MessageContents::SelectResponse(2) }
    );
    assert_eq!(client.selection_state(), SelectionState::NotSelected);
    assert_eq!(client.selection_count(), 0);
}

#[test]
fn deselect_procedure() {
    let mut client = connected();
    assert!(matches!(client.deselect(id(4), 0), Err(Error::NotSelected)));
    let mut client = selected();
    let message = client.deselect(id(4), 2000).unwrap();
    assert_eq!(message, Message { id: id(4), contents: MessageContents::DeselectRequest });
    assert_eq!(client.selection_state(), SelectionState::DeselectInProgress);
    assert_eq!(client.next_deadline(), Some(7000));
    assert!(matches!(client.deselect(id(5), 0), Err(Error::TransactionOpen)));
    let actions = client.receive(control(4, 0, 0, 4));
    assert!(matches!(&actions[0], Action::Complete(c) if c.system == 4 && c.kind == ProcedureKind::Deselect && matches!(c.result, Ok(None))));
    assert_eq!(client.selection_state(), SelectionState::NotSelected);

    let mut client = selected();
    client.deselect(id(4), 0).unwrap();
    let actions = client.receive(control(4, 0, 2, 4));
    assert!(matches!(&actions[0], Action::Complete(c) if matches!(c.result, Err(Error::ProcedureRejected(2)))));
    assert_eq!(client.selection_state(), SelectionState::Selected);
    let actions = client.receive(control(4, 0, 0, 4));
    assert_eq!(
        transmitted(&actions[0]),
        &Message { id: id(4), contents: MessageContents::RejectRequest(4, 3) }
    );
}

#[test]
fn deselect_request_is_answered_as_the_profile_decides() {
    let mut client = connected();
    let actions = client.receive(control(3, 0, 0, 9));
    assert_eq!(
        transmitted(&actions[0]),
        &Message { id: id(9), contents: MessageContents::DeselectResponse(1) }
    );
    let mut client = selected();
    let actions = client.receive(control(3, 0, 0, 9));
    assert_eq!(
        transmitted(&actions[0]),
        &Message { id: id(9), contents: MessageContents::DeselectResponse(0) }
    );
    assert_eq!(client.selection_state(), SelectionState::NotSelected);

    let mut client = Client::new(ParameterSettings::default(), Reluctant);
    client.connect().unwrap();
    client.on_select_request(id(1), Some(SelectStatus::Okay));
    assert_eq!(client.selection_state(), SelectionState::Selected);
    let actions = client.receive(control(3, 0, 0, 9));
    assert_eq!(
        transmitted(&actions[0]),
        &Message { id: id(9), contents: MessageContents::DeselectResponse(2) }
    );
    assert_eq!(client.selection_state(), SelectionState::Selected);
    assert!(client.receive(control(9, 0, 0, 10)).is_empty());
    assert_eq!(client.selection_state(), SelectionState::Selected);
}

#[test]
fn separate_procedure() {
    let mut client = connected();
    assert!(matches!(client.separate(id(4)), Err(Error::NotSelected)));
    let mut client = selected();
    let message = client.separate(id(4)).unwrap();
    assert_eq!(message, Message { id: id(4), contents: MessageContents::SeparateRequest });
    assert_eq!(client.selection_state(), SelectionState::NotSelected);
    assert_eq!(client.pending(), 0);
    let mut client = selected();
    assert!(client.receive(control(9, 0, 0, 4)).is_empty());
    assert_eq!(client.selection_state(), SelectionState::NotSelected);
    assert_eq!(client.connection_state(), ConnectionState::Connected);
}

#[test]
fn linktest_procedure() {
    let mut client = connected();
    let message = client.linktest(0x0A, 500).unwrap();
    assert_eq!(message, Message { id: id(0x0A), contents: MessageContents::LinktestRequest });
    assert_eq!(client.next_deadline(), Some(5500));
    assert!(matches!(client.linktest(0x0A, 500), Err(Error::TransactionOpen)));
    assert!(client.is_open(0x0A));
    assert!(client.awaits(0x0A, ProcedureKind::Linktest));
    assert!(!client.awaits(0x0A, ProcedureKind::Data));
    let actions = client.receive(control(6, 0, 0, 0x0A));
    assert!(matches!(&actions[0], Action::Complete(c) if c.system == 0x0A && c.kind == ProcedureKind::Linktest && matches!(c.result, Ok(None))));
    assert!(!client.is_open(0x0A));
    let actions = client.receive(control(6, 0, 0, 0x0A));
    assert_eq!(
        transmitted(&actions[0]),
        &Message { id: id(0x0A), contents: MessageContents::RejectRequest(6, 3) }
    );
}

#[test]
fn linktest_request_is_answered_with_the_same_system_bytes() {
    let mut client = connected();
    for system in [0u32, 1, 0xABCD, u32::MAX] {
        let actions = client.receive(control(5, 0, 0, system));
        assert_eq!(actions.len(), 1);
        assert_eq!(
            transmitted(&actions[0]),
            &Message { id: id(system), contents: MessageContents::LinktestResponse }
        );
    }
    let mut client = Client::new(ParameterSettings::default(), Reluctant);
    client.connect().unwrap();
    let actions = client.receive(control(5, 0, 0, 3));
    assert_eq!(
        transmitted(&actions[0]),
        &Message { id: id(3), contents: MessageContents::RejectRequest(5, 4) }
    );
}

#[test]
fn data_needs_selection() {
    let mut client = connected();
    assert!(matches!(client.data(id(1), s1f1(), 0), Err(Error::NotSelected)));
    assert!(matches!(client.respond(id(1), s1f2()), Err(Error::NotSelected)));
    let message = primitive::Message {
        header: MessageHeader {
            session_id: 0xFFFF,
            byte_2: 0x81,
            byte_3: 1,
            presentation_type: 0,
            session_type: 0,
            system: 0x42,
        },
        text: vec![],
    };
    let actions = client.receive(message);
    assert_eq!(actions.len(), 1);
    assert_eq!(
        transmitted(&actions[0]),
        &Message { id: id(0x42), contents: MessageContents::RejectRequest(0, 4) }
    );
    assert_eq!(client.selection_state(), SelectionState::NotSelected);
    assert_eq!(client.connection_state(), ConnectionState::Connected);
    assert_eq!(client.pending(), 0);
}

#[test]
fn data_with_reply_opens_a_transaction() {
    let mut client = selected();
    let message = client.data(id(0x10), s1f1(), 1000).unwrap();
    assert_eq!(message, Message { id: id(0x10), contents: MessageContents::DataMessage(s1f1()) });
    assert_eq!(client.pending(), 1);
    assert_eq!(client.next_deadline(), Some(46000));
    assert!(matches!(client.data(id(0x10), s1f1(), 1000), Err(Error::TransactionOpen)));
    let reply = Message { id: id(0x10), contents: MessageContents::DataMessage(s1f2()) };
    let actions = client.receive(reply.into_primitive());
    assert_eq!(actions.len(), 1);
    match &actions[0] {
        Action::Complete(completion) => {
            assert_eq!(completion.system, 0x10);
            assert_eq!(completion.kind, ProcedureKind::Data);
            match &completion.result {
                Ok(Some(data)) => assert_eq!(data, &s1f2()),
                other => panic!("unexpected {:?}", other),
            }
        },
        other => panic!("unexpected {:?}", other),
    }
    assert_eq!(client.pending(), 0);
}

#[test]
fn data_without_reply_opens_nothing() {
    let mut client = selected();
    let data = DataMessage { stream: 6, function: 11, w: false, text: vec![1] };
    let message = client.data(id(0x10), data.clone(), 1000).unwrap();
    assert_eq!(message, Message { id: id(0x10), contents: MessageContents::DataMessage(data.clone()) });
    assert_eq!(client.pending(), 0);
    assert!(client.data(id(0x10), data, 1000).is_ok());
}

#[test]
fn primary_data_is_delivered_and_answered_with_its_id() {
    let mut client = selected();
    let primary = Message { id: id(0x10), contents: MessageContents::DataMessage(s1f1()) };
    let actions = client.receive(primary.into_primitive());
    assert_eq!(actions.len(), 1);
    let delivered = match &actions[0] {
        Action::Deliver(delivered, data) => {
            assert_eq!(data, &s1f1());
            *delivered
        },
        other => panic!("unexpected {:?}", other),
    };
    assert_eq!(delivered, id(0x10));
    let mut answer = s1f2();
    answer.w = true;
    let reply = client.respond(delivered, answer).unwrap();
    assert_eq!(reply, Message { id: id(0x10), contents: MessageContents::DataMessage(s1f2()) });
    assert_eq!(client.pending(), 0);
}

#[test]
fn unexpected_reply_is_rejected() {
    let mut client = selected();
    let reply = Message { id: id(0x33), contents: MessageContents::DataMessage(s1f2()) };
    let actions = client.receive(reply.into_primitive());
    assert_eq!(
        transmitted(&actions[0]),
        &Message { id: id(0x33), contents: MessageContents::RejectRequest(0, 3) }
    );
    client.linktest(0x33, 0).unwrap();
    let reply = Message { id: id(0x33), contents: MessageContents::DataMessage(s1f2()) };
    let actions = client.receive(reply.into_primitive());
    assert_eq!(
        transmitted(&actions[0]),
        &Message { id: id(0x33), contents: MessageContents::RejectRequest(0, 3) }
    );
    assert_eq!(client.pending(), 1);
}

#[test]
fn reject_procedure() {
    let client = connected();
    let message = client.reject(id(5), 8, RejectReason::SessionTypeUnsupported).unwrap();
    assert_eq!(message, Message { id: id(5), contents: MessageContents::RejectRequest(8, 1) });
}

#[test]
fn rejection_completes_the_transaction_it_names() {
    let mut client = selected();
    client.data(id(1), s1f1(), 0).unwrap();
    client.linktest(2, 0).unwrap();
    let actions = client.receive(control(7, 0, 4, 1));
    assert!(matches!(&actions[0], Action::Complete(c) if c.system == 1 && c.kind == ProcedureKind::Data && matches!(c.result, Err(Error::MessageRejected(0, 4)))));
    let actions = client.receive(control(7, 5, 1, 2));
    assert!(matches!(&actions[0], Action::Complete(c) if c.system == 2 && c.kind == ProcedureKind::Linktest && matches!(c.result, Err(Error::ProcedureRejected(1)))));
    assert_eq!(client.pending(), 0);
    assert!(client.receive(control(7, 5, 1, 2)).is_empty());
    assert_eq!(client.connection_state(), ConnectionState::Connected);
    assert_eq!(client.selection_state(), SelectionState::Selected);
}

#[test]
fn rejection_of_select_leaves_the_session_unestablished() {
    let mut client = connected();
    client.select(id(1), 0).unwrap();
    let actions = client.receive(control(7, 1, 1, 1));
    assert!(matches!(&actions[0], Action::Complete(c) if c.kind == ProcedureKind::Select && matches!(c.result, Err(Error::ProcedureRejected(1)))));
    assert_eq!(client.selection_state(), SelectionState::NotSelected);
}

#[test]
fn unknown_types_are_rejected_without_change() {
    let mut client = selected();
    let mut message = control(0, 0, 0, 5);
    message.header.presentation_type = 3;
    let actions = client.receive(message);
    assert_eq!(
        transmitted(&actions[0]),
        &Message { id: id(5), contents: MessageContents::RejectRequest(3, 2) }
    );
    let actions = client.receive(control(8, 0, 0, 6));
    assert_eq!(
        transmitted(&actions[0]),
        &Message { id: id(6), contents: MessageContents::RejectRequest(8, 1) }
    );
    assert_eq!(client.selection_state(), SelectionState::Selected);
    assert_eq!(client.pending(), 0);
}

#[test]
fn expiry_times_out_one_and_disconnects_the_rest() {
    let mut client = selected();
    client.data(id(1), s1f1(), 0).unwrap();
    client.linktest(2, 0).unwrap();
    client.data(id(3), s1f1(), 0).unwrap();
    assert_eq!(client.next_deadline(), Some(5000));
    assert!(client.expire(5000).is_empty());
    assert_eq!(client.pending(), 3);
    let actions = client.expire(5001);
    assert_eq!(actions.len(), 4);
    assert!(matches!(&actions[0], Action::Complete(c) if c.system == 1 && matches!(c.result, Err(Error::Disconnected))));
    assert!(matches!(&actions[1], Action::Complete(c) if c.system == 2 && matches!(c.result, Err(Error::TimedOut))));
    assert!(matches!(&actions[2], Action::Complete(c) if c.system == 3 && matches!(c.result, Err(Error::Disconnected))));
    assert!(matches!(&actions[3], Action::Disconnect));
    assert_eq!(client.connection_state(), ConnectionState::NotConnected);
    assert_eq!(client.selection_state(), SelectionState::NotSelected);
    assert_eq!(client.pending(), 0);
    assert!(client.expire(u64::MAX).is_empty());
}

#[test]
fn disconnect_completes_everything_as_disconnected() {
    let mut client = selected();
    client.data(id(1), s1f1(), 0).unwrap();
    client.linktest(2, 1_000_000).unwrap();
    let actions = client.disconnect().unwrap();
    assert_eq!(actions.len(), 3);
    assert!(matches!(&actions[0], Action::Complete(c) if c.system == 1 && c.kind == ProcedureKind::Data && matches!(c.result, Err(Error::Disconnected))));
    assert!(matches!(&actions[1], Action::Complete(c) if c.system == 2 && c.kind == ProcedureKind::Linktest && matches!(c.result, Err(Error::Disconnected))));
    assert!(matches!(&actions[2], Action::Disconnect));
    assert_eq!(client.connection_state(), ConnectionState::NotConnected);
    assert_eq!(client.pending(), 0);
    assert!(matches!(client.disconnect(), Err(Error::NotConnected)));
    assert!(client.connect().is_ok());
    assert_eq!(client.selection_state(), SelectionState::NotSelected);
    assert_eq!(client.selection_count(), 0);
}

#[test]
fn failure_of_the_connection_names_its_victim() {
    let mut client = selected();
    client.data(id(1), s1f1(), 0).unwrap();
    client.data(id(2), s1f1(), 0).unwrap();
    let error = Error::IoError(std::io::Error::from(std::io::ErrorKind::BrokenPipe));
    let actions = client.fail(2, error);
    assert_eq!(actions.len(), 3);
    assert!(matches!(&actions[0], Action::Complete(c) if c.system == 1 && matches!(c.result, Err(Error::Disconnected))));
    assert!(matches!(&actions[1], Action::Complete(c) if c.system == 2 && matches!(&c.result, Err(Error::IoError(e)) if e.kind() == std::io::ErrorKind::BrokenPipe)));
    assert!(matches!(&actions[2], Action::Disconnect));
    assert_eq!(client.connection_state(), ConnectionState::NotConnected);

    let mut client = selected();
    client.data(id(1), s1f1(), 0).unwrap();
    let actions = client.fail(9, Error::TimedOut);
    assert_eq!(actions.len(), 2);
    assert!(matches!(&actions[0], Action::Complete(c) if c.system == 1 && matches!(c.result, Err(Error::Disconnected))));
    assert!(matches!(&actions[1], Action::Disconnect));
}

#[test]
fn system_bytes_are_handed_out_in_order_and_skip_open_ones() {
    let mut client = connected();
    assert_eq!(client.allocate_system(), Some(1));
    assert_eq!(client.allocate_system(), Some(2));
    client.linktest(3, 0).unwrap();
    client.linktest(4, 0).unwrap();
    assert_eq!(client.allocate_system(), Some(5));
    client.receive(control(6, 0, 0, 3));
    assert_eq!(client.allocate_system(), Some(6));
}

#[test]
fn table_never_holds_more_than_was_opened_and_not_completed() {
    let mut client = selected();
    let mut opened = 0usize;
    let mut completed = 0usize;
    for system in 1..=20u32 {
        client.data(id(system), s1f1(), 0).unwrap();
        opened += 1;
        assert_eq!(client.pending(), opened - completed);
        if system % 3 == 0 {
            let reply = Message { id: id(system), contents: MessageContents::DataMessage(s1f2()) };
            let actions = client.receive(reply.into_primitive());
            completed += actions.iter().filter(|a| matches!(a, Action::Complete(_))).count();
            assert_eq!(client.pending(), opened - completed);
        }
    }
    let actions = client.disconnect().unwrap();
    completed += actions.iter().filter(|a| matches!(a, Action::Complete(_))).count();
    assert_eq!(opened, completed);
    assert_eq!(client.pending(), 0);
}

#[test]
fn each_transaction_is_completed_exactly_once() {
    let mut client = selected();
    let mut completions: Vec<u32> = vec![];
    let mut record = |actions: Vec<Action>| {
        for action in actions {
            if let Action::Complete(completion) = action {
                completions.push(completion.system);
            }
        }
    };
    for system in 1..=6u32 {
        client.data(id(system), s1f1(), 0).unwrap();
    }
    let reply = |system: u32| {
        Message { id: id(system), contents: MessageContents::DataMessage(s1f2()) }.into_primitive()
    };
    record(client.receive(reply(2)));
    record(client.receive(reply(2)));
    record(client.receive(control(7, 0, 3, 4)));
    record(client.receive(control(7, 0, 3, 4)));
    record(client.receive(reply(4)));
    record(client.expire(45_001));
    record(client.expire(90_000));
    record(client.fail(1, Error::Disconnected));
    completions.sort();
    assert_eq!(completions, vec![1, 2, 3, 4, 5, 6]);
}

#[test]
fn decisions_given_by_hand_are_followed() {
    let mut client = connected();
    let decisions = semi_e37::generic::Decisions {
        select: Some(SelectStatus::ExhaustedConnections),
        deselect: None,
        separate: None,
        linktest_needs_selection: true,
    };
    let actions = client.receive_with(control(1, 0, 0, 4), decisions);
    assert_eq!(
        transmitted(&actions[0]),
        &Message { id: id(4), contents: MessageContents::SelectResponse(3) }
    );
    let actions = client.receive_with(control(5, 0, 0, 5), decisions);
    assert_eq!(
        transmitted(&actions[0]),
        &Message { id: id(5), contents: MessageContents::RejectRequest(5, 4) }
    );
    client.linktest(6, 0).unwrap();
    let actions = client.receive_with(control(9, 0, 0, 7), decisions);
    assert_eq!(actions.len(), 2);
    assert!(matches!(&actions[0], Action::Complete(c) if c.system == 6 && matches!(c.result, Err(Error::Disconnected))));
    assert!(matches!(&actions[1], Action::Disconnect));
    assert_eq!(client.connection_state(), ConnectionState::NotConnected);
    assert_eq!(client.decide(0xFFFF).select, Some(SelectStatus::Okay));
}

#[test]
fn loss_of_the_connection_disconnects_everything() {
    let mut client = selected();
    client.data(id(1), s1f1(), 0).unwrap();
    let actions = client.connection_lost();
    assert_eq!(actions.len(), 2);
    assert!(matches!(&actions[0], Action::Complete(c) if c.system == 1 && matches!(c.result, Err(Error::Disconnected))));
    assert!(matches!(&actions[1], Action::Disconnect));
    assert!(client.connection_lost().is_empty());
}

#[test]
fn linktest_timer_needs_an_interval_and_the_session() {
    let timed = ParameterSettings { linktest_interval: 7, ..ParameterSettings::default() };
    let mut client = Client::new(timed, Agreeable);
    assert_eq!(client.linktest_period(), Some(7000));
    client.connect().unwrap();
    assert_eq!(client.on_linktest_timer(0), None);
    client.receive(control(1, 0, 0, 1));
    let request = client.on_linktest_timer(100).unwrap();
    assert_eq!(request, Message { id: id(1), contents: MessageContents::LinktestRequest });
    assert_eq!(client.next_deadline(), Some(5100));
    let mut client = selected();
    assert_eq!(client.linktest_period(), None);
    assert_eq!(client.on_linktest_timer(100), None);
}
