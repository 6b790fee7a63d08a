use semi_e37::semi_e5::items::AccessMode;
use semi_e37::semi_e5::items::AcknowledgeCode10;
use semi_e37::semi_e5::items::AcknowledgeCode3;
use semi_e37::semi_e5::items::CarrierActionAcknowledgeCode;
use semi_e37::semi_e5::items::ErrorCode;
use semi_e37::semi_e5::items::ErrorText;
use semi_e37::semi_e5::items::LocationCode;
use semi_e37::semi_e5::items::MaterialFormat;
use semi_e37::semi_e5::items::MaterialID;
use semi_e37::semi_e5::items::PortGroupName;
use semi_e37::semi_e5::items::PortNumber;
use semi_e37::semi_e5::items::Quantity;
use semi_e37::semi_e5::items::TerminalID;
use semi_e37::semi_e5::items::Text;
use semi_e37::semi_e5::items::VecList;
use semi_e37::semi_e5::messages::s10;
use semi_e37::semi_e5::messages::s3;
use semi_e37::semi_e5::Char;
use semi_e37::semi_e5::Error;
use semi_e37::semi_e5::Item;
use semi_e37::semi_e5::Message;
use semi_e37::semi_e5::MessageFormat;

fn ascii(text: &str) -> Vec<Char> {
    text.bytes().map(|byte| Char::from_u8(byte).unwrap()).collect()
}

fn header_only(stream: u8, function: u8, w: bool) -> Message {
    Message { stream, function, w, text: None }
}

#[test]
fn header_only_messages() {
    assert_eq!(s3::Abort.into_message(), header_only(3, 0, false));
    assert_eq!(s3::MaterialStatusRequest.into_message(), header_only(3, 1, true));
    assert_eq!(s3::TimeToCompletionRequest.into_message(), header_only(3, 3, true));
    assert_eq!(s3::CancelAllCarrierOutRequest.into_message(), header_only(3, 19, true));
    assert_eq!(s3::CancelAllPodOutRequest.into_message(), header_only(3, 33, true));
    assert_eq!(s10::Abort.into_message(), header_only(10, 0, false));
    assert_eq!(s3::Abort::try_from_message(header_only(3, 0, false)), Ok(s3::Abort));
    assert_eq!(
        s3::MaterialStatusRequest::try_from_message(header_only(3, 1, true)),
        Ok(s3::MaterialStatusRequest)
    );
    assert_eq!(s10::Abort::try_from_message(header_only(10, 0, false)), Ok(s10::Abort));
}

#[test]
fn each_fault_of_a_message_has_its_error() {
    assert_eq!(
        s3::MaterialStatusRequest::try_from_message(header_only(4, 1, true)),
        Err(Error::WrongStream)
    );
    assert_eq!(
        s3::MaterialStatusRequest::try_from_message(header_only(3, 3, true)),
        Err(Error::WrongFunction)
    );
    assert_eq!(
        s3::MaterialStatusRequest::try_from_message(header_only(3, 1, false)),
        Err(Error::WrongReply)
    );
    assert_eq!(
        s3::MaterialStatusRequest::try_from_message(Message {
            stream: 3,
            function: 1,
            w: true,
            text: Some(Item::List(vec![]))
        }),
        Err(Error::WrongFormat)
    );
    assert_eq!(
        s3::MaterialStatusRequest::try_from_message(header_only(4, 2, false)),
        Err(Error::WrongStream)
    );
    assert_eq!(
        s3::MaterialStatusRequest::try_from_message(header_only(3, 2, false)),
        Err(Error::WrongFunction)
    );
    assert_eq!(s10::Abort::try_from_message(header_only(3, 0, false)), Err(Error::WrongStream));
    assert_eq!(
        s3::MaterialFoundAcknowledge::try_from_message(header_only(3, 6, false)),
        Err(Error::WrongFormat)
    );
    assert_eq!(
        s3::MaterialFoundAcknowledge::try_from_message(Message {
            stream: 3,
            function: 6,
            w: false,
            text: Some(Item::Bin(vec![9]))
        }),
        Err(Error::WrongFormat)
    );
    assert_eq!(
        s3::MaterialFoundAcknowledge::try_from_message(Message {
            stream: 3,
            function: 6,
            w: true,
            text: Some(Item::Bin(vec![0]))
        }),
        Err(Error::WrongReply)
    );
}

#[test]
fn material_status_data() {
    let message = s3::MaterialStatusData((
        MaterialFormat::Wafers,
        VecList(vec![
            (LocationCode(1), Quantity(25), MaterialID::new(ascii("LOT1")).unwrap()),
            (LocationCode(2), Quantity(0), MaterialID::new(ascii("")).unwrap()),
        ]),
    ))
    .into_message();
    let expected = Item::List(vec![
        Item::Bin(vec![1]),
        Item::List(vec![
            Item::List(vec![Item::Bin(vec![1]), Item::U1(vec![25]), Item::Ascii(ascii("LOT1"))]),
            Item::List(vec![Item::Bin(vec![2]), Item::U1(vec![0]), Item::Ascii(vec![])]),
        ]),
    ]);
    assert_eq!(message, Message { stream: 3, function: 2, w: false, text: Some(expected) });
    let read = s3::MaterialStatusData::try_from_message(message).unwrap();
    assert_eq!((read.0).0, MaterialFormat::Wafers);
    assert_eq!(((read.0).1).0.len(), 2);
    assert_eq!((((read.0).1).0[0]).1, Quantity(25));
}

#[test]
fn material_found_send_and_acknowledge() {
    let message = s3::MaterialFoundSend((MaterialFormat::Unit(ascii("pcs")), Quantity(3))).into_message();
    assert_eq!(
        message,
        Message {
            stream: 3,
            function: 5,
            w: true,
            text: Some(Item::List(vec![Item::Ascii(ascii("pcs")), Item::U1(vec![3])]))
        }
    );
    assert_eq!(
        s3::MaterialFoundSend::try_from_message(message),
        Ok(s3::MaterialFoundSend((MaterialFormat::Unit(ascii("pcs")), Quantity(3))))
    );
    let message = s3::MaterialFoundAcknowledge(AcknowledgeCode3::Accepted).into_message();
    assert_eq!(message, Message { stream: 3, function: 6, w: false, text: Some(Item::Bin(vec![0])) });
    assert_eq!(
        s3::MaterialFoundAcknowledge::try_from_message(message),
        Ok(s3::MaterialFoundAcknowledge(AcknowledgeCode3::Accepted))
    );
}

#[test]
fn carrier_acknowledgements_list_their_errors() {
    let message = s3::CarrierActionAcknowledge((
        CarrierActionAcknowledgeCode::InvalidData,
        VecList(vec![(ErrorCode::MissingCarrier, ErrorText::new(ascii("no carrier")).unwrap())]),
    ))
    .into_message();
    assert_eq!(message.stream, 3);
    assert_eq!(message.function, 18);
    assert!(!message.w);
    assert_eq!(
        message.text,
        Some(Item::List(vec![
            Item::U1(vec![3]),
            Item::List(vec![Item::List(vec![Item::U1(vec![50]), Item::Ascii(ascii("no carrier"))])]),
        ]))
    );
    let read = s3::CarrierActionAcknowledge::try_from_message(message).unwrap();
    assert_eq!((read.0).0, CarrierActionAcknowledgeCode::InvalidData);
    assert_eq!((((read.0).1).0[0]).0, ErrorCode::MissingCarrier);
}

#[test]
fn function_numbers_follow_the_names_of_the_messages() {
    let errors = || VecList::<(ErrorCode, ErrorText)>(vec![]);
    let okay = CarrierActionAcknowledgeCode::Okay;
    assert_eq!(s3::CancelAllCarrierOutAcknowledge((okay, errors())).into_message().function, 20);
    assert_eq!(
        s3::PortGroupDefinition((
            PortGroupName(ascii("G")),
            AccessMode::Auto,
            VecList(vec![PortNumber::U1(1)])
        ))
        .into_message()
        .function,
        21
    );
    assert_eq!(s3::PortGroupDefinitionAcknowledge((okay, errors())).into_message().function, 22);
    assert_eq!(s3::PortGroupActionAcknowledge((okay, errors())).into_message().function, 24);
    assert_eq!(s3::PortActionAcknowledge((okay, errors())).into_message().function, 26);
    assert_eq!(s3::CarrierTagWriteDataAcknowledge((okay, errors())).into_message().function, 32);
    assert_eq!(s3::CancelAllPodOutAcknowledge((okay, errors())).into_message().function, 34);
    let message = s3::ChangeAccess((AccessMode::Manual, VecList(vec![PortNumber::Bin(2)]))).into_message();
    assert_eq!(message.function, 27);
    assert!(message.w);
    assert_eq!(
        message.text,
        Some(Item::List(vec![Item::U1(vec![0]), Item::List(vec![Item::Bin(vec![2])])]))
    );
}

#[test]
fn terminal_messages() {
    let message = s10::TerminalRequest((TerminalID(0), Text(ascii("START")))).into_message();
    assert_eq!(
        message,
        Message {
            stream: 10,
            function: 1,
            w: true,
            text: Some(Item::List(vec![Item::Bin(vec![0]), Item::Ascii(ascii("START"))]))
        }
    );
    assert_eq!(
        s10::TerminalRequest::try_from_message(message),
        Ok(s10::TerminalRequest((TerminalID(0), Text(ascii("START")))))
    );
    let message = s10::TerminalAcknowledge(AcknowledgeCode10::WillNotBeDisplayed).into_message();
    assert_eq!(message, Message { stream: 10, function: 2, w: false, text: Some(Item::Bin(vec![1])) });
    let message = s10::TerminalDisplaySingle((TerminalID(1), Text(ascii("hello")))).into_message();
    assert_eq!(message.function, 3);
    assert!(message.w);
    assert_eq!(
        s10::TerminalDisplaySingle::try_from_message(header_only(10, 3, true)),
        Err(Error::WrongFormat)
    );
    let message = s10::TerminalDisplaySingleAcknowledge(AcknowledgeCode10::Accepted).into_message();
    assert_eq!(message, Message { stream: 10, function: 4, w: false, text: Some(Item::Bin(vec![0])) });
    assert_eq!(
        s10::TerminalDisplaySingleAcknowledge::try_from_message(Message {
            stream: 10,
            function: 4,
            w: false,
            text: Some(Item::Bin(vec![3]))
        }),
        Err(Error::WrongFormat)
    );
}
