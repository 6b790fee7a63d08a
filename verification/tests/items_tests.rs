use semi_e37::semi_e5::items::AccessMode;
use semi_e37::semi_e5::items::AcknowledgeAny;
use semi_e37::semi_e5::items::AcknowledgeCode10;
use semi_e37::semi_e5::items::AcknowledgeCode3;
use semi_e37::semi_e5::items::AfterCommandCodes;
use semi_e37::semi_e5::items::AlarmCode;
use semi_e37::semi_e5::items::AlarmEnableDisable;
use semi_e37::semi_e5::items::AlarmID;
use semi_e37::semi_e5::items::AlarmText;
use semi_e37::semi_e5::items::AnyBinaryString;
use semi_e37::semi_e5::items::AttributeID;
use semi_e37::semi_e5::items::AttributeValue;
use semi_e37::semi_e5::items::BlockDefinition;
use semi_e37::semi_e5::items::CarrierActionAcknowledgeCode;
use semi_e37::semi_e5::items::CarrierID;
use semi_e37::semi_e5::items::CarrierSpecifier;
use semi_e37::semi_e5::items::Checkpoint;
use semi_e37::semi_e5::items::ColumnHeader;
use semi_e37::semi_e5::items::CommandName;
use semi_e37::semi_e5::items::CommandParameterAcknowledgeCode;
use semi_e37::semi_e5::items::CommandParameterValue;
use semi_e37::semi_e5::items::ControlJobCommand;
use semi_e37::semi_e5::items::DataID;
use semi_e37::semi_e5::items::EquipmentConstantValue;
use semi_e37::semi_e5::items::ErrorCode;
use semi_e37::semi_e5::items::ErrorText;
use semi_e37::semi_e5::items::LimitMaximum;
use semi_e37::semi_e5::items::MaterialFormat;
use semi_e37::semi_e5::items::MaterialID;
use semi_e37::semi_e5::items::ModelName;
use semi_e37::semi_e5::items::ObjectSpecifier;
use semi_e37::semi_e5::items::OptionItem;
use semi_e37::semi_e5::items::PortNumber;
use semi_e37::semi_e5::items::Quantity;
use semi_e37::semi_e5::items::RemoteCommand;
use semi_e37::semi_e5::items::ServiceProgramID;
use semi_e37::semi_e5::items::StatusVariableValue;
use semi_e37::semi_e5::items::TerminalID;
use semi_e37::semi_e5::items::Text;
use semi_e37::semi_e5::items::TimeToCompletion;
use semi_e37::semi_e5::items::TransferStatusOutputPort;
use semi_e37::semi_e5::items::VecList;
use semi_e37::semi_e5::Char;
use semi_e37::semi_e5::Enumeration;
use semi_e37::semi_e5::Error;
use semi_e37::semi_e5::Item;
use semi_e37::semi_e5::ItemFormat;

fn ascii(text: &str) -> Vec<Char> {
    text.bytes().map(|byte| Char::from_u8(byte).unwrap()).collect()
}

fn text(chars: &[Char]) -> String {
    chars.iter().map(|c| c.to_u8() as char).collect()
}

#[test]
fn characters_are_the_first_128_bytes() {
    assert_eq!(Char::from_u8(0).map(|c| c.to_u8()), Some(0));
    assert_eq!(Char::from_u8(b'A').map(|c| c.to_u8()), Some(65));
    assert_eq!(Char::from_u8(127).map(|c| c.to_u8()), Some(127));
    assert_eq!(Char::from_u8(128), None);
    assert_eq!(Char::from_u8(255), None);
    assert_eq!(Char::colon().to_u8(), b':');
    assert_eq!(Char::greater_than_sign().to_u8(), b'>');
    assert_eq!(Some(Char::colon()), Char::from_u8(58));
}

#[test]
fn single_value_items_hold_exactly_one_value() {
    assert_eq!(AcknowledgeAny(true).into_item(), Item::Bool(vec![true]));
    assert_eq!(AcknowledgeAny::try_from_item(Item::Bool(vec![false])), Ok(AcknowledgeAny(false)));
    assert_eq!(AcknowledgeAny::try_from_item(Item::Bool(vec![])), Err(Error::WrongFormat));
    assert_eq!(
        AcknowledgeAny::try_from_item(Item::Bool(vec![true, true])),
        Err(Error::WrongFormat)
    );
    assert_eq!(AcknowledgeAny::try_from_item(Item::Bin(vec![1])), Err(Error::WrongFormat));
    assert_eq!(AlarmCode(0x85).into_item(), Item::Bin(vec![0x85]));
    assert_eq!(AlarmCode::try_from_item(Item::Bin(vec![7])), Ok(AlarmCode(7)));
    assert_eq!(AlarmCode::try_from_item(Item::U1(vec![7])), Err(Error::WrongFormat));
    assert_eq!(Checkpoint(0xDEADBEEF).into_item(), Item::U4(vec![0xDEADBEEF]));
    assert_eq!(Checkpoint::try_from_item(Item::U4(vec![5])), Ok(Checkpoint(5)));
    assert_eq!(Checkpoint::try_from_item(Item::U2(vec![5])), Err(Error::WrongFormat));
    assert_eq!(Quantity(3).into_item(), Item::U1(vec![3]));
    assert_eq!(Quantity::try_from_item(Item::Bin(vec![3])), Err(Error::WrongFormat));
    assert_eq!(TerminalID(2).into_item(), Item::Bin(vec![2]));
    assert_eq!(TerminalID::try_from_item(Item::Bin(vec![0])), Ok(TerminalID(0)));
}

#[test]
fn vector_items_hold_any_number_of_values() {
    assert_eq!(AnyBinaryString(vec![1, 2, 3]).into_item(), Item::Bin(vec![1, 2, 3]));
    assert_eq!(AnyBinaryString::try_from_item(Item::Bin(vec![])), Ok(AnyBinaryString(vec![])));
    assert_eq!(AnyBinaryString::try_from_item(Item::U1(vec![1])), Err(Error::WrongFormat));
    assert_eq!(CarrierID(ascii("LOT-7")).into_item(), Item::Ascii(ascii("LOT-7")));
    assert_eq!(CarrierID::try_from_item(Item::Ascii(ascii("X"))), Ok(CarrierID(ascii("X"))));
    assert_eq!(CarrierID::try_from_item(Item::Bin(vec![88])), Err(Error::WrongFormat));
    assert_eq!(Text(ascii("hello")).into_item(), Item::Ascii(ascii("hello")));
    assert_eq!(Text::try_from_item(Item::List(vec![])), Err(Error::WrongFormat));
}

#[test]
fn limited_texts_keep_within_their_limits() {
    assert!(AlarmText::new(ascii("")).is_some());
    assert!(AlarmText::new(ascii(&"a".repeat(120))).is_some());
    assert!(AlarmText::new(ascii(&"a".repeat(121))).is_none());
    assert!(CommandName::new(ascii(&"a".repeat(16))).is_some());
    assert!(CommandName::new(ascii(&"a".repeat(17))).is_none());
    assert!(ColumnHeader::new(ascii("")).is_none());
    assert!(ColumnHeader::new(ascii("a")).is_some());
    assert!(ColumnHeader::new(ascii(&"a".repeat(20))).is_some());
    assert!(ColumnHeader::new(ascii(&"a".repeat(21))).is_none());
    assert!(ModelName::new(ascii(&"a".repeat(20))).is_some());
    assert!(ModelName::new(ascii(&"a".repeat(21))).is_none());
    assert!(MaterialID::new(ascii(&"a".repeat(80))).is_some());
    assert!(MaterialID::new(ascii(&"a".repeat(81))).is_none());
    assert!(ErrorText::new(ascii(&"a".repeat(121))).is_none());
    let alarm = AlarmText::new(ascii("overheated")).unwrap();
    assert_eq!(text(alarm.read()), "overheated");
    assert_eq!(alarm.into_item(), Item::Ascii(ascii("overheated")));
    let read = AlarmText::try_from_item(Item::Ascii(ascii("door open"))).unwrap();
    assert_eq!(text(read.read()), "door open");
    assert_eq!(
        AlarmText::try_from_item(Item::Ascii(ascii(&"a".repeat(121)))).err(),
        Some(Error::WrongFormat)
    );
    assert_eq!(ColumnHeader::try_from_item(Item::Ascii(vec![])).err(), Some(Error::WrongFormat));
    assert_eq!(AlarmText::try_from_item(Item::Bin(vec![])).err(), Some(Error::WrongFormat));
}

#[test]
fn enumerations_stand_for_their_numbers() {
    assert_eq!(AccessMode::Manual.into_primitive(), 0);
    assert_eq!(AccessMode::Auto.into_primitive(), 1);
    assert_eq!(AccessMode::try_from_primitive(1), Some(AccessMode::Auto));
    assert_eq!(AccessMode::try_from_primitive(2), None);
    assert!(!AccessMode::is_binary());
    assert_eq!(AlarmEnableDisable::Enable.into_primitive(), 128);
    assert_eq!(AlarmEnableDisable::try_from_primitive(128), Some(AlarmEnableDisable::Enable));
    assert_eq!(AlarmEnableDisable::try_from_primitive(1), None);
    assert!(AlarmEnableDisable::is_binary());
    assert_eq!(CommandParameterAcknowledgeCode::try_from_primitive(0), None);
    assert_eq!(
        CommandParameterAcknowledgeCode::try_from_primitive(1),
        Some(CommandParameterAcknowledgeCode::ParameterNameDoesNotExist)
    );
    assert_eq!(ControlJobCommand::HeadOfQueue.into_primitive(), 8);
    assert_eq!(ControlJobCommand::try_from_primitive(0), None);
    assert_eq!(TransferStatusOutputPort::Completed.into_primitive(), 5);
    assert_eq!(CarrierActionAcknowledgeCode::Okay.into_primitive(), 0);
    assert_eq!(
        CarrierActionAcknowledgeCode::try_from_primitive(6),
        Some(CarrierActionAcknowledgeCode::PerformedWithErrors)
    );
    assert_eq!(CarrierActionAcknowledgeCode::try_from_primitive(7), None);
    for number in 0..=255u8 {
        if let Some(value) = CarrierActionAcknowledgeCode::try_from_primitive(number) {
            assert_eq!(value.into_primitive(), number);
        }
        if let Some(value) = AcknowledgeCode10::try_from_primitive(number) {
            assert_eq!(value.into_primitive(), number);
            assert!(number <= 2);
        }
    }
}

#[test]
fn enumerations_are_written_in_their_format() {
    assert_eq!(AccessMode::Auto.into_item(), Item::U1(vec![1]));
    assert_eq!(AccessMode::try_from_item(Item::U1(vec![0])), Ok(AccessMode::Manual));
    assert_eq!(AccessMode::try_from_item(Item::U1(vec![2])), Err(Error::WrongFormat));
    assert_eq!(AccessMode::try_from_item(Item::Bin(vec![0])), Err(Error::WrongFormat));
    assert_eq!(AccessMode::try_from_item(Item::U1(vec![0, 1])), Err(Error::WrongFormat));
    assert_eq!(AccessMode::try_from_item(Item::U1(vec![])), Err(Error::WrongFormat));
    assert_eq!(AcknowledgeCode3::Accepted.into_item(), Item::Bin(vec![0]));
    assert_eq!(AcknowledgeCode3::try_from_item(Item::Bin(vec![0])), Ok(AcknowledgeCode3::Accepted));
    assert_eq!(AcknowledgeCode3::try_from_item(Item::Bin(vec![1])), Err(Error::WrongFormat));
    assert_eq!(AcknowledgeCode3::try_from_item(Item::U1(vec![0])), Err(Error::WrongFormat));
    assert_eq!(AcknowledgeCode10::TerminalNotAvailable.into_item(), Item::Bin(vec![2]));
}

#[test]
fn vectors_of_enumerations_are_one_item() {
    assert_eq!(
        vec![AccessMode::Auto, AccessMode::Manual, AccessMode::Auto].into_item(),
        Item::U1(vec![1, 0, 1])
    );
    assert_eq!(Vec::<AccessMode>::new().into_item(), Item::U1(vec![]));
    assert_eq!(
        Vec::<AccessMode>::try_from_item(Item::U1(vec![0, 1])),
        Ok(vec![AccessMode::Manual, AccessMode::Auto])
    );
    assert_eq!(Vec::<AccessMode>::try_from_item(Item::U1(vec![0, 2])), Err(Error::WrongFormat));
    assert_eq!(Vec::<AccessMode>::try_from_item(Item::Bin(vec![0])), Err(Error::WrongFormat));
    assert_eq!(
        vec![AlarmEnableDisable::Enable, AlarmEnableDisable::Disable].into_item(),
        Item::Bin(vec![128, 0])
    );
    assert_eq!(
        Vec::<AlarmEnableDisable>::try_from_item(Item::Bin(vec![128])),
        Ok(vec![AlarmEnableDisable::Enable])
    );
    assert_eq!(Vec::<AlarmEnableDisable>::try_from_item(Item::U1(vec![128])), Err(Error::WrongFormat));
}

#[test]
fn block_definition_is_a_signed_byte() {
    assert_eq!(BlockDefinition::Terminate.into_primitive(), -1);
    assert_eq!(BlockDefinition::Within.into_primitive(), 0);
    assert_eq!(BlockDefinition::Start.into_primitive(), 1);
    assert_eq!(BlockDefinition::try_from_primitive(-1), Some(BlockDefinition::Terminate));
    assert_eq!(BlockDefinition::try_from_primitive(2), None);
    assert_eq!(BlockDefinition::try_from_primitive(-2), None);
    assert_eq!(BlockDefinition::Terminate.into_item(), Item::I1(vec![-1]));
    assert_eq!(BlockDefinition::try_from_item(Item::I1(vec![1])), Ok(BlockDefinition::Start));
    assert_eq!(BlockDefinition::try_from_item(Item::I1(vec![5])), Err(Error::WrongFormat));
    assert_eq!(BlockDefinition::try_from_item(Item::U1(vec![1])), Err(Error::WrongFormat));
    assert_eq!(
        vec![BlockDefinition::Start, BlockDefinition::Within, BlockDefinition::Terminate].into_item(),
        Item::I1(vec![1, 0, -1])
    );
    assert_eq!(
        Vec::<BlockDefinition>::try_from_item(Item::I1(vec![-1, 1])),
        Ok(vec![BlockDefinition::Terminate, BlockDefinition::Start])
    );
    assert_eq!(Vec::<BlockDefinition>::try_from_item(Item::I1(vec![3])), Err(Error::WrongFormat));
}

#[test]
fn items_of_several_formats_keep_their_format() {
    assert_eq!(AlarmID::I2(-5).into_item(), Item::I2(vec![-5]));
    assert_eq!(AlarmID::U8(u64::MAX).into_item(), Item::U8(vec![u64::MAX]));
    assert_eq!(AlarmID::try_from_item(Item::I8(vec![i64::MIN])), Ok(AlarmID::I8(i64::MIN)));
    assert_eq!(AlarmID::try_from_item(Item::U1(vec![1, 2])), Err(Error::WrongFormat));
    assert_eq!(AlarmID::try_from_item(Item::Ascii(ascii("1"))), Err(Error::WrongFormat));
    assert_eq!(PortNumber::Bin(1).into_item(), Item::Bin(vec![1]));
    assert_eq!(PortNumber::U1(1).into_item(), Item::U1(vec![1]));
    assert_eq!(PortNumber::try_from_item(Item::Bin(vec![4])), Ok(PortNumber::Bin(4)));
    assert_eq!(PortNumber::try_from_item(Item::U2(vec![4])), Err(Error::WrongFormat));
    assert_eq!(TimeToCompletion::U4(90).into_item(), Item::U4(vec![90]));
    assert_eq!(DataID::Ascii(ascii("id")).into_item(), Item::Ascii(ascii("id")));
    assert_eq!(DataID::U4(9).into_item(), Item::U4(vec![9]));
    assert_eq!(DataID::try_from_item(Item::Ascii(vec![])), Ok(DataID::Ascii(vec![])));
    assert_eq!(DataID::try_from_item(Item::I1(vec![-1])), Ok(DataID::I1(-1)));
    assert_eq!(DataID::try_from_item(Item::I1(vec![])), Err(Error::WrongFormat));
    assert_eq!(DataID::try_from_item(Item::Bool(vec![true])), Err(Error::WrongFormat));
    assert_eq!(AttributeID::try_from_item(Item::I1(vec![1])).err(), Some(Error::WrongFormat));
    assert_eq!(AttributeID::try_from_item(Item::U2(vec![1])).ok(), Some(AttributeID::U2(1)));
    assert_eq!(RemoteCommand::try_from_item(Item::U1(vec![1])), Ok(RemoteCommand::U1(1)));
    assert_eq!(RemoteCommand::try_from_item(Item::U2(vec![1])), Err(Error::WrongFormat));
}

#[test]
fn vector_items_of_several_formats_keep_their_format() {
    assert_eq!(AfterCommandCodes::I2(vec![1, -2]).into_item(), Item::I2(vec![1, -2]));
    assert_eq!(AfterCommandCodes::U2(vec![]).into_item(), Item::U2(vec![]));
    assert_eq!(
        AfterCommandCodes::try_from_item(Item::U2(vec![7, 8])),
        Ok(AfterCommandCodes::U2(vec![7, 8]))
    );
    assert_eq!(AfterCommandCodes::try_from_item(Item::U4(vec![7])), Err(Error::WrongFormat));
    assert_eq!(
        CommandParameterValue::Jis8(String::from("abc")).into_item(),
        Item::Jis8(String::from("abc"))
    );
    assert_eq!(
        CommandParameterValue::try_from_item(Item::Bool(vec![true, false])).ok(),
        Some(CommandParameterValue::Bool(vec![true, false]))
    );
    assert_eq!(
        CommandParameterValue::try_from_item(Item::List(vec![])).err(),
        Some(Error::WrongFormat)
    );
    assert_eq!(
        CommandParameterValue::try_from_item(Item::F4(vec![0])).err(),
        Some(Error::WrongFormat)
    );
    assert_eq!(LimitMaximum::try_from_item(Item::Bin(vec![1])).err(), Some(Error::WrongFormat));
    assert_eq!(LimitMaximum::try_from_item(Item::Jis8(String::new())).err(), Some(Error::WrongFormat));
}

#[test]
fn floating_point_values_travel_as_their_bits() {
    let one = 1.0f32.to_bits();
    let half = 0.5f64.to_bits();
    assert_eq!(one, 0x3F80_0000);
    assert_eq!(half, 0x3FE0_0000_0000_0000);
    assert_eq!(EquipmentConstantValue::F4(vec![one]).into_item(), Item::F4(vec![one]));
    assert_eq!(EquipmentConstantValue::F8(vec![half]).into_item(), Item::F8(vec![half]));
    match EquipmentConstantValue::try_from_item(Item::F4(vec![one])) {
        Ok(EquipmentConstantValue::F4(bits)) => assert_eq!(f32::from_bits(bits[0]), 1.0),
        other => panic!("unexpected {:?}", other),
    }
    match LimitMaximum::try_from_item(Item::F8(vec![half])) {
        Ok(LimitMaximum::F8(bits)) => assert_eq!(f64::from_bits(bits[0]), 0.5),
        other => panic!("unexpected {:?}", other),
    }
    assert_eq!(EquipmentConstantValue::try_from_item(Item::List(vec![])).err(), Some(Error::WrongFormat));
}

#[test]
fn values_that_may_be_lists_keep_the_list() {
    let list = vec![Item::U1(vec![1]), Item::List(vec![Item::Ascii(ascii("x"))])];
    let again = vec![Item::U1(vec![1]), Item::List(vec![Item::Ascii(ascii("x"))])];
    assert_eq!(AttributeValue::List(list).into_item(), Item::List(again));
    let list = vec![Item::Bool(vec![true])];
    let again = vec![Item::Bool(vec![true])];
    assert_eq!(
        StatusVariableValue::try_from_item(Item::List(list)).ok(),
        Some(StatusVariableValue::List(again))
    );
    assert_eq!(
        AttributeValue::try_from_item(Item::Jis8(String::new())).err(),
        Some(Error::WrongFormat)
    );
    assert_eq!(
        StatusVariableValue::try_from_item(Item::Jis8(String::from("j"))).ok(),
        Some(StatusVariableValue::Jis8(String::from("j")))
    );
}

#[test]
fn error_code_is_written_as_the_shortest_integer() {
    assert_eq!(ErrorCode::NoError.into_item(), Item::U1(vec![0]));
    assert_eq!(ErrorCode::MissingCarrier.into_item(), Item::U1(vec![50]));
    assert_eq!(ErrorCode::ActionWillBePerformed.into_item(), Item::U2(vec![32768]));
    assert_eq!(ErrorCode::TransferCancelled.into_item(), Item::U2(vec![32784]));
    assert_eq!(ErrorCode::Busy.into_primitive(), 15);
    assert_eq!(ErrorCode::try_from_primitive(32772), Some(ErrorCode::ClientAlr));
    assert_eq!(ErrorCode::try_from_primitive(51), None);
    assert_eq!(ErrorCode::try_from_primitive(32785), None);
    assert_eq!(ErrorCode::try_from_primitive(u64::MAX), None);
}

#[test]
fn error_code_is_read_from_any_unsigned_integer() {
    assert_eq!(ErrorCode::try_from_item(Item::U1(vec![5])), Ok(ErrorCode::ReadonlyAttributeAccessDenied));
    assert_eq!(ErrorCode::try_from_item(Item::U2(vec![5])), Ok(ErrorCode::ReadonlyAttributeAccessDenied));
    assert_eq!(ErrorCode::try_from_item(Item::U4(vec![5])), Ok(ErrorCode::ReadonlyAttributeAccessDenied));
    assert_eq!(ErrorCode::try_from_item(Item::U8(vec![5])), Ok(ErrorCode::ReadonlyAttributeAccessDenied));
    assert_eq!(ErrorCode::try_from_item(Item::U4(vec![32770])), Ok(ErrorCode::ActionFailedDueToErrors));
    assert_eq!(ErrorCode::try_from_item(Item::U1(vec![51])), Err(Error::WrongFormat));
    assert_eq!(ErrorCode::try_from_item(Item::U2(vec![64])), Err(Error::WrongFormat));
    assert_eq!(ErrorCode::try_from_item(Item::U8(vec![65536])), Err(Error::WrongFormat));
    assert_eq!(ErrorCode::try_from_item(Item::U1(vec![])), Err(Error::WrongFormat));
    assert_eq!(ErrorCode::try_from_item(Item::U2(vec![1, 2])), Err(Error::WrongFormat));
    assert_eq!(ErrorCode::try_from_item(Item::I1(vec![1])), Err(Error::WrongFormat));
    assert_eq!(ErrorCode::try_from_item(Item::Bin(vec![1])), Err(Error::WrongFormat));
    for number in 0..=70000u64 {
        if let Some(code) = ErrorCode::try_from_primitive(number) {
            assert_eq!(code.into_primitive(), number);
            assert_eq!(ErrorCode::try_from_item(code.into_item()), Ok(code));
        }
    }
}

#[test]
fn material_format_is_a_unit_or_a_code() {
    assert_eq!(MaterialFormat::Unit(ascii("kg")).into_item(), Item::Ascii(ascii("kg")));
    assert_eq!(MaterialFormat::Wafers.into_item(), Item::Bin(vec![1]));
    assert_eq!(MaterialFormat::Lots.into_item(), Item::Bin(vec![7]));
    assert_eq!(MaterialFormat::Substrates.into_item(), Item::Bin(vec![14]));
    assert_eq!(MaterialFormat::try_from_item(Item::Ascii(vec![])), Ok(MaterialFormat::Unit(vec![])));
    assert_eq!(MaterialFormat::try_from_item(Item::Bin(vec![2])), Ok(MaterialFormat::Cassettes));
    assert_eq!(MaterialFormat::try_from_item(Item::Bin(vec![13])), Ok(MaterialFormat::Carriers));
    assert_eq!(MaterialFormat::try_from_item(Item::Bin(vec![0])), Err(Error::WrongFormat));
    assert_eq!(MaterialFormat::try_from_item(Item::Bin(vec![15])), Err(Error::WrongFormat));
    assert_eq!(MaterialFormat::try_from_item(Item::Bin(vec![1, 2])), Err(Error::WrongFormat));
    assert_eq!(MaterialFormat::try_from_item(Item::Bin(vec![])), Err(Error::WrongFormat));
    assert_eq!(MaterialFormat::try_from_item(Item::U1(vec![1])), Err(Error::WrongFormat));
    for code in 1..=14u8 {
        let format = MaterialFormat::try_from_item(Item::Bin(vec![code])).unwrap();
        assert_eq!(format.into_item(), Item::Bin(vec![code]));
    }
}

#[test]
fn service_program_id_has_six_characters() {
    let chars = ascii("PROG01");
    let id = ServiceProgramID([chars[0], chars[1], chars[2], chars[3], chars[4], chars[5]]);
    assert_eq!(id.into_item(), Item::Ascii(ascii("PROG01")));
    assert_eq!(ServiceProgramID::try_from_item(Item::Ascii(ascii("PROG01"))), Ok(id));
    assert_eq!(ServiceProgramID::try_from_item(Item::Ascii(ascii("PROG0"))), Err(Error::WrongFormat));
    assert_eq!(ServiceProgramID::try_from_item(Item::Ascii(ascii("PROG012"))), Err(Error::WrongFormat));
    assert_eq!(ServiceProgramID::try_from_item(Item::Bin(vec![0; 6])), Err(Error::WrongFormat));
}

fn specifier(steps: &[(Option<&str>, &str)]) -> ObjectSpecifier {
    ObjectSpecifier(
        steps.iter().map(|(object_type, name)| (object_type.map(ascii), ascii(name))).collect(),
    )
}

#[test]
fn object_specifier_is_written_step_by_step() {
    assert_eq!(specifier(&[]).into_item(), Item::Ascii(vec![]));
    assert_eq!(specifier(&[(None, "A")]).into_item(), Item::Ascii(ascii("A>")));
    assert_eq!(
        specifier(&[(Some("Equipment"), "E1")]).into_item(),
        Item::Ascii(ascii("Equipment:E1>"))
    );
    assert_eq!(
        specifier(&[(Some("Equipment"), "E1"), (None, "Chamber2"), (Some("Slot"), "7")]).into_item(),
        Item::Ascii(ascii("Equipment:E1>Chamber2>Slot:7>"))
    );
}

#[test]
fn object_specifier_is_read_step_by_step() {
    let read = |text: &str| ObjectSpecifier::try_from_item(Item::Ascii(ascii(text)));
    assert_eq!(read(""), Ok(specifier(&[])));
    assert_eq!(read("A>"), Ok(specifier(&[(None, "A")])));
    assert_eq!(read("A"), Ok(specifier(&[(None, "A")])));
    assert_eq!(read("T:A>"), Ok(specifier(&[(Some("T"), "A")])));
    assert_eq!(read("T:A"), Ok(specifier(&[(Some("T"), "A")])));
    assert_eq!(
        read("Equipment:E1>Chamber2>Slot:7>"),
        Ok(specifier(&[(Some("Equipment"), "E1"), (None, "Chamber2"), (Some("Slot"), "7")]))
    );
    assert_eq!(
        read("Equipment:E1>Chamber2>Slot:7"),
        Ok(specifier(&[(Some("Equipment"), "E1"), (None, "Chamber2"), (Some("Slot"), "7")]))
    );
    assert_eq!(read("a b>c d"), Ok(specifier(&[(None, "a b"), (None, "c d")])));
}

#[test]
fn object_specifier_that_is_malformed_is_refused() {
    let read = |text: &str| ObjectSpecifier::try_from_item(Item::Ascii(ascii(text)));
    assert_eq!(read(":"), Err(Error::WrongFormat));
    assert_eq!(read(":A>"), Err(Error::WrongFormat));
    assert_eq!(read(">"), Err(Error::WrongFormat));
    assert_eq!(read("A>>"), Err(Error::WrongFormat));
    assert_eq!(read("T:>"), Err(Error::WrongFormat));
    assert_eq!(read("T:"), Err(Error::WrongFormat));
    assert_eq!(read("T::A>"), Err(Error::WrongFormat));
    assert_eq!(read("T:A:B>"), Err(Error::WrongFormat));
    assert_eq!(read("A>:B>"), Err(Error::WrongFormat));
    assert_eq!(read("A>T:"), Err(Error::WrongFormat));
    assert_eq!(
        ObjectSpecifier::try_from_item(Item::Bin(vec![b'A', b'>'])),
        Err(Error::WrongFormat)
    );
    assert_eq!(CarrierSpecifier::try_from_item(Item::List(vec![])), Err(Error::WrongFormat));
}

#[test]
fn object_specifier_round_trip() {
    let cases: [&[(Option<&str>, &str)]; 4] = [
        &[],
        &[(None, "x")],
        &[(Some("t"), "x")],
        &[(Some("Type"), "Name"), (None, "Next"), (None, "Last"), (Some("a"), "b")],
    ];
    for steps in cases {
        let item = specifier(steps).into_item();
        assert_eq!(ObjectSpecifier::try_from_item(item), Ok(specifier(steps)));
    }
}

#[test]
fn optional_item_is_the_empty_list_or_the_item() {
    assert_eq!(OptionItem::<Quantity>(None).into_item(), Item::List(vec![]));
    assert_eq!(OptionItem(Some(Quantity(4))).into_item(), Item::U1(vec![4]));
    assert_eq!(OptionItem::<Quantity>::try_from_item(Item::List(vec![])), Ok(OptionItem(None)));
    assert_eq!(
        OptionItem::<Quantity>::try_from_item(Item::U1(vec![4])),
        Ok(OptionItem(Some(Quantity(4))))
    );
    assert_eq!(
        OptionItem::<Quantity>::try_from_item(Item::List(vec![Item::U1(vec![4])])),
        Err(Error::WrongFormat)
    );
    assert_eq!(OptionItem::<Quantity>::try_from_item(Item::U2(vec![4])), Err(Error::WrongFormat));
    assert_eq!(
        OptionItem::<(Quantity, Quantity)>::try_from_item(Item::List(vec![
            Item::U1(vec![1]),
            Item::U1(vec![2])
        ])),
        Ok(OptionItem(Some((Quantity(1), Quantity(2)))))
    );
    assert_eq!(
        OptionItem::<VecList<Quantity>>::try_from_item(Item::List(vec![])),
        Ok(OptionItem(None))
    );
}

#[test]
fn vectorized_list_is_a_list_of_like_items() {
    assert_eq!(VecList::<Quantity>(vec![]).into_item(), Item::List(vec![]));
    assert_eq!(
        VecList(vec![Quantity(1), Quantity(2), Quantity(3)]).into_item(),
        Item::List(vec![Item::U1(vec![1]), Item::U1(vec![2]), Item::U1(vec![3])])
    );
    assert_eq!(VecList::<Quantity>::try_from_item(Item::List(vec![])), Ok(VecList(vec![])));
    assert_eq!(
        VecList::<Quantity>::try_from_item(Item::List(vec![Item::U1(vec![9]), Item::U1(vec![8])])),
        Ok(VecList(vec![Quantity(9), Quantity(8)]))
    );
    assert_eq!(
        VecList::<Quantity>::try_from_item(Item::List(vec![Item::U1(vec![9]), Item::Bin(vec![8])])),
        Err(Error::WrongFormat)
    );
    assert_eq!(VecList::<Quantity>::try_from_item(Item::U1(vec![9])), Err(Error::WrongFormat));
    assert_eq!(
        VecList(vec![VecList(vec![Quantity(1)]), VecList(vec![])]).into_item(),
        Item::List(vec![Item::List(vec![Item::U1(vec![1])]), Item::List(vec![])])
    );
}

#[test]
fn unit_is_the_empty_list() {
    assert_eq!(().into_item(), Item::List(vec![]));
    assert_eq!(<()>::try_from_item(Item::List(vec![])), Ok(()));
    assert_eq!(<()>::try_from_item(Item::List(vec![Item::List(vec![])])), Err(Error::WrongFormat));
    assert_eq!(<()>::try_from_item(Item::Bin(vec![])), Err(Error::WrongFormat));
}

#[test]
fn tuples_are_lists_of_unlike_items() {
    let pair = (Quantity(1), AcknowledgeAny(true));
    assert_eq!(pair.into_item(), Item::List(vec![Item::U1(vec![1]), Item::Bool(vec![true])]));
    assert_eq!(
        <(Quantity, AcknowledgeAny)>::try_from_item(Item::List(vec![
            Item::U1(vec![1]),
            Item::Bool(vec![true])
        ])),
        Ok((Quantity(1), AcknowledgeAny(true)))
    );
    assert_eq!(
        <(Quantity, AcknowledgeAny)>::try_from_item(Item::List(vec![
            Item::Bool(vec![true]),
            Item::U1(vec![1])
        ])),
        Err(Error::WrongFormat)
    );
    assert_eq!(
        <(Quantity, AcknowledgeAny)>::try_from_item(Item::List(vec![Item::U1(vec![1])])),
        Err(Error::WrongFormat)
    );
    assert_eq!(
        <(Quantity, AcknowledgeAny)>::try_from_item(Item::List(vec![
            Item::U1(vec![1]),
            Item::Bool(vec![true]),
            Item::Bool(vec![true])
        ])),
        Err(Error::WrongFormat)
    );
    assert_eq!(<(Quantity, AcknowledgeAny)>::try_from_item(Item::U1(vec![1])), Err(Error::WrongFormat));
    let triple = (Quantity(1), Checkpoint(2), AlarmCode(3));
    assert_eq!(
        triple.into_item(),
        Item::List(vec![Item::U1(vec![1]), Item::U4(vec![2]), Item::Bin(vec![3])])
    );
    assert_eq!(
        <(Quantity, Checkpoint, AlarmCode)>::try_from_item(triple.into_item()),
        Ok(triple)
    );
}

fn numbered(count: u8) -> Item {
    Item::List((1..=count).map(|n| Item::U1(vec![n])).collect())
}

#[test]
fn tuples_of_every_length_round_trip() {
    let q = Quantity;
    assert_eq!((q(1), q(2), q(3), q(4)).into_item(), numbered(4));
    assert_eq!((q(1), q(2), q(3), q(4), q(5)).into_item(), numbered(5));
    assert_eq!((q(1), q(2), q(3), q(4), q(5), q(6)).into_item(), numbered(6));
    assert_eq!((q(1), q(2), q(3), q(4), q(5), q(6), q(7)).into_item(), numbered(7));
    assert_eq!(
        <(Quantity, Quantity, Quantity, Quantity)>::try_from_item(numbered(4)),
        Ok((q(1), q(2), q(3), q(4)))
    );
    assert_eq!(
        <(Quantity, Quantity, Quantity, Quantity, Quantity)>::try_from_item(numbered(5)),
        Ok((q(1), q(2), q(3), q(4), q(5)))
    );
    assert_eq!(
        <(Quantity, Quantity, Quantity, Quantity, Quantity, Quantity)>::try_from_item(numbered(6)),
        Ok((q(1), q(2), q(3), q(4), q(5), q(6)))
    );
    assert_eq!(
        <(Quantity, Quantity, Quantity, Quantity, Quantity, Quantity, Quantity)>::try_from_item(
            numbered(7)
        ),
        Ok((q(1), q(2), q(3), q(4), q(5), q(6), q(7)))
    );
    assert_eq!(
        <(Quantity, Quantity, Quantity, Quantity, Quantity, Quantity, Quantity)>::try_from_item(
            numbered(6)
        ),
        Err(Error::WrongFormat)
    );
    assert_eq!(
        <(Quantity, Quantity, Quantity, Quantity)>::try_from_item(numbered(5)),
        Err(Error::WrongFormat)
    );
}
