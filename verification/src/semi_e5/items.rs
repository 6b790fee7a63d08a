//! # ITEMS
//!
//! The specific items of the standard. Each is a type that holds what the
//! item may hold and nothing else, and each is written as a general item and
//! read back from one as its format prescribes.
//!
//! Besides the items themselves, a few shapes of list recur: the list that
//! may be empty in place of an item, the list of any number of like elements,
//! and the list of a fixed number of unlike elements, which is a tuple.
use crate::semi_e5::only;
use crate::semi_e5::single;
use crate::semi_e5::views_of;
use crate::semi_e5::lemma_list_view;
use crate::semi_e5::append;
use crate::semi_e5::enumeration_accepts;
use crate::semi_e5::enumeration_into_item;
use crate::semi_e5::enumeration_item;
use crate::semi_e5::enumeration_try_from_item;
use crate::semi_e5::lemma_enumeration_round_trip;
use crate::semi_e5::Char;
use crate::semi_e5::Enumeration;
use crate::semi_e5::Error;
use crate::semi_e5::Item;
use crate::semi_e5::ItemFormat;
use crate::semi_e5::ItemView;
use vstd::prelude::*;

pub use crate::semi_e5::OptionItem;
pub use crate::semi_e5::VecList;

verus! {

/// ## ABS
///
/// Any binary string.
#[derive(Clone, Debug, PartialEq, Eq)]
pub struct AnyBinaryString(pub Vec<u8>);

impl ItemFormat for AnyBinaryString {
    open spec fn item(self) -> ItemView {
        ItemView::Bin(self.0@)
    }

    open spec fn accepts(item: ItemView) -> bool {
        item is Bin
    }

    open spec fn reads(item: ItemView, value: Self) -> bool {
        item == value.item()
    }

    open spec fn valid(self) -> bool {
        true
    }

    proof fn lemma_round_trip(self) {
    }

    fn into_item(self) -> (r: Item) {
        Item::Bin(self.0)
    }

    fn try_from_item(item: Item) -> (r: Result<Self, Error>) {
        match item {
            Item::Bin(values) => Ok(AnyBinaryString(values)),
            _ => Err(Error::WrongFormat),
        }
    }
}

/// ## ACCESSMODE
///
/// **Load Port Access Mode**
#[derive(Clone, Copy, Debug, PartialEq, Eq, Structural)]
pub enum AccessMode {
    Manual,
    Auto,
}

impl Enumeration for AccessMode {
    open spec fn number(self) -> u8 {
        match self {
            AccessMode::Manual => 0,
            AccessMode::Auto => 1,
        }
    }

    open spec fn named(number: u8) -> Option<Self> {
        if number == 0 {
            Some(AccessMode::Manual)
        } else if number == 1 {
            Some(AccessMode::Auto)
        } else {
            None
        }
    }

    open spec fn binary() -> bool {
        false
    }

    fn into_primitive(self) -> (r: u8) {
        match self {
            AccessMode::Manual => 0,
            AccessMode::Auto => 1,
        }
    }

    fn try_from_primitive(number: u8) -> (r: Option<Self>) {
        match number {
            0 => Some(AccessMode::Manual),
            1 => Some(AccessMode::Auto),
            _ => None,
        }
    }

    fn is_binary() -> (r: bool) {
        false
    }

    proof fn lemma_number_names_value(self) {
    }

    proof fn lemma_named_has_number(number: u8) {
    }
}

impl ItemFormat for AccessMode {
    open spec fn item(self) -> ItemView {
        enumeration_item(self)
    }

    open spec fn accepts(item: ItemView) -> bool {
        enumeration_accepts::<AccessMode>(item)
    }

    open spec fn reads(item: ItemView, value: Self) -> bool {
        item == value.item()
    }

    open spec fn valid(self) -> bool {
        true
    }

    proof fn lemma_round_trip(self) {
        lemma_enumeration_round_trip(self);
    }

    fn into_item(self) -> (r: Item) {
        enumeration_into_item(self)
    }

    fn try_from_item(item: Item) -> (r: Result<Self, Error>) {
        enumeration_try_from_item(item)
    }
}

/// ## ACDS
///
/// After Command Codes
///
/// Vector of all command codes which the defined command must succeed
/// within the same block.
#[derive(Clone, Debug, PartialEq, Eq)]
pub enum AfterCommandCodes {
    I2(Vec<i16>),
    U2(Vec<u16>),
}

impl ItemFormat for AfterCommandCodes {
    open spec fn item(self) -> ItemView {
        match self {
            AfterCommandCodes::I2(values) => ItemView::I2(values@),
            AfterCommandCodes::U2(values) => ItemView::U2(values@),
        }
    }

    open spec fn accepts(item: ItemView) -> bool {
        match item {
            ItemView::I2(_) => true,
            ItemView::U2(_) => true,
            _ => false,
        }
    }

    open spec fn reads(item: ItemView, value: Self) -> bool {
        item == value.item()
    }

    open spec fn valid(self) -> bool {
        true
    }

    proof fn lemma_round_trip(self) {
    }

    fn into_item(self) -> (r: Item) {
        match self {
            AfterCommandCodes::I2(values) => Item::I2(values),
            AfterCommandCodes::U2(values) => Item::U2(values),
        }
    }

    fn try_from_item(item: Item) -> (r: Result<Self, Error>) {
        match item {
            Item::I2(values) => Ok(AfterCommandCodes::I2(values)),
            Item::U2(values) => Ok(AfterCommandCodes::U2(values)),
            _ => Err(Error::WrongFormat),
        }
    }
}

/// ## ACKA
///
/// Request success, true is successful, false is unsuccessful.
#[derive(Clone, Copy, Debug, PartialEq, Eq, Structural)]
pub struct AcknowledgeAny(pub bool);

impl ItemFormat for AcknowledgeAny {
    open spec fn item(self) -> ItemView {
        ItemView::Bool(seq![self.0])
    }

    open spec fn accepts(item: ItemView) -> bool {
        item matches ItemView::Bool(values) && values.len() == 1
    }

    open spec fn reads(item: ItemView, value: Self) -> bool {
        item == value.item()
    }

    open spec fn valid(self) -> bool {
        true
    }

    proof fn lemma_round_trip(self) {
    }

    fn into_item(self) -> (r: Item) {
        Item::Bool(single(self.0))
    }

    fn try_from_item(item: Item) -> (r: Result<Self, Error>) {
        match item {
            Item::Bool(values) => match only(&values) {
                Some(value) => Ok(AcknowledgeAny(value)),
                None => Err(Error::WrongFormat),
            },
            _ => Err(Error::WrongFormat),
        }
    }
}

/// ## ACKC3
///
/// **Acknowledge Code: Stream 3**
#[derive(Clone, Copy, Debug, PartialEq, Eq, Structural)]
pub enum AcknowledgeCode3 {
    Accepted,
}

impl Enumeration for AcknowledgeCode3 {
    open spec fn number(self) -> u8 {
        match self {
            AcknowledgeCode3::Accepted => 0,
        }
    }

    open spec fn named(number: u8) -> Option<Self> {
        if number == 0 {
            Some(AcknowledgeCode3::Accepted)
        } else {
            None
        }
    }

    open spec fn binary() -> bool {
        true
    }

    fn into_primitive(self) -> (r: u8) {
        match self {
            AcknowledgeCode3::Accepted => 0,
        }
    }

    fn try_from_primitive(number: u8) -> (r: Option<Self>) {
        match number {
            0 => Some(AcknowledgeCode3::Accepted),
            _ => None,
        }
    }

    fn is_binary() -> (r: bool) {
        true
    }

    proof fn lemma_number_names_value(self) {
    }

    proof fn lemma_named_has_number(number: u8) {
    }
}

impl ItemFormat for AcknowledgeCode3 {
    open spec fn item(self) -> ItemView {
        enumeration_item(self)
    }

    open spec fn accepts(item: ItemView) -> bool {
        enumeration_accepts::<AcknowledgeCode3>(item)
    }

    open spec fn reads(item: ItemView, value: Self) -> bool {
        item == value.item()
    }

    open spec fn valid(self) -> bool {
        true
    }

    proof fn lemma_round_trip(self) {
        lemma_enumeration_round_trip(self);
    }

    fn into_item(self) -> (r: Item) {
        enumeration_into_item(self)
    }

    fn try_from_item(item: Item) -> (r: Result<Self, Error>) {
        enumeration_try_from_item(item)
    }
}

/// ## ACKC10
///
/// **Acknowledge Code: Stream 10**
///
/// Says whether a text sent to a terminal was accepted for display.
#[derive(Clone, Copy, Debug, PartialEq, Eq, Structural)]
pub enum AcknowledgeCode10 {
    Accepted,
    WillNotBeDisplayed,
    TerminalNotAvailable,
}

impl Enumeration for AcknowledgeCode10 {
    open spec fn number(self) -> u8 {
        match self {
            AcknowledgeCode10::Accepted => 0,
            AcknowledgeCode10::WillNotBeDisplayed => 1,
            AcknowledgeCode10::TerminalNotAvailable => 2,
        }
    }

    open spec fn named(number: u8) -> Option<Self> {
        if number == 0 {
            Some(AcknowledgeCode10::Accepted)
        } else if number == 1 {
            Some(AcknowledgeCode10::WillNotBeDisplayed)
        } else if number == 2 {
            Some(AcknowledgeCode10::TerminalNotAvailable)
        } else {
            None
        }
    }

    open spec fn binary() -> bool {
        true
    }

    fn into_primitive(self) -> (r: u8) {
        match self {
            AcknowledgeCode10::Accepted => 0,
            AcknowledgeCode10::WillNotBeDisplayed => 1,
            AcknowledgeCode10::TerminalNotAvailable => 2,
        }
    }

    fn try_from_primitive(number: u8) -> (r: Option<Self>) {
        match number {
            0 => Some(AcknowledgeCode10::Accepted),
            1 => Some(AcknowledgeCode10::WillNotBeDisplayed),
            2 => Some(AcknowledgeCode10::TerminalNotAvailable),
            _ => None,
        }
    }

    fn is_binary() -> (r: bool) {
        true
    }

    proof fn lemma_number_names_value(self) {
    }

    proof fn lemma_named_has_number(number: u8) {
    }
}

impl ItemFormat for AcknowledgeCode10 {
    open spec fn item(self) -> ItemView {
        enumeration_item(self)
    }

    open spec fn accepts(item: ItemView) -> bool {
        enumeration_accepts::<AcknowledgeCode10>(item)
    }

    open spec fn reads(item: ItemView, value: Self) -> bool {
        item == value.item()
    }

    open spec fn valid(self) -> bool {
        true
    }

    proof fn lemma_round_trip(self) {
        lemma_enumeration_round_trip(self);
    }

    fn into_item(self) -> (r: Item) {
        enumeration_into_item(self)
    }

    fn try_from_item(item: Item) -> (r: Result<Self, Error>) {
        enumeration_try_from_item(item)
    }
}

/// ## AGENT
#[derive(Clone, Debug, PartialEq, Eq)]
pub struct Agent(pub Vec<Char>);

impl ItemFormat for Agent {
    open spec fn item(self) -> ItemView {
        ItemView::Ascii(self.0@)
    }

    open spec fn accepts(item: ItemView) -> bool {
        item is Ascii
    }

    open spec fn reads(item: ItemView, value: Self) -> bool {
        item == value.item()
    }

    open spec fn valid(self) -> bool {
        true
    }

    proof fn lemma_round_trip(self) {
    }

    fn into_item(self) -> (r: Item) {
        Item::Ascii(self.0)
    }

    fn try_from_item(item: Item) -> (r: Result<Self, Error>) {
        match item {
            Item::Ascii(values) => Ok(Agent(values)),
            _ => Err(Error::WrongFormat),
        }
    }
}

/// ## ALCD
///
/// Alarm code byte.
#[derive(Clone, Copy, Debug, PartialEq, Eq, Structural)]
pub struct AlarmCode(pub u8);

impl ItemFormat for AlarmCode {
    open spec fn item(self) -> ItemView {
        ItemView::Bin(seq![self.0])
    }

    open spec fn accepts(item: ItemView) -> bool {
        item matches ItemView::Bin(values) && values.len() == 1
    }

    open spec fn reads(item: ItemView, value: Self) -> bool {
        item == value.item()
    }

    open spec fn valid(self) -> bool {
        true
    }

    proof fn lemma_round_trip(self) {
    }

    fn into_item(self) -> (r: Item) {
        Item::Bin(single(self.0))
    }

    fn try_from_item(item: Item) -> (r: Result<Self, Error>) {
        match item {
            Item::Bin(values) => match only(&values) {
                Some(value) => Ok(AlarmCode(value)),
                None => Err(Error::WrongFormat),
            },
            _ => Err(Error::WrongFormat),
        }
    }
}

/// ## ALED
///
/// Alarm Enable/Disable Code, 1 Byte.
#[derive(Clone, Copy, Debug, PartialEq, Eq, Structural)]
pub enum AlarmEnableDisable {
    Disable,
    Enable,
}

impl Enumeration for AlarmEnableDisable {
    open spec fn number(self) -> u8 {
        match self {
            AlarmEnableDisable::Disable => 0,
            AlarmEnableDisable::Enable => 128,
        }
    }

    open spec fn named(number: u8) -> Option<Self> {
        if number == 0 {
            Some(AlarmEnableDisable::Disable)
        } else if number == 128 {
            Some(AlarmEnableDisable::Enable)
        } else {
            None
        }
    }

    open spec fn binary() -> bool {
        true
    }

    fn into_primitive(self) -> (r: u8) {
        match self {
            AlarmEnableDisable::Disable => 0,
            AlarmEnableDisable::Enable => 128,
        }
    }

    fn try_from_primitive(number: u8) -> (r: Option<Self>) {
        match number {
            0 => Some(AlarmEnableDisable::Disable),
            128 => Some(AlarmEnableDisable::Enable),
            _ => None,
        }
    }

    fn is_binary() -> (r: bool) {
        true
    }

    proof fn lemma_number_names_value(self) {
    }

    proof fn lemma_named_has_number(number: u8) {
    }
}

impl ItemFormat for AlarmEnableDisable {
    open spec fn item(self) -> ItemView {
        enumeration_item(self)
    }

    open spec fn accepts(item: ItemView) -> bool {
        enumeration_accepts::<AlarmEnableDisable>(item)
    }

    open spec fn reads(item: ItemView, value: Self) -> bool {
        item == value.item()
    }

    open spec fn valid(self) -> bool {
        true
    }

    proof fn lemma_round_trip(self) {
        lemma_enumeration_round_trip(self);
    }

    fn into_item(self) -> (r: Item) {
        enumeration_into_item(self)
    }

    fn try_from_item(item: Item) -> (r: Result<Self, Error>) {
        enumeration_try_from_item(item)
    }
}

/// ## ALID
///
/// Alarm identification.
#[derive(Clone, Copy, Debug, PartialEq, Eq, Structural)]
pub enum AlarmID {
    I1(i8),
    I2(i16),
    I4(i32),
    I8(i64),
    U1(u8),
    U2(u16),
    U4(u32),
    U8(u64),
}

impl ItemFormat for AlarmID {
    open spec fn item(self) -> ItemView {
        match self {
            AlarmID::I1(value) => ItemView::I1(seq![value]),
            AlarmID::I2(value) => ItemView::I2(seq![value]),
            AlarmID::I4(value) => ItemView::I4(seq![value]),
            AlarmID::I8(value) => ItemView::I8(seq![value]),
            AlarmID::U1(value) => ItemView::U1(seq![value]),
            AlarmID::U2(value) => ItemView::U2(seq![value]),
            AlarmID::U4(value) => ItemView::U4(seq![value]),
            AlarmID::U8(value) => ItemView::U8(seq![value]),
        }
    }

    open spec fn accepts(item: ItemView) -> bool {
        match item {
            ItemView::I1(values) => values.len() == 1,
            ItemView::I2(values) => values.len() == 1,
            ItemView::I4(values) => values.len() == 1,
            ItemView::I8(values) => values.len() == 1,
            ItemView::U1(values) => values.len() == 1,
            ItemView::U2(values) => values.len() == 1,
            ItemView::U4(values) => values.len() == 1,
            ItemView::U8(values) => values.len() == 1,
            _ => false,
        }
    }

    open spec fn reads(item: ItemView, value: Self) -> bool {
        item == value.item()
    }

    open spec fn valid(self) -> bool {
        true
    }

    proof fn lemma_round_trip(self) {
    }

    fn into_item(self) -> (r: Item) {
        match self {
            AlarmID::I1(value) => Item::I1(single(value)),
            AlarmID::I2(value) => Item::I2(single(value)),
            AlarmID::I4(value) => Item::I4(single(value)),
            AlarmID::I8(value) => Item::I8(single(value)),
            AlarmID::U1(value) => Item::U1(single(value)),
            AlarmID::U2(value) => Item::U2(single(value)),
            AlarmID::U4(value) => Item::U4(single(value)),
            AlarmID::U8(value) => Item::U8(single(value)),
        }
    }

    fn try_from_item(item: Item) -> (r: Result<Self, Error>) {
        match item {
            Item::I1(values) => match only(&values) {
                Some(value) => Ok(AlarmID::I1(value)),
                None => Err(Error::WrongFormat),
            },
            Item::I2(values) => match only(&values) {
                Some(value) => Ok(AlarmID::I2(value)),
                None => Err(Error::WrongFormat),
            },
            Item::I4(values) => match only(&values) {
                Some(value) => Ok(AlarmID::I4(value)),
                None => Err(Error::WrongFormat),
            },
            Item::I8(values) => match only(&values) {
                Some(value) => Ok(AlarmID::I8(value)),
                None => Err(Error::WrongFormat),
            },
            Item::U1(values) => match only(&values) {
                Some(value) => Ok(AlarmID::U1(value)),
                None => Err(Error::WrongFormat),
            },
            Item::U2(values) => match only(&values) {
                Some(value) => Ok(AlarmID::U2(value)),
                None => Err(Error::WrongFormat),
            },
            Item::U4(values) => match only(&values) {
                Some(value) => Ok(AlarmID::U4(value)),
                None => Err(Error::WrongFormat),
            },
            Item::U8(values) => match only(&values) {
                Some(value) => Ok(AlarmID::U8(value)),
                None => Err(Error::WrongFormat),
            },
            _ => Err(Error::WrongFormat),
        }
    }
}

/// ## ALTX
///
/// Alarm text, maximum 120 characters.
#[derive(Debug, PartialEq, Eq)]
pub struct AlarmText(Vec<Char>);

impl View for AlarmText {
    type V = Seq<Char>;

    closed spec fn view(&self) -> Seq<Char> {
        self.0@
    }
}

impl AlarmText {
    #[verifier::type_invariant]
    spec fn within_limits(self) -> bool {
        Self::allows(self.0@.len())
    }

    /// Whether the item may have a given length: at most 120 characters.
    pub open spec fn allows(length: nat) -> bool {
        length <= 120
    }

    /// Makes the item from its characters, where their number is allowed.
    pub fn new(vec: Vec<Char>) -> (r: Option<Self>)
        ensures
            Self::allows(vec@.len()) ==> (r matches Some(value) && value@ == vec@),
            !Self::allows(vec@.len()) ==> r is None,
    {
        if vec.len() <= 120 {
            Some(AlarmText(vec))
        } else {
            None
        }
    }

    /// The characters of the item.
    pub fn read(&self) -> (r: &Vec<Char>)
        ensures
            r@ == self@,
            Self::allows(r@.len()),
    {
        proof {
            use_type_invariant(self);
        }
        &self.0
    }
}

impl ItemFormat for AlarmText {
    open spec fn item(self) -> ItemView {
        ItemView::Ascii(self@)
    }

    open spec fn accepts(item: ItemView) -> bool {
        item matches ItemView::Ascii(chars) && Self::allows(chars.len())
    }

    open spec fn reads(item: ItemView, value: Self) -> bool {
        item == value.item()
    }

    open spec fn valid(self) -> bool {
        Self::allows(self@.len())
    }

    proof fn lemma_round_trip(self) {
    }

    fn into_item(self) -> (r: Item) {
        Item::Ascii(self.0)
    }

    fn try_from_item(item: Item) -> (r: Result<Self, Error>) {
        match item {
            Item::Ascii(vec) => match AlarmText::new(vec) {
                Some(value) => Ok(value),
                None => Err(Error::WrongFormat),
            },
            _ => Err(Error::WrongFormat),
        }
    }
}

/// ## ATTRDATA
///
/// Specific attribute value for a specific object.
#[derive(Debug, PartialEq, Eq)]
pub enum AttributeValue {
    List(Vec<Item>),
    Bin(Vec<u8>),
    Bool(Vec<bool>),
    Ascii(Vec<Char>),
    I1(Vec<i8>),
    I2(Vec<i16>),
    I4(Vec<i32>),
    I8(Vec<i64>),
    U1(Vec<u8>),
    U2(Vec<u16>),
    U4(Vec<u32>),
    U8(Vec<u64>),
    /// Floating-point numbers, each held as the bits of its IEEE 754 encoding.
    F4(Vec<u32>),
    /// Floating-point numbers, each held as the bits of its IEEE 754 encoding.
    F8(Vec<u64>),
}

impl ItemFormat for AttributeValue {
    open spec fn item(self) -> ItemView {
        match self {
            AttributeValue::List(list) => ItemView::List(views_of(list@)),
            AttributeValue::Bin(values) => ItemView::Bin(values@),
            AttributeValue::Bool(values) => ItemView::Bool(values@),
            AttributeValue::Ascii(values) => ItemView::Ascii(values@),
            AttributeValue::I1(values) => ItemView::I1(values@),
            AttributeValue::I2(values) => ItemView::I2(values@),
            AttributeValue::I4(values) => ItemView::I4(values@),
            AttributeValue::I8(values) => ItemView::I8(values@),
            AttributeValue::U1(values) => ItemView::U1(values@),
            AttributeValue::U2(values) => ItemView::U2(values@),
            AttributeValue::U4(values) => ItemView::U4(values@),
            AttributeValue::U8(values) => ItemView::U8(values@),
            AttributeValue::F4(values) => ItemView::F4(values@),
            AttributeValue::F8(values) => ItemView::F8(values@),
        }
    }

    open spec fn accepts(item: ItemView) -> bool {
        match item {
            ItemView::List(_) => true,
            ItemView::Bin(_) => true,
            ItemView::Bool(_) => true,
            ItemView::Ascii(_) => true,
            ItemView::I1(_) => true,
            ItemView::I2(_) => true,
            ItemView::I4(_) => true,
            ItemView::I8(_) => true,
            ItemView::U1(_) => true,
            ItemView::U2(_) => true,
            ItemView::U4(_) => true,
            ItemView::U8(_) => true,
            ItemView::F4(_) => true,
            ItemView::F8(_) => true,
            _ => false,
        }
    }

    open spec fn reads(item: ItemView, value: Self) -> bool {
        item == value.item()
    }

    open spec fn valid(self) -> bool {
        true
    }

    proof fn lemma_round_trip(self) {
    }

    fn into_item(self) -> (r: Item) {
        match self {
            AttributeValue::List(list) => {
                proof {
                    lemma_list_view(list);
                }
                Item::List(list)
            },
            AttributeValue::Bin(values) => Item::Bin(values),
            AttributeValue::Bool(values) => Item::Bool(values),
            AttributeValue::Ascii(values) => Item::Ascii(values),
            AttributeValue::I1(values) => Item::I1(values),
            AttributeValue::I2(values) => Item::I2(values),
            AttributeValue::I4(values) => Item::I4(values),
            AttributeValue::I8(values) => Item::I8(values),
            AttributeValue::U1(values) => Item::U1(values),
            AttributeValue::U2(values) => Item::U2(values),
            AttributeValue::U4(values) => Item::U4(values),
            AttributeValue::U8(values) => Item::U8(values),
            AttributeValue::F4(values) => Item::F4(values),
            AttributeValue::F8(values) => Item::F8(values),
        }
    }

    fn try_from_item(item: Item) -> (r: Result<Self, Error>) {
        match item {
            Item::List(list) => {
                proof {
                    lemma_list_view(list);
                }
                Ok(AttributeValue::List(list))
            },
            Item::Bin(values) => Ok(AttributeValue::Bin(values)),
            Item::Bool(values) => Ok(AttributeValue::Bool(values)),
            Item::Ascii(values) => Ok(AttributeValue::Ascii(values)),
            Item::I1(values) => Ok(AttributeValue::I1(values)),
            Item::I2(values) => Ok(AttributeValue::I2(values)),
            Item::I4(values) => Ok(AttributeValue::I4(values)),
            Item::I8(values) => Ok(AttributeValue::I8(values)),
            Item::U1(values) => Ok(AttributeValue::U1(values)),
            Item::U2(values) => Ok(AttributeValue::U2(values)),
            Item::U4(values) => Ok(AttributeValue::U4(values)),
            Item::U8(values) => Ok(AttributeValue::U8(values)),
            Item::F4(values) => Ok(AttributeValue::F4(values)),
            Item::F8(values) => Ok(AttributeValue::F8(values)),
            _ => Err(Error::WrongFormat),
        }
    }
}

/// ## ATTRID
///
/// Identifier for an attribute for a type of object.
#[derive(Clone, Debug, PartialEq, Eq)]
pub enum AttributeID {
    Ascii(Vec<Char>),
    U1(u8),
    U2(u16),
    U4(u32),
    U8(u64),
}

impl ItemFormat for AttributeID {
    open spec fn item(self) -> ItemView {
        match self {
            AttributeID::Ascii(values) => ItemView::Ascii(values@),
            AttributeID::U1(value) => ItemView::U1(seq![value]),
            AttributeID::U2(value) => ItemView::U2(seq![value]),
            AttributeID::U4(value) => ItemView::U4(seq![value]),
            AttributeID::U8(value) => ItemView::U8(seq![value]),
        }
    }

    open spec fn accepts(item: ItemView) -> bool {
        match item {
            ItemView::Ascii(_) => true,
            ItemView::U1(values) => values.len() == 1,
            ItemView::U2(values) => values.len() == 1,
            ItemView::U4(values) => values.len() == 1,
            ItemView::U8(values) => values.len() == 1,
            _ => false,
        }
    }

    open spec fn reads(item: ItemView, value: Self) -> bool {
        item == value.item()
    }

    open spec fn valid(self) -> bool {
        true
    }

    proof fn lemma_round_trip(self) {
    }

    fn into_item(self) -> (r: Item) {
        match self {
            AttributeID::Ascii(values) => Item::Ascii(values),
            AttributeID::U1(value) => Item::U1(single(value)),
            AttributeID::U2(value) => Item::U2(single(value)),
            AttributeID::U4(value) => Item::U4(single(value)),
            AttributeID::U8(value) => Item::U8(single(value)),
        }
    }

    fn try_from_item(item: Item) -> (r: Result<Self, Error>) {
        match item {
            Item::Ascii(values) => Ok(AttributeID::Ascii(values)),
            Item::U1(values) => match only(&values) {
                Some(value) => Ok(AttributeID::U1(value)),
                None => Err(Error::WrongFormat),
            },
            Item::U2(values) => match only(&values) {
                Some(value) => Ok(AttributeID::U2(value)),
                None => Err(Error::WrongFormat),
            },
            Item::U4(values) => match only(&values) {
                Some(value) => Ok(AttributeID::U4(value)),
                None => Err(Error::WrongFormat),
            },
            Item::U8(values) => match only(&values) {
                Some(value) => Ok(AttributeID::U8(value)),
                None => Err(Error::WrongFormat),
            },
            _ => Err(Error::WrongFormat),
        }
    }
}

/// ## ATTRRELN
///
/// The relationship between a qualyfing value and the value of an attribute
/// of an object instance (i.e. value of interest).
#[derive(Clone, Copy, Debug, PartialEq, Eq, Structural)]
pub enum AttributeRelation {
    EqualTo,
    NotEqualTo,
    LessThan,
    LessThanOrEqualTo,
    GreaterThan,
    GreaterThanOrEqualTo,
    Present,
    Absent,
}

impl Enumeration for AttributeRelation {
    open spec fn number(self) -> u8 {
        match self {
            AttributeRelation::EqualTo => 0,
            AttributeRelation::NotEqualTo => 1,
            AttributeRelation::LessThan => 2,
            AttributeRelation::LessThanOrEqualTo => 3,
            AttributeRelation::GreaterThan => 4,
            AttributeRelation::GreaterThanOrEqualTo => 5,
            AttributeRelation::Present => 6,
            AttributeRelation::Absent => 7,
        }
    }

    open spec fn named(number: u8) -> Option<Self> {
        if number == 0 {
            Some(AttributeRelation::EqualTo)
        } else if number == 1 {
            Some(AttributeRelation::NotEqualTo)
        } else if number == 2 {
            Some(AttributeRelation::LessThan)
        } else if number == 3 {
            Some(AttributeRelation::LessThanOrEqualTo)
        } else if number == 4 {
            Some(AttributeRelation::GreaterThan)
        } else if number == 5 {
            Some(AttributeRelation::GreaterThanOrEqualTo)
        } else if number == 6 {
            Some(AttributeRelation::Present)
        } else if number == 7 {
            Some(AttributeRelation::Absent)
        } else {
            None
        }
    }

    open spec fn binary() -> bool {
        false
    }

    fn into_primitive(self) -> (r: u8) {
        match self {
            AttributeRelation::EqualTo => 0,
            AttributeRelation::NotEqualTo => 1,
            AttributeRelation::LessThan => 2,
            AttributeRelation::LessThanOrEqualTo => 3,
            AttributeRelation::GreaterThan => 4,
            AttributeRelation::GreaterThanOrEqualTo => 5,
            AttributeRelation::Present => 6,
            AttributeRelation::Absent => 7,
        }
    }

    fn try_from_primitive(number: u8) -> (r: Option<Self>) {
        match number {
            0 => Some(AttributeRelation::EqualTo),
            1 => Some(AttributeRelation::NotEqualTo),
            2 => Some(AttributeRelation::LessThan),
            3 => Some(AttributeRelation::LessThanOrEqualTo),
            4 => Some(AttributeRelation::GreaterThan),
            5 => Some(AttributeRelation::GreaterThanOrEqualTo),
            6 => Some(AttributeRelation::Present),
            7 => Some(AttributeRelation::Absent),
            _ => None,
        }
    }

    fn is_binary() -> (r: bool) {
        false
    }

    proof fn lemma_number_names_value(self) {
    }

    proof fn lemma_named_has_number(number: u8) {
    }
}

impl ItemFormat for AttributeRelation {
    open spec fn item(self) -> ItemView {
        enumeration_item(self)
    }

    open spec fn accepts(item: ItemView) -> bool {
        enumeration_accepts::<AttributeRelation>(item)
    }

    open spec fn reads(item: ItemView, value: Self) -> bool {
        item == value.item()
    }

    open spec fn valid(self) -> bool {
        true
    }

    proof fn lemma_round_trip(self) {
        lemma_enumeration_round_trip(self);
    }

    fn into_item(self) -> (r: Item) {
        enumeration_into_item(self)
    }

    fn try_from_item(item: Item) -> (r: Result<Self, Error>) {
        enumeration_try_from_item(item)
    }
}

/// ## BCDS
///
/// Before Command Codes
///
/// Vector of all command codes which the defined command must preceed within
/// the same block.
#[derive(Clone, Debug, PartialEq, Eq)]
pub enum BeforeCommandCodes {
    I2(Vec<i16>),
    U2(Vec<u16>),
}

impl ItemFormat for BeforeCommandCodes {
    open spec fn item(self) -> ItemView {
        match self {
            BeforeCommandCodes::I2(values) => ItemView::I2(values@),
            BeforeCommandCodes::U2(values) => ItemView::U2(values@),
        }
    }

    open spec fn accepts(item: ItemView) -> bool {
        match item {
            ItemView::I2(_) => true,
            ItemView::U2(_) => true,
            _ => false,
        }
    }

    open spec fn reads(item: ItemView, value: Self) -> bool {
        item == value.item()
    }

    open spec fn valid(self) -> bool {
        true
    }

    proof fn lemma_round_trip(self) {
    }

    fn into_item(self) -> (r: Item) {
        match self {
            BeforeCommandCodes::I2(values) => Item::I2(values),
            BeforeCommandCodes::U2(values) => Item::U2(values),
        }
    }

    fn try_from_item(item: Item) -> (r: Result<Self, Error>) {
        match item {
            Item::I2(values) => Ok(BeforeCommandCodes::I2(values)),
            Item::U2(values) => Ok(BeforeCommandCodes::U2(values)),
            _ => Err(Error::WrongFormat),
        }
    }
}

/// ## BCEQU
///
/// Bin code equivalents.
///
/// Array of all codes that are to be processed.
///
/// Must be same format as BINLT and NULBC.
///
/// Zero length indicates that all codes be sent.
#[derive(Clone, Debug, PartialEq, Eq)]
pub enum BinCodeEquivalents {
    Ascii(Vec<Char>),
    U1(Vec<u8>),
}

impl ItemFormat for BinCodeEquivalents {
    open spec fn item(self) -> ItemView {
        match self {
            BinCodeEquivalents::Ascii(values) => ItemView::Ascii(values@),
            BinCodeEquivalents::U1(values) => ItemView::U1(values@),
        }
    }

    open spec fn accepts(item: ItemView) -> bool {
        match item {
            ItemView::Ascii(_) => true,
            ItemView::U1(_) => true,
            _ => false,
        }
    }

    open spec fn reads(item: ItemView, value: Self) -> bool {
        item == value.item()
    }

    open spec fn valid(self) -> bool {
        true
    }

    proof fn lemma_round_trip(self) {
    }

    fn into_item(self) -> (r: Item) {
        match self {
            BinCodeEquivalents::Ascii(values) => Item::Ascii(values),
            BinCodeEquivalents::U1(values) => Item::U1(values),
        }
    }

    fn try_from_item(item: Item) -> (r: Result<Self, Error>) {
        match item {
            Item::Ascii(values) => Ok(BinCodeEquivalents::Ascii(values)),
            Item::U1(values) => Ok(BinCodeEquivalents::U1(values)),
            _ => Err(Error::WrongFormat),
        }
    }
}

/// ## BINLT
///
/// The bin list.
///
/// Array of bin values.
///
/// Must be same format as BCEQU and NULBC.
#[derive(Clone, Debug, PartialEq, Eq)]
pub enum BinList {
    Ascii(Vec<Char>),
    U1(Vec<u8>),
}

impl ItemFormat for BinList {
    open spec fn item(self) -> ItemView {
        match self {
            BinList::Ascii(values) => ItemView::Ascii(values@),
            BinList::U1(values) => ItemView::U1(values@),
        }
    }

    open spec fn accepts(item: ItemView) -> bool {
        match item {
            ItemView::Ascii(_) => true,
            ItemView::U1(_) => true,
            _ => false,
        }
    }

    open spec fn reads(item: ItemView, value: Self) -> bool {
        item == value.item()
    }

    open spec fn valid(self) -> bool {
        true
    }

    proof fn lemma_round_trip(self) {
    }

    fn into_item(self) -> (r: Item) {
        match self {
            BinList::Ascii(values) => Item::Ascii(values),
            BinList::U1(values) => Item::U1(values),
        }
    }

    fn try_from_item(item: Item) -> (r: Result<Self, Error>) {
        match item {
            Item::Ascii(values) => Ok(BinList::Ascii(values)),
            Item::U1(values) => Ok(BinList::U1(values)),
            _ => Err(Error::WrongFormat),
        }
    }
}

/// ## BLKDEF
///
/// Block Definition
///
/// Specifies whether a command being defined starts, terminates, or is
/// within the body of a block.
#[derive(Clone, Copy, Debug, PartialEq, Eq, Structural)]
pub enum BlockDefinition {
    Terminate,
    Within,
    Start,
}

impl BlockDefinition {
    /// The number that a value stands for.
    pub open spec fn number(self) -> i8 {
        match self {
            BlockDefinition::Terminate => -1i8,
            BlockDefinition::Within => 0,
            BlockDefinition::Start => 1,
        }
    }

    /// The value that a number stands for, if it has a name.
    pub open spec fn named(number: i8) -> Option<BlockDefinition> {
        if number == -1i8 {
            Some(BlockDefinition::Terminate)
        } else if number == 0 {
            Some(BlockDefinition::Within)
        } else if number == 1 {
            Some(BlockDefinition::Start)
        } else {
            None
        }
    }

    /// The number that a value stands for.
    pub fn into_primitive(self) -> (r: i8)
        ensures
            r == self.number(),
    {
        match self {
            BlockDefinition::Terminate => -1i8,
            BlockDefinition::Within => 0,
            BlockDefinition::Start => 1,
        }
    }

    /// The value that a number stands for, if it has a name.
    pub fn try_from_primitive(number: i8) -> (r: Option<BlockDefinition>)
        ensures
            r == Self::named(number),
    {
        if number == -1i8 {
            Some(BlockDefinition::Terminate)
        } else if number == 0 {
            Some(BlockDefinition::Within)
        } else if number == 1 {
            Some(BlockDefinition::Start)
        } else {
            None
        }
    }

    /// The number of a value names that value, and a number that names a
    /// value is the number of that value.
    pub proof fn lemma_numbers_and_names(value: BlockDefinition, number: i8)
        ensures
            Self::named(value.number()) == Some(value),
            Self::named(number) matches Some(named) ==> named.number() == number,
    {
    }
}

impl ItemFormat for BlockDefinition {
    open spec fn item(self) -> ItemView {
        ItemView::I1(seq![self.number()])
    }

    open spec fn accepts(item: ItemView) -> bool {
        item matches ItemView::I1(numbers) && numbers.len() == 1 && Self::named(numbers[0]) is Some
    }

    open spec fn reads(item: ItemView, value: Self) -> bool {
        item == value.item()
    }

    open spec fn valid(self) -> bool {
        true
    }

    proof fn lemma_round_trip(self) {
    }

    fn into_item(self) -> (r: Item) {
        Item::I1(single(self.into_primitive()))
    }

    fn try_from_item(item: Item) -> (r: Result<Self, Error>) {
        match item {
            Item::I1(numbers) => match only(&numbers) {
                Some(number) => match BlockDefinition::try_from_primitive(number) {
                    Some(value) => Ok(value),
                    None => Err(Error::WrongFormat),
                },
                None => Err(Error::WrongFormat),
            },
            _ => Err(Error::WrongFormat),
        }
    }
}

/// The numbers of a sequence of block definitions, in order.
pub open spec fn block_definition_numbers(values: Seq<BlockDefinition>) -> Seq<i8> {
    Seq::new(values.len(), |i: int| values[i].number())
}

/// A vector of block definitions is written as one item that holds their
/// numbers.
impl ItemFormat for Vec<BlockDefinition> {
    open spec fn item(self) -> ItemView {
        ItemView::I1(block_definition_numbers(self@))
    }

    open spec fn accepts(item: ItemView) -> bool {
        item matches ItemView::I1(numbers) && forall|i: int|
            0 <= i < numbers.len() ==> BlockDefinition::named(#[trigger] numbers[i]) is Some
    }

    open spec fn reads(item: ItemView, value: Self) -> bool {
        item == value.item()
    }

    open spec fn valid(self) -> bool {
        true
    }

    proof fn lemma_round_trip(self) {
    }

    fn into_item(self) -> (r: Item) {
        let mut numbers: Vec<i8> = Vec::new();
        let mut i: usize = 0;
        while i < self.len()
            invariant
                i <= self@.len(),
                numbers@.len() == i,
                forall|k: int| 0 <= k < i ==> numbers@[k] == (#[trigger] self@[k]).number(),
            decreases self@.len() - i,
        {
            numbers.push(self[i].into_primitive());
            i = i + 1;
        }
        assert(numbers@ =~= block_definition_numbers(self@));
        Item::I1(numbers)
    }

    fn try_from_item(item: Item) -> (r: Result<Self, Error>) {
        match item {
            Item::I1(numbers) => {
                let mut values: Vec<BlockDefinition> = Vec::new();
                let mut i: usize = 0;
                while i < numbers.len()
                    invariant
                        i <= numbers@.len(),
                        values@.len() == i,
                        item@ == ItemView::I1(numbers@),
                        forall|k: int|
                            0 <= k < i ==> BlockDefinition::named(#[trigger] numbers@[k]) is Some
                                && values@[k].number() == numbers@[k],
                    decreases numbers@.len() - i,
                {
                    match BlockDefinition::try_from_primitive(numbers[i]) {
                        Some(value) => {
                            values.push(value);
                        },
                        None => {
                            assert(BlockDefinition::named(numbers@[i as int]) is None);
                            assert(item@->I1_0 == numbers@);
                            return Err(Error::WrongFormat);
                        },
                    }
                    i = i + 1;
                }
                assert(numbers@ =~= block_definition_numbers(values@));
                Ok(values)
            },
            _ => Err(Error::WrongFormat),
        }
    }
}

/// ## BPD
///
/// Boot program data.
#[derive(Clone, Debug, PartialEq, Eq)]
pub struct BootProgramData(pub Vec<u8>);

impl ItemFormat for BootProgramData {
    open spec fn item(self) -> ItemView {
        ItemView::Bin(self.0@)
    }

    open spec fn accepts(item: ItemView) -> bool {
        item is Bin
    }

    open spec fn reads(item: ItemView, value: Self) -> bool {
        item == value.item()
    }

    open spec fn valid(self) -> bool {
        true
    }

    proof fn lemma_round_trip(self) {
    }

    fn into_item(self) -> (r: Item) {
        Item::Bin(self.0)
    }

    fn try_from_item(item: Item) -> (r: Result<Self, Error>) {
        match item {
            Item::Bin(values) => Ok(BootProgramData(values)),
            _ => Err(Error::WrongFormat),
        }
    }
}

/// ## CAACK
///
/// **Carrier Action Acknowledge Code**
#[derive(Clone, Copy, Debug, PartialEq, Eq, Structural)]
pub enum CarrierActionAcknowledgeCode {
    Okay,
    InvalidCommand,
    CannotPerformNow,
    InvalidData,
    ActionWillBePerformed,
    InvalidState,
    PerformedWithErrors,
}

impl Enumeration for CarrierActionAcknowledgeCode {
    open spec fn number(self) -> u8 {
        match self {
            CarrierActionAcknowledgeCode::Okay => 0,
            CarrierActionAcknowledgeCode::InvalidCommand => 1,
            CarrierActionAcknowledgeCode::CannotPerformNow => 2,
            CarrierActionAcknowledgeCode::InvalidData => 3,
            CarrierActionAcknowledgeCode::ActionWillBePerformed => 4,
            CarrierActionAcknowledgeCode::InvalidState => 5,
            CarrierActionAcknowledgeCode::PerformedWithErrors => 6,
        }
    }

    open spec fn named(number: u8) -> Option<Self> {
        if number == 0 {
            Some(CarrierActionAcknowledgeCode::Okay)
        } else if number == 1 {
            Some(CarrierActionAcknowledgeCode::InvalidCommand)
        } else if number == 2 {
            Some(CarrierActionAcknowledgeCode::CannotPerformNow)
        } else if number == 3 {
            Some(CarrierActionAcknowledgeCode::InvalidData)
        } else if number == 4 {
            Some(CarrierActionAcknowledgeCode::ActionWillBePerformed)
        } else if number == 5 {
            Some(CarrierActionAcknowledgeCode::InvalidState)
        } else if number == 6 {
            Some(CarrierActionAcknowledgeCode::PerformedWithErrors)
        } else {
            None
        }
    }

    open spec fn binary() -> bool {
        false
    }

    fn into_primitive(self) -> (r: u8) {
        match self {
            CarrierActionAcknowledgeCode::Okay => 0,
            CarrierActionAcknowledgeCode::InvalidCommand => 1,
            CarrierActionAcknowledgeCode::CannotPerformNow => 2,
            CarrierActionAcknowledgeCode::InvalidData => 3,
            CarrierActionAcknowledgeCode::ActionWillBePerformed => 4,
            CarrierActionAcknowledgeCode::InvalidState => 5,
            CarrierActionAcknowledgeCode::PerformedWithErrors => 6,
        }
    }

    fn try_from_primitive(number: u8) -> (r: Option<Self>) {
        match number {
            0 => Some(CarrierActionAcknowledgeCode::Okay),
            1 => Some(CarrierActionAcknowledgeCode::InvalidCommand),
            2 => Some(CarrierActionAcknowledgeCode::CannotPerformNow),
            3 => Some(CarrierActionAcknowledgeCode::InvalidData),
            4 => Some(CarrierActionAcknowledgeCode::ActionWillBePerformed),
            5 => Some(CarrierActionAcknowledgeCode::InvalidState),
            6 => Some(CarrierActionAcknowledgeCode::PerformedWithErrors),
            _ => None,
        }
    }

    fn is_binary() -> (r: bool) {
        false
    }

    proof fn lemma_number_names_value(self) {
    }

    proof fn lemma_named_has_number(number: u8) {
    }
}

impl ItemFormat for CarrierActionAcknowledgeCode {
    open spec fn item(self) -> ItemView {
        enumeration_item(self)
    }

    open spec fn accepts(item: ItemView) -> bool {
        enumeration_accepts::<CarrierActionAcknowledgeCode>(item)
    }

    open spec fn reads(item: ItemView, value: Self) -> bool {
        item == value.item()
    }

    open spec fn valid(self) -> bool {
        true
    }

    proof fn lemma_round_trip(self) {
        lemma_enumeration_round_trip(self);
    }

    fn into_item(self) -> (r: Item) {
        enumeration_into_item(self)
    }

    fn try_from_item(item: Item) -> (r: Result<Self, Error>) {
        enumeration_try_from_item(item)
    }
}

/// ## CARRIERACTION
///
/// Specifies the action requested for a carrier.
#[derive(Clone, Debug, PartialEq, Eq)]
pub struct CarrierAction(pub Vec<Char>);

impl ItemFormat for CarrierAction {
    open spec fn item(self) -> ItemView {
        ItemView::Ascii(self.0@)
    }

    open spec fn accepts(item: ItemView) -> bool {
        item is Ascii
    }

    open spec fn reads(item: ItemView, value: Self) -> bool {
        item == value.item()
    }

    open spec fn valid(self) -> bool {
        true
    }

    proof fn lemma_round_trip(self) {
    }

    fn into_item(self) -> (r: Item) {
        Item::Ascii(self.0)
    }

    fn try_from_item(item: Item) -> (r: Result<Self, Error>) {
        match item {
            Item::Ascii(values) => Ok(CarrierAction(values)),
            _ => Err(Error::WrongFormat),
        }
    }
}

/// ## CARRIERID
///
/// The identifier of a carrier.
#[derive(Clone, Debug, PartialEq, Eq)]
pub struct CarrierID(pub Vec<Char>);

impl ItemFormat for CarrierID {
    open spec fn item(self) -> ItemView {
        ItemView::Ascii(self.0@)
    }

    open spec fn accepts(item: ItemView) -> bool {
        item is Ascii
    }

    open spec fn reads(item: ItemView, value: Self) -> bool {
        item == value.item()
    }

    open spec fn valid(self) -> bool {
        true
    }

    proof fn lemma_round_trip(self) {
    }

    fn into_item(self) -> (r: Item) {
        Item::Ascii(self.0)
    }

    fn try_from_item(item: Item) -> (r: Result<Self, Error>) {
        match item {
            Item::Ascii(values) => Ok(CarrierID(values)),
            _ => Err(Error::WrongFormat),
        }
    }
}

/// ## CARRIERSPEC
///
/// **Carrier Specifier**
pub type CarrierSpecifier = ObjectSpecifier;

/// ## CATTRDATA
///
/// **Carrier Attribute Data**
pub type CarrierAttributeValue = AttributeValue;

/// ## CATTRID
///
/// The name of a carrier attribute.
#[derive(Clone, Debug, PartialEq, Eq)]
pub struct CarrierAttributeID(pub Vec<Char>);

impl ItemFormat for CarrierAttributeID {
    open spec fn item(self) -> ItemView {
        ItemView::Ascii(self.0@)
    }

    open spec fn accepts(item: ItemView) -> bool {
        item is Ascii
    }

    open spec fn reads(item: ItemView, value: Self) -> bool {
        item == value.item()
    }

    open spec fn valid(self) -> bool {
        true
    }

    proof fn lemma_round_trip(self) {
    }

    fn into_item(self) -> (r: Item) {
        Item::Ascii(self.0)
    }

    fn try_from_item(item: Item) -> (r: Result<Self, Error>) {
        match item {
            Item::Ascii(values) => Ok(CarrierAttributeID(values)),
            _ => Err(Error::WrongFormat),
        }
    }
}

/// ## CCODE
///
/// Command code.
///
/// Each command code corresponds to a unique process operation the machine
/// is capable of performing.
#[derive(Clone, Debug, PartialEq, Eq)]
pub enum CommandCode {
    Ascii(Vec<Char>),
    I2(Vec<i16>),
    I4(Vec<i32>),
    U2(Vec<u16>),
    U4(Vec<u32>),
}

impl ItemFormat for CommandCode {
    open spec fn item(self) -> ItemView {
        match self {
            CommandCode::Ascii(values) => ItemView::Ascii(values@),
            CommandCode::I2(values) => ItemView::I2(values@),
            CommandCode::I4(values) => ItemView::I4(values@),
            CommandCode::U2(values) => ItemView::U2(values@),
            CommandCode::U4(values) => ItemView::U4(values@),
        }
    }

    open spec fn accepts(item: ItemView) -> bool {
        match item {
            ItemView::Ascii(_) => true,
            ItemView::I2(_) => true,
            ItemView::I4(_) => true,
            ItemView::U2(_) => true,
            ItemView::U4(_) => true,
            _ => false,
        }
    }

    open spec fn reads(item: ItemView, value: Self) -> bool {
        item == value.item()
    }

    open spec fn valid(self) -> bool {
        true
    }

    proof fn lemma_round_trip(self) {
    }

    fn into_item(self) -> (r: Item) {
        match self {
            CommandCode::Ascii(values) => Item::Ascii(values),
            CommandCode::I2(values) => Item::I2(values),
            CommandCode::I4(values) => Item::I4(values),
            CommandCode::U2(values) => Item::U2(values),
            CommandCode::U4(values) => Item::U4(values),
        }
    }

    fn try_from_item(item: Item) -> (r: Result<Self, Error>) {
        match item {
            Item::Ascii(values) => Ok(CommandCode::Ascii(values)),
            Item::I2(values) => Ok(CommandCode::I2(values)),
            Item::I4(values) => Ok(CommandCode::I4(values)),
            Item::U2(values) => Ok(CommandCode::U2(values)),
            Item::U4(values) => Ok(CommandCode::U4(values)),
            _ => Err(Error::WrongFormat),
        }
    }
}

/// ## CEED
///
/// Collection event or trace enable/disable code, 1 byte.
#[derive(Clone, Copy, Debug, PartialEq, Eq, Structural)]
pub struct CollectionEventEnableDisable(pub bool);

impl ItemFormat for CollectionEventEnableDisable {
    open spec fn item(self) -> ItemView {
        ItemView::Bool(seq![self.0])
    }

    open spec fn accepts(item: ItemView) -> bool {
        item matches ItemView::Bool(values) && values.len() == 1
    }

    open spec fn reads(item: ItemView, value: Self) -> bool {
        item == value.item()
    }

    open spec fn valid(self) -> bool {
        true
    }

    proof fn lemma_round_trip(self) {
    }

    fn into_item(self) -> (r: Item) {
        Item::Bool(single(self.0))
    }

    fn try_from_item(item: Item) -> (r: Result<Self, Error>) {
        match item {
            Item::Bool(values) => match only(&values) {
                Some(value) => Ok(CollectionEventEnableDisable(value)),
                None => Err(Error::WrongFormat),
            },
            _ => Err(Error::WrongFormat),
        }
    }
}

/// ## CEID
///
/// Collection event ID.
#[derive(Clone, Debug, PartialEq, Eq)]
pub enum CollectionEventID {
    Ascii(Vec<Char>),
    I1(i8),
    I2(i16),
    I4(i32),
    I8(i64),
    U1(u8),
    U2(u16),
    U4(u32),
    U8(u64),
}

impl ItemFormat for CollectionEventID {
    open spec fn item(self) -> ItemView {
        match self {
            CollectionEventID::Ascii(values) => ItemView::Ascii(values@),
            CollectionEventID::I1(value) => ItemView::I1(seq![value]),
            CollectionEventID::I2(value) => ItemView::I2(seq![value]),
            CollectionEventID::I4(value) => ItemView::I4(seq![value]),
            CollectionEventID::I8(value) => ItemView::I8(seq![value]),
            CollectionEventID::U1(value) => ItemView::U1(seq![value]),
            CollectionEventID::U2(value) => ItemView::U2(seq![value]),
            CollectionEventID::U4(value) => ItemView::U4(seq![value]),
            CollectionEventID::U8(value) => ItemView::U8(seq![value]),
        }
    }

    open spec fn accepts(item: ItemView) -> bool {
        match item {
            ItemView::Ascii(_) => true,
            ItemView::I1(values) => values.len() == 1,
            ItemView::I2(values) => values.len() == 1,
            ItemView::I4(values) => values.len() == 1,
            ItemView::I8(values) => values.len() == 1,
            ItemView::U1(values) => values.len() == 1,
            ItemView::U2(values) => values.len() == 1,
            ItemView::U4(values) => values.len() == 1,
            ItemView::U8(values) => values.len() == 1,
            _ => false,
        }
    }

    open spec fn reads(item: ItemView, value: Self) -> bool {
        item == value.item()
    }

    open spec fn valid(self) -> bool {
        true
    }

    proof fn lemma_round_trip(self) {
    }

    fn into_item(self) -> (r: Item) {
        match self {
            CollectionEventID::Ascii(values) => Item::Ascii(values),
            CollectionEventID::I1(value) => Item::I1(single(value)),
            CollectionEventID::I2(value) => Item::I2(single(value)),
            CollectionEventID::I4(value) => Item::I4(single(value)),
            CollectionEventID::I8(value) => Item::I8(single(value)),
            CollectionEventID::U1(value) => Item::U1(single(value)),
            CollectionEventID::U2(value) => Item::U2(single(value)),
            CollectionEventID::U4(value) => Item::U4(single(value)),
            CollectionEventID::U8(value) => Item::U8(single(value)),
        }
    }

    fn try_from_item(item: Item) -> (r: Result<Self, Error>) {
        match item {
            Item::Ascii(values) => Ok(CollectionEventID::Ascii(values)),
            Item::I1(values) => match only(&values) {
                Some(value) => Ok(CollectionEventID::I1(value)),
                None => Err(Error::WrongFormat),
            },
            Item::I2(values) => match only(&values) {
                Some(value) => Ok(CollectionEventID::I2(value)),
                None => Err(Error::WrongFormat),
            },
            Item::I4(values) => match only(&values) {
                Some(value) => Ok(CollectionEventID::I4(value)),
                None => Err(Error::WrongFormat),
            },
            Item::I8(values) => match only(&values) {
                Some(value) => Ok(CollectionEventID::I8(value)),
                None => Err(Error::WrongFormat),
            },
            Item::U1(values) => match only(&values) {
                Some(value) => Ok(CollectionEventID::U1(value)),
                None => Err(Error::WrongFormat),
            },
            Item::U2(values) => match only(&values) {
                Some(value) => Ok(CollectionEventID::U2(value)),
                None => Err(Error::WrongFormat),
            },
            Item::U4(values) => match only(&values) {
                Some(value) => Ok(CollectionEventID::U4(value)),
                None => Err(Error::WrongFormat),
            },
            Item::U8(values) => match only(&values) {
                Some(value) => Ok(CollectionEventID::U8(value)),
                None => Err(Error::WrongFormat),
            },
            _ => Err(Error::WrongFormat),
        }
    }
}

/// ## CENAME
///
/// Collection event name.
#[derive(Clone, Debug, PartialEq, Eq)]
pub struct CollectionEventName(pub Vec<Char>);

impl ItemFormat for CollectionEventName {
    open spec fn item(self) -> ItemView {
        ItemView::Ascii(self.0@)
    }

    open spec fn accepts(item: ItemView) -> bool {
        item is Ascii
    }

    open spec fn reads(item: ItemView, value: Self) -> bool {
        item == value.item()
    }

    open spec fn valid(self) -> bool {
        true
    }

    proof fn lemma_round_trip(self) {
    }

    fn into_item(self) -> (r: Item) {
        Item::Ascii(self.0)
    }

    fn try_from_item(item: Item) -> (r: Result<Self, Error>) {
        match item {
            Item::Ascii(values) => Ok(CollectionEventName(values)),
            _ => Err(Error::WrongFormat),
        }
    }
}

/// ## CEPACK
///
/// **Command Enhanced Paramater Acknowledge Code**
#[derive(Clone, Copy, Debug, PartialEq, Eq, Structural)]
pub enum CommandEnhancedParameterAcknowledgeCode {
    Okay,
    ParameterNameDoesNotExist,
    IllegalValue,
    IllegalFormat,
    ParameterNameNotValidAsUsed,
}

impl Enumeration for CommandEnhancedParameterAcknowledgeCode {
    open spec fn number(self) -> u8 {
        match self {
            CommandEnhancedParameterAcknowledgeCode::Okay => 0,
            CommandEnhancedParameterAcknowledgeCode::ParameterNameDoesNotExist => 1,
            CommandEnhancedParameterAcknowledgeCode::IllegalValue => 2,
            CommandEnhancedParameterAcknowledgeCode::IllegalFormat => 3,
            CommandEnhancedParameterAcknowledgeCode::ParameterNameNotValidAsUsed => 4,
        }
    }

    open spec fn named(number: u8) -> Option<Self> {
        if number == 0 {
            Some(CommandEnhancedParameterAcknowledgeCode::Okay)
        } else if number == 1 {
            Some(CommandEnhancedParameterAcknowledgeCode::ParameterNameDoesNotExist)
        } else if number == 2 {
            Some(CommandEnhancedParameterAcknowledgeCode::IllegalValue)
        } else if number == 3 {
            Some(CommandEnhancedParameterAcknowledgeCode::IllegalFormat)
        } else if number == 4 {
            Some(CommandEnhancedParameterAcknowledgeCode::ParameterNameNotValidAsUsed)
        } else {
            None
        }
    }

    open spec fn binary() -> bool {
        false
    }

    fn into_primitive(self) -> (r: u8) {
        match self {
            CommandEnhancedParameterAcknowledgeCode::Okay => 0,
            CommandEnhancedParameterAcknowledgeCode::ParameterNameDoesNotExist => 1,
            CommandEnhancedParameterAcknowledgeCode::IllegalValue => 2,
            CommandEnhancedParameterAcknowledgeCode::IllegalFormat => 3,
            CommandEnhancedParameterAcknowledgeCode::ParameterNameNotValidAsUsed => 4,
        }
    }

    fn try_from_primitive(number: u8) -> (r: Option<Self>) {
        match number {
            0 => Some(CommandEnhancedParameterAcknowledgeCode::Okay),
            1 => Some(CommandEnhancedParameterAcknowledgeCode::ParameterNameDoesNotExist),
            2 => Some(CommandEnhancedParameterAcknowledgeCode::IllegalValue),
            3 => Some(CommandEnhancedParameterAcknowledgeCode::IllegalFormat),
            4 => Some(CommandEnhancedParameterAcknowledgeCode::ParameterNameNotValidAsUsed),
            _ => None,
        }
    }

    fn is_binary() -> (r: bool) {
        false
    }

    proof fn lemma_number_names_value(self) {
    }

    proof fn lemma_named_has_number(number: u8) {
    }
}

impl ItemFormat for CommandEnhancedParameterAcknowledgeCode {
    open spec fn item(self) -> ItemView {
        enumeration_item(self)
    }

    open spec fn accepts(item: ItemView) -> bool {
        enumeration_accepts::<CommandEnhancedParameterAcknowledgeCode>(item)
    }

    open spec fn reads(item: ItemView, value: Self) -> bool {
        item == value.item()
    }

    open spec fn valid(self) -> bool {
        true
    }

    proof fn lemma_round_trip(self) {
        lemma_enumeration_round_trip(self);
    }

    fn into_item(self) -> (r: Item) {
        enumeration_into_item(self)
    }

    fn try_from_item(item: Item) -> (r: Result<Self, Error>) {
        enumeration_try_from_item(item)
    }
}

/// ## CEPVAL
///
/// **Command Enhanced Parameter Value**
#[derive(Debug, PartialEq, Eq)]
pub enum CommandEnhancedParameterValue {
    List(Vec<Item>),
    Bin(Vec<u8>),
    Bool(Vec<bool>),
    Ascii(Vec<Char>),
    Jis8(String),
    I1(Vec<i8>),
    I2(Vec<i16>),
    I4(Vec<i32>),
    I8(Vec<i64>),
    U1(Vec<u8>),
    U2(Vec<u16>),
    U4(Vec<u32>),
    U8(Vec<u64>),
    /// Floating-point numbers, each held as the bits of its IEEE 754 encoding.
    F4(Vec<u32>),
    /// Floating-point numbers, each held as the bits of its IEEE 754 encoding.
    F8(Vec<u64>),
}

impl ItemFormat for CommandEnhancedParameterValue {
    open spec fn item(self) -> ItemView {
        match self {
            CommandEnhancedParameterValue::List(list) => ItemView::List(views_of(list@)),
            CommandEnhancedParameterValue::Bin(values) => ItemView::Bin(values@),
            CommandEnhancedParameterValue::Bool(values) => ItemView::Bool(values@),
            CommandEnhancedParameterValue::Ascii(values) => ItemView::Ascii(values@),
            CommandEnhancedParameterValue::Jis8(values) => ItemView::Jis8(values@),
            CommandEnhancedParameterValue::I1(values) => ItemView::I1(values@),
            CommandEnhancedParameterValue::I2(values) => ItemView::I2(values@),
            CommandEnhancedParameterValue::I4(values) => ItemView::I4(values@),
            CommandEnhancedParameterValue::I8(values) => ItemView::I8(values@),
            CommandEnhancedParameterValue::U1(values) => ItemView::U1(values@),
            CommandEnhancedParameterValue::U2(values) => ItemView::U2(values@),
            CommandEnhancedParameterValue::U4(values) => ItemView::U4(values@),
            CommandEnhancedParameterValue::U8(values) => ItemView::U8(values@),
            CommandEnhancedParameterValue::F4(values) => ItemView::F4(values@),
            CommandEnhancedParameterValue::F8(values) => ItemView::F8(values@),
        }
    }

    open spec fn accepts(item: ItemView) -> bool {
        match item {
            ItemView::List(_) => true,
            ItemView::Bin(_) => true,
            ItemView::Bool(_) => true,
            ItemView::Ascii(_) => true,
            ItemView::Jis8(_) => true,
            ItemView::I1(_) => true,
            ItemView::I2(_) => true,
            ItemView::I4(_) => true,
            ItemView::I8(_) => true,
            ItemView::U1(_) => true,
            ItemView::U2(_) => true,
            ItemView::U4(_) => true,
            ItemView::U8(_) => true,
            ItemView::F4(_) => true,
            ItemView::F8(_) => true,
        }
    }

    open spec fn reads(item: ItemView, value: Self) -> bool {
        item == value.item()
    }

    open spec fn valid(self) -> bool {
        true
    }

    proof fn lemma_round_trip(self) {
    }

    fn into_item(self) -> (r: Item) {
        match self {
            CommandEnhancedParameterValue::List(list) => {
                proof {
                    lemma_list_view(list);
                }
                Item::List(list)
            },
            CommandEnhancedParameterValue::Bin(values) => Item::Bin(values),
            CommandEnhancedParameterValue::Bool(values) => Item::Bool(values),
            CommandEnhancedParameterValue::Ascii(values) => Item::Ascii(values),
            CommandEnhancedParameterValue::Jis8(values) => Item::Jis8(values),
            CommandEnhancedParameterValue::I1(values) => Item::I1(values),
            CommandEnhancedParameterValue::I2(values) => Item::I2(values),
            CommandEnhancedParameterValue::I4(values) => Item::I4(values),
            CommandEnhancedParameterValue::I8(values) => Item::I8(values),
            CommandEnhancedParameterValue::U1(values) => Item::U1(values),
            CommandEnhancedParameterValue::U2(values) => Item::U2(values),
            CommandEnhancedParameterValue::U4(values) => Item::U4(values),
            CommandEnhancedParameterValue::U8(values) => Item::U8(values),
            CommandEnhancedParameterValue::F4(values) => Item::F4(values),
            CommandEnhancedParameterValue::F8(values) => Item::F8(values),
        }
    }

    fn try_from_item(item: Item) -> (r: Result<Self, Error>) {
        match item {
            Item::List(list) => {
                proof {
                    lemma_list_view(list);
                }
                Ok(CommandEnhancedParameterValue::List(list))
            },
            Item::Bin(values) => Ok(CommandEnhancedParameterValue::Bin(values)),
            Item::Bool(values) => Ok(CommandEnhancedParameterValue::Bool(values)),
            Item::Ascii(values) => Ok(CommandEnhancedParameterValue::Ascii(values)),
            Item::Jis8(values) => Ok(CommandEnhancedParameterValue::Jis8(values)),
            Item::I1(values) => Ok(CommandEnhancedParameterValue::I1(values)),
            Item::I2(values) => Ok(CommandEnhancedParameterValue::I2(values)),
            Item::I4(values) => Ok(CommandEnhancedParameterValue::I4(values)),
            Item::I8(values) => Ok(CommandEnhancedParameterValue::I8(values)),
            Item::U1(values) => Ok(CommandEnhancedParameterValue::U1(values)),
            Item::U2(values) => Ok(CommandEnhancedParameterValue::U2(values)),
            Item::U4(values) => Ok(CommandEnhancedParameterValue::U4(values)),
            Item::U8(values) => Ok(CommandEnhancedParameterValue::U8(values)),
            Item::F4(values) => Ok(CommandEnhancedParameterValue::F4(values)),
            Item::F8(values) => Ok(CommandEnhancedParameterValue::F8(values)),
        }
    }
}

/// ## CKPNT
///
/// Checkpoint as defined by the sending system.
#[derive(Clone, Copy, Debug, PartialEq, Eq, Structural)]
pub struct Checkpoint(pub u32);

impl ItemFormat for Checkpoint {
    open spec fn item(self) -> ItemView {
        ItemView::U4(seq![self.0])
    }

    open spec fn accepts(item: ItemView) -> bool {
        item matches ItemView::U4(values) && values.len() == 1
    }

    open spec fn reads(item: ItemView, value: Self) -> bool {
        item == value.item()
    }

    open spec fn valid(self) -> bool {
        true
    }

    proof fn lemma_round_trip(self) {
    }

    fn into_item(self) -> (r: Item) {
        Item::U4(single(self.0))
    }

    fn try_from_item(item: Item) -> (r: Result<Self, Error>) {
        match item {
            Item::U4(values) => match only(&values) {
                Some(value) => Ok(Checkpoint(value)),
                None => Err(Error::WrongFormat),
            },
            _ => Err(Error::WrongFormat),
        }
    }
}

/// ## CMDA
///
/// Command acknowledge code.
#[derive(Clone, Copy, Debug, PartialEq, Eq, Structural)]
pub enum CommandAcknowledge {
    Okay,
    CommandDoesNotExist,
    CannotPerformNow,
}

impl Enumeration for CommandAcknowledge {
    open spec fn number(self) -> u8 {
        match self {
            CommandAcknowledge::Okay => 0,
            CommandAcknowledge::CommandDoesNotExist => 1,
            CommandAcknowledge::CannotPerformNow => 2,
        }
    }

    open spec fn named(number: u8) -> Option<Self> {
        if number == 0 {
            Some(CommandAcknowledge::Okay)
        } else if number == 1 {
            Some(CommandAcknowledge::CommandDoesNotExist)
        } else if number == 2 {
            Some(CommandAcknowledge::CannotPerformNow)
        } else {
            None
        }
    }

    open spec fn binary() -> bool {
        false
    }

    fn into_primitive(self) -> (r: u8) {
        match self {
            CommandAcknowledge::Okay => 0,
            CommandAcknowledge::CommandDoesNotExist => 1,
            CommandAcknowledge::CannotPerformNow => 2,
        }
    }

    fn try_from_primitive(number: u8) -> (r: Option<Self>) {
        match number {
            0 => Some(CommandAcknowledge::Okay),
            1 => Some(CommandAcknowledge::CommandDoesNotExist),
            2 => Some(CommandAcknowledge::CannotPerformNow),
            _ => None,
        }
    }

    fn is_binary() -> (r: bool) {
        false
    }

    proof fn lemma_number_names_value(self) {
    }

    proof fn lemma_named_has_number(number: u8) {
    }
}

impl ItemFormat for CommandAcknowledge {
    open spec fn item(self) -> ItemView {
        enumeration_item(self)
    }

    open spec fn accepts(item: ItemView) -> bool {
        enumeration_accepts::<CommandAcknowledge>(item)
    }

    open spec fn reads(item: ItemView, value: Self) -> bool {
        item == value.item()
    }

    open spec fn valid(self) -> bool {
        true
    }

    proof fn lemma_round_trip(self) {
        lemma_enumeration_round_trip(self);
    }

    fn into_item(self) -> (r: Item) {
        enumeration_into_item(self)
    }

    fn try_from_item(item: Item) -> (r: Result<Self, Error>) {
        enumeration_try_from_item(item)
    }
}

/// ## CNAME
///
/// Command name, maximum 16 characters.
///
/// A text string which is unique among other command names in a PCD, which
/// describes the processing done by the equipment for the corresponding
/// CCODE.
#[derive(Debug, PartialEq, Eq)]
pub struct CommandName(Vec<Char>);

impl View for CommandName {
    type V = Seq<Char>;

    closed spec fn view(&self) -> Seq<Char> {
        self.0@
    }
}

impl CommandName {
    #[verifier::type_invariant]
    spec fn within_limits(self) -> bool {
        Self::allows(self.0@.len())
    }

    /// Whether the item may have a given length: at most 16 characters.
    pub open spec fn allows(length: nat) -> bool {
        length <= 16
    }

    /// Makes the item from its characters, where their number is allowed.
    pub fn new(vec: Vec<Char>) -> (r: Option<Self>)
        ensures
            Self::allows(vec@.len()) ==> (r matches Some(value) && value@ == vec@),
            !Self::allows(vec@.len()) ==> r is None,
    {
        if vec.len() <= 16 {
            Some(CommandName(vec))
        } else {
            None
        }
    }

    /// The characters of the item.
    pub fn read(&self) -> (r: &Vec<Char>)
        ensures
            r@ == self@,
            Self::allows(r@.len()),
    {
        proof {
            use_type_invariant(self);
        }
        &self.0
    }
}

impl ItemFormat for CommandName {
    open spec fn item(self) -> ItemView {
        ItemView::Ascii(self@)
    }

    open spec fn accepts(item: ItemView) -> bool {
        item matches ItemView::Ascii(chars) && Self::allows(chars.len())
    }

    open spec fn reads(item: ItemView, value: Self) -> bool {
        item == value.item()
    }

    open spec fn valid(self) -> bool {
        Self::allows(self@.len())
    }

    proof fn lemma_round_trip(self) {
    }

    fn into_item(self) -> (r: Item) {
        Item::Ascii(self.0)
    }

    fn try_from_item(item: Item) -> (r: Result<Self, Error>) {
        match item {
            Item::Ascii(vec) => match CommandName::new(vec) {
                Some(value) => Ok(value),
                None => Err(Error::WrongFormat),
            },
            _ => Err(Error::WrongFormat),
        }
    }
}

/// ## COLCT
///
/// Column count, in die increments.
#[derive(Clone, Copy, Debug, PartialEq, Eq, Structural)]
pub enum ColumnCount {
    U1(u8),
    U2(u16),
    U4(u32),
    U8(u64),
}

impl ItemFormat for ColumnCount {
    open spec fn item(self) -> ItemView {
        match self {
            ColumnCount::U1(value) => ItemView::U1(seq![value]),
            ColumnCount::U2(value) => ItemView::U2(seq![value]),
            ColumnCount::U4(value) => ItemView::U4(seq![value]),
            ColumnCount::U8(value) => ItemView::U8(seq![value]),
        }
    }

    open spec fn accepts(item: ItemView) -> bool {
        match item {
            ItemView::U1(values) => values.len() == 1,
            ItemView::U2(values) => values.len() == 1,
            ItemView::U4(values) => values.len() == 1,
            ItemView::U8(values) => values.len() == 1,
            _ => false,
        }
    }

    open spec fn reads(item: ItemView, value: Self) -> bool {
        item == value.item()
    }

    open spec fn valid(self) -> bool {
        true
    }

    proof fn lemma_round_trip(self) {
    }

    fn into_item(self) -> (r: Item) {
        match self {
            ColumnCount::U1(value) => Item::U1(single(value)),
            ColumnCount::U2(value) => Item::U2(single(value)),
            ColumnCount::U4(value) => Item::U4(single(value)),
            ColumnCount::U8(value) => Item::U8(single(value)),
        }
    }

    fn try_from_item(item: Item) -> (r: Result<Self, Error>) {
        match item {
            Item::U1(values) => match only(&values) {
                Some(value) => Ok(ColumnCount::U1(value)),
                None => Err(Error::WrongFormat),
            },
            Item::U2(values) => match only(&values) {
                Some(value) => Ok(ColumnCount::U2(value)),
                None => Err(Error::WrongFormat),
            },
            Item::U4(values) => match only(&values) {
                Some(value) => Ok(ColumnCount::U4(value)),
                None => Err(Error::WrongFormat),
            },
            Item::U8(values) => match only(&values) {
                Some(value) => Ok(ColumnCount::U8(value)),
                None => Err(Error::WrongFormat),
            },
            _ => Err(Error::WrongFormat),
        }
    }
}

/// ## COLHDR
///
/// Text description of contents of TBLELT, 1-20 characters.
#[derive(Debug, PartialEq, Eq)]
pub struct ColumnHeader(Vec<Char>);

impl View for ColumnHeader {
    type V = Seq<Char>;

    closed spec fn view(&self) -> Seq<Char> {
        self.0@
    }
}

impl ColumnHeader {
    #[verifier::type_invariant]
    spec fn within_limits(self) -> bool {
        Self::allows(self.0@.len())
    }

    /// Whether the item may have a given length: at least 1 and at most 20 characters.
    pub open spec fn allows(length: nat) -> bool {
        1 <= length <= 20
    }

    /// Makes the item from its characters, where their number is allowed.
    pub fn new(vec: Vec<Char>) -> (r: Option<Self>)
        ensures
            Self::allows(vec@.len()) ==> (r matches Some(value) && value@ == vec@),
            !Self::allows(vec@.len()) ==> r is None,
    {
        if 1 <= vec.len() && vec.len() <= 20 {
            Some(ColumnHeader(vec))
        } else {
            None
        }
    }

    /// The characters of the item.
    pub fn read(&self) -> (r: &Vec<Char>)
        ensures
            r@ == self@,
            Self::allows(r@.len()),
    {
        proof {
            use_type_invariant(self);
        }
        &self.0
    }
}

impl ItemFormat for ColumnHeader {
    open spec fn item(self) -> ItemView {
        ItemView::Ascii(self@)
    }

    open spec fn accepts(item: ItemView) -> bool {
        item matches ItemView::Ascii(chars) && Self::allows(chars.len())
    }

    open spec fn reads(item: ItemView, value: Self) -> bool {
        item == value.item()
    }

    open spec fn valid(self) -> bool {
        Self::allows(self@.len())
    }

    proof fn lemma_round_trip(self) {
    }

    fn into_item(self) -> (r: Item) {
        Item::Ascii(self.0)
    }

    fn try_from_item(item: Item) -> (r: Result<Self, Error>) {
        match item {
            Item::Ascii(vec) => match ColumnHeader::new(vec) {
                Some(value) => Ok(value),
                None => Err(Error::WrongFormat),
            },
            _ => Err(Error::WrongFormat),
        }
    }
}

/// ## COMMACK
///
/// Establish Communications Acknowledge Code, 1 byte.
#[derive(Clone, Copy, Debug, PartialEq, Eq, Structural)]
pub enum CommAck {
    Accepted,
    Denied,
}

impl Enumeration for CommAck {
    open spec fn number(self) -> u8 {
        match self {
            CommAck::Accepted => 0,
            CommAck::Denied => 1,
        }
    }

    open spec fn named(number: u8) -> Option<Self> {
        if number == 0 {
            Some(CommAck::Accepted)
        } else if number == 1 {
            Some(CommAck::Denied)
        } else {
            None
        }
    }

    open spec fn binary() -> bool {
        true
    }

    fn into_primitive(self) -> (r: u8) {
        match self {
            CommAck::Accepted => 0,
            CommAck::Denied => 1,
        }
    }

    fn try_from_primitive(number: u8) -> (r: Option<Self>) {
        match number {
            0 => Some(CommAck::Accepted),
            1 => Some(CommAck::Denied),
            _ => None,
        }
    }

    fn is_binary() -> (r: bool) {
        true
    }

    proof fn lemma_number_names_value(self) {
    }

    proof fn lemma_named_has_number(number: u8) {
    }
}

impl ItemFormat for CommAck {
    open spec fn item(self) -> ItemView {
        enumeration_item(self)
    }

    open spec fn accepts(item: ItemView) -> bool {
        enumeration_accepts::<CommAck>(item)
    }

    open spec fn reads(item: ItemView, value: Self) -> bool {
        item == value.item()
    }

    open spec fn valid(self) -> bool {
        true
    }

    proof fn lemma_round_trip(self) {
        lemma_enumeration_round_trip(self);
    }

    fn into_item(self) -> (r: Item) {
        enumeration_into_item(self)
    }

    fn try_from_item(item: Item) -> (r: Result<Self, Error>) {
        enumeration_try_from_item(item)
    }
}

/// ## COMPARISONOPERATOR
///
/// Choice of available operators that compare the supplied value to the
/// current attribute value.
#[derive(Clone, Copy, Debug, PartialEq, Eq, Structural)]
pub enum ComparisonOperator {
    EqualTo,
    NotEqualTo,
    LessThan,
    LessThanOrEqualTo,
    GreaterThan,
    GreaterThanOrEqualTo,
    Like,
    NotLike,
}

impl Enumeration for ComparisonOperator {
    open spec fn number(self) -> u8 {
        match self {
            ComparisonOperator::EqualTo => 0,
            ComparisonOperator::NotEqualTo => 1,
            ComparisonOperator::LessThan => 2,
            ComparisonOperator::LessThanOrEqualTo => 3,
            ComparisonOperator::GreaterThan => 4,
            ComparisonOperator::GreaterThanOrEqualTo => 5,
            ComparisonOperator::Like => 6,
            ComparisonOperator::NotLike => 7,
        }
    }

    open spec fn named(number: u8) -> Option<Self> {
        if number == 0 {
            Some(ComparisonOperator::EqualTo)
        } else if number == 1 {
            Some(ComparisonOperator::NotEqualTo)
        } else if number == 2 {
            Some(ComparisonOperator::LessThan)
        } else if number == 3 {
            Some(ComparisonOperator::LessThanOrEqualTo)
        } else if number == 4 {
            Some(ComparisonOperator::GreaterThan)
        } else if number == 5 {
            Some(ComparisonOperator::GreaterThanOrEqualTo)
        } else if number == 6 {
            Some(ComparisonOperator::Like)
        } else if number == 7 {
            Some(ComparisonOperator::NotLike)
        } else {
            None
        }
    }

    open spec fn binary() -> bool {
        false
    }

    fn into_primitive(self) -> (r: u8) {
        match self {
            ComparisonOperator::EqualTo => 0,
            ComparisonOperator::NotEqualTo => 1,
            ComparisonOperator::LessThan => 2,
            ComparisonOperator::LessThanOrEqualTo => 3,
            ComparisonOperator::GreaterThan => 4,
            ComparisonOperator::GreaterThanOrEqualTo => 5,
            ComparisonOperator::Like => 6,
            ComparisonOperator::NotLike => 7,
        }
    }

    fn try_from_primitive(number: u8) -> (r: Option<Self>) {
        match number {
            0 => Some(ComparisonOperator::EqualTo),
            1 => Some(ComparisonOperator::NotEqualTo),
            2 => Some(ComparisonOperator::LessThan),
            3 => Some(ComparisonOperator::LessThanOrEqualTo),
            4 => Some(ComparisonOperator::GreaterThan),
            5 => Some(ComparisonOperator::GreaterThanOrEqualTo),
            6 => Some(ComparisonOperator::Like),
            7 => Some(ComparisonOperator::NotLike),
            _ => None,
        }
    }

    fn is_binary() -> (r: bool) {
        false
    }

    proof fn lemma_number_names_value(self) {
    }

    proof fn lemma_named_has_number(number: u8) {
    }
}

impl ItemFormat for ComparisonOperator {
    open spec fn item(self) -> ItemView {
        enumeration_item(self)
    }

    open spec fn accepts(item: ItemView) -> bool {
        enumeration_accepts::<ComparisonOperator>(item)
    }

    open spec fn reads(item: ItemView, value: Self) -> bool {
        item == value.item()
    }

    open spec fn valid(self) -> bool {
        true
    }

    proof fn lemma_round_trip(self) {
        lemma_enumeration_round_trip(self);
    }

    fn into_item(self) -> (r: Item) {
        enumeration_into_item(self)
    }

    fn try_from_item(item: Item) -> (r: Result<Self, Error>) {
        enumeration_try_from_item(item)
    }
}

/// ## CONDITION
///
/// Provides condition information for a subsystem component.
#[derive(Clone, Debug, PartialEq, Eq)]
pub struct Condition(pub Vec<Char>);

impl ItemFormat for Condition {
    open spec fn item(self) -> ItemView {
        ItemView::Ascii(self.0@)
    }

    open spec fn accepts(item: ItemView) -> bool {
        item is Ascii
    }

    open spec fn reads(item: ItemView, value: Self) -> bool {
        item == value.item()
    }

    open spec fn valid(self) -> bool {
        true
    }

    proof fn lemma_round_trip(self) {
    }

    fn into_item(self) -> (r: Item) {
        Item::Ascii(self.0)
    }

    fn try_from_item(item: Item) -> (r: Result<Self, Error>) {
        match item {
            Item::Ascii(values) => Ok(Condition(values)),
            _ => Err(Error::WrongFormat),
        }
    }
}

/// ## CONDITIONLIST
///
/// A list of CONDITION data sent in a fixed order.
pub type ConditionList = VecList<Condition>;

/// ## CPACK
///
/// Command parameter acknowledge code, 1 byte.
#[derive(Clone, Copy, Debug, PartialEq, Eq, Structural)]
pub enum CommandParameterAcknowledgeCode {
    ParameterNameDoesNotExist,
    IllegalValue,
    IllegalFormat,
}

impl Enumeration for CommandParameterAcknowledgeCode {
    open spec fn number(self) -> u8 {
        match self {
            CommandParameterAcknowledgeCode::ParameterNameDoesNotExist => 1,
            CommandParameterAcknowledgeCode::IllegalValue => 2,
            CommandParameterAcknowledgeCode::IllegalFormat => 3,
        }
    }

    open spec fn named(number: u8) -> Option<Self> {
        if number == 1 {
            Some(CommandParameterAcknowledgeCode::ParameterNameDoesNotExist)
        } else if number == 2 {
            Some(CommandParameterAcknowledgeCode::IllegalValue)
        } else if number == 3 {
            Some(CommandParameterAcknowledgeCode::IllegalFormat)
        } else {
            None
        }
    }

    open spec fn binary() -> bool {
        true
    }

    fn into_primitive(self) -> (r: u8) {
        match self {
            CommandParameterAcknowledgeCode::ParameterNameDoesNotExist => 1,
            CommandParameterAcknowledgeCode::IllegalValue => 2,
            CommandParameterAcknowledgeCode::IllegalFormat => 3,
        }
    }

    fn try_from_primitive(number: u8) -> (r: Option<Self>) {
        match number {
            1 => Some(CommandParameterAcknowledgeCode::ParameterNameDoesNotExist),
            2 => Some(CommandParameterAcknowledgeCode::IllegalValue),
            3 => Some(CommandParameterAcknowledgeCode::IllegalFormat),
            _ => None,
        }
    }

    fn is_binary() -> (r: bool) {
        true
    }

    proof fn lemma_number_names_value(self) {
    }

    proof fn lemma_named_has_number(number: u8) {
    }
}

impl ItemFormat for CommandParameterAcknowledgeCode {
    open spec fn item(self) -> ItemView {
        enumeration_item(self)
    }

    open spec fn accepts(item: ItemView) -> bool {
        enumeration_accepts::<CommandParameterAcknowledgeCode>(item)
    }

    open spec fn reads(item: ItemView, value: Self) -> bool {
        item == value.item()
    }

    open spec fn valid(self) -> bool {
        true
    }

    proof fn lemma_round_trip(self) {
        lemma_enumeration_round_trip(self);
    }

    fn into_item(self) -> (r: Item) {
        enumeration_into_item(self)
    }

    fn try_from_item(item: Item) -> (r: Result<Self, Error>) {
        enumeration_try_from_item(item)
    }
}

/// ## CPNAME
///
/// **Command Parameter Name**
#[derive(Clone, Debug, PartialEq, Eq)]
pub enum CommandParameterName {
    Ascii(Vec<Char>),
    I1(Vec<i8>),
    I2(Vec<i16>),
    I4(Vec<i32>),
    I8(Vec<i64>),
    U1(Vec<u8>),
    U2(Vec<u16>),
    U4(Vec<u32>),
    U8(Vec<u64>),
}

impl ItemFormat for CommandParameterName {
    open spec fn item(self) -> ItemView {
        match self {
            CommandParameterName::Ascii(values) => ItemView::Ascii(values@),
            CommandParameterName::I1(values) => ItemView::I1(values@),
            CommandParameterName::I2(values) => ItemView::I2(values@),
            CommandParameterName::I4(values) => ItemView::I4(values@),
            CommandParameterName::I8(values) => ItemView::I8(values@),
            CommandParameterName::U1(values) => ItemView::U1(values@),
            CommandParameterName::U2(values) => ItemView::U2(values@),
            CommandParameterName::U4(values) => ItemView::U4(values@),
            CommandParameterName::U8(values) => ItemView::U8(values@),
        }
    }

    open spec fn accepts(item: ItemView) -> bool {
        match item {
            ItemView::Ascii(_) => true,
            ItemView::I1(_) => true,
            ItemView::I2(_) => true,
            ItemView::I4(_) => true,
            ItemView::I8(_) => true,
            ItemView::U1(_) => true,
            ItemView::U2(_) => true,
            ItemView::U4(_) => true,
            ItemView::U8(_) => true,
            _ => false,
        }
    }

    open spec fn reads(item: ItemView, value: Self) -> bool {
        item == value.item()
    }

    open spec fn valid(self) -> bool {
        true
    }

    proof fn lemma_round_trip(self) {
    }

    fn into_item(self) -> (r: Item) {
        match self {
            CommandParameterName::Ascii(values) => Item::Ascii(values),
            CommandParameterName::I1(values) => Item::I1(values),
            CommandParameterName::I2(values) => Item::I2(values),
            CommandParameterName::I4(values) => Item::I4(values),
            CommandParameterName::I8(values) => Item::I8(values),
            CommandParameterName::U1(values) => Item::U1(values),
            CommandParameterName::U2(values) => Item::U2(values),
            CommandParameterName::U4(values) => Item::U4(values),
            CommandParameterName::U8(values) => Item::U8(values),
        }
    }

    fn try_from_item(item: Item) -> (r: Result<Self, Error>) {
        match item {
            Item::Ascii(values) => Ok(CommandParameterName::Ascii(values)),
            Item::I1(values) => Ok(CommandParameterName::I1(values)),
            Item::I2(values) => Ok(CommandParameterName::I2(values)),
            Item::I4(values) => Ok(CommandParameterName::I4(values)),
            Item::I8(values) => Ok(CommandParameterName::I8(values)),
            Item::U1(values) => Ok(CommandParameterName::U1(values)),
            Item::U2(values) => Ok(CommandParameterName::U2(values)),
            Item::U4(values) => Ok(CommandParameterName::U4(values)),
            Item::U8(values) => Ok(CommandParameterName::U8(values)),
            _ => Err(Error::WrongFormat),
        }
    }
}

/// ## CPVAL
///
/// **Command Parameter Value**
#[derive(Clone, Debug, PartialEq, Eq)]
pub enum CommandParameterValue {
    Bin(Vec<u8>),
    Bool(Vec<bool>),
    Ascii(Vec<Char>),
    Jis8(String),
    I1(Vec<i8>),
    I2(Vec<i16>),
    I4(Vec<i32>),
    I8(Vec<i64>),
    U1(Vec<u8>),
    U2(Vec<u16>),
    U4(Vec<u32>),
    U8(Vec<u64>),
}

impl ItemFormat for CommandParameterValue {
    open spec fn item(self) -> ItemView {
        match self {
            CommandParameterValue::Bin(values) => ItemView::Bin(values@),
            CommandParameterValue::Bool(values) => ItemView::Bool(values@),
            CommandParameterValue::Ascii(values) => ItemView::Ascii(values@),
            CommandParameterValue::Jis8(values) => ItemView::Jis8(values@),
            CommandParameterValue::I1(values) => ItemView::I1(values@),
            CommandParameterValue::I2(values) => ItemView::I2(values@),
            CommandParameterValue::I4(values) => ItemView::I4(values@),
            CommandParameterValue::I8(values) => ItemView::I8(values@),
            CommandParameterValue::U1(values) => ItemView::U1(values@),
            CommandParameterValue::U2(values) => ItemView::U2(values@),
            CommandParameterValue::U4(values) => ItemView::U4(values@),
            CommandParameterValue::U8(values) => ItemView::U8(values@),
        }
    }

    open spec fn accepts(item: ItemView) -> bool {
        match item {
            ItemView::Bin(_) => true,
            ItemView::Bool(_) => true,
            ItemView::Ascii(_) => true,
            ItemView::Jis8(_) => true,
            ItemView::I1(_) => true,
            ItemView::I2(_) => true,
            ItemView::I4(_) => true,
            ItemView::I8(_) => true,
            ItemView::U1(_) => true,
            ItemView::U2(_) => true,
            ItemView::U4(_) => true,
            ItemView::U8(_) => true,
            _ => false,
        }
    }

    open spec fn reads(item: ItemView, value: Self) -> bool {
        item == value.item()
    }

    open spec fn valid(self) -> bool {
        true
    }

    proof fn lemma_round_trip(self) {
    }

    fn into_item(self) -> (r: Item) {
        match self {
            CommandParameterValue::Bin(values) => Item::Bin(values),
            CommandParameterValue::Bool(values) => Item::Bool(values),
            CommandParameterValue::Ascii(values) => Item::Ascii(values),
            CommandParameterValue::Jis8(values) => Item::Jis8(values),
            CommandParameterValue::I1(values) => Item::I1(values),
            CommandParameterValue::I2(values) => Item::I2(values),
            CommandParameterValue::I4(values) => Item::I4(values),
            CommandParameterValue::I8(values) => Item::I8(values),
            CommandParameterValue::U1(values) => Item::U1(values),
            CommandParameterValue::U2(values) => Item::U2(values),
            CommandParameterValue::U4(values) => Item::U4(values),
            CommandParameterValue::U8(values) => Item::U8(values),
        }
    }

    fn try_from_item(item: Item) -> (r: Result<Self, Error>) {
        match item {
            Item::Bin(values) => Ok(CommandParameterValue::Bin(values)),
            Item::Bool(values) => Ok(CommandParameterValue::Bool(values)),
            Item::Ascii(values) => Ok(CommandParameterValue::Ascii(values)),
            Item::Jis8(values) => Ok(CommandParameterValue::Jis8(values)),
            Item::I1(values) => Ok(CommandParameterValue::I1(values)),
            Item::I2(values) => Ok(CommandParameterValue::I2(values)),
            Item::I4(values) => Ok(CommandParameterValue::I4(values)),
            Item::I8(values) => Ok(CommandParameterValue::I8(values)),
            Item::U1(values) => Ok(CommandParameterValue::U1(values)),
            Item::U2(values) => Ok(CommandParameterValue::U2(values)),
            Item::U4(values) => Ok(CommandParameterValue::U4(values)),
            Item::U8(values) => Ok(CommandParameterValue::U8(values)),
            _ => Err(Error::WrongFormat),
        }
    }
}

/// ## CSAACK
///
/// Equipment acknowledge code, 1 byte.
#[derive(Clone, Copy, Debug, PartialEq, Eq, Structural)]
pub enum ServiceAcknowledgeCode {
    Okay,
    Busy,
    InvalidSPID,
    InvalidData,
}

impl Enumeration for ServiceAcknowledgeCode {
    open spec fn number(self) -> u8 {
        match self {
            ServiceAcknowledgeCode::Okay => 0,
            ServiceAcknowledgeCode::Busy => 1,
            ServiceAcknowledgeCode::InvalidSPID => 2,
            ServiceAcknowledgeCode::InvalidData => 3,
        }
    }

    open spec fn named(number: u8) -> Option<Self> {
        if number == 0 {
            Some(ServiceAcknowledgeCode::Okay)
        } else if number == 1 {
            Some(ServiceAcknowledgeCode::Busy)
        } else if number == 2 {
            Some(ServiceAcknowledgeCode::InvalidSPID)
        } else if number == 3 {
            Some(ServiceAcknowledgeCode::InvalidData)
        } else {
            None
        }
    }

    open spec fn binary() -> bool {
        true
    }

    fn into_primitive(self) -> (r: u8) {
        match self {
            ServiceAcknowledgeCode::Okay => 0,
            ServiceAcknowledgeCode::Busy => 1,
            ServiceAcknowledgeCode::InvalidSPID => 2,
            ServiceAcknowledgeCode::InvalidData => 3,
        }
    }

    fn try_from_primitive(number: u8) -> (r: Option<Self>) {
        match number {
            0 => Some(ServiceAcknowledgeCode::Okay),
            1 => Some(ServiceAcknowledgeCode::Busy),
            2 => Some(ServiceAcknowledgeCode::InvalidSPID),
            3 => Some(ServiceAcknowledgeCode::InvalidData),
            _ => None,
        }
    }

    fn is_binary() -> (r: bool) {
        true
    }

    proof fn lemma_number_names_value(self) {
    }

    proof fn lemma_named_has_number(number: u8) {
    }
}

impl ItemFormat for ServiceAcknowledgeCode {
    open spec fn item(self) -> ItemView {
        enumeration_item(self)
    }

    open spec fn accepts(item: ItemView) -> bool {
        enumeration_accepts::<ServiceAcknowledgeCode>(item)
    }

    open spec fn reads(item: ItemView, value: Self) -> bool {
        item == value.item()
    }

    open spec fn valid(self) -> bool {
        true
    }

    proof fn lemma_round_trip(self) {
        lemma_enumeration_round_trip(self);
    }

    fn into_item(self) -> (r: Item) {
        enumeration_into_item(self)
    }

    fn try_from_item(item: Item) -> (r: Result<Self, Error>) {
        enumeration_try_from_item(item)
    }
}

/// ## CTLJOBCMD
///
/// Control Job command code.
#[derive(Clone, Copy, Debug, PartialEq, Eq, Structural)]
pub enum ControlJobCommand {
    Start,
    Pause,
    Resume,
    Cancel,
    Deselect,
    Stop,
    Abort,
    HeadOfQueue,
}

impl Enumeration for ControlJobCommand {
    open spec fn number(self) -> u8 {
        match self {
            ControlJobCommand::Start => 1,
            ControlJobCommand::Pause => 2,
            ControlJobCommand::Resume => 3,
            ControlJobCommand::Cancel => 4,
            ControlJobCommand::Deselect => 5,
            ControlJobCommand::Stop => 6,
            ControlJobCommand::Abort => 7,
            ControlJobCommand::HeadOfQueue => 8,
        }
    }

    open spec fn named(number: u8) -> Option<Self> {
        if number == 1 {
            Some(ControlJobCommand::Start)
        } else if number == 2 {
            Some(ControlJobCommand::Pause)
        } else if number == 3 {
            Some(ControlJobCommand::Resume)
        } else if number == 4 {
            Some(ControlJobCommand::Cancel)
        } else if number == 5 {
            Some(ControlJobCommand::Deselect)
        } else if number == 6 {
            Some(ControlJobCommand::Stop)
        } else if number == 7 {
            Some(ControlJobCommand::Abort)
        } else if number == 8 {
            Some(ControlJobCommand::HeadOfQueue)
        } else {
            None
        }
    }

    open spec fn binary() -> bool {
        false
    }

    fn into_primitive(self) -> (r: u8) {
        match self {
            ControlJobCommand::Start => 1,
            ControlJobCommand::Pause => 2,
            ControlJobCommand::Resume => 3,
            ControlJobCommand::Cancel => 4,
            ControlJobCommand::Deselect => 5,
            ControlJobCommand::Stop => 6,
            ControlJobCommand::Abort => 7,
            ControlJobCommand::HeadOfQueue => 8,
        }
    }

    fn try_from_primitive(number: u8) -> (r: Option<Self>) {
        match number {
            1 => Some(ControlJobCommand::Start),
            2 => Some(ControlJobCommand::Pause),
            3 => Some(ControlJobCommand::Resume),
            4 => Some(ControlJobCommand::Cancel),
            5 => Some(ControlJobCommand::Deselect),
            6 => Some(ControlJobCommand::Stop),
            7 => Some(ControlJobCommand::Abort),
            8 => Some(ControlJobCommand::HeadOfQueue),
            _ => None,
        }
    }

    fn is_binary() -> (r: bool) {
        false
    }

    proof fn lemma_number_names_value(self) {
    }

    proof fn lemma_named_has_number(number: u8) {
    }
}

impl ItemFormat for ControlJobCommand {
    open spec fn item(self) -> ItemView {
        enumeration_item(self)
    }

    open spec fn accepts(item: ItemView) -> bool {
        enumeration_accepts::<ControlJobCommand>(item)
    }

    open spec fn reads(item: ItemView, value: Self) -> bool {
        item == value.item()
    }

    open spec fn valid(self) -> bool {
        true
    }

    proof fn lemma_round_trip(self) {
        lemma_enumeration_round_trip(self);
    }

    fn into_item(self) -> (r: Item) {
        enumeration_into_item(self)
    }

    fn try_from_item(item: Item) -> (r: Result<Self, Error>) {
        enumeration_try_from_item(item)
    }
}

/// ## DATA
///
/// A string of unformatted data.
#[derive(Clone, Debug, PartialEq, Eq)]
pub struct Data(pub Vec<Char>);

impl ItemFormat for Data {
    open spec fn item(self) -> ItemView {
        ItemView::Ascii(self.0@)
    }

    open spec fn accepts(item: ItemView) -> bool {
        item is Ascii
    }

    open spec fn reads(item: ItemView, value: Self) -> bool {
        item == value.item()
    }

    open spec fn valid(self) -> bool {
        true
    }

    proof fn lemma_round_trip(self) {
    }

    fn into_item(self) -> (r: Item) {
        Item::Ascii(self.0)
    }

    fn try_from_item(item: Item) -> (r: Result<Self, Error>) {
        match item {
            Item::Ascii(values) => Ok(Data(values)),
            _ => Err(Error::WrongFormat),
        }
    }
}

/// ## DATAACK
///
/// Data acknowledge code.
#[derive(Clone, Copy, Debug, PartialEq, Eq, Structural)]
pub enum DataAcknowledge {
    Okay,
    UnknownDataID,
    InvalidParameter,
}

impl Enumeration for DataAcknowledge {
    open spec fn number(self) -> u8 {
        match self {
            DataAcknowledge::Okay => 0,
            DataAcknowledge::UnknownDataID => 1,
            DataAcknowledge::InvalidParameter => 2,
        }
    }

    open spec fn named(number: u8) -> Option<Self> {
        if number == 0 {
            Some(DataAcknowledge::Okay)
        } else if number == 1 {
            Some(DataAcknowledge::UnknownDataID)
        } else if number == 2 {
            Some(DataAcknowledge::InvalidParameter)
        } else {
            None
        }
    }

    open spec fn binary() -> bool {
        true
    }

    fn into_primitive(self) -> (r: u8) {
        match self {
            DataAcknowledge::Okay => 0,
            DataAcknowledge::UnknownDataID => 1,
            DataAcknowledge::InvalidParameter => 2,
        }
    }

    fn try_from_primitive(number: u8) -> (r: Option<Self>) {
        match number {
            0 => Some(DataAcknowledge::Okay),
            1 => Some(DataAcknowledge::UnknownDataID),
            2 => Some(DataAcknowledge::InvalidParameter),
            _ => None,
        }
    }

    fn is_binary() -> (r: bool) {
        true
    }

    proof fn lemma_number_names_value(self) {
    }

    proof fn lemma_named_has_number(number: u8) {
    }
}

impl ItemFormat for DataAcknowledge {
    open spec fn item(self) -> ItemView {
        enumeration_item(self)
    }

    open spec fn accepts(item: ItemView) -> bool {
        enumeration_accepts::<DataAcknowledge>(item)
    }

    open spec fn reads(item: ItemView, value: Self) -> bool {
        item == value.item()
    }

    open spec fn valid(self) -> bool {
        true
    }

    proof fn lemma_round_trip(self) {
        lemma_enumeration_round_trip(self);
    }

    fn into_item(self) -> (r: Item) {
        enumeration_into_item(self)
    }

    fn try_from_item(item: Item) -> (r: Result<Self, Error>) {
        enumeration_try_from_item(item)
    }
}

/// ## DATAID
///
/// **Data ID**
#[derive(Clone, Debug, PartialEq, Eq)]
pub enum DataID {
    Ascii(Vec<Char>),
    I1(i8),
    I2(i16),
    I4(i32),
    I8(i64),
    U1(u8),
    U2(u16),
    U4(u32),
    U8(u64),
}

impl ItemFormat for DataID {
    open spec fn item(self) -> ItemView {
        match self {
            DataID::Ascii(values) => ItemView::Ascii(values@),
            DataID::I1(value) => ItemView::I1(seq![value]),
            DataID::I2(value) => ItemView::I2(seq![value]),
            DataID::I4(value) => ItemView::I4(seq![value]),
            DataID::I8(value) => ItemView::I8(seq![value]),
            DataID::U1(value) => ItemView::U1(seq![value]),
            DataID::U2(value) => ItemView::U2(seq![value]),
            DataID::U4(value) => ItemView::U4(seq![value]),
            DataID::U8(value) => ItemView::U8(seq![value]),
        }
    }

    open spec fn accepts(item: ItemView) -> bool {
        match item {
            ItemView::Ascii(_) => true,
            ItemView::I1(values) => values.len() == 1,
            ItemView::I2(values) => values.len() == 1,
            ItemView::I4(values) => values.len() == 1,
            ItemView::I8(values) => values.len() == 1,
            ItemView::U1(values) => values.len() == 1,
            ItemView::U2(values) => values.len() == 1,
            ItemView::U4(values) => values.len() == 1,
            ItemView::U8(values) => values.len() == 1,
            _ => false,
        }
    }

    open spec fn reads(item: ItemView, value: Self) -> bool {
        item == value.item()
    }

    open spec fn valid(self) -> bool {
        true
    }

    proof fn lemma_round_trip(self) {
    }

    fn into_item(self) -> (r: Item) {
        match self {
            DataID::Ascii(values) => Item::Ascii(values),
            DataID::I1(value) => Item::I1(single(value)),
            DataID::I2(value) => Item::I2(single(value)),
            DataID::I4(value) => Item::I4(single(value)),
            DataID::I8(value) => Item::I8(single(value)),
            DataID::U1(value) => Item::U1(single(value)),
            DataID::U2(value) => Item::U2(single(value)),
            DataID::U4(value) => Item::U4(single(value)),
            DataID::U8(value) => Item::U8(single(value)),
        }
    }

    fn try_from_item(item: Item) -> (r: Result<Self, Error>) {
        match item {
            Item::Ascii(values) => Ok(DataID::Ascii(values)),
            Item::I1(values) => match only(&values) {
                Some(value) => Ok(DataID::I1(value)),
                None => Err(Error::WrongFormat),
            },
            Item::I2(values) => match only(&values) {
                Some(value) => Ok(DataID::I2(value)),
                None => Err(Error::WrongFormat),
            },
            Item::I4(values) => match only(&values) {
                Some(value) => Ok(DataID::I4(value)),
                None => Err(Error::WrongFormat),
            },
            Item::I8(values) => match only(&values) {
                Some(value) => Ok(DataID::I8(value)),
                None => Err(Error::WrongFormat),
            },
            Item::U1(values) => match only(&values) {
                Some(value) => Ok(DataID::U1(value)),
                None => Err(Error::WrongFormat),
            },
            Item::U2(values) => match only(&values) {
                Some(value) => Ok(DataID::U2(value)),
                None => Err(Error::WrongFormat),
            },
            Item::U4(values) => match only(&values) {
                Some(value) => Ok(DataID::U4(value)),
                None => Err(Error::WrongFormat),
            },
            Item::U8(values) => match only(&values) {
                Some(value) => Ok(DataID::U8(value)),
                None => Err(Error::WrongFormat),
            },
            _ => Err(Error::WrongFormat),
        }
    }
}

/// ## DATALENGTH
///
/// Total bytes to be sent.
#[derive(Clone, Copy, Debug, PartialEq, Eq, Structural)]
pub enum DataLength {
    I1(i8),
    I2(i16),
    I4(i32),
    I8(i64),
    U1(u8),
    U2(u16),
    U4(u32),
    U8(u64),
}

impl ItemFormat for DataLength {
    open spec fn item(self) -> ItemView {
        match self {
            DataLength::I1(value) => ItemView::I1(seq![value]),
            DataLength::I2(value) => ItemView::I2(seq![value]),
            DataLength::I4(value) => ItemView::I4(seq![value]),
            DataLength::I8(value) => ItemView::I8(seq![value]),
            DataLength::U1(value) => ItemView::U1(seq![value]),
            DataLength::U2(value) => ItemView::U2(seq![value]),
            DataLength::U4(value) => ItemView::U4(seq![value]),
            DataLength::U8(value) => ItemView::U8(seq![value]),
        }
    }

    open spec fn accepts(item: ItemView) -> bool {
        match item {
            ItemView::I1(values) => values.len() == 1,
            ItemView::I2(values) => values.len() == 1,
            ItemView::I4(values) => values.len() == 1,
            ItemView::I8(values) => values.len() == 1,
            ItemView::U1(values) => values.len() == 1,
            ItemView::U2(values) => values.len() == 1,
            ItemView::U4(values) => values.len() == 1,
            ItemView::U8(values) => values.len() == 1,
            _ => false,
        }
    }

    open spec fn reads(item: ItemView, value: Self) -> bool {
        item == value.item()
    }

    open spec fn valid(self) -> bool {
        true
    }

    proof fn lemma_round_trip(self) {
    }

    fn into_item(self) -> (r: Item) {
        match self {
            DataLength::I1(value) => Item::I1(single(value)),
            DataLength::I2(value) => Item::I2(single(value)),
            DataLength::I4(value) => Item::I4(single(value)),
            DataLength::I8(value) => Item::I8(single(value)),
            DataLength::U1(value) => Item::U1(single(value)),
            DataLength::U2(value) => Item::U2(single(value)),
            DataLength::U4(value) => Item::U4(single(value)),
            DataLength::U8(value) => Item::U8(single(value)),
        }
    }

    fn try_from_item(item: Item) -> (r: Result<Self, Error>) {
        match item {
            Item::I1(values) => match only(&values) {
                Some(value) => Ok(DataLength::I1(value)),
                None => Err(Error::WrongFormat),
            },
            Item::I2(values) => match only(&values) {
                Some(value) => Ok(DataLength::I2(value)),
                None => Err(Error::WrongFormat),
            },
            Item::I4(values) => match only(&values) {
                Some(value) => Ok(DataLength::I4(value)),
                None => Err(Error::WrongFormat),
            },
            Item::I8(values) => match only(&values) {
                Some(value) => Ok(DataLength::I8(value)),
                None => Err(Error::WrongFormat),
            },
            Item::U1(values) => match only(&values) {
                Some(value) => Ok(DataLength::U1(value)),
                None => Err(Error::WrongFormat),
            },
            Item::U2(values) => match only(&values) {
                Some(value) => Ok(DataLength::U2(value)),
                None => Err(Error::WrongFormat),
            },
            Item::U4(values) => match only(&values) {
                Some(value) => Ok(DataLength::U4(value)),
                None => Err(Error::WrongFormat),
            },
            Item::U8(values) => match only(&values) {
                Some(value) => Ok(DataLength::U8(value)),
                None => Err(Error::WrongFormat),
            },
            _ => Err(Error::WrongFormat),
        }
    }
}

/// ## DATASEG
///
/// **Data Segment**
///
/// Identifies requested data.
#[derive(Clone, Debug, PartialEq, Eq)]
pub struct DataSegment(pub Vec<Char>);

impl ItemFormat for DataSegment {
    open spec fn item(self) -> ItemView {
        ItemView::Ascii(self.0@)
    }

    open spec fn accepts(item: ItemView) -> bool {
        item is Ascii
    }

    open spec fn reads(item: ItemView, value: Self) -> bool {
        item == value.item()
    }

    open spec fn valid(self) -> bool {
        true
    }

    proof fn lemma_round_trip(self) {
    }

    fn into_item(self) -> (r: Item) {
        Item::Ascii(self.0)
    }

    fn try_from_item(item: Item) -> (r: Result<Self, Error>) {
        match item {
            Item::Ascii(values) => Ok(DataSegment(values)),
            _ => Err(Error::WrongFormat),
        }
    }
}

/// ## DRACK
///
/// **Define Report Acknowledge Code**
#[derive(Clone, Copy, Debug, PartialEq, Eq, Structural)]
pub enum DefineReportAcknowledgeCode {
    Okay,
    InsufficientSpace,
    InvalidFormat,
    ReportAlreadyDefined,
    VariableDoesNotExist,
}

impl Enumeration for DefineReportAcknowledgeCode {
    open spec fn number(self) -> u8 {
        match self {
            DefineReportAcknowledgeCode::Okay => 0,
            DefineReportAcknowledgeCode::InsufficientSpace => 1,
            DefineReportAcknowledgeCode::InvalidFormat => 2,
            DefineReportAcknowledgeCode::ReportAlreadyDefined => 3,
            DefineReportAcknowledgeCode::VariableDoesNotExist => 4,
        }
    }

    open spec fn named(number: u8) -> Option<Self> {
        if number == 0 {
            Some(DefineReportAcknowledgeCode::Okay)
        } else if number == 1 {
            Some(DefineReportAcknowledgeCode::InsufficientSpace)
        } else if number == 2 {
            Some(DefineReportAcknowledgeCode::InvalidFormat)
        } else if number == 3 {
            Some(DefineReportAcknowledgeCode::ReportAlreadyDefined)
        } else if number == 4 {
            Some(DefineReportAcknowledgeCode::VariableDoesNotExist)
        } else {
            None
        }
    }

    open spec fn binary() -> bool {
        true
    }

    fn into_primitive(self) -> (r: u8) {
        match self {
            DefineReportAcknowledgeCode::Okay => 0,
            DefineReportAcknowledgeCode::InsufficientSpace => 1,
            DefineReportAcknowledgeCode::InvalidFormat => 2,
            DefineReportAcknowledgeCode::ReportAlreadyDefined => 3,
            DefineReportAcknowledgeCode::VariableDoesNotExist => 4,
        }
    }

    fn try_from_primitive(number: u8) -> (r: Option<Self>) {
        match number {
            0 => Some(DefineReportAcknowledgeCode::Okay),
            1 => Some(DefineReportAcknowledgeCode::InsufficientSpace),
            2 => Some(DefineReportAcknowledgeCode::InvalidFormat),
            3 => Some(DefineReportAcknowledgeCode::ReportAlreadyDefined),
            4 => Some(DefineReportAcknowledgeCode::VariableDoesNotExist),
            _ => None,
        }
    }

    fn is_binary() -> (r: bool) {
        true
    }

    proof fn lemma_number_names_value(self) {
    }

    proof fn lemma_named_has_number(number: u8) {
    }
}

impl ItemFormat for DefineReportAcknowledgeCode {
    open spec fn item(self) -> ItemView {
        enumeration_item(self)
    }

    open spec fn accepts(item: ItemView) -> bool {
        enumeration_accepts::<DefineReportAcknowledgeCode>(item)
    }

    open spec fn reads(item: ItemView, value: Self) -> bool {
        item == value.item()
    }

    open spec fn valid(self) -> bool {
        true
    }

    proof fn lemma_round_trip(self) {
        lemma_enumeration_round_trip(self);
    }

    fn into_item(self) -> (r: Item) {
        enumeration_into_item(self)
    }

    fn try_from_item(item: Item) -> (r: Result<Self, Error>) {
        enumeration_try_from_item(item)
    }
}

/// ## DSPER
///
/// Data sample period.
#[derive(Clone, Debug, PartialEq, Eq)]
pub struct DataSamplePeriod(pub Vec<Char>);

impl ItemFormat for DataSamplePeriod {
    open spec fn item(self) -> ItemView {
        ItemView::Ascii(self.0@)
    }

    open spec fn accepts(item: ItemView) -> bool {
        item is Ascii
    }

    open spec fn reads(item: ItemView, value: Self) -> bool {
        item == value.item()
    }

    open spec fn valid(self) -> bool {
        true
    }

    proof fn lemma_round_trip(self) {
    }

    fn into_item(self) -> (r: Item) {
        Item::Ascii(self.0)
    }

    fn try_from_item(item: Item) -> (r: Result<Self, Error>) {
        match item {
            Item::Ascii(values) => Ok(DataSamplePeriod(values)),
            _ => Err(Error::WrongFormat),
        }
    }
}

/// ## DVVALNAME
///
/// Descriptive name for a data variable.
#[derive(Clone, Debug, PartialEq, Eq)]
pub struct DataVariableValueName(pub Vec<Char>);

impl ItemFormat for DataVariableValueName {
    open spec fn item(self) -> ItemView {
        ItemView::Ascii(self.0@)
    }

    open spec fn accepts(item: ItemView) -> bool {
        item is Ascii
    }

    open spec fn reads(item: ItemView, value: Self) -> bool {
        item == value.item()
    }

    open spec fn valid(self) -> bool {
        true
    }

    proof fn lemma_round_trip(self) {
    }

    fn into_item(self) -> (r: Item) {
        Item::Ascii(self.0)
    }

    fn try_from_item(item: Item) -> (r: Result<Self, Error>) {
        match item {
            Item::Ascii(values) => Ok(DataVariableValueName(values)),
            _ => Err(Error::WrongFormat),
        }
    }
}

/// ## EAC
///
/// EquipmentAcknowledgeCode, 1 byte.
#[derive(Clone, Copy, Debug, PartialEq, Eq, Structural)]
pub enum EquipmentAcknowledgeCode {
    Acknowledge,
    DoesNotExist,
    Busy,
    OutOfRange,
}

impl Enumeration for EquipmentAcknowledgeCode {
    open spec fn number(self) -> u8 {
        match self {
            EquipmentAcknowledgeCode::Acknowledge => 0,
            EquipmentAcknowledgeCode::DoesNotExist => 1,
            EquipmentAcknowledgeCode::Busy => 2,
            EquipmentAcknowledgeCode::OutOfRange => 3,
        }
    }

    open spec fn named(number: u8) -> Option<Self> {
        if number == 0 {
            Some(EquipmentAcknowledgeCode::Acknowledge)
        } else if number == 1 {
            Some(EquipmentAcknowledgeCode::DoesNotExist)
        } else if number == 2 {
            Some(EquipmentAcknowledgeCode::Busy)
        } else if number == 3 {
            Some(EquipmentAcknowledgeCode::OutOfRange)
        } else {
            None
        }
    }

    open spec fn binary() -> bool {
        true
    }

    fn into_primitive(self) -> (r: u8) {
        match self {
            EquipmentAcknowledgeCode::Acknowledge => 0,
            EquipmentAcknowledgeCode::DoesNotExist => 1,
            EquipmentAcknowledgeCode::Busy => 2,
            EquipmentAcknowledgeCode::OutOfRange => 3,
        }
    }

    fn try_from_primitive(number: u8) -> (r: Option<Self>) {
        match number {
            0 => Some(EquipmentAcknowledgeCode::Acknowledge),
            1 => Some(EquipmentAcknowledgeCode::DoesNotExist),
            2 => Some(EquipmentAcknowledgeCode::Busy),
            3 => Some(EquipmentAcknowledgeCode::OutOfRange),
            _ => None,
        }
    }

    fn is_binary() -> (r: bool) {
        true
    }

    proof fn lemma_number_names_value(self) {
    }

    proof fn lemma_named_has_number(number: u8) {
    }
}

impl ItemFormat for EquipmentAcknowledgeCode {
    open spec fn item(self) -> ItemView {
        enumeration_item(self)
    }

    open spec fn accepts(item: ItemView) -> bool {
        enumeration_accepts::<EquipmentAcknowledgeCode>(item)
    }

    open spec fn reads(item: ItemView, value: Self) -> bool {
        item == value.item()
    }

    open spec fn valid(self) -> bool {
        true
    }

    proof fn lemma_round_trip(self) {
        lemma_enumeration_round_trip(self);
    }

    fn into_item(self) -> (r: Item) {
        enumeration_into_item(self)
    }

    fn try_from_item(item: Item) -> (r: Result<Self, Error>) {
        enumeration_try_from_item(item)
    }
}

/// ## ECDEF
///
/// Equipment constant default value.
#[derive(Clone, Debug, PartialEq, Eq)]
pub enum EquipmentConstantDefaultValue {
    Bin(Vec<u8>),
    Bool(Vec<bool>),
    Ascii(Vec<Char>),
    Jis8(String),
    I1(Vec<i8>),
    I2(Vec<i16>),
    I4(Vec<i32>),
    I8(Vec<i64>),
    U1(Vec<u8>),
    U2(Vec<u16>),
    U4(Vec<u32>),
    U8(Vec<u64>),
    /// Floating-point numbers, each held as the bits of its IEEE 754 encoding.
    F4(Vec<u32>),
    /// Floating-point numbers, each held as the bits of its IEEE 754 encoding.
    F8(Vec<u64>),
}

impl ItemFormat for EquipmentConstantDefaultValue {
    open spec fn item(self) -> ItemView {
        match self {
            EquipmentConstantDefaultValue::Bin(values) => ItemView::Bin(values@),
            EquipmentConstantDefaultValue::Bool(values) => ItemView::Bool(values@),
            EquipmentConstantDefaultValue::Ascii(values) => ItemView::Ascii(values@),
            EquipmentConstantDefaultValue::Jis8(values) => ItemView::Jis8(values@),
            EquipmentConstantDefaultValue::I1(values) => ItemView::I1(values@),
            EquipmentConstantDefaultValue::I2(values) => ItemView::I2(values@),
            EquipmentConstantDefaultValue::I4(values) => ItemView::I4(values@),
            EquipmentConstantDefaultValue::I8(values) => ItemView::I8(values@),
            EquipmentConstantDefaultValue::U1(values) => ItemView::U1(values@),
            EquipmentConstantDefaultValue::U2(values) => ItemView::U2(values@),
            EquipmentConstantDefaultValue::U4(values) => ItemView::U4(values@),
            EquipmentConstantDefaultValue::U8(values) => ItemView::U8(values@),
            EquipmentConstantDefaultValue::F4(values) => ItemView::F4(values@),
            EquipmentConstantDefaultValue::F8(values) => ItemView::F8(values@),
        }
    }

    open spec fn accepts(item: ItemView) -> bool {
        match item {
            ItemView::Bin(_) => true,
            ItemView::Bool(_) => true,
            ItemView::Ascii(_) => true,
            ItemView::Jis8(_) => true,
            ItemView::I1(_) => true,
            ItemView::I2(_) => true,
            ItemView::I4(_) => true,
            ItemView::I8(_) => true,
            ItemView::U1(_) => true,
            ItemView::U2(_) => true,
            ItemView::U4(_) => true,
            ItemView::U8(_) => true,
            ItemView::F4(_) => true,
            ItemView::F8(_) => true,
            _ => false,
        }
    }

    open spec fn reads(item: ItemView, value: Self) -> bool {
        item == value.item()
    }

    open spec fn valid(self) -> bool {
        true
    }

    proof fn lemma_round_trip(self) {
    }

    fn into_item(self) -> (r: Item) {
        match self {
            EquipmentConstantDefaultValue::Bin(values) => Item::Bin(values),
            EquipmentConstantDefaultValue::Bool(values) => Item::Bool(values),
            EquipmentConstantDefaultValue::Ascii(values) => Item::Ascii(values),
            EquipmentConstantDefaultValue::Jis8(values) => Item::Jis8(values),
            EquipmentConstantDefaultValue::I1(values) => Item::I1(values),
            EquipmentConstantDefaultValue::I2(values) => Item::I2(values),
            EquipmentConstantDefaultValue::I4(values) => Item::I4(values),
            EquipmentConstantDefaultValue::I8(values) => Item::I8(values),
            EquipmentConstantDefaultValue::U1(values) => Item::U1(values),
            EquipmentConstantDefaultValue::U2(values) => Item::U2(values),
            EquipmentConstantDefaultValue::U4(values) => Item::U4(values),
            EquipmentConstantDefaultValue::U8(values) => Item::U8(values),
            EquipmentConstantDefaultValue::F4(values) => Item::F4(values),
            EquipmentConstantDefaultValue::F8(values) => Item::F8(values),
        }
    }

    fn try_from_item(item: Item) -> (r: Result<Self, Error>) {
        match item {
            Item::Bin(values) => Ok(EquipmentConstantDefaultValue::Bin(values)),
            Item::Bool(values) => Ok(EquipmentConstantDefaultValue::Bool(values)),
            Item::Ascii(values) => Ok(EquipmentConstantDefaultValue::Ascii(values)),
            Item::Jis8(values) => Ok(EquipmentConstantDefaultValue::Jis8(values)),
            Item::I1(values) => Ok(EquipmentConstantDefaultValue::I1(values)),
            Item::I2(values) => Ok(EquipmentConstantDefaultValue::I2(values)),
            Item::I4(values) => Ok(EquipmentConstantDefaultValue::I4(values)),
            Item::I8(values) => Ok(EquipmentConstantDefaultValue::I8(values)),
            Item::U1(values) => Ok(EquipmentConstantDefaultValue::U1(values)),
            Item::U2(values) => Ok(EquipmentConstantDefaultValue::U2(values)),
            Item::U4(values) => Ok(EquipmentConstantDefaultValue::U4(values)),
            Item::U8(values) => Ok(EquipmentConstantDefaultValue::U8(values)),
            Item::F4(values) => Ok(EquipmentConstantDefaultValue::F4(values)),
            Item::F8(values) => Ok(EquipmentConstantDefaultValue::F8(values)),
            _ => Err(Error::WrongFormat),
        }
    }
}

/// ## ECID
///
/// **Equipment Constant ID**
#[derive(Clone, Debug, PartialEq, Eq)]
pub enum EquipmentConstantID {
    Ascii(Vec<Char>),
    I1(i8),
    I2(i16),
    I4(i32),
    I8(i64),
    U1(u8),
    U2(u16),
    U4(u32),
    U8(u64),
}

impl ItemFormat for EquipmentConstantID {
    open spec fn item(self) -> ItemView {
        match self {
            EquipmentConstantID::Ascii(values) => ItemView::Ascii(values@),
            EquipmentConstantID::I1(value) => ItemView::I1(seq![value]),
            EquipmentConstantID::I2(value) => ItemView::I2(seq![value]),
            EquipmentConstantID::I4(value) => ItemView::I4(seq![value]),
            EquipmentConstantID::I8(value) => ItemView::I8(seq![value]),
            EquipmentConstantID::U1(value) => ItemView::U1(seq![value]),
            EquipmentConstantID::U2(value) => ItemView::U2(seq![value]),
            EquipmentConstantID::U4(value) => ItemView::U4(seq![value]),
            EquipmentConstantID::U8(value) => ItemView::U8(seq![value]),
        }
    }

    open spec fn accepts(item: ItemView) -> bool {
        match item {
            ItemView::Ascii(_) => true,
            ItemView::I1(values) => values.len() == 1,
            ItemView::I2(values) => values.len() == 1,
            ItemView::I4(values) => values.len() == 1,
            ItemView::I8(values) => values.len() == 1,
            ItemView::U1(values) => values.len() == 1,
            ItemView::U2(values) => values.len() == 1,
            ItemView::U4(values) => values.len() == 1,
            ItemView::U8(values) => values.len() == 1,
            _ => false,
        }
    }

    open spec fn reads(item: ItemView, value: Self) -> bool {
        item == value.item()
    }

    open spec fn valid(self) -> bool {
        true
    }

    proof fn lemma_round_trip(self) {
    }

    fn into_item(self) -> (r: Item) {
        match self {
            EquipmentConstantID::Ascii(values) => Item::Ascii(values),
            EquipmentConstantID::I1(value) => Item::I1(single(value)),
            EquipmentConstantID::I2(value) => Item::I2(single(value)),
            EquipmentConstantID::I4(value) => Item::I4(single(value)),
            EquipmentConstantID::I8(value) => Item::I8(single(value)),
            EquipmentConstantID::U1(value) => Item::U1(single(value)),
            EquipmentConstantID::U2(value) => Item::U2(single(value)),
            EquipmentConstantID::U4(value) => Item::U4(single(value)),
            EquipmentConstantID::U8(value) => Item::U8(single(value)),
        }
    }

    fn try_from_item(item: Item) -> (r: Result<Self, Error>) {
        match item {
            Item::Ascii(values) => Ok(EquipmentConstantID::Ascii(values)),
            Item::I1(values) => match only(&values) {
                Some(value) => Ok(EquipmentConstantID::I1(value)),
                None => Err(Error::WrongFormat),
            },
            Item::I2(values) => match only(&values) {
                Some(value) => Ok(EquipmentConstantID::I2(value)),
                None => Err(Error::WrongFormat),
            },
            Item::I4(values) => match only(&values) {
                Some(value) => Ok(EquipmentConstantID::I4(value)),
                None => Err(Error::WrongFormat),
            },
            Item::I8(values) => match only(&values) {
                Some(value) => Ok(EquipmentConstantID::I8(value)),
                None => Err(Error::WrongFormat),
            },
            Item::U1(values) => match only(&values) {
                Some(value) => Ok(EquipmentConstantID::U1(value)),
                None => Err(Error::WrongFormat),
            },
            Item::U2(values) => match only(&values) {
                Some(value) => Ok(EquipmentConstantID::U2(value)),
                None => Err(Error::WrongFormat),
            },
            Item::U4(values) => match only(&values) {
                Some(value) => Ok(EquipmentConstantID::U4(value)),
                None => Err(Error::WrongFormat),
            },
            Item::U8(values) => match only(&values) {
                Some(value) => Ok(EquipmentConstantID::U8(value)),
                None => Err(Error::WrongFormat),
            },
            _ => Err(Error::WrongFormat),
        }
    }
}

/// ## ECMAX
///
/// **Equipment Constant Maximum Value**
#[derive(Clone, Debug, PartialEq, Eq)]
pub enum EquipmentConstantMaximumValue {
    Bin(Vec<u8>),
    Bool(Vec<bool>),
    Ascii(Vec<Char>),
    Jis8(String),
    I1(Vec<i8>),
    I2(Vec<i16>),
    I4(Vec<i32>),
    I8(Vec<i64>),
    U1(Vec<u8>),
    U2(Vec<u16>),
    U4(Vec<u32>),
    U8(Vec<u64>),
    /// Floating-point numbers, each held as the bits of its IEEE 754 encoding.
    F4(Vec<u32>),
    /// Floating-point numbers, each held as the bits of its IEEE 754 encoding.
    F8(Vec<u64>),
}

impl ItemFormat for EquipmentConstantMaximumValue {
    open spec fn item(self) -> ItemView {
        match self {
            EquipmentConstantMaximumValue::Bin(values) => ItemView::Bin(values@),
            EquipmentConstantMaximumValue::Bool(values) => ItemView::Bool(values@),
            EquipmentConstantMaximumValue::Ascii(values) => ItemView::Ascii(values@),
            EquipmentConstantMaximumValue::Jis8(values) => ItemView::Jis8(values@),
            EquipmentConstantMaximumValue::I1(values) => ItemView::I1(values@),
            EquipmentConstantMaximumValue::I2(values) => ItemView::I2(values@),
            EquipmentConstantMaximumValue::I4(values) => ItemView::I4(values@),
            EquipmentConstantMaximumValue::I8(values) => ItemView::I8(values@),
            EquipmentConstantMaximumValue::U1(values) => ItemView::U1(values@),
            EquipmentConstantMaximumValue::U2(values) => ItemView::U2(values@),
            EquipmentConstantMaximumValue::U4(values) => ItemView::U4(values@),
            EquipmentConstantMaximumValue::U8(values) => ItemView::U8(values@),
            EquipmentConstantMaximumValue::F4(values) => ItemView::F4(values@),
            EquipmentConstantMaximumValue::F8(values) => ItemView::F8(values@),
        }
    }

    open spec fn accepts(item: ItemView) -> bool {
        match item {
            ItemView::Bin(_) => true,
            ItemView::Bool(_) => true,
            ItemView::Ascii(_) => true,
            ItemView::Jis8(_) => true,
            ItemView::I1(_) => true,
            ItemView::I2(_) => true,
            ItemView::I4(_) => true,
            ItemView::I8(_) => true,
            ItemView::U1(_) => true,
            ItemView::U2(_) => true,
            ItemView::U4(_) => true,
            ItemView::U8(_) => true,
            ItemView::F4(_) => true,
            ItemView::F8(_) => true,
            _ => false,
        }
    }

    open spec fn reads(item: ItemView, value: Self) -> bool {
        item == value.item()
    }

    open spec fn valid(self) -> bool {
        true
    }

    proof fn lemma_round_trip(self) {
    }

    fn into_item(self) -> (r: Item) {
        match self {
            EquipmentConstantMaximumValue::Bin(values) => Item::Bin(values),
            EquipmentConstantMaximumValue::Bool(values) => Item::Bool(values),
            EquipmentConstantMaximumValue::Ascii(values) => Item::Ascii(values),
            EquipmentConstantMaximumValue::Jis8(values) => Item::Jis8(values),
            EquipmentConstantMaximumValue::I1(values) => Item::I1(values),
            EquipmentConstantMaximumValue::I2(values) => Item::I2(values),
            EquipmentConstantMaximumValue::I4(values) => Item::I4(values),
            EquipmentConstantMaximumValue::I8(values) => Item::I8(values),
            EquipmentConstantMaximumValue::U1(values) => Item::U1(values),
            EquipmentConstantMaximumValue::U2(values) => Item::U2(values),
            EquipmentConstantMaximumValue::U4(values) => Item::U4(values),
            EquipmentConstantMaximumValue::U8(values) => Item::U8(values),
            EquipmentConstantMaximumValue::F4(values) => Item::F4(values),
            EquipmentConstantMaximumValue::F8(values) => Item::F8(values),
        }
    }

    fn try_from_item(item: Item) -> (r: Result<Self, Error>) {
        match item {
            Item::Bin(values) => Ok(EquipmentConstantMaximumValue::Bin(values)),
            Item::Bool(values) => Ok(EquipmentConstantMaximumValue::Bool(values)),
            Item::Ascii(values) => Ok(EquipmentConstantMaximumValue::Ascii(values)),
            Item::Jis8(values) => Ok(EquipmentConstantMaximumValue::Jis8(values)),
            Item::I1(values) => Ok(EquipmentConstantMaximumValue::I1(values)),
            Item::I2(values) => Ok(EquipmentConstantMaximumValue::I2(values)),
            Item::I4(values) => Ok(EquipmentConstantMaximumValue::I4(values)),
            Item::I8(values) => Ok(EquipmentConstantMaximumValue::I8(values)),
            Item::U1(values) => Ok(EquipmentConstantMaximumValue::U1(values)),
            Item::U2(values) => Ok(EquipmentConstantMaximumValue::U2(values)),
            Item::U4(values) => Ok(EquipmentConstantMaximumValue::U4(values)),
            Item::U8(values) => Ok(EquipmentConstantMaximumValue::U8(values)),
            Item::F4(values) => Ok(EquipmentConstantMaximumValue::F4(values)),
            Item::F8(values) => Ok(EquipmentConstantMaximumValue::F8(values)),
            _ => Err(Error::WrongFormat),
        }
    }
}

/// ## ECMIN
///
/// **Equipment Constant Minimum Value**
#[derive(Clone, Debug, PartialEq, Eq)]
pub enum EquipmentConstantMinimumValue {
    Bin(Vec<u8>),
    Bool(Vec<bool>),
    Ascii(Vec<Char>),
    Jis8(String),
    I1(Vec<i8>),
    I2(Vec<i16>),
    I4(Vec<i32>),
    I8(Vec<i64>),
    U1(Vec<u8>),
    U2(Vec<u16>),
    U4(Vec<u32>),
    U8(Vec<u64>),
    /// Floating-point numbers, each held as the bits of its IEEE 754 encoding.
    F4(Vec<u32>),
    /// Floating-point numbers, each held as the bits of its IEEE 754 encoding.
    F8(Vec<u64>),
}

impl ItemFormat for EquipmentConstantMinimumValue {
    open spec fn item(self) -> ItemView {
        match self {
            EquipmentConstantMinimumValue::Bin(values) => ItemView::Bin(values@),
            EquipmentConstantMinimumValue::Bool(values) => ItemView::Bool(values@),
            EquipmentConstantMinimumValue::Ascii(values) => ItemView::Ascii(values@),
            EquipmentConstantMinimumValue::Jis8(values) => ItemView::Jis8(values@),
            EquipmentConstantMinimumValue::I1(values) => ItemView::I1(values@),
            EquipmentConstantMinimumValue::I2(values) => ItemView::I2(values@),
            EquipmentConstantMinimumValue::I4(values) => ItemView::I4(values@),
            EquipmentConstantMinimumValue::I8(values) => ItemView::I8(values@),
            EquipmentConstantMinimumValue::U1(values) => ItemView::U1(values@),
            EquipmentConstantMinimumValue::U2(values) => ItemView::U2(values@),
            EquipmentConstantMinimumValue::U4(values) => ItemView::U4(values@),
            EquipmentConstantMinimumValue::U8(values) => ItemView::U8(values@),
            EquipmentConstantMinimumValue::F4(values) => ItemView::F4(values@),
            EquipmentConstantMinimumValue::F8(values) => ItemView::F8(values@),
        }
    }

    open spec fn accepts(item: ItemView) -> bool {
        match item {
            ItemView::Bin(_) => true,
            ItemView::Bool(_) => true,
            ItemView::Ascii(_) => true,
            ItemView::Jis8(_) => true,
            ItemView::I1(_) => true,
            ItemView::I2(_) => true,
            ItemView::I4(_) => true,
            ItemView::I8(_) => true,
            ItemView::U1(_) => true,
            ItemView::U2(_) => true,
            ItemView::U4(_) => true,
            ItemView::U8(_) => true,
            ItemView::F4(_) => true,
            ItemView::F8(_) => true,
            _ => false,
        }
    }

    open spec fn reads(item: ItemView, value: Self) -> bool {
        item == value.item()
    }

    open spec fn valid(self) -> bool {
        true
    }

    proof fn lemma_round_trip(self) {
    }

    fn into_item(self) -> (r: Item) {
        match self {
            EquipmentConstantMinimumValue::Bin(values) => Item::Bin(values),
            EquipmentConstantMinimumValue::Bool(values) => Item::Bool(values),
            EquipmentConstantMinimumValue::Ascii(values) => Item::Ascii(values),
            EquipmentConstantMinimumValue::Jis8(values) => Item::Jis8(values),
            EquipmentConstantMinimumValue::I1(values) => Item::I1(values),
            EquipmentConstantMinimumValue::I2(values) => Item::I2(values),
            EquipmentConstantMinimumValue::I4(values) => Item::I4(values),
            EquipmentConstantMinimumValue::I8(values) => Item::I8(values),
            EquipmentConstantMinimumValue::U1(values) => Item::U1(values),
            EquipmentConstantMinimumValue::U2(values) => Item::U2(values),
            EquipmentConstantMinimumValue::U4(values) => Item::U4(values),
            EquipmentConstantMinimumValue::U8(values) => Item::U8(values),
            EquipmentConstantMinimumValue::F4(values) => Item::F4(values),
            EquipmentConstantMinimumValue::F8(values) => Item::F8(values),
        }
    }

    fn try_from_item(item: Item) -> (r: Result<Self, Error>) {
        match item {
            Item::Bin(values) => Ok(EquipmentConstantMinimumValue::Bin(values)),
            Item::Bool(values) => Ok(EquipmentConstantMinimumValue::Bool(values)),
            Item::Ascii(values) => Ok(EquipmentConstantMinimumValue::Ascii(values)),
            Item::Jis8(values) => Ok(EquipmentConstantMinimumValue::Jis8(values)),
            Item::I1(values) => Ok(EquipmentConstantMinimumValue::I1(values)),
            Item::I2(values) => Ok(EquipmentConstantMinimumValue::I2(values)),
            Item::I4(values) => Ok(EquipmentConstantMinimumValue::I4(values)),
            Item::I8(values) => Ok(EquipmentConstantMinimumValue::I8(values)),
            Item::U1(values) => Ok(EquipmentConstantMinimumValue::U1(values)),
            Item::U2(values) => Ok(EquipmentConstantMinimumValue::U2(values)),
            Item::U4(values) => Ok(EquipmentConstantMinimumValue::U4(values)),
            Item::U8(values) => Ok(EquipmentConstantMinimumValue::U8(values)),
            Item::F4(values) => Ok(EquipmentConstantMinimumValue::F4(values)),
            Item::F8(values) => Ok(EquipmentConstantMinimumValue::F8(values)),
            _ => Err(Error::WrongFormat),
        }
    }
}

/// ## ECNAME
///
/// **Equipment Constant Name**
#[derive(Clone, Debug, PartialEq, Eq)]
pub struct EquipmentConstantName(pub Vec<Char>);

impl ItemFormat for EquipmentConstantName {
    open spec fn item(self) -> ItemView {
        ItemView::Ascii(self.0@)
    }

    open spec fn accepts(item: ItemView) -> bool {
        item is Ascii
    }

    open spec fn reads(item: ItemView, value: Self) -> bool {
        item == value.item()
    }

    open spec fn valid(self) -> bool {
        true
    }

    proof fn lemma_round_trip(self) {
    }

    fn into_item(self) -> (r: Item) {
        Item::Ascii(self.0)
    }

    fn try_from_item(item: Item) -> (r: Result<Self, Error>) {
        match item {
            Item::Ascii(values) => Ok(EquipmentConstantName(values)),
            _ => Err(Error::WrongFormat),
        }
    }
}

/// ## ECV
///
/// **Equipment Constant Value**
#[derive(Clone, Debug, PartialEq, Eq)]
pub enum EquipmentConstantValue {
    Bin(Vec<u8>),
    Bool(Vec<bool>),
    Ascii(Vec<Char>),
    Jis8(String),
    I1(Vec<i8>),
    I2(Vec<i16>),
    I4(Vec<i32>),
    I8(Vec<i64>),
    U1(Vec<u8>),
    U2(Vec<u16>),
    U4(Vec<u32>),
    U8(Vec<u64>),
    /// Floating-point numbers, each held as the bits of its IEEE 754 encoding.
    F4(Vec<u32>),
    /// Floating-point numbers, each held as the bits of its IEEE 754 encoding.
    F8(Vec<u64>),
}

impl ItemFormat for EquipmentConstantValue {
    open spec fn item(self) -> ItemView {
        match self {
            EquipmentConstantValue::Bin(values) => ItemView::Bin(values@),
            EquipmentConstantValue::Bool(values) => ItemView::Bool(values@),
            EquipmentConstantValue::Ascii(values) => ItemView::Ascii(values@),
            EquipmentConstantValue::Jis8(values) => ItemView::Jis8(values@),
            EquipmentConstantValue::I1(values) => ItemView::I1(values@),
            EquipmentConstantValue::I2(values) => ItemView::I2(values@),
            EquipmentConstantValue::I4(values) => ItemView::I4(values@),
            EquipmentConstantValue::I8(values) => ItemView::I8(values@),
            EquipmentConstantValue::U1(values) => ItemView::U1(values@),
            EquipmentConstantValue::U2(values) => ItemView::U2(values@),
            EquipmentConstantValue::U4(values) => ItemView::U4(values@),
            EquipmentConstantValue::U8(values) => ItemView::U8(values@),
            EquipmentConstantValue::F4(values) => ItemView::F4(values@),
            EquipmentConstantValue::F8(values) => ItemView::F8(values@),
        }
    }

    open spec fn accepts(item: ItemView) -> bool {
        match item {
            ItemView::Bin(_) => true,
            ItemView::Bool(_) => true,
            ItemView::Ascii(_) => true,
            ItemView::Jis8(_) => true,
            ItemView::I1(_) => true,
            ItemView::I2(_) => true,
            ItemView::I4(_) => true,
            ItemView::I8(_) => true,
            ItemView::U1(_) => true,
            ItemView::U2(_) => true,
            ItemView::U4(_) => true,
            ItemView::U8(_) => true,
            ItemView::F4(_) => true,
            ItemView::F8(_) => true,
            _ => false,
        }
    }

    open spec fn reads(item: ItemView, value: Self) -> bool {
        item == value.item()
    }

    open spec fn valid(self) -> bool {
        true
    }

    proof fn lemma_round_trip(self) {
    }

    fn into_item(self) -> (r: Item) {
        match self {
            EquipmentConstantValue::Bin(values) => Item::Bin(values),
            EquipmentConstantValue::Bool(values) => Item::Bool(values),
            EquipmentConstantValue::Ascii(values) => Item::Ascii(values),
            EquipmentConstantValue::Jis8(values) => Item::Jis8(values),
            EquipmentConstantValue::I1(values) => Item::I1(values),
            EquipmentConstantValue::I2(values) => Item::I2(values),
            EquipmentConstantValue::I4(values) => Item::I4(values),
            EquipmentConstantValue::I8(values) => Item::I8(values),
            EquipmentConstantValue::U1(values) => Item::U1(values),
            EquipmentConstantValue::U2(values) => Item::U2(values),
            EquipmentConstantValue::U4(values) => Item::U4(values),
            EquipmentConstantValue::U8(values) => Item::U8(values),
            EquipmentConstantValue::F4(values) => Item::F4(values),
            EquipmentConstantValue::F8(values) => Item::F8(values),
        }
    }

    fn try_from_item(item: Item) -> (r: Result<Self, Error>) {
        match item {
            Item::Bin(values) => Ok(EquipmentConstantValue::Bin(values)),
            Item::Bool(values) => Ok(EquipmentConstantValue::Bool(values)),
            Item::Ascii(values) => Ok(EquipmentConstantValue::Ascii(values)),
            Item::Jis8(values) => Ok(EquipmentConstantValue::Jis8(values)),
            Item::I1(values) => Ok(EquipmentConstantValue::I1(values)),
            Item::I2(values) => Ok(EquipmentConstantValue::I2(values)),
            Item::I4(values) => Ok(EquipmentConstantValue::I4(values)),
            Item::I8(values) => Ok(EquipmentConstantValue::I8(values)),
            Item::U1(values) => Ok(EquipmentConstantValue::U1(values)),
            Item::U2(values) => Ok(EquipmentConstantValue::U2(values)),
            Item::U4(values) => Ok(EquipmentConstantValue::U4(values)),
            Item::U8(values) => Ok(EquipmentConstantValue::U8(values)),
            Item::F4(values) => Ok(EquipmentConstantValue::F4(values)),
            Item::F8(values) => Ok(EquipmentConstantValue::F8(values)),
            _ => Err(Error::WrongFormat),
        }
    }
}

/// ## EMID
///
/// **Equivalent Material ID**
#[derive(Debug, PartialEq, Eq)]
pub struct EquivalentMaterialID(Vec<Char>);

impl View for EquivalentMaterialID {
    type V = Seq<Char>;

    closed spec fn view(&self) -> Seq<Char> {
        self.0@
    }
}

impl EquivalentMaterialID {
    #[verifier::type_invariant]
    spec fn within_limits(self) -> bool {
        Self::allows(self.0@.len())
    }

    /// Whether the item may have a given length: at most 16 characters.
    pub open spec fn allows(length: nat) -> bool {
        length <= 16
    }

    /// Makes the item from its characters, where their number is allowed.
    pub fn new(vec: Vec<Char>) -> (r: Option<Self>)
        ensures
            Self::allows(vec@.len()) ==> (r matches Some(value) && value@ == vec@),
            !Self::allows(vec@.len()) ==> r is None,
    {
        if vec.len() <= 16 {
            Some(EquivalentMaterialID(vec))
        } else {
            None
        }
    }

    /// The characters of the item.
    pub fn read(&self) -> (r: &Vec<Char>)
        ensures
            r@ == self@,
            Self::allows(r@.len()),
    {
        proof {
            use_type_invariant(self);
        }
        &self.0
    }
}

impl ItemFormat for EquivalentMaterialID {
    open spec fn item(self) -> ItemView {
        ItemView::Ascii(self@)
    }

    open spec fn accepts(item: ItemView) -> bool {
        item matches ItemView::Ascii(chars) && Self::allows(chars.len())
    }

    open spec fn reads(item: ItemView, value: Self) -> bool {
        item == value.item()
    }

    open spec fn valid(self) -> bool {
        Self::allows(self@.len())
    }

    proof fn lemma_round_trip(self) {
    }

    fn into_item(self) -> (r: Item) {
        Item::Ascii(self.0)
    }

    fn try_from_item(item: Item) -> (r: Result<Self, Error>) {
        match item {
            Item::Ascii(vec) => match EquivalentMaterialID::new(vec) {
                Some(value) => Ok(value),
                None => Err(Error::WrongFormat),
            },
            _ => Err(Error::WrongFormat),
        }
    }
}

/// ## ERRCODE
///
/// Code identifying an error.
#[derive(Clone, Copy, Debug, PartialEq, Eq, Structural)]
pub enum ErrorCode {
    NoError,
    UnknownObjectInObjectSpecifier,
    UnknownTargetObjectType,
    UnknownObjectInstance,
    UnknownAttributeName,
    ReadonlyAttributeAccessDenied,
    UnknownObjectType,
    InvalidAttributeValue,
    SyntaxError,
    VerificationError,
    ValidationError,
    ObjectIdentifierInUse,
    ParametersImproperlySpecified,
    InsufficientParametersSpecified,
    UnsupportedOptionRequested,
    Busy,
    NotAvailableForProcessing,
    CommandNotValidForCurrentState,
    NoMaterialAltered,
    MaterialPartiallyProcessed,
    AllMaterialProcessed,
    RecipeSpecificationError,
    FailedDuringProcessing,
    FailedWhileNotProcessing,
    FailedDueToLackOfMaterial,
    JobAborted,
    JobStopped,
    JobCancelled,
    CannotChangeSelectedRecipe,
    UnknownEvent,
    DuplicateReportID,
    UnknownDataReport,
    DataReportNotLinked,
    UnknownTraceReport,
    DuplicateTraceID,
    TooManyDataReports,
    SamplePeriodOutOfRange,
    GroupSizeTooLarge,
    RecoveryActionCurrentlyInvalid,
    BusyWithAnotherRecovery,
    NoActiveRecoveryAction,
    ExceptionRecoveryFailed,
    ExceptionRecoveryAborted,
    InvalidTableElement,
    UnknownTableElement,
    CannotDeletePredefined,
    InvalidToken,
    InvalidParameter,
    LoadPortDoesNotExist,
    LoadPortAlreadyInUse,
    MissingCarrier,
    ActionWillBePerformed,
    ActionCannotBePerformedNow,
    ActionFailedDueToErrors,
    InvalidCommand,
    ClientAlr,
    DuplicateClientID,
    InvalidClientType,
    IncompatibleVersions,
    UnrecognizedClientID,
    FailedCompletedUnsuccessfully,
    FailedUnsafe,
    SensorDetectedObstacle,
    MaterialNotSent,
    MaterialNotReceived,
    MaterialLost,
    HardwareFailure,
    TransferCancelled,
}

impl ErrorCode {
    /// The number that a code stands for.
    pub open spec fn number(self) -> u64 {
        match self {
            ErrorCode::NoError => 0,
            ErrorCode::UnknownObjectInObjectSpecifier => 1,
            ErrorCode::UnknownTargetObjectType => 2,
            ErrorCode::UnknownObjectInstance => 3,
            ErrorCode::UnknownAttributeName => 4,
            ErrorCode::ReadonlyAttributeAccessDenied => 5,
            ErrorCode::UnknownObjectType => 6,
            ErrorCode::InvalidAttributeValue => 7,
            ErrorCode::SyntaxError => 8,
            ErrorCode::VerificationError => 9,
            ErrorCode::ValidationError => 10,
            ErrorCode::ObjectIdentifierInUse => 11,
            ErrorCode::ParametersImproperlySpecified => 12,
            ErrorCode::InsufficientParametersSpecified => 13,
            ErrorCode::UnsupportedOptionRequested => 14,
            ErrorCode::Busy => 15,
            ErrorCode::NotAvailableForProcessing => 16,
            ErrorCode::CommandNotValidForCurrentState => 17,
            ErrorCode::NoMaterialAltered => 18,
            ErrorCode::MaterialPartiallyProcessed => 19,
            ErrorCode::AllMaterialProcessed => 20,
            ErrorCode::RecipeSpecificationError => 21,
            ErrorCode::FailedDuringProcessing => 22,
            ErrorCode::FailedWhileNotProcessing => 23,
            ErrorCode::FailedDueToLackOfMaterial => 24,
            ErrorCode::JobAborted => 25,
            ErrorCode::JobStopped => 26,
            ErrorCode::JobCancelled => 27,
            ErrorCode::CannotChangeSelectedRecipe => 28,
            ErrorCode::UnknownEvent => 29,
            ErrorCode::DuplicateReportID => 30,
            ErrorCode::UnknownDataReport => 31,
            ErrorCode::DataReportNotLinked => 32,
            ErrorCode::UnknownTraceReport => 33,
            ErrorCode::DuplicateTraceID => 34,
            ErrorCode::TooManyDataReports => 35,
            ErrorCode::SamplePeriodOutOfRange => 36,
            ErrorCode::GroupSizeTooLarge => 37,
            ErrorCode::RecoveryActionCurrentlyInvalid => 38,
            ErrorCode::BusyWithAnotherRecovery => 39,
            ErrorCode::NoActiveRecoveryAction => 40,
            ErrorCode::ExceptionRecoveryFailed => 41,
            ErrorCode::ExceptionRecoveryAborted => 42,
            ErrorCode::InvalidTableElement => 43,
            ErrorCode::UnknownTableElement => 44,
            ErrorCode::CannotDeletePredefined => 45,
            ErrorCode::InvalidToken => 46,
            ErrorCode::InvalidParameter => 47,
            ErrorCode::LoadPortDoesNotExist => 48,
            ErrorCode::LoadPortAlreadyInUse => 49,
            ErrorCode::MissingCarrier => 50,
            ErrorCode::ActionWillBePerformed => 32768,
            ErrorCode::ActionCannotBePerformedNow => 32769,
            ErrorCode::ActionFailedDueToErrors => 32770,
            ErrorCode::InvalidCommand => 32771,
            ErrorCode::ClientAlr => 32772,
            ErrorCode::DuplicateClientID => 32773,
            ErrorCode::InvalidClientType => 32774,
            ErrorCode::IncompatibleVersions => 32775,
            ErrorCode::UnrecognizedClientID => 32776,
            ErrorCode::FailedCompletedUnsuccessfully => 32777,
            ErrorCode::FailedUnsafe => 32778,
            ErrorCode::SensorDetectedObstacle => 32779,
            ErrorCode::MaterialNotSent => 32780,
            ErrorCode::MaterialNotReceived => 32781,
            ErrorCode::MaterialLost => 32782,
            ErrorCode::HardwareFailure => 32783,
            ErrorCode::TransferCancelled => 32784,
        }
    }

    /// The code that a number stands for, if it has a name.
    pub open spec fn named(number: u64) -> Option<ErrorCode> {
        if number == 0 {
            Some(ErrorCode::NoError)
        } else if number == 1 {
            Some(ErrorCode::UnknownObjectInObjectSpecifier)
        } else if number == 2 {
            Some(ErrorCode::UnknownTargetObjectType)
        } else if number == 3 {
            Some(ErrorCode::UnknownObjectInstance)
        } else if number == 4 {
            Some(ErrorCode::UnknownAttributeName)
        } else if number == 5 {
            Some(ErrorCode::ReadonlyAttributeAccessDenied)
        } else if number == 6 {
            Some(ErrorCode::UnknownObjectType)
        } else if number == 7 {
            Some(ErrorCode::InvalidAttributeValue)
        } else if number == 8 {
            Some(ErrorCode::SyntaxError)
        } else if number == 9 {
            Some(ErrorCode::VerificationError)
        } else if number == 10 {
            Some(ErrorCode::ValidationError)
        } else if number == 11 {
            Some(ErrorCode::ObjectIdentifierInUse)
        } else if number == 12 {
            Some(ErrorCode::ParametersImproperlySpecified)
        } else if number == 13 {
            Some(ErrorCode::InsufficientParametersSpecified)
        } else if number == 14 {
            Some(ErrorCode::UnsupportedOptionRequested)
        } else if number == 15 {
            Some(ErrorCode::Busy)
        } else if number == 16 {
            Some(ErrorCode::NotAvailableForProcessing)
        } else if number == 17 {
            Some(ErrorCode::CommandNotValidForCurrentState)
        } else if number == 18 {
            Some(ErrorCode::NoMaterialAltered)
        } else if number == 19 {
            Some(ErrorCode::MaterialPartiallyProcessed)
        } else if number == 20 {
            Some(ErrorCode::AllMaterialProcessed)
        } else if number == 21 {
            Some(ErrorCode::RecipeSpecificationError)
        } else if number == 22 {
            Some(ErrorCode::FailedDuringProcessing)
        } else if number == 23 {
            Some(ErrorCode::FailedWhileNotProcessing)
        } else if number == 24 {
            Some(ErrorCode::FailedDueToLackOfMaterial)
        } else if number == 25 {
            Some(ErrorCode::JobAborted)
        } else if number == 26 {
            Some(ErrorCode::JobStopped)
        } else if number == 27 {
            Some(ErrorCode::JobCancelled)
        } else if number == 28 {
            Some(ErrorCode::CannotChangeSelectedRecipe)
        } else if number == 29 {
            Some(ErrorCode::UnknownEvent)
        } else if number == 30 {
            Some(ErrorCode::DuplicateReportID)
        } else if number == 31 {
            Some(ErrorCode::UnknownDataReport)
        } else if number == 32 {
            Some(ErrorCode::DataReportNotLinked)
        } else if number == 33 {
            Some(ErrorCode::UnknownTraceReport)
        } else if number == 34 {
            Some(ErrorCode::DuplicateTraceID)
        } else if number == 35 {
            Some(ErrorCode::TooManyDataReports)
        } else if number == 36 {
            Some(ErrorCode::SamplePeriodOutOfRange)
        } else if number == 37 {
            Some(ErrorCode::GroupSizeTooLarge)
        } else if number == 38 {
            Some(ErrorCode::RecoveryActionCurrentlyInvalid)
        } else if number == 39 {
            Some(ErrorCode::BusyWithAnotherRecovery)
        } else if number == 40 {
            Some(ErrorCode::NoActiveRecoveryAction)
        } else if number == 41 {
            Some(ErrorCode::ExceptionRecoveryFailed)
        } else if number == 42 {
            Some(ErrorCode::ExceptionRecoveryAborted)
        } else if number == 43 {
            Some(ErrorCode::InvalidTableElement)
        } else if number == 44 {
            Some(ErrorCode::UnknownTableElement)
        } else if number == 45 {
            Some(ErrorCode::CannotDeletePredefined)
        } else if number == 46 {
            Some(ErrorCode::InvalidToken)
        } else if number == 47 {
            Some(ErrorCode::InvalidParameter)
        } else if number == 48 {
            Some(ErrorCode::LoadPortDoesNotExist)
        } else if number == 49 {
            Some(ErrorCode::LoadPortAlreadyInUse)
        } else if number == 50 {
            Some(ErrorCode::MissingCarrier)
        } else if number == 32768 {
            Some(ErrorCode::ActionWillBePerformed)
        } else if number == 32769 {
            Some(ErrorCode::ActionCannotBePerformedNow)
        } else if number == 32770 {
            Some(ErrorCode::ActionFailedDueToErrors)
        } else if number == 32771 {
            Some(ErrorCode::InvalidCommand)
        } else if number == 32772 {
            Some(ErrorCode::ClientAlr)
        } else if number == 32773 {
            Some(ErrorCode::DuplicateClientID)
        } else if number == 32774 {
            Some(ErrorCode::InvalidClientType)
        } else if number == 32775 {
            Some(ErrorCode::IncompatibleVersions)
        } else if number == 32776 {
            Some(ErrorCode::UnrecognizedClientID)
        } else if number == 32777 {
            Some(ErrorCode::FailedCompletedUnsuccessfully)
        } else if number == 32778 {
            Some(ErrorCode::FailedUnsafe)
        } else if number == 32779 {
            Some(ErrorCode::SensorDetectedObstacle)
        } else if number == 32780 {
            Some(ErrorCode::MaterialNotSent)
        } else if number == 32781 {
            Some(ErrorCode::MaterialNotReceived)
        } else if number == 32782 {
            Some(ErrorCode::MaterialLost)
        } else if number == 32783 {
            Some(ErrorCode::HardwareFailure)
        } else if number == 32784 {
            Some(ErrorCode::TransferCancelled)
        } else {
            None
        }
    }

    /// The number that a code stands for.
    pub fn into_primitive(self) -> (r: u64)
        ensures
            r == self.number(),
    {
        match self {
            ErrorCode::NoError => 0,
            ErrorCode::UnknownObjectInObjectSpecifier => 1,
            ErrorCode::UnknownTargetObjectType => 2,
            ErrorCode::UnknownObjectInstance => 3,
            ErrorCode::UnknownAttributeName => 4,
            ErrorCode::ReadonlyAttributeAccessDenied => 5,
            ErrorCode::UnknownObjectType => 6,
            ErrorCode::InvalidAttributeValue => 7,
            ErrorCode::SyntaxError => 8,
            ErrorCode::VerificationError => 9,
            ErrorCode::ValidationError => 10,
            ErrorCode::ObjectIdentifierInUse => 11,
            ErrorCode::ParametersImproperlySpecified => 12,
            ErrorCode::InsufficientParametersSpecified => 13,
            ErrorCode::UnsupportedOptionRequested => 14,
            ErrorCode::Busy => 15,
            ErrorCode::NotAvailableForProcessing => 16,
            ErrorCode::CommandNotValidForCurrentState => 17,
            ErrorCode::NoMaterialAltered => 18,
            ErrorCode::MaterialPartiallyProcessed => 19,
            ErrorCode::AllMaterialProcessed => 20,
            ErrorCode::RecipeSpecificationError => 21,
            ErrorCode::FailedDuringProcessing => 22,
            ErrorCode::FailedWhileNotProcessing => 23,
            ErrorCode::FailedDueToLackOfMaterial => 24,
            ErrorCode::JobAborted => 25,
            ErrorCode::JobStopped => 26,
            ErrorCode::JobCancelled => 27,
            ErrorCode::CannotChangeSelectedRecipe => 28,
            ErrorCode::UnknownEvent => 29,
            ErrorCode::DuplicateReportID => 30,
            ErrorCode::UnknownDataReport => 31,
            ErrorCode::DataReportNotLinked => 32,
            ErrorCode::UnknownTraceReport => 33,
            ErrorCode::DuplicateTraceID => 34,
            ErrorCode::TooManyDataReports => 35,
            ErrorCode::SamplePeriodOutOfRange => 36,
            ErrorCode::GroupSizeTooLarge => 37,
            ErrorCode::RecoveryActionCurrentlyInvalid => 38,
            ErrorCode::BusyWithAnotherRecovery => 39,
            ErrorCode::NoActiveRecoveryAction => 40,
            ErrorCode::ExceptionRecoveryFailed => 41,
            ErrorCode::ExceptionRecoveryAborted => 42,
            ErrorCode::InvalidTableElement => 43,
            ErrorCode::UnknownTableElement => 44,
            ErrorCode::CannotDeletePredefined => 45,
            ErrorCode::InvalidToken => 46,
            ErrorCode::InvalidParameter => 47,
            ErrorCode::LoadPortDoesNotExist => 48,
            ErrorCode::LoadPortAlreadyInUse => 49,
            ErrorCode::MissingCarrier => 50,
            ErrorCode::ActionWillBePerformed => 32768,
            ErrorCode::ActionCannotBePerformedNow => 32769,
            ErrorCode::ActionFailedDueToErrors => 32770,
            ErrorCode::InvalidCommand => 32771,
            ErrorCode::ClientAlr => 32772,
            ErrorCode::DuplicateClientID => 32773,
            ErrorCode::InvalidClientType => 32774,
            ErrorCode::IncompatibleVersions => 32775,
            ErrorCode::UnrecognizedClientID => 32776,
            ErrorCode::FailedCompletedUnsuccessfully => 32777,
            ErrorCode::FailedUnsafe => 32778,
            ErrorCode::SensorDetectedObstacle => 32779,
            ErrorCode::MaterialNotSent => 32780,
            ErrorCode::MaterialNotReceived => 32781,
            ErrorCode::MaterialLost => 32782,
            ErrorCode::HardwareFailure => 32783,
            ErrorCode::TransferCancelled => 32784,
        }
    }

    /// The code that a number stands for, if it has a name.
    pub fn try_from_primitive(number: u64) -> (r: Option<ErrorCode>)
        ensures
            r == Self::named(number),
    {
        match number {
            0 => Some(ErrorCode::NoError),
            1 => Some(ErrorCode::UnknownObjectInObjectSpecifier),
            2 => Some(ErrorCode::UnknownTargetObjectType),
            3 => Some(ErrorCode::UnknownObjectInstance),
            4 => Some(ErrorCode::UnknownAttributeName),
            5 => Some(ErrorCode::ReadonlyAttributeAccessDenied),
            6 => Some(ErrorCode::UnknownObjectType),
            7 => Some(ErrorCode::InvalidAttributeValue),
            8 => Some(ErrorCode::SyntaxError),
            9 => Some(ErrorCode::VerificationError),
            10 => Some(ErrorCode::ValidationError),
            11 => Some(ErrorCode::ObjectIdentifierInUse),
            12 => Some(ErrorCode::ParametersImproperlySpecified),
            13 => Some(ErrorCode::InsufficientParametersSpecified),
            14 => Some(ErrorCode::UnsupportedOptionRequested),
            15 => Some(ErrorCode::Busy),
            16 => Some(ErrorCode::NotAvailableForProcessing),
            17 => Some(ErrorCode::CommandNotValidForCurrentState),
            18 => Some(ErrorCode::NoMaterialAltered),
            19 => Some(ErrorCode::MaterialPartiallyProcessed),
            20 => Some(ErrorCode::AllMaterialProcessed),
            21 => Some(ErrorCode::RecipeSpecificationError),
            22 => Some(ErrorCode::FailedDuringProcessing),
            23 => Some(ErrorCode::FailedWhileNotProcessing),
            24 => Some(ErrorCode::FailedDueToLackOfMaterial),
            25 => Some(ErrorCode::JobAborted),
            26 => Some(ErrorCode::JobStopped),
            27 => Some(ErrorCode::JobCancelled),
            28 => Some(ErrorCode::CannotChangeSelectedRecipe),
            29 => Some(ErrorCode::UnknownEvent),
            30 => Some(ErrorCode::DuplicateReportID),
            31 => Some(ErrorCode::UnknownDataReport),
            32 => Some(ErrorCode::DataReportNotLinked),
            33 => Some(ErrorCode::UnknownTraceReport),
            34 => Some(ErrorCode::DuplicateTraceID),
            35 => Some(ErrorCode::TooManyDataReports),
            36 => Some(ErrorCode::SamplePeriodOutOfRange),
            37 => Some(ErrorCode::GroupSizeTooLarge),
            38 => Some(ErrorCode::RecoveryActionCurrentlyInvalid),
            39 => Some(ErrorCode::BusyWithAnotherRecovery),
            40 => Some(ErrorCode::NoActiveRecoveryAction),
            41 => Some(ErrorCode::ExceptionRecoveryFailed),
            42 => Some(ErrorCode::ExceptionRecoveryAborted),
            43 => Some(ErrorCode::InvalidTableElement),
            44 => Some(ErrorCode::UnknownTableElement),
            45 => Some(ErrorCode::CannotDeletePredefined),
            46 => Some(ErrorCode::InvalidToken),
            47 => Some(ErrorCode::InvalidParameter),
            48 => Some(ErrorCode::LoadPortDoesNotExist),
            49 => Some(ErrorCode::LoadPortAlreadyInUse),
            50 => Some(ErrorCode::MissingCarrier),
            32768 => Some(ErrorCode::ActionWillBePerformed),
            32769 => Some(ErrorCode::ActionCannotBePerformedNow),
            32770 => Some(ErrorCode::ActionFailedDueToErrors),
            32771 => Some(ErrorCode::InvalidCommand),
            32772 => Some(ErrorCode::ClientAlr),
            32773 => Some(ErrorCode::DuplicateClientID),
            32774 => Some(ErrorCode::InvalidClientType),
            32775 => Some(ErrorCode::IncompatibleVersions),
            32776 => Some(ErrorCode::UnrecognizedClientID),
            32777 => Some(ErrorCode::FailedCompletedUnsuccessfully),
            32778 => Some(ErrorCode::FailedUnsafe),
            32779 => Some(ErrorCode::SensorDetectedObstacle),
            32780 => Some(ErrorCode::MaterialNotSent),
            32781 => Some(ErrorCode::MaterialNotReceived),
            32782 => Some(ErrorCode::MaterialLost),
            32783 => Some(ErrorCode::HardwareFailure),
            32784 => Some(ErrorCode::TransferCancelled),
            _ => None,
        }
    }

    /// The number of a code names that code, and a number that names a code
    /// is the number of that code.
    pub proof fn lemma_numbers_and_names(value: ErrorCode, number: u64)
        ensures
            Self::named(value.number()) == Some(value),
            Self::named(number) matches Some(named) ==> named.number() == number,
    {
    }
}

/// The number that an item of one unsigned integer holds; none for any other
/// item.
pub open spec fn unsigned_number(item: ItemView) -> Option<u64> {
    match item {
        ItemView::U1(numbers) => if numbers.len() == 1 {
            Some(numbers[0] as u64)
        } else {
            None
        },
        ItemView::U2(numbers) => if numbers.len() == 1 {
            Some(numbers[0] as u64)
        } else {
            None
        },
        ItemView::U4(numbers) => if numbers.len() == 1 {
            Some(numbers[0] as u64)
        } else {
            None
        },
        ItemView::U8(numbers) => if numbers.len() == 1 {
            Some(numbers[0])
        } else {
            None
        },
        _ => None,
    }
}

/// An error code is written as the shortest unsigned integer of one, two or
/// eight bytes that holds its number, and read from an unsigned integer of
/// any length.
impl ItemFormat for ErrorCode {
    open spec fn item(self) -> ItemView {
        let number = self.number();
        if number < 256 {
            ItemView::U1(seq![number as u8])
        } else if number < 65536 {
            ItemView::U2(seq![number as u16])
        } else {
            ItemView::U8(seq![number])
        }
    }

    open spec fn accepts(item: ItemView) -> bool {
        unsigned_number(item) matches Some(number) && Self::named(number) is Some
    }

    open spec fn reads(item: ItemView, value: Self) -> bool {
        unsigned_number(item) == Some(value.number())
    }

    open spec fn valid(self) -> bool {
        true
    }

    proof fn lemma_round_trip(self) {
    }

    fn into_item(self) -> (r: Item) {
        let number = self.into_primitive();
        if number < 256 {
            Item::U1(single(number as u8))
        } else if number < 65536 {
            Item::U2(single(number as u16))
        } else {
            Item::U8(single(number))
        }
    }

    fn try_from_item(item: Item) -> (r: Result<Self, Error>) {
        let number: Option<u64> = match item {
            Item::U1(numbers) => match only(&numbers) {
                Some(number) => Some(number as u64),
                None => None,
            },
            Item::U2(numbers) => match only(&numbers) {
                Some(number) => Some(number as u64),
                None => None,
            },
            Item::U4(numbers) => match only(&numbers) {
                Some(number) => Some(number as u64),
                None => None,
            },
            Item::U8(numbers) => only(&numbers),
            _ => None,
        };
        match number {
            Some(number) => match ErrorCode::try_from_primitive(number) {
                Some(value) => Ok(value),
                None => Err(Error::WrongFormat),
            },
            None => Err(Error::WrongFormat),
        }
    }
}

/// ## ERACK
///
/// **Enable/Disable Event Report Acknowledge Code**
#[derive(Clone, Copy, Debug, PartialEq, Eq, Structural)]
pub enum EnableDisableEventReportAcknowledgeCode {
    Okay,
    CollectionEventDoesNotExist,
}

impl Enumeration for EnableDisableEventReportAcknowledgeCode {
    open spec fn number(self) -> u8 {
        match self {
            EnableDisableEventReportAcknowledgeCode::Okay => 0,
            EnableDisableEventReportAcknowledgeCode::CollectionEventDoesNotExist => 1,
        }
    }

    open spec fn named(number: u8) -> Option<Self> {
        if number == 0 {
            Some(EnableDisableEventReportAcknowledgeCode::Okay)
        } else if number == 1 {
            Some(EnableDisableEventReportAcknowledgeCode::CollectionEventDoesNotExist)
        } else {
            None
        }
    }

    open spec fn binary() -> bool {
        true
    }

    fn into_primitive(self) -> (r: u8) {
        match self {
            EnableDisableEventReportAcknowledgeCode::Okay => 0,
            EnableDisableEventReportAcknowledgeCode::CollectionEventDoesNotExist => 1,
        }
    }

    fn try_from_primitive(number: u8) -> (r: Option<Self>) {
        match number {
            0 => Some(EnableDisableEventReportAcknowledgeCode::Okay),
            1 => Some(EnableDisableEventReportAcknowledgeCode::CollectionEventDoesNotExist),
            _ => None,
        }
    }

    fn is_binary() -> (r: bool) {
        true
    }

    proof fn lemma_number_names_value(self) {
    }

    proof fn lemma_named_has_number(number: u8) {
    }
}

impl ItemFormat for EnableDisableEventReportAcknowledgeCode {
    open spec fn item(self) -> ItemView {
        enumeration_item(self)
    }

    open spec fn accepts(item: ItemView) -> bool {
        enumeration_accepts::<EnableDisableEventReportAcknowledgeCode>(item)
    }

    open spec fn reads(item: ItemView, value: Self) -> bool {
        item == value.item()
    }

    open spec fn valid(self) -> bool {
        true
    }

    proof fn lemma_round_trip(self) {
        lemma_enumeration_round_trip(self);
    }

    fn into_item(self) -> (r: Item) {
        enumeration_into_item(self)
    }

    fn try_from_item(item: Item) -> (r: Result<Self, Error>) {
        enumeration_try_from_item(item)
    }
}

/// ## ERRTEXT
///
/// Text string describing the error noted in the corresponding ERRCODE.
///
/// Maximum 120 characters.
#[derive(Debug, PartialEq, Eq)]
pub struct ErrorText(Vec<Char>);

impl View for ErrorText {
    type V = Seq<Char>;

    closed spec fn view(&self) -> Seq<Char> {
        self.0@
    }
}

impl ErrorText {
    #[verifier::type_invariant]
    spec fn within_limits(self) -> bool {
        Self::allows(self.0@.len())
    }

    /// Whether the item may have a given length: at most 120 characters.
    pub open spec fn allows(length: nat) -> bool {
        length <= 120
    }

    /// Makes the item from its characters, where their number is allowed.
    pub fn new(vec: Vec<Char>) -> (r: Option<Self>)
        ensures
            Self::allows(vec@.len()) ==> (r matches Some(value) && value@ == vec@),
            !Self::allows(vec@.len()) ==> r is None,
    {
        if vec.len() <= 120 {
            Some(ErrorText(vec))
        } else {
            None
        }
    }

    /// The characters of the item.
    pub fn read(&self) -> (r: &Vec<Char>)
        ensures
            r@ == self@,
            Self::allows(r@.len()),
    {
        proof {
            use_type_invariant(self);
        }
        &self.0
    }
}

impl ItemFormat for ErrorText {
    open spec fn item(self) -> ItemView {
        ItemView::Ascii(self@)
    }

    open spec fn accepts(item: ItemView) -> bool {
        item matches ItemView::Ascii(chars) && Self::allows(chars.len())
    }

    open spec fn reads(item: ItemView, value: Self) -> bool {
        item == value.item()
    }

    open spec fn valid(self) -> bool {
        Self::allows(self@.len())
    }

    proof fn lemma_round_trip(self) {
    }

    fn into_item(self) -> (r: Item) {
        Item::Ascii(self.0)
    }

    fn try_from_item(item: Item) -> (r: Result<Self, Error>) {
        match item {
            Item::Ascii(vec) => match ErrorText::new(vec) {
                Some(value) => Ok(value),
                None => Err(Error::WrongFormat),
            },
            _ => Err(Error::WrongFormat),
        }
    }
}

/// ## FCNID
///
/// **Function ID**
#[derive(Clone, Copy, Debug, PartialEq, Eq, Structural)]
pub struct FunctionID(pub u8);

impl ItemFormat for FunctionID {
    open spec fn item(self) -> ItemView {
        ItemView::U1(seq![self.0])
    }

    open spec fn accepts(item: ItemView) -> bool {
        item matches ItemView::U1(values) && values.len() == 1
    }

    open spec fn reads(item: ItemView, value: Self) -> bool {
        item == value.item()
    }

    open spec fn valid(self) -> bool {
        true
    }

    proof fn lemma_round_trip(self) {
    }

    fn into_item(self) -> (r: Item) {
        Item::U1(single(self.0))
    }

    fn try_from_item(item: Item) -> (r: Result<Self, Error>) {
        match item {
            Item::U1(values) => match only(&values) {
                Some(value) => Ok(FunctionID(value)),
                None => Err(Error::WrongFormat),
            },
            _ => Err(Error::WrongFormat),
        }
    }
}

/// ## GRANT
///
/// Grant code, 1 byte.
#[derive(Clone, Copy, Debug, PartialEq, Eq, Structural)]
pub enum Grant {
    Granted,
    Busy,
    NoSpaceAvailable,
    DuplicateDataID,
}

impl Enumeration for Grant {
    open spec fn number(self) -> u8 {
        match self {
            Grant::Granted => 0,
            Grant::Busy => 1,
            Grant::NoSpaceAvailable => 2,
            Grant::DuplicateDataID => 3,
        }
    }

    open spec fn named(number: u8) -> Option<Self> {
        if number == 0 {
            Some(Grant::Granted)
        } else if number == 1 {
            Some(Grant::Busy)
        } else if number == 2 {
            Some(Grant::NoSpaceAvailable)
        } else if number == 3 {
            Some(Grant::DuplicateDataID)
        } else {
            None
        }
    }

    open spec fn binary() -> bool {
        true
    }

    fn into_primitive(self) -> (r: u8) {
        match self {
            Grant::Granted => 0,
            Grant::Busy => 1,
            Grant::NoSpaceAvailable => 2,
            Grant::DuplicateDataID => 3,
        }
    }

    fn try_from_primitive(number: u8) -> (r: Option<Self>) {
        match number {
            0 => Some(Grant::Granted),
            1 => Some(Grant::Busy),
            2 => Some(Grant::NoSpaceAvailable),
            3 => Some(Grant::DuplicateDataID),
            _ => None,
        }
    }

    fn is_binary() -> (r: bool) {
        true
    }

    proof fn lemma_number_names_value(self) {
    }

    proof fn lemma_named_has_number(number: u8) {
    }
}

impl ItemFormat for Grant {
    open spec fn item(self) -> ItemView {
        enumeration_item(self)
    }

    open spec fn accepts(item: ItemView) -> bool {
        enumeration_accepts::<Grant>(item)
    }

    open spec fn reads(item: ItemView, value: Self) -> bool {
        item == value.item()
    }

    open spec fn valid(self) -> bool {
        true
    }

    proof fn lemma_round_trip(self) {
        lemma_enumeration_round_trip(self);
    }

    fn into_item(self) -> (r: Item) {
        enumeration_into_item(self)
    }

    fn try_from_item(item: Item) -> (r: Result<Self, Error>) {
        enumeration_try_from_item(item)
    }
}

/// ## HCACK
///
/// **Host Command Parameter Acknowledge Code**
#[derive(Clone, Copy, Debug, PartialEq, Eq, Structural)]
pub enum HostCommandAcknowledgeCode {
    Okay,
    CommandDoesNotExist,
    CannotPerformNow,
    ParameterInvalid,
    ToBeCompleted,
    AlreadyInDesiredCondition,
    ObjectDoesNotExist,
}

impl Enumeration for HostCommandAcknowledgeCode {
    open spec fn number(self) -> u8 {
        match self {
            HostCommandAcknowledgeCode::Okay => 0,
            HostCommandAcknowledgeCode::CommandDoesNotExist => 1,
            HostCommandAcknowledgeCode::CannotPerformNow => 2,
            HostCommandAcknowledgeCode::ParameterInvalid => 3,
            HostCommandAcknowledgeCode::ToBeCompleted => 4,
            HostCommandAcknowledgeCode::AlreadyInDesiredCondition => 5,
            HostCommandAcknowledgeCode::ObjectDoesNotExist => 6,
        }
    }

    open spec fn named(number: u8) -> Option<Self> {
        if number == 0 {
            Some(HostCommandAcknowledgeCode::Okay)
        } else if number == 1 {
            Some(HostCommandAcknowledgeCode::CommandDoesNotExist)
        } else if number == 2 {
            Some(HostCommandAcknowledgeCode::CannotPerformNow)
        } else if number == 3 {
            Some(HostCommandAcknowledgeCode::ParameterInvalid)
        } else if number == 4 {
            Some(HostCommandAcknowledgeCode::ToBeCompleted)
        } else if number == 5 {
            Some(HostCommandAcknowledgeCode::AlreadyInDesiredCondition)
        } else if number == 6 {
            Some(HostCommandAcknowledgeCode::ObjectDoesNotExist)
        } else {
            None
        }
    }

    open spec fn binary() -> bool {
        true
    }

    fn into_primitive(self) -> (r: u8) {
        match self {
            HostCommandAcknowledgeCode::Okay => 0,
            HostCommandAcknowledgeCode::CommandDoesNotExist => 1,
            HostCommandAcknowledgeCode::CannotPerformNow => 2,
            HostCommandAcknowledgeCode::ParameterInvalid => 3,
            HostCommandAcknowledgeCode::ToBeCompleted => 4,
            HostCommandAcknowledgeCode::AlreadyInDesiredCondition => 5,
            HostCommandAcknowledgeCode::ObjectDoesNotExist => 6,
        }
    }

    fn try_from_primitive(number: u8) -> (r: Option<Self>) {
        match number {
            0 => Some(HostCommandAcknowledgeCode::Okay),
            1 => Some(HostCommandAcknowledgeCode::CommandDoesNotExist),
            2 => Some(HostCommandAcknowledgeCode::CannotPerformNow),
            3 => Some(HostCommandAcknowledgeCode::ParameterInvalid),
            4 => Some(HostCommandAcknowledgeCode::ToBeCompleted),
            5 => Some(HostCommandAcknowledgeCode::AlreadyInDesiredCondition),
            6 => Some(HostCommandAcknowledgeCode::ObjectDoesNotExist),
            _ => None,
        }
    }

    fn is_binary() -> (r: bool) {
        true
    }

    proof fn lemma_number_names_value(self) {
    }

    proof fn lemma_named_has_number(number: u8) {
    }
}

impl ItemFormat for HostCommandAcknowledgeCode {
    open spec fn item(self) -> ItemView {
        enumeration_item(self)
    }

    open spec fn accepts(item: ItemView) -> bool {
        enumeration_accepts::<HostCommandAcknowledgeCode>(item)
    }

    open spec fn reads(item: ItemView, value: Self) -> bool {
        item == value.item()
    }

    open spec fn valid(self) -> bool {
        true
    }

    proof fn lemma_round_trip(self) {
        lemma_enumeration_round_trip(self);
    }

    fn into_item(self) -> (r: Item) {
        enumeration_into_item(self)
    }

    fn try_from_item(item: Item) -> (r: Result<Self, Error>) {
        enumeration_try_from_item(item)
    }
}

/// ## INPTN
///
/// **Input Port Number**
///
/// Specialized version of PTN indicating the input port.
pub type InputPortNumber = PortNumber;

/// ## JOBACTION
///
/// **Job Action**
///
/// Specifies the action of a reticle transfer job.
#[derive(Clone, Debug, PartialEq, Eq)]
pub struct JobAction(pub Vec<Char>);

impl ItemFormat for JobAction {
    open spec fn item(self) -> ItemView {
        ItemView::Ascii(self.0@)
    }

    open spec fn accepts(item: ItemView) -> bool {
        item is Ascii
    }

    open spec fn reads(item: ItemView, value: Self) -> bool {
        item == value.item()
    }

    open spec fn valid(self) -> bool {
        true
    }

    proof fn lemma_round_trip(self) {
    }

    fn into_item(self) -> (r: Item) {
        Item::Ascii(self.0)
    }

    fn try_from_item(item: Item) -> (r: Result<Self, Error>) {
        match item {
            Item::Ascii(values) => Ok(JobAction(values)),
            _ => Err(Error::WrongFormat),
        }
    }
}

/// ## LENGTH
///
/// Length of the service program or process program in bytes.
#[derive(Clone, Copy, Debug, PartialEq, Eq, Structural)]
pub enum Length {
    I1(i8),
    I2(i16),
    I4(i32),
    I8(i64),
    U1(u8),
    U2(u16),
    U4(u32),
    U8(u64),
}

impl ItemFormat for Length {
    open spec fn item(self) -> ItemView {
        match self {
            Length::I1(value) => ItemView::I1(seq![value]),
            Length::I2(value) => ItemView::I2(seq![value]),
            Length::I4(value) => ItemView::I4(seq![value]),
            Length::I8(value) => ItemView::I8(seq![value]),
            Length::U1(value) => ItemView::U1(seq![value]),
            Length::U2(value) => ItemView::U2(seq![value]),
            Length::U4(value) => ItemView::U4(seq![value]),
            Length::U8(value) => ItemView::U8(seq![value]),
        }
    }

    open spec fn accepts(item: ItemView) -> bool {
        match item {
            ItemView::I1(values) => values.len() == 1,
            ItemView::I2(values) => values.len() == 1,
            ItemView::I4(values) => values.len() == 1,
            ItemView::I8(values) => values.len() == 1,
            ItemView::U1(values) => values.len() == 1,
            ItemView::U2(values) => values.len() == 1,
            ItemView::U4(values) => values.len() == 1,
            ItemView::U8(values) => values.len() == 1,
            _ => false,
        }
    }

    open spec fn reads(item: ItemView, value: Self) -> bool {
        item == value.item()
    }

    open spec fn valid(self) -> bool {
        true
    }

    proof fn lemma_round_trip(self) {
    }

    fn into_item(self) -> (r: Item) {
        match self {
            Length::I1(value) => Item::I1(single(value)),
            Length::I2(value) => Item::I2(single(value)),
            Length::I4(value) => Item::I4(single(value)),
            Length::I8(value) => Item::I8(single(value)),
            Length::U1(value) => Item::U1(single(value)),
            Length::U2(value) => Item::U2(single(value)),
            Length::U4(value) => Item::U4(single(value)),
            Length::U8(value) => Item::U8(single(value)),
        }
    }

    fn try_from_item(item: Item) -> (r: Result<Self, Error>) {
        match item {
            Item::I1(values) => match only(&values) {
                Some(value) => Ok(Length::I1(value)),
                None => Err(Error::WrongFormat),
            },
            Item::I2(values) => match only(&values) {
                Some(value) => Ok(Length::I2(value)),
                None => Err(Error::WrongFormat),
            },
            Item::I4(values) => match only(&values) {
                Some(value) => Ok(Length::I4(value)),
                None => Err(Error::WrongFormat),
            },
            Item::I8(values) => match only(&values) {
                Some(value) => Ok(Length::I8(value)),
                None => Err(Error::WrongFormat),
            },
            Item::U1(values) => match only(&values) {
                Some(value) => Ok(Length::U1(value)),
                None => Err(Error::WrongFormat),
            },
            Item::U2(values) => match only(&values) {
                Some(value) => Ok(Length::U2(value)),
                None => Err(Error::WrongFormat),
            },
            Item::U4(values) => match only(&values) {
                Some(value) => Ok(Length::U4(value)),
                None => Err(Error::WrongFormat),
            },
            Item::U8(values) => match only(&values) {
                Some(value) => Ok(Length::U8(value)),
                None => Err(Error::WrongFormat),
            },
            _ => Err(Error::WrongFormat),
        }
    }
}

/// ## LIMITACK
///
/// **Variable Limit Attribute Set Acknowledge Code**
#[derive(Clone, Copy, Debug, PartialEq, Eq, Structural)]
pub enum VariableLimitAttributeSetAcknowledgeCode {
    LimitIDDoesNotExist,
    UpperDeadbandGreaterThanLimitMax,
    LowerDeadbandLessThanLimitMin,
    UpperDeadbandLessThanLowerDeadband,
    IllegalFormat,
    AsciiValueNonNumeric,
    DuplicateLimitDefinition,
}

impl Enumeration for VariableLimitAttributeSetAcknowledgeCode {
    open spec fn number(self) -> u8 {
        match self {
            VariableLimitAttributeSetAcknowledgeCode::LimitIDDoesNotExist => 1,
            VariableLimitAttributeSetAcknowledgeCode::UpperDeadbandGreaterThanLimitMax => 2,
            VariableLimitAttributeSetAcknowledgeCode::LowerDeadbandLessThanLimitMin => 3,
            VariableLimitAttributeSetAcknowledgeCode::UpperDeadbandLessThanLowerDeadband => 4,
            VariableLimitAttributeSetAcknowledgeCode::IllegalFormat => 5,
            VariableLimitAttributeSetAcknowledgeCode::AsciiValueNonNumeric => 6,
            VariableLimitAttributeSetAcknowledgeCode::DuplicateLimitDefinition => 7,
        }
    }

    open spec fn named(number: u8) -> Option<Self> {
        if number == 1 {
            Some(VariableLimitAttributeSetAcknowledgeCode::LimitIDDoesNotExist)
        } else if number == 2 {
            Some(VariableLimitAttributeSetAcknowledgeCode::UpperDeadbandGreaterThanLimitMax)
        } else if number == 3 {
            Some(VariableLimitAttributeSetAcknowledgeCode::LowerDeadbandLessThanLimitMin)
        } else if number == 4 {
            Some(VariableLimitAttributeSetAcknowledgeCode::UpperDeadbandLessThanLowerDeadband)
        } else if number == 5 {
            Some(VariableLimitAttributeSetAcknowledgeCode::IllegalFormat)
        } else if number == 6 {
            Some(VariableLimitAttributeSetAcknowledgeCode::AsciiValueNonNumeric)
        } else if number == 7 {
            Some(VariableLimitAttributeSetAcknowledgeCode::DuplicateLimitDefinition)
        } else {
            None
        }
    }

    open spec fn binary() -> bool {
        true
    }

    fn into_primitive(self) -> (r: u8) {
        match self {
            VariableLimitAttributeSetAcknowledgeCode::LimitIDDoesNotExist => 1,
            VariableLimitAttributeSetAcknowledgeCode::UpperDeadbandGreaterThanLimitMax => 2,
            VariableLimitAttributeSetAcknowledgeCode::LowerDeadbandLessThanLimitMin => 3,
            VariableLimitAttributeSetAcknowledgeCode::UpperDeadbandLessThanLowerDeadband => 4,
            VariableLimitAttributeSetAcknowledgeCode::IllegalFormat => 5,
            VariableLimitAttributeSetAcknowledgeCode::AsciiValueNonNumeric => 6,
            VariableLimitAttributeSetAcknowledgeCode::DuplicateLimitDefinition => 7,
        }
    }

    fn try_from_primitive(number: u8) -> (r: Option<Self>) {
        match number {
            1 => Some(VariableLimitAttributeSetAcknowledgeCode::LimitIDDoesNotExist),
            2 => Some(VariableLimitAttributeSetAcknowledgeCode::UpperDeadbandGreaterThanLimitMax),
            3 => Some(VariableLimitAttributeSetAcknowledgeCode::LowerDeadbandLessThanLimitMin),
            4 => Some(VariableLimitAttributeSetAcknowledgeCode::UpperDeadbandLessThanLowerDeadband),
            5 => Some(VariableLimitAttributeSetAcknowledgeCode::IllegalFormat),
            6 => Some(VariableLimitAttributeSetAcknowledgeCode::AsciiValueNonNumeric),
            7 => Some(VariableLimitAttributeSetAcknowledgeCode::DuplicateLimitDefinition),
            _ => None,
        }
    }

    fn is_binary() -> (r: bool) {
        true
    }

    proof fn lemma_number_names_value(self) {
    }

    proof fn lemma_named_has_number(number: u8) {
    }
}

impl ItemFormat for VariableLimitAttributeSetAcknowledgeCode {
    open spec fn item(self) -> ItemView {
        enumeration_item(self)
    }

    open spec fn accepts(item: ItemView) -> bool {
        enumeration_accepts::<VariableLimitAttributeSetAcknowledgeCode>(item)
    }

    open spec fn reads(item: ItemView, value: Self) -> bool {
        item == value.item()
    }

    open spec fn valid(self) -> bool {
        true
    }

    proof fn lemma_round_trip(self) {
        lemma_enumeration_round_trip(self);
    }

    fn into_item(self) -> (r: Item) {
        enumeration_into_item(self)
    }

    fn try_from_item(item: Item) -> (r: Result<Self, Error>) {
        enumeration_try_from_item(item)
    }
}

/// ## LIMITID
///
/// **Limit Identifier**
#[derive(Clone, Copy, Debug, PartialEq, Eq, Structural)]
pub struct LimitID(pub u8);

impl ItemFormat for LimitID {
    open spec fn item(self) -> ItemView {
        ItemView::Bin(seq![self.0])
    }

    open spec fn accepts(item: ItemView) -> bool {
        item matches ItemView::Bin(values) && values.len() == 1
    }

    open spec fn reads(item: ItemView, value: Self) -> bool {
        item == value.item()
    }

    open spec fn valid(self) -> bool {
        true
    }

    proof fn lemma_round_trip(self) {
    }

    fn into_item(self) -> (r: Item) {
        Item::Bin(single(self.0))
    }

    fn try_from_item(item: Item) -> (r: Result<Self, Error>) {
        match item {
            Item::Bin(values) => match only(&values) {
                Some(value) => Ok(LimitID(value)),
                None => Err(Error::WrongFormat),
            },
            _ => Err(Error::WrongFormat),
        }
    }
}

/// ## LIMITMAX
///
/// **Limit Maximum**
#[derive(Clone, Debug, PartialEq, Eq)]
pub enum LimitMaximum {
    Bool(Vec<bool>),
    Ascii(Vec<Char>),
    I1(Vec<i8>),
    I2(Vec<i16>),
    I4(Vec<i32>),
    I8(Vec<i64>),
    U1(Vec<u8>),
    U2(Vec<u16>),
    U4(Vec<u32>),
    U8(Vec<u64>),
    /// Floating-point numbers, each held as the bits of its IEEE 754 encoding.
    F4(Vec<u32>),
    /// Floating-point numbers, each held as the bits of its IEEE 754 encoding.
    F8(Vec<u64>),
}

impl ItemFormat for LimitMaximum {
    open spec fn item(self) -> ItemView {
        match self {
            LimitMaximum::Bool(values) => ItemView::Bool(values@),
            LimitMaximum::Ascii(values) => ItemView::Ascii(values@),
            LimitMaximum::I1(values) => ItemView::I1(values@),
            LimitMaximum::I2(values) => ItemView::I2(values@),
            LimitMaximum::I4(values) => ItemView::I4(values@),
            LimitMaximum::I8(values) => ItemView::I8(values@),
            LimitMaximum::U1(values) => ItemView::U1(values@),
            LimitMaximum::U2(values) => ItemView::U2(values@),
            LimitMaximum::U4(values) => ItemView::U4(values@),
            LimitMaximum::U8(values) => ItemView::U8(values@),
            LimitMaximum::F4(values) => ItemView::F4(values@),
            LimitMaximum::F8(values) => ItemView::F8(values@),
        }
    }

    open spec fn accepts(item: ItemView) -> bool {
        match item {
            ItemView::Bool(_) => true,
            ItemView::Ascii(_) => true,
            ItemView::I1(_) => true,
            ItemView::I2(_) => true,
            ItemView::I4(_) => true,
            ItemView::I8(_) => true,
            ItemView::U1(_) => true,
            ItemView::U2(_) => true,
            ItemView::U4(_) => true,
            ItemView::U8(_) => true,
            ItemView::F4(_) => true,
            ItemView::F8(_) => true,
            _ => false,
        }
    }

    open spec fn reads(item: ItemView, value: Self) -> bool {
        item == value.item()
    }

    open spec fn valid(self) -> bool {
        true
    }

    proof fn lemma_round_trip(self) {
    }

    fn into_item(self) -> (r: Item) {
        match self {
            LimitMaximum::Bool(values) => Item::Bool(values),
            LimitMaximum::Ascii(values) => Item::Ascii(values),
            LimitMaximum::I1(values) => Item::I1(values),
            LimitMaximum::I2(values) => Item::I2(values),
            LimitMaximum::I4(values) => Item::I4(values),
            LimitMaximum::I8(values) => Item::I8(values),
            LimitMaximum::U1(values) => Item::U1(values),
            LimitMaximum::U2(values) => Item::U2(values),
            LimitMaximum::U4(values) => Item::U4(values),
            LimitMaximum::U8(values) => Item::U8(values),
            LimitMaximum::F4(values) => Item::F4(values),
            LimitMaximum::F8(values) => Item::F8(values),
        }
    }

    fn try_from_item(item: Item) -> (r: Result<Self, Error>) {
        match item {
            Item::Bool(values) => Ok(LimitMaximum::Bool(values)),
            Item::Ascii(values) => Ok(LimitMaximum::Ascii(values)),
            Item::I1(values) => Ok(LimitMaximum::I1(values)),
            Item::I2(values) => Ok(LimitMaximum::I2(values)),
            Item::I4(values) => Ok(LimitMaximum::I4(values)),
            Item::I8(values) => Ok(LimitMaximum::I8(values)),
            Item::U1(values) => Ok(LimitMaximum::U1(values)),
            Item::U2(values) => Ok(LimitMaximum::U2(values)),
            Item::U4(values) => Ok(LimitMaximum::U4(values)),
            Item::U8(values) => Ok(LimitMaximum::U8(values)),
            Item::F4(values) => Ok(LimitMaximum::F4(values)),
            Item::F8(values) => Ok(LimitMaximum::F8(values)),
            _ => Err(Error::WrongFormat),
        }
    }
}

/// ## LIMITMIN
///
/// **Limit Minimum**
#[derive(Clone, Debug, PartialEq, Eq)]
pub enum LimitMinimum {
    Bool(Vec<bool>),
    Ascii(Vec<Char>),
    I1(Vec<i8>),
    I2(Vec<i16>),
    I4(Vec<i32>),
    I8(Vec<i64>),
    U1(Vec<u8>),
    U2(Vec<u16>),
    U4(Vec<u32>),
    U8(Vec<u64>),
    /// Floating-point numbers, each held as the bits of its IEEE 754 encoding.
    F4(Vec<u32>),
    /// Floating-point numbers, each held as the bits of its IEEE 754 encoding.
    F8(Vec<u64>),
}

impl ItemFormat for LimitMinimum {
    open spec fn item(self) -> ItemView {
        match self {
            LimitMinimum::Bool(values) => ItemView::Bool(values@),
            LimitMinimum::Ascii(values) => ItemView::Ascii(values@),
            LimitMinimum::I1(values) => ItemView::I1(values@),
            LimitMinimum::I2(values) => ItemView::I2(values@),
            LimitMinimum::I4(values) => ItemView::I4(values@),
            LimitMinimum::I8(values) => ItemView::I8(values@),
            LimitMinimum::U1(values) => ItemView::U1(values@),
            LimitMinimum::U2(values) => ItemView::U2(values@),
            LimitMinimum::U4(values) => ItemView::U4(values@),
            LimitMinimum::U8(values) => ItemView::U8(values@),
            LimitMinimum::F4(values) => ItemView::F4(values@),
            LimitMinimum::F8(values) => ItemView::F8(values@),
        }
    }

    open spec fn accepts(item: ItemView) -> bool {
        match item {
            ItemView::Bool(_) => true,
            ItemView::Ascii(_) => true,
            ItemView::I1(_) => true,
            ItemView::I2(_) => true,
            ItemView::I4(_) => true,
            ItemView::I8(_) => true,
            ItemView::U1(_) => true,
            ItemView::U2(_) => true,
            ItemView::U4(_) => true,
            ItemView::U8(_) => true,
            ItemView::F4(_) => true,
            ItemView::F8(_) => true,
            _ => false,
        }
    }

    open spec fn reads(item: ItemView, value: Self) -> bool {
        item == value.item()
    }

    open spec fn valid(self) -> bool {
        true
    }

    proof fn lemma_round_trip(self) {
    }

    fn into_item(self) -> (r: Item) {
        match self {
            LimitMinimum::Bool(values) => Item::Bool(values),
            LimitMinimum::Ascii(values) => Item::Ascii(values),
            LimitMinimum::I1(values) => Item::I1(values),
            LimitMinimum::I2(values) => Item::I2(values),
            LimitMinimum::I4(values) => Item::I4(values),
            LimitMinimum::I8(values) => Item::I8(values),
            LimitMinimum::U1(values) => Item::U1(values),
            LimitMinimum::U2(values) => Item::U2(values),
            LimitMinimum::U4(values) => Item::U4(values),
            LimitMinimum::U8(values) => Item::U8(values),
            LimitMinimum::F4(values) => Item::F4(values),
            LimitMinimum::F8(values) => Item::F8(values),
        }
    }

    fn try_from_item(item: Item) -> (r: Result<Self, Error>) {
        match item {
            Item::Bool(values) => Ok(LimitMinimum::Bool(values)),
            Item::Ascii(values) => Ok(LimitMinimum::Ascii(values)),
            Item::I1(values) => Ok(LimitMinimum::I1(values)),
            Item::I2(values) => Ok(LimitMinimum::I2(values)),
            Item::I4(values) => Ok(LimitMinimum::I4(values)),
            Item::I8(values) => Ok(LimitMinimum::I8(values)),
            Item::U1(values) => Ok(LimitMinimum::U1(values)),
            Item::U2(values) => Ok(LimitMinimum::U2(values)),
            Item::U4(values) => Ok(LimitMinimum::U4(values)),
            Item::U8(values) => Ok(LimitMinimum::U8(values)),
            Item::F4(values) => Ok(LimitMinimum::F4(values)),
            Item::F8(values) => Ok(LimitMinimum::F8(values)),
            _ => Err(Error::WrongFormat),
        }
    }
}

/// ## LOC
///
/// **Machine Material Location Code**
#[derive(Clone, Copy, Debug, PartialEq, Eq, Structural)]
pub struct LocationCode(pub u8);

impl ItemFormat for LocationCode {
    open spec fn item(self) -> ItemView {
        ItemView::Bin(seq![self.0])
    }

    open spec fn accepts(item: ItemView) -> bool {
        item matches ItemView::Bin(values) && values.len() == 1
    }

    open spec fn reads(item: ItemView, value: Self) -> bool {
        item == value.item()
    }

    open spec fn valid(self) -> bool {
        true
    }

    proof fn lemma_round_trip(self) {
    }

    fn into_item(self) -> (r: Item) {
        Item::Bin(single(self.0))
    }

    fn try_from_item(item: Item) -> (r: Result<Self, Error>) {
        match item {
            Item::Bin(values) => match only(&values) {
                Some(value) => Ok(LocationCode(value)),
                None => Err(Error::WrongFormat),
            },
            _ => Err(Error::WrongFormat),
        }
    }
}

/// ## LOCID
///
/// **Material Location Identifier**
#[derive(Clone, Debug, PartialEq, Eq)]
pub struct LocationID(pub Vec<Char>);

impl ItemFormat for LocationID {
    open spec fn item(self) -> ItemView {
        ItemView::Ascii(self.0@)
    }

    open spec fn accepts(item: ItemView) -> bool {
        item is Ascii
    }

    open spec fn reads(item: ItemView, value: Self) -> bool {
        item == value.item()
    }

    open spec fn valid(self) -> bool {
        true
    }

    proof fn lemma_round_trip(self) {
    }

    fn into_item(self) -> (r: Item) {
        Item::Ascii(self.0)
    }

    fn try_from_item(item: Item) -> (r: Result<Self, Error>) {
        match item {
            Item::Ascii(values) => Ok(LocationID(values)),
            _ => Err(Error::WrongFormat),
        }
    }
}

/// ## LOWERDB
///
/// **Lower Deadband**
///
/// Variable limit attribute which defines the lower boundary of the deadband
/// of a limit. The value applies to a single limit for a specified variable.
#[derive(Clone, Debug, PartialEq, Eq)]
pub enum LowerDeadband {
    Bool(Vec<bool>),
    Ascii(Vec<Char>),
    I1(Vec<i8>),
    I2(Vec<i16>),
    I4(Vec<i32>),
    I8(Vec<i64>),
    U1(Vec<u8>),
    U2(Vec<u16>),
    U4(Vec<u32>),
    U8(Vec<u64>),
    /// Floating-point numbers, each held as the bits of its IEEE 754 encoding.
    F4(Vec<u32>),
    /// Floating-point numbers, each held as the bits of its IEEE 754 encoding.
    F8(Vec<u64>),
}

impl ItemFormat for LowerDeadband {
    open spec fn item(self) -> ItemView {
        match self {
            LowerDeadband::Bool(values) => ItemView::Bool(values@),
            LowerDeadband::Ascii(values) => ItemView::Ascii(values@),
            LowerDeadband::I1(values) => ItemView::I1(values@),
            LowerDeadband::I2(values) => ItemView::I2(values@),
            LowerDeadband::I4(values) => ItemView::I4(values@),
            LowerDeadband::I8(values) => ItemView::I8(values@),
            LowerDeadband::U1(values) => ItemView::U1(values@),
            LowerDeadband::U2(values) => ItemView::U2(values@),
            LowerDeadband::U4(values) => ItemView::U4(values@),
            LowerDeadband::U8(values) => ItemView::U8(values@),
            LowerDeadband::F4(values) => ItemView::F4(values@),
            LowerDeadband::F8(values) => ItemView::F8(values@),
        }
    }

    open spec fn accepts(item: ItemView) -> bool {
        match item {
            ItemView::Bool(_) => true,
            ItemView::Ascii(_) => true,
            ItemView::I1(_) => true,
            ItemView::I2(_) => true,
            ItemView::I4(_) => true,
            ItemView::I8(_) => true,
            ItemView::U1(_) => true,
            ItemView::U2(_) => true,
            ItemView::U4(_) => true,
            ItemView::U8(_) => true,
            ItemView::F4(_) => true,
            ItemView::F8(_) => true,
            _ => false,
        }
    }

    open spec fn reads(item: ItemView, value: Self) -> bool {
        item == value.item()
    }

    open spec fn valid(self) -> bool {
        true
    }

    proof fn lemma_round_trip(self) {
    }

    fn into_item(self) -> (r: Item) {
        match self {
            LowerDeadband::Bool(values) => Item::Bool(values),
            LowerDeadband::Ascii(values) => Item::Ascii(values),
            LowerDeadband::I1(values) => Item::I1(values),
            LowerDeadband::I2(values) => Item::I2(values),
            LowerDeadband::I4(values) => Item::I4(values),
            LowerDeadband::I8(values) => Item::I8(values),
            LowerDeadband::U1(values) => Item::U1(values),
            LowerDeadband::U2(values) => Item::U2(values),
            LowerDeadband::U4(values) => Item::U4(values),
            LowerDeadband::U8(values) => Item::U8(values),
            LowerDeadband::F4(values) => Item::F4(values),
            LowerDeadband::F8(values) => Item::F8(values),
        }
    }

    fn try_from_item(item: Item) -> (r: Result<Self, Error>) {
        match item {
            Item::Bool(values) => Ok(LowerDeadband::Bool(values)),
            Item::Ascii(values) => Ok(LowerDeadband::Ascii(values)),
            Item::I1(values) => Ok(LowerDeadband::I1(values)),
            Item::I2(values) => Ok(LowerDeadband::I2(values)),
            Item::I4(values) => Ok(LowerDeadband::I4(values)),
            Item::I8(values) => Ok(LowerDeadband::I8(values)),
            Item::U1(values) => Ok(LowerDeadband::U1(values)),
            Item::U2(values) => Ok(LowerDeadband::U2(values)),
            Item::U4(values) => Ok(LowerDeadband::U4(values)),
            Item::U8(values) => Ok(LowerDeadband::U8(values)),
            Item::F4(values) => Ok(LowerDeadband::F4(values)),
            Item::F8(values) => Ok(LowerDeadband::F8(values)),
            _ => Err(Error::WrongFormat),
        }
    }
}

/// ## LRACK
///
/// **Link Report Acknowledge Code**
#[derive(Clone, Copy, Debug, PartialEq, Eq, Structural)]
pub enum LinkReportAcknowledgeCode {
    Okay,
    InsufficientSpace,
    InvalidFormat,
    CollectionEventLinkAlreadyDefined,
    CollectionEventDoesNotExist,
    ReportDoesNotExist,
}

impl Enumeration for LinkReportAcknowledgeCode {
    open spec fn number(self) -> u8 {
        match self {
            LinkReportAcknowledgeCode::Okay => 0,
            LinkReportAcknowledgeCode::InsufficientSpace => 1,
            LinkReportAcknowledgeCode::InvalidFormat => 2,
            LinkReportAcknowledgeCode::CollectionEventLinkAlreadyDefined => 3,
            LinkReportAcknowledgeCode::CollectionEventDoesNotExist => 4,
            LinkReportAcknowledgeCode::ReportDoesNotExist => 5,
        }
    }

    open spec fn named(number: u8) -> Option<Self> {
        if number == 0 {
            Some(LinkReportAcknowledgeCode::Okay)
        } else if number == 1 {
            Some(LinkReportAcknowledgeCode::InsufficientSpace)
        } else if number == 2 {
            Some(LinkReportAcknowledgeCode::InvalidFormat)
        } else if number == 3 {
            Some(LinkReportAcknowledgeCode::CollectionEventLinkAlreadyDefined)
        } else if number == 4 {
            Some(LinkReportAcknowledgeCode::CollectionEventDoesNotExist)
        } else if number == 5 {
            Some(LinkReportAcknowledgeCode::ReportDoesNotExist)
        } else {
            None
        }
    }

    open spec fn binary() -> bool {
        true
    }

    fn into_primitive(self) -> (r: u8) {
        match self {
            LinkReportAcknowledgeCode::Okay => 0,
            LinkReportAcknowledgeCode::InsufficientSpace => 1,
            LinkReportAcknowledgeCode::InvalidFormat => 2,
            LinkReportAcknowledgeCode::CollectionEventLinkAlreadyDefined => 3,
            LinkReportAcknowledgeCode::CollectionEventDoesNotExist => 4,
            LinkReportAcknowledgeCode::ReportDoesNotExist => 5,
        }
    }

    fn try_from_primitive(number: u8) -> (r: Option<Self>) {
        match number {
            0 => Some(LinkReportAcknowledgeCode::Okay),
            1 => Some(LinkReportAcknowledgeCode::InsufficientSpace),
            2 => Some(LinkReportAcknowledgeCode::InvalidFormat),
            3 => Some(LinkReportAcknowledgeCode::CollectionEventLinkAlreadyDefined),
            4 => Some(LinkReportAcknowledgeCode::CollectionEventDoesNotExist),
            5 => Some(LinkReportAcknowledgeCode::ReportDoesNotExist),
            _ => None,
        }
    }

    fn is_binary() -> (r: bool) {
        true
    }

    proof fn lemma_number_names_value(self) {
    }

    proof fn lemma_named_has_number(number: u8) {
    }
}

impl ItemFormat for LinkReportAcknowledgeCode {
    open spec fn item(self) -> ItemView {
        enumeration_item(self)
    }

    open spec fn accepts(item: ItemView) -> bool {
        enumeration_accepts::<LinkReportAcknowledgeCode>(item)
    }

    open spec fn reads(item: ItemView, value: Self) -> bool {
        item == value.item()
    }

    open spec fn valid(self) -> bool {
        true
    }

    proof fn lemma_round_trip(self) {
        lemma_enumeration_round_trip(self);
    }

    fn into_item(self) -> (r: Item) {
        enumeration_into_item(self)
    }

    fn try_from_item(item: Item) -> (r: Result<Self, Error>) {
        enumeration_try_from_item(item)
    }
}

/// ## LVACK
///
/// **Variable Limit Definition Acknowledge Code**
#[derive(Clone, Copy, Debug, PartialEq, Eq, Structural)]
pub enum VariableLimitDefinitonAcknowledgeCode {
    VariableDoesNotExist,
    VariableHasNoLimitsCapability,
    VariableRepeatedInMessage,
    LimitValueError,
}

impl Enumeration for VariableLimitDefinitonAcknowledgeCode {
    open spec fn number(self) -> u8 {
        match self {
            VariableLimitDefinitonAcknowledgeCode::VariableDoesNotExist => 1,
            VariableLimitDefinitonAcknowledgeCode::VariableHasNoLimitsCapability => 2,
            VariableLimitDefinitonAcknowledgeCode::VariableRepeatedInMessage => 3,
            VariableLimitDefinitonAcknowledgeCode::LimitValueError => 4,
        }
    }

    open spec fn named(number: u8) -> Option<Self> {
        if number == 1 {
            Some(VariableLimitDefinitonAcknowledgeCode::VariableDoesNotExist)
        } else if number == 2 {
            Some(VariableLimitDefinitonAcknowledgeCode::VariableHasNoLimitsCapability)
        } else if number == 3 {
            Some(VariableLimitDefinitonAcknowledgeCode::VariableRepeatedInMessage)
        } else if number == 4 {
            Some(VariableLimitDefinitonAcknowledgeCode::LimitValueError)
        } else {
            None
        }
    }

    open spec fn binary() -> bool {
        true
    }

    fn into_primitive(self) -> (r: u8) {
        match self {
            VariableLimitDefinitonAcknowledgeCode::VariableDoesNotExist => 1,
            VariableLimitDefinitonAcknowledgeCode::VariableHasNoLimitsCapability => 2,
            VariableLimitDefinitonAcknowledgeCode::VariableRepeatedInMessage => 3,
            VariableLimitDefinitonAcknowledgeCode::LimitValueError => 4,
        }
    }

    fn try_from_primitive(number: u8) -> (r: Option<Self>) {
        match number {
            1 => Some(VariableLimitDefinitonAcknowledgeCode::VariableDoesNotExist),
            2 => Some(VariableLimitDefinitonAcknowledgeCode::VariableHasNoLimitsCapability),
            3 => Some(VariableLimitDefinitonAcknowledgeCode::VariableRepeatedInMessage),
            4 => Some(VariableLimitDefinitonAcknowledgeCode::LimitValueError),
            _ => None,
        }
    }

    fn is_binary() -> (r: bool) {
        true
    }

    proof fn lemma_number_names_value(self) {
    }

    proof fn lemma_named_has_number(number: u8) {
    }
}

impl ItemFormat for VariableLimitDefinitonAcknowledgeCode {
    open spec fn item(self) -> ItemView {
        enumeration_item(self)
    }

    open spec fn accepts(item: ItemView) -> bool {
        enumeration_accepts::<VariableLimitDefinitonAcknowledgeCode>(item)
    }

    open spec fn reads(item: ItemView, value: Self) -> bool {
        item == value.item()
    }

    open spec fn valid(self) -> bool {
        true
    }

    proof fn lemma_round_trip(self) {
        lemma_enumeration_round_trip(self);
    }

    fn into_item(self) -> (r: Item) {
        enumeration_into_item(self)
    }

    fn try_from_item(item: Item) -> (r: Result<Self, Error>) {
        enumeration_try_from_item(item)
    }
}

/// ## MDLN
///
/// Equipment Model Type, 20 bytes max.
#[derive(Debug, PartialEq, Eq)]
pub struct ModelName(Vec<Char>);

impl View for ModelName {
    type V = Seq<Char>;

    closed spec fn view(&self) -> Seq<Char> {
        self.0@
    }
}

impl ModelName {
    #[verifier::type_invariant]
    spec fn within_limits(self) -> bool {
        Self::allows(self.0@.len())
    }

    /// Whether the item may have a given length: at most 20 characters.
    pub open spec fn allows(length: nat) -> bool {
        length <= 20
    }

    /// Makes the item from its characters, where their number is allowed.
    pub fn new(vec: Vec<Char>) -> (r: Option<Self>)
        ensures
            Self::allows(vec@.len()) ==> (r matches Some(value) && value@ == vec@),
            !Self::allows(vec@.len()) ==> r is None,
    {
        if vec.len() <= 20 {
            Some(ModelName(vec))
        } else {
            None
        }
    }

    /// The characters of the item.
    pub fn read(&self) -> (r: &Vec<Char>)
        ensures
            r@ == self@,
            Self::allows(r@.len()),
    {
        proof {
            use_type_invariant(self);
        }
        &self.0
    }
}

impl ItemFormat for ModelName {
    open spec fn item(self) -> ItemView {
        ItemView::Ascii(self@)
    }

    open spec fn accepts(item: ItemView) -> bool {
        item matches ItemView::Ascii(chars) && Self::allows(chars.len())
    }

    open spec fn reads(item: ItemView, value: Self) -> bool {
        item == value.item()
    }

    open spec fn valid(self) -> bool {
        Self::allows(self@.len())
    }

    proof fn lemma_round_trip(self) {
    }

    fn into_item(self) -> (r: Item) {
        Item::Ascii(self.0)
    }

    fn try_from_item(item: Item) -> (r: Result<Self, Error>) {
        match item {
            Item::Ascii(vec) => match ModelName::new(vec) {
                Some(value) => Ok(value),
                None => Err(Error::WrongFormat),
            },
            _ => Err(Error::WrongFormat),
        }
    }
}

/// ## MF
///
/// Material Format Code
#[derive(Clone, Debug, PartialEq, Eq)]
pub enum MaterialFormat {
    /// Material counted in a unit that is named in text.
    Unit(Vec<Char>),
    Wafers,
    Cassettes,
    Dies,
    Boats,
    Ingots,
    LeadFrames,
    Lots,
    Magazines,
    Packages,
    Plates,
    Tubes,
    WaferFrames,
    Carriers,
    Substrates,
}

impl MaterialFormat {
    /// The format that a code stands for: codes 1 to 14 have one each.
    pub open spec fn coded(code: u8) -> Option<MaterialFormat> {
        if code == 1 {
            Some(MaterialFormat::Wafers)
        } else if code == 2 {
            Some(MaterialFormat::Cassettes)
        } else if code == 3 {
            Some(MaterialFormat::Dies)
        } else if code == 4 {
            Some(MaterialFormat::Boats)
        } else if code == 5 {
            Some(MaterialFormat::Ingots)
        } else if code == 6 {
            Some(MaterialFormat::LeadFrames)
        } else if code == 7 {
            Some(MaterialFormat::Lots)
        } else if code == 8 {
            Some(MaterialFormat::Magazines)
        } else if code == 9 {
            Some(MaterialFormat::Packages)
        } else if code == 10 {
            Some(MaterialFormat::Plates)
        } else if code == 11 {
            Some(MaterialFormat::Tubes)
        } else if code == 12 {
            Some(MaterialFormat::WaferFrames)
        } else if code == 13 {
            Some(MaterialFormat::Carriers)
        } else if code == 14 {
            Some(MaterialFormat::Substrates)
        } else {
            None
        }
    }
}

/// A material format is written as the text of its unit, or as one byte that
/// holds its code.
impl ItemFormat for MaterialFormat {
    open spec fn item(self) -> ItemView {
        match self {
            MaterialFormat::Unit(unit) => ItemView::Ascii(unit@),
            MaterialFormat::Wafers => ItemView::Bin(seq![1]),
            MaterialFormat::Cassettes => ItemView::Bin(seq![2]),
            MaterialFormat::Dies => ItemView::Bin(seq![3]),
            MaterialFormat::Boats => ItemView::Bin(seq![4]),
            MaterialFormat::Ingots => ItemView::Bin(seq![5]),
            MaterialFormat::LeadFrames => ItemView::Bin(seq![6]),
            MaterialFormat::Lots => ItemView::Bin(seq![7]),
            MaterialFormat::Magazines => ItemView::Bin(seq![8]),
            MaterialFormat::Packages => ItemView::Bin(seq![9]),
            MaterialFormat::Plates => ItemView::Bin(seq![10]),
            MaterialFormat::Tubes => ItemView::Bin(seq![11]),
            MaterialFormat::WaferFrames => ItemView::Bin(seq![12]),
            MaterialFormat::Carriers => ItemView::Bin(seq![13]),
            MaterialFormat::Substrates => ItemView::Bin(seq![14]),
        }
    }

    open spec fn accepts(item: ItemView) -> bool {
        match item {
            ItemView::Ascii(_) => true,
            ItemView::Bin(codes) => codes.len() == 1 && Self::coded(codes[0]) is Some,
            _ => false,
        }
    }

    open spec fn reads(item: ItemView, value: Self) -> bool {
        item == value.item()
    }

    open spec fn valid(self) -> bool {
        true
    }

    proof fn lemma_round_trip(self) {
    }

    fn into_item(self) -> (r: Item) {
        match self {
            MaterialFormat::Unit(unit) => Item::Ascii(unit),
            MaterialFormat::Wafers => Item::Bin(single(1)),
            MaterialFormat::Cassettes => Item::Bin(single(2)),
            MaterialFormat::Dies => Item::Bin(single(3)),
            MaterialFormat::Boats => Item::Bin(single(4)),
            MaterialFormat::Ingots => Item::Bin(single(5)),
            MaterialFormat::LeadFrames => Item::Bin(single(6)),
            MaterialFormat::Lots => Item::Bin(single(7)),
            MaterialFormat::Magazines => Item::Bin(single(8)),
            MaterialFormat::Packages => Item::Bin(single(9)),
            MaterialFormat::Plates => Item::Bin(single(10)),
            MaterialFormat::Tubes => Item::Bin(single(11)),
            MaterialFormat::WaferFrames => Item::Bin(single(12)),
            MaterialFormat::Carriers => Item::Bin(single(13)),
            MaterialFormat::Substrates => Item::Bin(single(14)),
        }
    }

    fn try_from_item(item: Item) -> (r: Result<Self, Error>) {
        match item {
            Item::Ascii(unit) => Ok(MaterialFormat::Unit(unit)),
            Item::Bin(codes) => match only(&codes) {
                Some(code) => match code {
                    1 => Ok(MaterialFormat::Wafers),
                    2 => Ok(MaterialFormat::Cassettes),
                    3 => Ok(MaterialFormat::Dies),
                    4 => Ok(MaterialFormat::Boats),
                    5 => Ok(MaterialFormat::Ingots),
                    6 => Ok(MaterialFormat::LeadFrames),
                    7 => Ok(MaterialFormat::Lots),
                    8 => Ok(MaterialFormat::Magazines),
                    9 => Ok(MaterialFormat::Packages),
                    10 => Ok(MaterialFormat::Plates),
                    11 => Ok(MaterialFormat::Tubes),
                    12 => Ok(MaterialFormat::WaferFrames),
                    13 => Ok(MaterialFormat::Carriers),
                    14 => Ok(MaterialFormat::Substrates),
                    _ => Err(Error::WrongFormat),
                },
                None => Err(Error::WrongFormat),
            },
            _ => Err(Error::WrongFormat),
        }
    }
}

/// ## MID
///
/// Material ID.
///
/// Maximum 80 characters.
#[derive(Debug, PartialEq, Eq)]
pub struct MaterialID(Vec<Char>);

impl View for MaterialID {
    type V = Seq<Char>;

    closed spec fn view(&self) -> Seq<Char> {
        self.0@
    }
}

impl MaterialID {
    #[verifier::type_invariant]
    spec fn within_limits(self) -> bool {
        Self::allows(self.0@.len())
    }

    /// Whether the item may have a given length: at most 80 characters.
    pub open spec fn allows(length: nat) -> bool {
        length <= 80
    }

    /// Makes the item from its characters, where their number is allowed.
    pub fn new(vec: Vec<Char>) -> (r: Option<Self>)
        ensures
            Self::allows(vec@.len()) ==> (r matches Some(value) && value@ == vec@),
            !Self::allows(vec@.len()) ==> r is None,
    {
        if vec.len() <= 80 {
            Some(MaterialID(vec))
        } else {
            None
        }
    }

    /// The characters of the item.
    pub fn read(&self) -> (r: &Vec<Char>)
        ensures
            r@ == self@,
            Self::allows(r@.len()),
    {
        proof {
            use_type_invariant(self);
        }
        &self.0
    }
}

impl ItemFormat for MaterialID {
    open spec fn item(self) -> ItemView {
        ItemView::Ascii(self@)
    }

    open spec fn accepts(item: ItemView) -> bool {
        item matches ItemView::Ascii(chars) && Self::allows(chars.len())
    }

    open spec fn reads(item: ItemView, value: Self) -> bool {
        item == value.item()
    }

    open spec fn valid(self) -> bool {
        Self::allows(self@.len())
    }

    proof fn lemma_round_trip(self) {
    }

    fn into_item(self) -> (r: Item) {
        Item::Ascii(self.0)
    }

    fn try_from_item(item: Item) -> (r: Result<Self, Error>) {
        match item {
            Item::Ascii(vec) => match MaterialID::new(vec) {
                Some(value) => Ok(value),
                None => Err(Error::WrongFormat),
            },
            _ => Err(Error::WrongFormat),
        }
    }
}

/// ## MIDAC
///
/// **Material ID Acknowledge Code**
#[derive(Clone, Copy, Debug, PartialEq, Eq, Structural)]
pub enum MaterialIDAcknowledgeCode {
    Accepted,
    InvalidPortNumber,
    MaterialNotPresent,
}

impl Enumeration for MaterialIDAcknowledgeCode {
    open spec fn number(self) -> u8 {
        match self {
            MaterialIDAcknowledgeCode::Accepted => 0,
            MaterialIDAcknowledgeCode::InvalidPortNumber => 1,
            MaterialIDAcknowledgeCode::MaterialNotPresent => 2,
        }
    }

    open spec fn named(number: u8) -> Option<Self> {
        if number == 0 {
            Some(MaterialIDAcknowledgeCode::Accepted)
        } else if number == 1 {
            Some(MaterialIDAcknowledgeCode::InvalidPortNumber)
        } else if number == 2 {
            Some(MaterialIDAcknowledgeCode::MaterialNotPresent)
        } else {
            None
        }
    }

    open spec fn binary() -> bool {
        true
    }

    fn into_primitive(self) -> (r: u8) {
        match self {
            MaterialIDAcknowledgeCode::Accepted => 0,
            MaterialIDAcknowledgeCode::InvalidPortNumber => 1,
            MaterialIDAcknowledgeCode::MaterialNotPresent => 2,
        }
    }

    fn try_from_primitive(number: u8) -> (r: Option<Self>) {
        match number {
            0 => Some(MaterialIDAcknowledgeCode::Accepted),
            1 => Some(MaterialIDAcknowledgeCode::InvalidPortNumber),
            2 => Some(MaterialIDAcknowledgeCode::MaterialNotPresent),
            _ => None,
        }
    }

    fn is_binary() -> (r: bool) {
        true
    }

    proof fn lemma_number_names_value(self) {
    }

    proof fn lemma_named_has_number(number: u8) {
    }
}

impl ItemFormat for MaterialIDAcknowledgeCode {
    open spec fn item(self) -> ItemView {
        enumeration_item(self)
    }

    open spec fn accepts(item: ItemView) -> bool {
        enumeration_accepts::<MaterialIDAcknowledgeCode>(item)
    }

    open spec fn reads(item: ItemView, value: Self) -> bool {
        item == value.item()
    }

    open spec fn valid(self) -> bool {
        true
    }

    proof fn lemma_round_trip(self) {
        lemma_enumeration_round_trip(self);
    }

    fn into_item(self) -> (r: Item) {
        enumeration_into_item(self)
    }

    fn try_from_item(item: Item) -> (r: Result<Self, Error>) {
        enumeration_try_from_item(item)
    }
}

/// ## MIDRA
///
/// **Material ID Request Acknowledge Code**
#[derive(Clone, Copy, Debug, PartialEq, Eq, Structural)]
pub enum MaterialIDRequestAcknowledgeCode {
    MaterialIDFollows,
    MaterialIDDenied,
    MaterialIDLater,
}

impl Enumeration for MaterialIDRequestAcknowledgeCode {
    open spec fn number(self) -> u8 {
        match self {
            MaterialIDRequestAcknowledgeCode::MaterialIDFollows => 0,
            MaterialIDRequestAcknowledgeCode::MaterialIDDenied => 1,
            MaterialIDRequestAcknowledgeCode::MaterialIDLater => 2,
        }
    }

    open spec fn named(number: u8) -> Option<Self> {
        if number == 0 {
            Some(MaterialIDRequestAcknowledgeCode::MaterialIDFollows)
        } else if number == 1 {
            Some(MaterialIDRequestAcknowledgeCode::MaterialIDDenied)
        } else if number == 2 {
            Some(MaterialIDRequestAcknowledgeCode::MaterialIDLater)
        } else {
            None
        }
    }

    open spec fn binary() -> bool {
        true
    }

    fn into_primitive(self) -> (r: u8) {
        match self {
            MaterialIDRequestAcknowledgeCode::MaterialIDFollows => 0,
            MaterialIDRequestAcknowledgeCode::MaterialIDDenied => 1,
            MaterialIDRequestAcknowledgeCode::MaterialIDLater => 2,
        }
    }

    fn try_from_primitive(number: u8) -> (r: Option<Self>) {
        match number {
            0 => Some(MaterialIDRequestAcknowledgeCode::MaterialIDFollows),
            1 => Some(MaterialIDRequestAcknowledgeCode::MaterialIDDenied),
            2 => Some(MaterialIDRequestAcknowledgeCode::MaterialIDLater),
            _ => None,
        }
    }

    fn is_binary() -> (r: bool) {
        true
    }

    proof fn lemma_number_names_value(self) {
    }

    proof fn lemma_named_has_number(number: u8) {
    }
}

impl ItemFormat for MaterialIDRequestAcknowledgeCode {
    open spec fn item(self) -> ItemView {
        enumeration_item(self)
    }

    open spec fn accepts(item: ItemView) -> bool {
        enumeration_accepts::<MaterialIDRequestAcknowledgeCode>(item)
    }

    open spec fn reads(item: ItemView, value: Self) -> bool {
        item == value.item()
    }

    open spec fn valid(self) -> bool {
        true
    }

    proof fn lemma_round_trip(self) {
        lemma_enumeration_round_trip(self);
    }

    fn into_item(self) -> (r: Item) {
        enumeration_into_item(self)
    }

    fn try_from_item(item: Item) -> (r: Result<Self, Error>) {
        enumeration_try_from_item(item)
    }
}

/// ## NULBC
///
/// Null bin code value.
///
/// Used to indicate no die at a location.
///
/// Must be the same format as BCEQU and BINLT.
///
/// Zero length indicates not used.
#[derive(Clone, Debug, PartialEq, Eq)]
pub enum NullBinCode {
    Ascii(Vec<Char>),
    U1(Vec<u8>),
}

impl ItemFormat for NullBinCode {
    open spec fn item(self) -> ItemView {
        match self {
            NullBinCode::Ascii(values) => ItemView::Ascii(values@),
            NullBinCode::U1(values) => ItemView::U1(values@),
        }
    }

    open spec fn accepts(item: ItemView) -> bool {
        match item {
            ItemView::Ascii(_) => true,
            ItemView::U1(_) => true,
            _ => false,
        }
    }

    open spec fn reads(item: ItemView, value: Self) -> bool {
        item == value.item()
    }

    open spec fn valid(self) -> bool {
        true
    }

    proof fn lemma_round_trip(self) {
    }

    fn into_item(self) -> (r: Item) {
        match self {
            NullBinCode::Ascii(values) => Item::Ascii(values),
            NullBinCode::U1(values) => Item::U1(values),
        }
    }

    fn try_from_item(item: Item) -> (r: Result<Self, Error>) {
        match item {
            Item::Ascii(values) => Ok(NullBinCode::Ascii(values)),
            Item::U1(values) => Ok(NullBinCode::U1(values)),
            _ => Err(Error::WrongFormat),
        }
    }
}

/// ## OBJID
///
/// Identifier for an object.
#[derive(Clone, Debug, PartialEq, Eq)]
pub enum ObjectID {
    Ascii(Vec<Char>),
    U1(u8),
    U2(u16),
    U4(u32),
    U8(u64),
}

impl ItemFormat for ObjectID {
    open spec fn item(self) -> ItemView {
        match self {
            ObjectID::Ascii(values) => ItemView::Ascii(values@),
            ObjectID::U1(value) => ItemView::U1(seq![value]),
            ObjectID::U2(value) => ItemView::U2(seq![value]),
            ObjectID::U4(value) => ItemView::U4(seq![value]),
            ObjectID::U8(value) => ItemView::U8(seq![value]),
        }
    }

    open spec fn accepts(item: ItemView) -> bool {
        match item {
            ItemView::Ascii(_) => true,
            ItemView::U1(values) => values.len() == 1,
            ItemView::U2(values) => values.len() == 1,
            ItemView::U4(values) => values.len() == 1,
            ItemView::U8(values) => values.len() == 1,
            _ => false,
        }
    }

    open spec fn reads(item: ItemView, value: Self) -> bool {
        item == value.item()
    }

    open spec fn valid(self) -> bool {
        true
    }

    proof fn lemma_round_trip(self) {
    }

    fn into_item(self) -> (r: Item) {
        match self {
            ObjectID::Ascii(values) => Item::Ascii(values),
            ObjectID::U1(value) => Item::U1(single(value)),
            ObjectID::U2(value) => Item::U2(single(value)),
            ObjectID::U4(value) => Item::U4(single(value)),
            ObjectID::U8(value) => Item::U8(single(value)),
        }
    }

    fn try_from_item(item: Item) -> (r: Result<Self, Error>) {
        match item {
            Item::Ascii(values) => Ok(ObjectID::Ascii(values)),
            Item::U1(values) => match only(&values) {
                Some(value) => Ok(ObjectID::U1(value)),
                None => Err(Error::WrongFormat),
            },
            Item::U2(values) => match only(&values) {
                Some(value) => Ok(ObjectID::U2(value)),
                None => Err(Error::WrongFormat),
            },
            Item::U4(values) => match only(&values) {
                Some(value) => Ok(ObjectID::U4(value)),
                None => Err(Error::WrongFormat),
            },
            Item::U8(values) => match only(&values) {
                Some(value) => Ok(ObjectID::U8(value)),
                None => Err(Error::WrongFormat),
            },
            _ => Err(Error::WrongFormat),
        }
    }
}

/// ## OBJSPEC
///
/// **Object Specifier**
///
/// Text string that has an internal format and that is used to point to a
/// specific object instance.
#[derive(Clone, Debug, PartialEq, Eq)]
pub struct ObjectSpecifier(pub Vec<(Option<Vec<Char>>, Vec<Char>)>);

/// One step of an object specifier as a value: the type of the object, where
/// it is given, and the name of the object.
pub type ObjectStep = (Option<Seq<Char>>, Seq<Char>);

/// The value of one step of an object specifier.
pub open spec fn step_view(step: (Option<Vec<Char>>, Vec<Char>)) -> ObjectStep {
    (
        match step.0 {
            Some(object_type) => Some(object_type@),
            None => None,
        },
        step.1@,
    )
}

/// The values of the steps of an object specifier, in order.
pub open spec fn steps_view(steps: Seq<(Option<Vec<Char>>, Vec<Char>)>) -> Seq<ObjectStep> {
    Seq::new(steps.len(), |i: int| step_view(steps[i]))
}

impl View for ObjectSpecifier {
    type V = Seq<ObjectStep>;

    open spec fn view(&self) -> Seq<ObjectStep> {
        steps_view(self.0@)
    }
}

/// The text of one step: the type and a colon, where the type is given, then
/// the name and a greater-than sign.
pub open spec fn step_text(step: ObjectStep) -> Seq<Char> {
    match step.0 {
        Some(object_type) => object_type + seq![Char::spec_colon()] + step.1
            + seq![Char::spec_greater_than_sign()],
        None => step.1 + seq![Char::spec_greater_than_sign()],
    }
}

/// The text of an object specifier: the texts of its steps, one after the
/// other.
pub open spec fn steps_text(steps: Seq<ObjectStep>) -> Seq<Char>
    decreases steps.len(),
{
    if steps.len() == 0 {
        Seq::empty()
    } else {
        steps_text(steps.drop_last()) + step_text(steps.last())
    }
}

/// What reading the text of an object specifier has found at some point: the
/// steps that are complete, and of the step under way the characters before
/// the colon, those after it, and whether the colon was met.
pub struct Scan {
    pub steps: Seq<ObjectStep>,
    pub first: Seq<Char>,
    pub second: Seq<Char>,
    pub colon_seen: bool,
}

/// Reading before the first character.
pub open spec fn scan_start() -> Scan {
    Scan { steps: Seq::empty(), first: Seq::empty(), second: Seq::empty(), colon_seen: false }
}

/// Reading one more character; none where the character cannot stand there.
/// A colon needs a type before it and is the only one of its step. A
/// greater-than sign needs a name before it and completes the step. Any other
/// character belongs to the name after a colon, and else to what is a type if
/// a colon follows and a name if none does.
pub open spec fn scan_char(scan: Scan, c: Char) -> Option<Scan> {
    if c == Char::spec_colon() {
        if scan.first.len() == 0 || scan.colon_seen {
            None
        } else {
            Some(Scan { colon_seen: true, ..scan })
        }
    } else if c == Char::spec_greater_than_sign() {
        if scan.colon_seen {
            if scan.second.len() == 0 {
                None
            } else {
                Some(
                    Scan {
                        steps: scan.steps.push((Some(scan.first), scan.second)),
                        first: Seq::empty(),
                        second: Seq::empty(),
                        colon_seen: false,
                    },
                )
            }
        } else {
            if scan.first.len() == 0 {
                None
            } else {
                Some(
                    Scan {
                        steps: scan.steps.push((None, scan.first)),
                        first: Seq::empty(),
                        second: scan.second,
                        colon_seen: false,
                    },
                )
            }
        }
    } else {
        if scan.colon_seen {
            Some(Scan { second: scan.second.push(c), ..scan })
        } else {
            Some(Scan { first: scan.first.push(c), ..scan })
        }
    }
}

/// Reading a whole text from its first character; none where some character
/// cannot stand where it does.
pub open spec fn scan_all(chars: Seq<Char>) -> Option<Scan>
    decreases chars.len(),
{
    if chars.len() == 0 {
        Some(scan_start())
    } else {
        match scan_all(chars.drop_last()) {
            Some(scan) => scan_char(scan, chars.last()),
            None => None,
        }
    }
}

/// What reading has found when the text ends. The last greater-than sign may
/// be left out, so a step under way is complete if it has its name.
pub open spec fn scan_end(scan: Scan) -> Option<Seq<ObjectStep>> {
    if scan.first.len() > 0 {
        if scan.colon_seen {
            if scan.second.len() == 0 {
                None
            } else {
                Some(scan.steps.push((Some(scan.first), scan.second)))
            }
        } else {
            Some(scan.steps.push((None, scan.first)))
        }
    } else {
        Some(scan.steps)
    }
}

/// The steps that a text specifies; none where it is no object specifier.
pub open spec fn parse_steps(chars: Seq<Char>) -> Option<Seq<ObjectStep>> {
    match scan_all(chars) {
        Some(scan) => scan_end(scan),
        None => None,
    }
}

/// A text of which a beginning cannot be read cannot be read.
pub proof fn lemma_scan_fails_for_good(chars: Seq<Char>, n: int)
    requires
        0 <= n <= chars.len(),
        scan_all(chars.subrange(0, n)) is None,
    ensures
        scan_all(chars) is None,
    decreases chars.len() - n,
{
    if n < chars.len() {
        let longer = chars.subrange(0, n + 1);
        assert(longer.drop_last() =~= chars.subrange(0, n));
        lemma_scan_fails_for_good(chars, n + 1);
    } else {
        assert(chars.subrange(0, n) =~= chars);
    }
}

/// Reading one more character of a text goes on from what reading the
/// characters before it has found.
pub proof fn lemma_scan_next(chars: Seq<Char>, n: int)
    requires
        0 <= n < chars.len(),
    ensures
        scan_all(chars.subrange(0, n + 1)) == match scan_all(chars.subrange(0, n)) {
            Some(scan) => scan_char(scan, chars[n]),
            None => None,
        },
{
    let longer = chars.subrange(0, n + 1);
    assert(longer.drop_last() =~= chars.subrange(0, n));
}

/// Whether a text can be the type or the name of an object: it has a
/// character, and neither a colon nor a greater-than sign.
pub open spec fn is_name(text: Seq<Char>) -> bool {
    &&& text.len() > 0
    &&& forall|i: int|
        0 <= i < text.len() ==> #[trigger] text[i] != Char::spec_colon() && text[i]
            != Char::spec_greater_than_sign()
}

/// Whether a step is one that reading can give: its name, and its type
/// where it has one, can be the name of an object.
pub open spec fn step_valid(step: ObjectStep) -> bool {
    &&& is_name(step.1)
    &&& step.0 matches Some(object_type) ==> is_name(object_type)
}

/// Whether every step is one that reading can give.
pub open spec fn steps_valid(steps: Seq<ObjectStep>) -> bool {
    forall|i: int| 0 <= i < steps.len() ==> step_valid(#[trigger] steps[i])
}

/// Reading on from what was found, through the characters of a text one
/// after the other.
pub open spec fn scan_on(scan: Option<Scan>, chars: Seq<Char>) -> Option<Scan>
    decreases chars.len(),
{
    if chars.len() == 0 {
        scan
    } else {
        match scan_on(scan, chars.drop_last()) {
            Some(found) => scan_char(found, chars.last()),
            None => None,
        }
    }
}

/// Reading a text that is made of two is reading the second on from what
/// reading the first has found.
pub proof fn lemma_scan_on(first: Seq<Char>, second: Seq<Char>)
    ensures
        scan_all(first + second) == scan_on(scan_all(first), second),
    decreases second.len(),
{
    if second.len() == 0 {
        assert(first + second =~= first);
    } else {
        assert((first + second).drop_last() =~= first + second.drop_last());
        assert((first + second).last() == second.last());
        lemma_scan_on(first, second.drop_last());
    }
}

/// Reading on through one more character.
pub proof fn lemma_scan_on_push(scan: Option<Scan>, chars: Seq<Char>, c: Char)
    ensures
        scan_on(scan, chars.push(c)) == match scan_on(scan, chars) {
            Some(found) => scan_char(found, c),
            None => None,
        },
{
    assert(chars.push(c).drop_last() =~= chars);
}

/// Reading on through two texts is reading on through the first and then
/// through the second.
pub proof fn lemma_scan_on_twice(scan: Option<Scan>, first: Seq<Char>, second: Seq<Char>)
    ensures
        scan_on(scan, first + second) == scan_on(scan_on(scan, first), second),
    decreases second.len(),
{
    if second.len() == 0 {
        assert(first + second =~= first);
    } else {
        assert((first + second).drop_last() =~= first + second.drop_last());
        assert((first + second).last() == second.last());
        lemma_scan_on_twice(scan, first, second.drop_last());
    }
}

/// Reading on through a text without colon and greater-than sign, before a
/// colon was met, adds the text to what stands before the colon.
pub proof fn lemma_scan_first(scan: Scan, text: Seq<Char>)
    requires
        !scan.colon_seen,
        forall|i: int|
            0 <= i < text.len() ==> #[trigger] text[i] != Char::spec_colon() && text[i]
                != Char::spec_greater_than_sign(),
    ensures
        scan_on(Some(scan), text) == Some(Scan { first: scan.first + text, ..scan }),
    decreases text.len(),
{
    if text.len() == 0 {
        assert(scan.first + text =~= scan.first);
    } else {
        lemma_scan_first(scan, text.drop_last());
        assert(scan.first + text =~= (scan.first + text.drop_last()).push(text.last()));
    }
}

/// Reading on through a text without colon and greater-than sign, after a
/// colon was met, adds the text to what stands after the colon.
pub proof fn lemma_scan_second(scan: Scan, text: Seq<Char>)
    requires
        scan.colon_seen,
        forall|i: int|
            0 <= i < text.len() ==> #[trigger] text[i] != Char::spec_colon() && text[i]
                != Char::spec_greater_than_sign(),
    ensures
        scan_on(Some(scan), text) == Some(Scan { second: scan.second + text, ..scan }),
    decreases text.len(),
{
    if text.len() == 0 {
        assert(scan.second + text =~= scan.second);
    } else {
        lemma_scan_second(scan, text.drop_last());
        assert(scan.second + text =~= (scan.second + text.drop_last()).push(text.last()));
    }
}

/// Reading on through the text of a valid step, from between two steps,
/// finds that step and stands between two steps again.
pub proof fn lemma_scan_step(steps: Seq<ObjectStep>, step: ObjectStep)
    requires
        step_valid(step),
    ensures
        scan_on(
            Some(
                Scan { steps, first: Seq::empty(), second: Seq::empty(), colon_seen: false },
            ),
            step_text(step),
        ) == Some(
            Scan {
                steps: steps.push(step),
                first: Seq::empty(),
                second: Seq::empty(),
                colon_seen: false,
            },
        ),
{
    Char::lemma_colon_is_no_greater_than_sign();
    let start = Scan { steps, first: Seq::empty(), second: Seq::empty(), colon_seen: false };
    let colon = Char::spec_colon();
    let end = Char::spec_greater_than_sign();
    match step.0 {
        Some(object_type) => {
            let typed = Scan { first: object_type, ..start };
            lemma_scan_first(start, object_type);
            assert(start.first + object_type =~= object_type);
            lemma_scan_on_push(Some(start), object_type, colon);
            let after_colon = Scan { colon_seen: true, ..typed };
            assert(scan_on(Some(start), object_type.push(colon)) == Some(after_colon));
            lemma_scan_second(after_colon, step.1);
            assert(after_colon.second + step.1 =~= step.1);
            let named = Scan { second: step.1, ..after_colon };
            lemma_scan_on_twice(Some(start), object_type.push(colon), step.1);
            assert(scan_on(Some(start), object_type.push(colon) + step.1) == Some(named));
            lemma_scan_on_push(Some(start), object_type.push(colon) + step.1, end);
            assert(step_text(step) =~= (object_type.push(colon) + step.1).push(end));
        },
        None => {
            lemma_scan_first(start, step.1);
            assert(start.first + step.1 =~= step.1);
            lemma_scan_on_push(Some(start), step.1, end);
            assert(step_text(step) =~= step.1.push(end));
        },
    }
}

/// Reading the text of valid steps finds those steps, and stands between
/// two steps at the end.
pub proof fn lemma_scan_steps(steps: Seq<ObjectStep>)
    requires
        steps_valid(steps),
    ensures
        scan_all(steps_text(steps)) == Some(
            Scan { steps, first: Seq::empty(), second: Seq::empty(), colon_seen: false },
        ),
    decreases steps.len(),
{
    if steps.len() == 0 {
        assert(steps =~= Seq::empty());
    } else {
        let before = steps.drop_last();
        assert forall|i: int| 0 <= i < before.len() implies step_valid(#[trigger] before[i]) by {
            assert(before[i] == steps[i]);
        }
        lemma_scan_steps(before);
        lemma_scan_on(steps_text(before), step_text(steps.last()));
        lemma_scan_step(before, steps.last());
        assert(before.push(steps.last()) =~= steps);
    }
}

/// Round trip of the object specifier: the text of valid steps reads as
/// those steps.
pub proof fn lemma_steps_round_trip(steps: Seq<ObjectStep>)
    requires
        steps_valid(steps),
    ensures
        parse_steps(steps_text(steps)) == Some(steps),
{
    lemma_scan_steps(steps);
}

impl ItemFormat for ObjectSpecifier {
    open spec fn item(self) -> ItemView {
        ItemView::Ascii(steps_text(self@))
    }

    open spec fn accepts(item: ItemView) -> bool {
        item matches ItemView::Ascii(chars) && parse_steps(chars) is Some
    }

    open spec fn reads(item: ItemView, value: Self) -> bool {
        item matches ItemView::Ascii(chars) && parse_steps(chars) == Some(value@)
    }

    open spec fn valid(self) -> bool {
        steps_valid(self@)
    }

    proof fn lemma_round_trip(self) {
        lemma_steps_round_trip(self@);
    }

    fn into_item(self) -> (r: Item) {
        let mut output: Vec<Char> = Vec::new();
        let mut i: usize = 0;
        assert(self@.subrange(0, 0) =~= Seq::empty());
        while i < self.0.len()
            invariant
                i <= self.0@.len(),
                self@.len() == self.0@.len(),
                output@ == steps_text(self@.subrange(0, i as int)),
            decreases self.0@.len() - i,
        {
            let ghost before = output@;
            let step = &self.0[i];
            match &step.0 {
                Some(object_type) => {
                    append(&mut output, object_type);
                    output.push(Char::colon());
                },
                None => {},
            }
            append(&mut output, &step.1);
            output.push(Char::greater_than_sign());
            proof {
                let done = self@.subrange(0, i + 1);
                assert(done.drop_last() =~= self@.subrange(0, i as int));
                assert(done.last() == step_view(*step));
                assert(output@ =~= before + step_text(step_view(*step)));
            }
            i = i + 1;
        }
        assert(self@.subrange(0, i as int) =~= self@);
        Item::Ascii(output)
    }

    fn try_from_item(item: Item) -> (r: Result<Self, Error>) {
        match item {
            Item::Ascii(chars) => {
                let mut output: Vec<(Option<Vec<Char>>, Vec<Char>)> = Vec::new();
                let mut first: Vec<Char> = Vec::new();
                let mut second: Vec<Char> = Vec::new();
                let mut colon_seen: bool = false;
                let mut i: usize = 0;
                assert(chars@.subrange(0, 0) =~= Seq::empty());
                assert(steps_view(output@) =~= Seq::empty());
                while i < chars.len()
                    invariant
                        i <= chars@.len(),
                        item@ == ItemView::Ascii(chars@),
                        scan_all(chars@.subrange(0, i as int)) == Some(
                            Scan {
                                steps: steps_view(output@),
                                first: first@,
                                second: second@,
                                colon_seen,
                            },
                        ),
                    decreases chars@.len() - i,
                {
                    let c = chars[i];
                    let ghost steps = output@;
                    proof {
                        lemma_scan_next(chars@, i as int);
                    }
                    if c == Char::colon() {
                        if first.len() == 0 || colon_seen {
                            proof {
                                lemma_scan_fails_for_good(chars@, i + 1);
                            }
                            return Err(Error::WrongFormat);
                        } else {
                            colon_seen = true;
                        }
                    } else if c == Char::greater_than_sign() {
                        if colon_seen {
                            if second.len() == 0 {
                                proof {
                                    lemma_scan_fails_for_good(chars@, i + 1);
                                }
                                return Err(Error::WrongFormat);
                            } else {
                                let step = (Some(first), second);
                                output.push(step);
                                colon_seen = false;
                                first = Vec::new();
                                second = Vec::new();
                                assert(steps_view(output@) =~= steps_view(steps).push(
                                    step_view(step),
                                ));
                            }
                        } else {
                            if first.len() == 0 {
                                proof {
                                    lemma_scan_fails_for_good(chars@, i + 1);
                                }
                                return Err(Error::WrongFormat);
                            } else {
                                let step = (None, first);
                                output.push(step);
                                first = Vec::new();
                                assert(steps_view(output@) =~= steps_view(steps).push(
                                    step_view(step),
                                ));
                            }
                        }
                    } else {
                        if colon_seen {
                            second.push(c);
                        } else {
                            first.push(c);
                        }
                    }
                    i = i + 1;
                }
                assert(chars@.subrange(0, i as int) =~= chars@);
                let ghost steps = output@;
                if first.len() > 0 {
                    if colon_seen {
                        if second.len() == 0 {
                            return Err(Error::WrongFormat);
                        } else {
                            let step = (Some(first), second);
                            output.push(step);
                            assert(steps_view(output@) =~= steps_view(steps).push(step_view(step)));
                        }
                    } else {
                        let step = (None, first);
                        output.push(step);
                        assert(steps_view(output@) =~= steps_view(steps).push(step_view(step)));
                    }
                }
                Ok(ObjectSpecifier(output))
            },
            _ => Err(Error::WrongFormat),
        }
    }
}

/// ## OBJTYPE
///
/// **Object Type**
///
/// An identifier for a class of objects; all objects of the same type must have
/// the same set of attributes.
#[derive(Clone, Debug, PartialEq, Eq)]
pub enum ObjectType {
    Ascii(Vec<Char>),
    U1(u8),
    U2(u16),
    U4(u32),
    U8(u64),
}

impl ItemFormat for ObjectType {
    open spec fn item(self) -> ItemView {
        match self {
            ObjectType::Ascii(values) => ItemView::Ascii(values@),
            ObjectType::U1(value) => ItemView::U1(seq![value]),
            ObjectType::U2(value) => ItemView::U2(seq![value]),
            ObjectType::U4(value) => ItemView::U4(seq![value]),
            ObjectType::U8(value) => ItemView::U8(seq![value]),
        }
    }

    open spec fn accepts(item: ItemView) -> bool {
        match item {
            ItemView::Ascii(_) => true,
            ItemView::U1(values) => values.len() == 1,
            ItemView::U2(values) => values.len() == 1,
            ItemView::U4(values) => values.len() == 1,
            ItemView::U8(values) => values.len() == 1,
            _ => false,
        }
    }

    open spec fn reads(item: ItemView, value: Self) -> bool {
        item == value.item()
    }

    open spec fn valid(self) -> bool {
        true
    }

    proof fn lemma_round_trip(self) {
    }

    fn into_item(self) -> (r: Item) {
        match self {
            ObjectType::Ascii(values) => Item::Ascii(values),
            ObjectType::U1(value) => Item::U1(single(value)),
            ObjectType::U2(value) => Item::U2(single(value)),
            ObjectType::U4(value) => Item::U4(single(value)),
            ObjectType::U8(value) => Item::U8(single(value)),
        }
    }

    fn try_from_item(item: Item) -> (r: Result<Self, Error>) {
        match item {
            Item::Ascii(values) => Ok(ObjectType::Ascii(values)),
            Item::U1(values) => match only(&values) {
                Some(value) => Ok(ObjectType::U1(value)),
                None => Err(Error::WrongFormat),
            },
            Item::U2(values) => match only(&values) {
                Some(value) => Ok(ObjectType::U2(value)),
                None => Err(Error::WrongFormat),
            },
            Item::U4(values) => match only(&values) {
                Some(value) => Ok(ObjectType::U4(value)),
                None => Err(Error::WrongFormat),
            },
            Item::U8(values) => match only(&values) {
                Some(value) => Ok(ObjectType::U8(value)),
                None => Err(Error::WrongFormat),
            },
            _ => Err(Error::WrongFormat),
        }
    }
}

/// ## OFLACK
///
/// Acknowledge code for OFF-LINE request.
#[derive(Clone, Copy, Debug, PartialEq, Eq, Structural)]
pub enum OffLineAcknowledge {
    Acknowledge,
}

impl Enumeration for OffLineAcknowledge {
    open spec fn number(self) -> u8 {
        match self {
            OffLineAcknowledge::Acknowledge => 0,
        }
    }

    open spec fn named(number: u8) -> Option<Self> {
        if number == 0 {
            Some(OffLineAcknowledge::Acknowledge)
        } else {
            None
        }
    }

    open spec fn binary() -> bool {
        true
    }

    fn into_primitive(self) -> (r: u8) {
        match self {
            OffLineAcknowledge::Acknowledge => 0,
        }
    }

    fn try_from_primitive(number: u8) -> (r: Option<Self>) {
        match number {
            0 => Some(OffLineAcknowledge::Acknowledge),
            _ => None,
        }
    }

    fn is_binary() -> (r: bool) {
        true
    }

    proof fn lemma_number_names_value(self) {
    }

    proof fn lemma_named_has_number(number: u8) {
    }
}

impl ItemFormat for OffLineAcknowledge {
    open spec fn item(self) -> ItemView {
        enumeration_item(self)
    }

    open spec fn accepts(item: ItemView) -> bool {
        enumeration_accepts::<OffLineAcknowledge>(item)
    }

    open spec fn reads(item: ItemView, value: Self) -> bool {
        item == value.item()
    }

    open spec fn valid(self) -> bool {
        true
    }

    proof fn lemma_round_trip(self) {
        lemma_enumeration_round_trip(self);
    }

    fn into_item(self) -> (r: Item) {
        enumeration_into_item(self)
    }

    fn try_from_item(item: Item) -> (r: Result<Self, Error>) {
        enumeration_try_from_item(item)
    }
}

/// ## ONLACK
///
/// Acknowledge code for ON-LINE request.
#[derive(Clone, Copy, Debug, PartialEq, Eq, Structural)]
pub enum OnLineAcknowledge {
    Accepted,
    NotAllowed,
    AlreadyOnLine,
}

impl Enumeration for OnLineAcknowledge {
    open spec fn number(self) -> u8 {
        match self {
            OnLineAcknowledge::Accepted => 0,
            OnLineAcknowledge::NotAllowed => 1,
            OnLineAcknowledge::AlreadyOnLine => 2,
        }
    }

    open spec fn named(number: u8) -> Option<Self> {
        if number == 0 {
            Some(OnLineAcknowledge::Accepted)
        } else if number == 1 {
            Some(OnLineAcknowledge::NotAllowed)
        } else if number == 2 {
            Some(OnLineAcknowledge::AlreadyOnLine)
        } else {
            None
        }
    }

    open spec fn binary() -> bool {
        true
    }

    fn into_primitive(self) -> (r: u8) {
        match self {
            OnLineAcknowledge::Accepted => 0,
            OnLineAcknowledge::NotAllowed => 1,
            OnLineAcknowledge::AlreadyOnLine => 2,
        }
    }

    fn try_from_primitive(number: u8) -> (r: Option<Self>) {
        match number {
            0 => Some(OnLineAcknowledge::Accepted),
            1 => Some(OnLineAcknowledge::NotAllowed),
            2 => Some(OnLineAcknowledge::AlreadyOnLine),
            _ => None,
        }
    }

    fn is_binary() -> (r: bool) {
        true
    }

    proof fn lemma_number_names_value(self) {
    }

    proof fn lemma_named_has_number(number: u8) {
    }
}

impl ItemFormat for OnLineAcknowledge {
    open spec fn item(self) -> ItemView {
        enumeration_item(self)
    }

    open spec fn accepts(item: ItemView) -> bool {
        enumeration_accepts::<OnLineAcknowledge>(item)
    }

    open spec fn reads(item: ItemView, value: Self) -> bool {
        item == value.item()
    }

    open spec fn valid(self) -> bool {
        true
    }

    proof fn lemma_round_trip(self) {
        lemma_enumeration_round_trip(self);
    }

    fn into_item(self) -> (r: Item) {
        enumeration_into_item(self)
    }

    fn try_from_item(item: Item) -> (r: Result<Self, Error>) {
        enumeration_try_from_item(item)
    }
}

/// ## OUTPTN
///
/// **Output Port Number**
///
/// Specialized version of PTN indicating the output port.
pub type OutputPortNumber = PortNumber;

/// ## PARAMNAME
///
/// **Parameter Name**
///
/// The name of a parameter in a request.
#[derive(Clone, Debug, PartialEq, Eq)]
pub struct ParameterName(pub Vec<Char>);

impl ItemFormat for ParameterName {
    open spec fn item(self) -> ItemView {
        ItemView::Ascii(self.0@)
    }

    open spec fn accepts(item: ItemView) -> bool {
        item is Ascii
    }

    open spec fn reads(item: ItemView, value: Self) -> bool {
        item == value.item()
    }

    open spec fn valid(self) -> bool {
        true
    }

    proof fn lemma_round_trip(self) {
    }

    fn into_item(self) -> (r: Item) {
        Item::Ascii(self.0)
    }

    fn try_from_item(item: Item) -> (r: Result<Self, Error>) {
        match item {
            Item::Ascii(values) => Ok(ParameterName(values)),
            _ => Err(Error::WrongFormat),
        }
    }
}

/// ## PARAMVAL
///
/// **Parameter Value**
///
/// The value of a parameter named by PARAMNAME.
#[derive(Debug, PartialEq, Eq)]
pub enum ParameterValue {
    List(Vec<Item>),
    Bin(Vec<u8>),
    Bool(Vec<bool>),
    Ascii(Vec<Char>),
    I1(Vec<i8>),
    I2(Vec<i16>),
    I4(Vec<i32>),
    I8(Vec<i64>),
    U1(Vec<u8>),
    U2(Vec<u16>),
    U4(Vec<u32>),
    U8(Vec<u64>),
    /// Floating-point numbers, each held as the bits of its IEEE 754 encoding.
    F4(Vec<u32>),
    /// Floating-point numbers, each held as the bits of its IEEE 754 encoding.
    F8(Vec<u64>),
}

impl ItemFormat for ParameterValue {
    open spec fn item(self) -> ItemView {
        match self {
            ParameterValue::List(list) => ItemView::List(views_of(list@)),
            ParameterValue::Bin(values) => ItemView::Bin(values@),
            ParameterValue::Bool(values) => ItemView::Bool(values@),
            ParameterValue::Ascii(values) => ItemView::Ascii(values@),
            ParameterValue::I1(values) => ItemView::I1(values@),
            ParameterValue::I2(values) => ItemView::I2(values@),
            ParameterValue::I4(values) => ItemView::I4(values@),
            ParameterValue::I8(values) => ItemView::I8(values@),
            ParameterValue::U1(values) => ItemView::U1(values@),
            ParameterValue::U2(values) => ItemView::U2(values@),
            ParameterValue::U4(values) => ItemView::U4(values@),
            ParameterValue::U8(values) => ItemView::U8(values@),
            ParameterValue::F4(values) => ItemView::F4(values@),
            ParameterValue::F8(values) => ItemView::F8(values@),
        }
    }

    open spec fn accepts(item: ItemView) -> bool {
        match item {
            ItemView::List(_) => true,
            ItemView::Bin(_) => true,
            ItemView::Bool(_) => true,
            ItemView::Ascii(_) => true,
            ItemView::I1(_) => true,
            ItemView::I2(_) => true,
            ItemView::I4(_) => true,
            ItemView::I8(_) => true,
            ItemView::U1(_) => true,
            ItemView::U2(_) => true,
            ItemView::U4(_) => true,
            ItemView::U8(_) => true,
            ItemView::F4(_) => true,
            ItemView::F8(_) => true,
            _ => false,
        }
    }

    open spec fn reads(item: ItemView, value: Self) -> bool {
        item == value.item()
    }

    open spec fn valid(self) -> bool {
        true
    }

    proof fn lemma_round_trip(self) {
    }

    fn into_item(self) -> (r: Item) {
        match self {
            ParameterValue::List(list) => {
                proof {
                    lemma_list_view(list);
                }
                Item::List(list)
            },
            ParameterValue::Bin(values) => Item::Bin(values),
            ParameterValue::Bool(values) => Item::Bool(values),
            ParameterValue::Ascii(values) => Item::Ascii(values),
            ParameterValue::I1(values) => Item::I1(values),
            ParameterValue::I2(values) => Item::I2(values),
            ParameterValue::I4(values) => Item::I4(values),
            ParameterValue::I8(values) => Item::I8(values),
            ParameterValue::U1(values) => Item::U1(values),
            ParameterValue::U2(values) => Item::U2(values),
            ParameterValue::U4(values) => Item::U4(values),
            ParameterValue::U8(values) => Item::U8(values),
            ParameterValue::F4(values) => Item::F4(values),
            ParameterValue::F8(values) => Item::F8(values),
        }
    }

    fn try_from_item(item: Item) -> (r: Result<Self, Error>) {
        match item {
            Item::List(list) => {
                proof {
                    lemma_list_view(list);
                }
                Ok(ParameterValue::List(list))
            },
            Item::Bin(values) => Ok(ParameterValue::Bin(values)),
            Item::Bool(values) => Ok(ParameterValue::Bool(values)),
            Item::Ascii(values) => Ok(ParameterValue::Ascii(values)),
            Item::I1(values) => Ok(ParameterValue::I1(values)),
            Item::I2(values) => Ok(ParameterValue::I2(values)),
            Item::I4(values) => Ok(ParameterValue::I4(values)),
            Item::I8(values) => Ok(ParameterValue::I8(values)),
            Item::U1(values) => Ok(ParameterValue::U1(values)),
            Item::U2(values) => Ok(ParameterValue::U2(values)),
            Item::U4(values) => Ok(ParameterValue::U4(values)),
            Item::U8(values) => Ok(ParameterValue::U8(values)),
            Item::F4(values) => Ok(ParameterValue::F4(values)),
            Item::F8(values) => Ok(ParameterValue::F8(values)),
            _ => Err(Error::WrongFormat),
        }
    }
}

/// ## PODID
///
/// **Pod Identifier**
pub type PodID = ObjectSpecifier;

/// ## PPID
///
/// Process Program ID
#[derive(Debug, PartialEq, Eq)]
pub struct ProcessProgramID(Vec<Char>);

impl View for ProcessProgramID {
    type V = Seq<Char>;

    closed spec fn view(&self) -> Seq<Char> {
        self.0@
    }
}

impl ProcessProgramID {
    #[verifier::type_invariant]
    spec fn within_limits(self) -> bool {
        Self::allows(self.0@.len())
    }

    /// Whether the item may have a given length: at most 120 characters.
    pub open spec fn allows(length: nat) -> bool {
        length <= 120
    }

    /// Makes the item from its characters, where their number is allowed.
    pub fn new(vec: Vec<Char>) -> (r: Option<Self>)
        ensures
            Self::allows(vec@.len()) ==> (r matches Some(value) && value@ == vec@),
            !Self::allows(vec@.len()) ==> r is None,
    {
        if vec.len() <= 120 {
            Some(ProcessProgramID(vec))
        } else {
            None
        }
    }

    /// The characters of the item.
    pub fn read(&self) -> (r: &Vec<Char>)
        ensures
            r@ == self@,
            Self::allows(r@.len()),
    {
        proof {
            use_type_invariant(self);
        }
        &self.0
    }
}

impl ItemFormat for ProcessProgramID {
    open spec fn item(self) -> ItemView {
        ItemView::Ascii(self@)
    }

    open spec fn accepts(item: ItemView) -> bool {
        item matches ItemView::Ascii(chars) && Self::allows(chars.len())
    }

    open spec fn reads(item: ItemView, value: Self) -> bool {
        item == value.item()
    }

    open spec fn valid(self) -> bool {
        Self::allows(self@.len())
    }

    proof fn lemma_round_trip(self) {
    }

    fn into_item(self) -> (r: Item) {
        Item::Ascii(self.0)
    }

    fn try_from_item(item: Item) -> (r: Result<Self, Error>) {
        match item {
            Item::Ascii(vec) => match ProcessProgramID::new(vec) {
                Some(value) => Ok(value),
                None => Err(Error::WrongFormat),
            },
            _ => Err(Error::WrongFormat),
        }
    }
}

/// ## PORTACTION
///
/// **Port Action**
///
/// The action to be performed on a port.
#[derive(Clone, Debug, PartialEq, Eq)]
pub struct PortAction(pub Vec<Char>);

impl ItemFormat for PortAction {
    open spec fn item(self) -> ItemView {
        ItemView::Ascii(self.0@)
    }

    open spec fn accepts(item: ItemView) -> bool {
        item is Ascii
    }

    open spec fn reads(item: ItemView, value: Self) -> bool {
        item == value.item()
    }

    open spec fn valid(self) -> bool {
        true
    }

    proof fn lemma_round_trip(self) {
    }

    fn into_item(self) -> (r: Item) {
        Item::Ascii(self.0)
    }

    fn try_from_item(item: Item) -> (r: Result<Self, Error>) {
        match item {
            Item::Ascii(values) => Ok(PortAction(values)),
            _ => Err(Error::WrongFormat),
        }
    }
}

/// ## PGRPACTION
///
/// **Port Group Action**
///
/// The action to be performed on a port group.
#[derive(Clone, Debug, PartialEq, Eq)]
pub struct PortGroupAction(pub Vec<Char>);

impl ItemFormat for PortGroupAction {
    open spec fn item(self) -> ItemView {
        ItemView::Ascii(self.0@)
    }

    open spec fn accepts(item: ItemView) -> bool {
        item is Ascii
    }

    open spec fn reads(item: ItemView, value: Self) -> bool {
        item == value.item()
    }

    open spec fn valid(self) -> bool {
        true
    }

    proof fn lemma_round_trip(self) {
    }

    fn into_item(self) -> (r: Item) {
        Item::Ascii(self.0)
    }

    fn try_from_item(item: Item) -> (r: Result<Self, Error>) {
        match item {
            Item::Ascii(values) => Ok(PortGroupAction(values)),
            _ => Err(Error::WrongFormat),
        }
    }
}

/// ## PORTGRPNAME
///
/// **Port Group Name**
///
/// The identifier of a group of ports.
#[derive(Clone, Debug, PartialEq, Eq)]
pub struct PortGroupName(pub Vec<Char>);

impl ItemFormat for PortGroupName {
    open spec fn item(self) -> ItemView {
        ItemView::Ascii(self.0@)
    }

    open spec fn accepts(item: ItemView) -> bool {
        item is Ascii
    }

    open spec fn reads(item: ItemView, value: Self) -> bool {
        item == value.item()
    }

    open spec fn valid(self) -> bool {
        true
    }

    proof fn lemma_round_trip(self) {
    }

    fn into_item(self) -> (r: Item) {
        Item::Ascii(self.0)
    }

    fn try_from_item(item: Item) -> (r: Result<Self, Error>) {
        match item {
            Item::Ascii(values) => Ok(PortGroupName(values)),
            _ => Err(Error::WrongFormat),
        }
    }
}

/// ## PTN
///
/// **Material Port Number**
#[derive(Clone, Copy, Debug, PartialEq, Eq, Structural)]
pub enum PortNumber {
    Bin(u8),
    U1(u8),
}

impl ItemFormat for PortNumber {
    open spec fn item(self) -> ItemView {
        match self {
            PortNumber::Bin(value) => ItemView::Bin(seq![value]),
            PortNumber::U1(value) => ItemView::U1(seq![value]),
        }
    }

    open spec fn accepts(item: ItemView) -> bool {
        match item {
            ItemView::Bin(values) => values.len() == 1,
            ItemView::U1(values) => values.len() == 1,
            _ => false,
        }
    }

    open spec fn reads(item: ItemView, value: Self) -> bool {
        item == value.item()
    }

    open spec fn valid(self) -> bool {
        true
    }

    proof fn lemma_round_trip(self) {
    }

    fn into_item(self) -> (r: Item) {
        match self {
            PortNumber::Bin(value) => Item::Bin(single(value)),
            PortNumber::U1(value) => Item::U1(single(value)),
        }
    }

    fn try_from_item(item: Item) -> (r: Result<Self, Error>) {
        match item {
            Item::Bin(values) => match only(&values) {
                Some(value) => Ok(PortNumber::Bin(value)),
                None => Err(Error::WrongFormat),
            },
            Item::U1(values) => match only(&values) {
                Some(value) => Ok(PortNumber::U1(value)),
                None => Err(Error::WrongFormat),
            },
            _ => Err(Error::WrongFormat),
        }
    }
}

/// ## QUA
///
/// **Quantity**
#[derive(Clone, Copy, Debug, PartialEq, Eq, Structural)]
pub struct Quantity(pub u8);

impl ItemFormat for Quantity {
    open spec fn item(self) -> ItemView {
        ItemView::U1(seq![self.0])
    }

    open spec fn accepts(item: ItemView) -> bool {
        item matches ItemView::U1(values) && values.len() == 1
    }

    open spec fn reads(item: ItemView, value: Self) -> bool {
        item == value.item()
    }

    open spec fn valid(self) -> bool {
        true
    }

    proof fn lemma_round_trip(self) {
    }

    fn into_item(self) -> (r: Item) {
        Item::U1(single(self.0))
    }

    fn try_from_item(item: Item) -> (r: Result<Self, Error>) {
        match item {
            Item::U1(values) => match only(&values) {
                Some(value) => Ok(Quantity(value)),
                None => Err(Error::WrongFormat),
            },
            _ => Err(Error::WrongFormat),
        }
    }
}

/// ## RAC
///
/// Reset acknowledge code, 1 byte.
#[derive(Clone, Copy, Debug, PartialEq, Eq, Structural)]
pub enum ResetAcknowledgeCode {
    Okay,
    Denied,
}

impl Enumeration for ResetAcknowledgeCode {
    open spec fn number(self) -> u8 {
        match self {
            ResetAcknowledgeCode::Okay => 0,
            ResetAcknowledgeCode::Denied => 1,
        }
    }

    open spec fn named(number: u8) -> Option<Self> {
        if number == 0 {
            Some(ResetAcknowledgeCode::Okay)
        } else if number == 1 {
            Some(ResetAcknowledgeCode::Denied)
        } else {
            None
        }
    }

    open spec fn binary() -> bool {
        false
    }

    fn into_primitive(self) -> (r: u8) {
        match self {
            ResetAcknowledgeCode::Okay => 0,
            ResetAcknowledgeCode::Denied => 1,
        }
    }

    fn try_from_primitive(number: u8) -> (r: Option<Self>) {
        match number {
            0 => Some(ResetAcknowledgeCode::Okay),
            1 => Some(ResetAcknowledgeCode::Denied),
            _ => None,
        }
    }

    fn is_binary() -> (r: bool) {
        false
    }

    proof fn lemma_number_names_value(self) {
    }

    proof fn lemma_named_has_number(number: u8) {
    }
}

impl ItemFormat for ResetAcknowledgeCode {
    open spec fn item(self) -> ItemView {
        enumeration_item(self)
    }

    open spec fn accepts(item: ItemView) -> bool {
        enumeration_accepts::<ResetAcknowledgeCode>(item)
    }

    open spec fn reads(item: ItemView, value: Self) -> bool {
        item == value.item()
    }

    open spec fn valid(self) -> bool {
        true
    }

    proof fn lemma_round_trip(self) {
        lemma_enumeration_round_trip(self);
    }

    fn into_item(self) -> (r: Item) {
        enumeration_into_item(self)
    }

    fn try_from_item(item: Item) -> (r: Result<Self, Error>) {
        enumeration_try_from_item(item)
    }
}

/// ## RCMD
///
/// Remote command.
#[derive(Clone, Debug, PartialEq, Eq)]
pub enum RemoteCommand {
    Ascii(Vec<Char>),
    I1(i8),
    U1(u8),
}

impl ItemFormat for RemoteCommand {
    open spec fn item(self) -> ItemView {
        match self {
            RemoteCommand::Ascii(values) => ItemView::Ascii(values@),
            RemoteCommand::I1(value) => ItemView::I1(seq![value]),
            RemoteCommand::U1(value) => ItemView::U1(seq![value]),
        }
    }

    open spec fn accepts(item: ItemView) -> bool {
        match item {
            ItemView::Ascii(_) => true,
            ItemView::I1(values) => values.len() == 1,
            ItemView::U1(values) => values.len() == 1,
            _ => false,
        }
    }

    open spec fn reads(item: ItemView, value: Self) -> bool {
        item == value.item()
    }

    open spec fn valid(self) -> bool {
        true
    }

    proof fn lemma_round_trip(self) {
    }

    fn into_item(self) -> (r: Item) {
        match self {
            RemoteCommand::Ascii(values) => Item::Ascii(values),
            RemoteCommand::I1(value) => Item::I1(single(value)),
            RemoteCommand::U1(value) => Item::U1(single(value)),
        }
    }

    fn try_from_item(item: Item) -> (r: Result<Self, Error>) {
        match item {
            Item::Ascii(values) => Ok(RemoteCommand::Ascii(values)),
            Item::I1(values) => match only(&values) {
                Some(value) => Ok(RemoteCommand::I1(value)),
                None => Err(Error::WrongFormat),
            },
            Item::U1(values) => match only(&values) {
                Some(value) => Ok(RemoteCommand::U1(value)),
                None => Err(Error::WrongFormat),
            },
            _ => Err(Error::WrongFormat),
        }
    }
}

/// ## RCPID
///
/// **Recipe Identifier**
pub type RecipeID = ObjectSpecifier;

/// ## REPGSZ
///
/// Reporting group size.
#[derive(Clone, Debug, PartialEq, Eq)]
pub enum ReportingGroupSize {
    Ascii(Vec<Char>),
    I1(i8),
    I2(i16),
    I4(i32),
    I8(i64),
    U1(u8),
    U2(u16),
    U4(u32),
    U8(u64),
}

impl ItemFormat for ReportingGroupSize {
    open spec fn item(self) -> ItemView {
        match self {
            ReportingGroupSize::Ascii(values) => ItemView::Ascii(values@),
            ReportingGroupSize::I1(value) => ItemView::I1(seq![value]),
            ReportingGroupSize::I2(value) => ItemView::I2(seq![value]),
            ReportingGroupSize::I4(value) => ItemView::I4(seq![value]),
            ReportingGroupSize::I8(value) => ItemView::I8(seq![value]),
            ReportingGroupSize::U1(value) => ItemView::U1(seq![value]),
            ReportingGroupSize::U2(value) => ItemView::U2(seq![value]),
            ReportingGroupSize::U4(value) => ItemView::U4(seq![value]),
            ReportingGroupSize::U8(value) => ItemView::U8(seq![value]),
        }
    }

    open spec fn accepts(item: ItemView) -> bool {
        match item {
            ItemView::Ascii(_) => true,
            ItemView::I1(values) => values.len() == 1,
            ItemView::I2(values) => values.len() == 1,
            ItemView::I4(values) => values.len() == 1,
            ItemView::I8(values) => values.len() == 1,
            ItemView::U1(values) => values.len() == 1,
            ItemView::U2(values) => values.len() == 1,
            ItemView::U4(values) => values.len() == 1,
            ItemView::U8(values) => values.len() == 1,
            _ => false,
        }
    }

    open spec fn reads(item: ItemView, value: Self) -> bool {
        item == value.item()
    }

    open spec fn valid(self) -> bool {
        true
    }

    proof fn lemma_round_trip(self) {
    }

    fn into_item(self) -> (r: Item) {
        match self {
            ReportingGroupSize::Ascii(values) => Item::Ascii(values),
            ReportingGroupSize::I1(value) => Item::I1(single(value)),
            ReportingGroupSize::I2(value) => Item::I2(single(value)),
            ReportingGroupSize::I4(value) => Item::I4(single(value)),
            ReportingGroupSize::I8(value) => Item::I8(single(value)),
            ReportingGroupSize::U1(value) => Item::U1(single(value)),
            ReportingGroupSize::U2(value) => Item::U2(single(value)),
            ReportingGroupSize::U4(value) => Item::U4(single(value)),
            ReportingGroupSize::U8(value) => Item::U8(single(value)),
        }
    }

    fn try_from_item(item: Item) -> (r: Result<Self, Error>) {
        match item {
            Item::Ascii(values) => Ok(ReportingGroupSize::Ascii(values)),
            Item::I1(values) => match only(&values) {
                Some(value) => Ok(ReportingGroupSize::I1(value)),
                None => Err(Error::WrongFormat),
            },
            Item::I2(values) => match only(&values) {
                Some(value) => Ok(ReportingGroupSize::I2(value)),
                None => Err(Error::WrongFormat),
            },
            Item::I4(values) => match only(&values) {
                Some(value) => Ok(ReportingGroupSize::I4(value)),
                None => Err(Error::WrongFormat),
            },
            Item::I8(values) => match only(&values) {
                Some(value) => Ok(ReportingGroupSize::I8(value)),
                None => Err(Error::WrongFormat),
            },
            Item::U1(values) => match only(&values) {
                Some(value) => Ok(ReportingGroupSize::U1(value)),
                None => Err(Error::WrongFormat),
            },
            Item::U2(values) => match only(&values) {
                Some(value) => Ok(ReportingGroupSize::U2(value)),
                None => Err(Error::WrongFormat),
            },
            Item::U4(values) => match only(&values) {
                Some(value) => Ok(ReportingGroupSize::U4(value)),
                None => Err(Error::WrongFormat),
            },
            Item::U8(values) => match only(&values) {
                Some(value) => Ok(ReportingGroupSize::U8(value)),
                None => Err(Error::WrongFormat),
            },
            _ => Err(Error::WrongFormat),
        }
    }
}

/// ## RETICLEID
///
/// **Reticle Identifier**
pub type ReticleID = ObjectSpecifier;

/// ## RETPLACEINSTR
///
/// **Reticle Place Instruction**
///
/// Indicates which pod slots will have reticles placed.
#[derive(Clone, Copy, Debug, PartialEq, Eq, Structural)]
pub enum ReticlePlaceInstruction {
    Place,
    PassBy,
    CurrentlyOccupied,
}

impl Enumeration for ReticlePlaceInstruction {
    open spec fn number(self) -> u8 {
        match self {
            ReticlePlaceInstruction::Place => 0,
            ReticlePlaceInstruction::PassBy => 1,
            ReticlePlaceInstruction::CurrentlyOccupied => 2,
        }
    }

    open spec fn named(number: u8) -> Option<Self> {
        if number == 0 {
            Some(ReticlePlaceInstruction::Place)
        } else if number == 1 {
            Some(ReticlePlaceInstruction::PassBy)
        } else if number == 2 {
            Some(ReticlePlaceInstruction::CurrentlyOccupied)
        } else {
            None
        }
    }

    open spec fn binary() -> bool {
        false
    }

    fn into_primitive(self) -> (r: u8) {
        match self {
            ReticlePlaceInstruction::Place => 0,
            ReticlePlaceInstruction::PassBy => 1,
            ReticlePlaceInstruction::CurrentlyOccupied => 2,
        }
    }

    fn try_from_primitive(number: u8) -> (r: Option<Self>) {
        match number {
            0 => Some(ReticlePlaceInstruction::Place),
            1 => Some(ReticlePlaceInstruction::PassBy),
            2 => Some(ReticlePlaceInstruction::CurrentlyOccupied),
            _ => None,
        }
    }

    fn is_binary() -> (r: bool) {
        false
    }

    proof fn lemma_number_names_value(self) {
    }

    proof fn lemma_named_has_number(number: u8) {
    }
}

impl ItemFormat for ReticlePlaceInstruction {
    open spec fn item(self) -> ItemView {
        enumeration_item(self)
    }

    open spec fn accepts(item: ItemView) -> bool {
        enumeration_accepts::<ReticlePlaceInstruction>(item)
    }

    open spec fn reads(item: ItemView, value: Self) -> bool {
        item == value.item()
    }

    open spec fn valid(self) -> bool {
        true
    }

    proof fn lemma_round_trip(self) {
        lemma_enumeration_round_trip(self);
    }

    fn into_item(self) -> (r: Item) {
        enumeration_into_item(self)
    }

    fn try_from_item(item: Item) -> (r: Result<Self, Error>) {
        enumeration_try_from_item(item)
    }
}

/// ## RETREMOVEINSTR
///
/// **Reticle Remove Instruction**
///
/// Indicates which pod slots will have reticles removed.
#[derive(Clone, Copy, Debug, PartialEq, Eq, Structural)]
pub enum ReticleRemoveInstruction {
    Remove,
    PassBy,
}

impl Enumeration for ReticleRemoveInstruction {
    open spec fn number(self) -> u8 {
        match self {
            ReticleRemoveInstruction::Remove => 0,
            ReticleRemoveInstruction::PassBy => 1,
        }
    }

    open spec fn named(number: u8) -> Option<Self> {
        if number == 0 {
            Some(ReticleRemoveInstruction::Remove)
        } else if number == 1 {
            Some(ReticleRemoveInstruction::PassBy)
        } else {
            None
        }
    }

    open spec fn binary() -> bool {
        false
    }

    fn into_primitive(self) -> (r: u8) {
        match self {
            ReticleRemoveInstruction::Remove => 0,
            ReticleRemoveInstruction::PassBy => 1,
        }
    }

    fn try_from_primitive(number: u8) -> (r: Option<Self>) {
        match number {
            0 => Some(ReticleRemoveInstruction::Remove),
            1 => Some(ReticleRemoveInstruction::PassBy),
            _ => None,
        }
    }

    fn is_binary() -> (r: bool) {
        false
    }

    proof fn lemma_number_names_value(self) {
    }

    proof fn lemma_named_has_number(number: u8) {
    }
}

impl ItemFormat for ReticleRemoveInstruction {
    open spec fn item(self) -> ItemView {
        enumeration_item(self)
    }

    open spec fn accepts(item: ItemView) -> bool {
        enumeration_accepts::<ReticleRemoveInstruction>(item)
    }

    open spec fn reads(item: ItemView, value: Self) -> bool {
        item == value.item()
    }

    open spec fn valid(self) -> bool {
        true
    }

    proof fn lemma_round_trip(self) {
        lemma_enumeration_round_trip(self);
    }

    fn into_item(self) -> (r: Item) {
        enumeration_into_item(self)
    }

    fn try_from_item(item: Item) -> (r: Result<Self, Error>) {
        enumeration_try_from_item(item)
    }
}

/// ## RIC
///
/// Reset code, 1 byte.
#[derive(Clone, Copy, Debug, PartialEq, Eq, Structural)]
pub enum ResetCode {
    NotUsed,
    PowerUpReset,
}

impl Enumeration for ResetCode {
    open spec fn number(self) -> u8 {
        match self {
            ResetCode::NotUsed => 0,
            ResetCode::PowerUpReset => 1,
        }
    }

    open spec fn named(number: u8) -> Option<Self> {
        if number == 0 {
            Some(ResetCode::NotUsed)
        } else if number == 1 {
            Some(ResetCode::PowerUpReset)
        } else {
            None
        }
    }

    open spec fn binary() -> bool {
        false
    }

    fn into_primitive(self) -> (r: u8) {
        match self {
            ResetCode::NotUsed => 0,
            ResetCode::PowerUpReset => 1,
        }
    }

    fn try_from_primitive(number: u8) -> (r: Option<Self>) {
        match number {
            0 => Some(ResetCode::NotUsed),
            1 => Some(ResetCode::PowerUpReset),
            _ => None,
        }
    }

    fn is_binary() -> (r: bool) {
        false
    }

    proof fn lemma_number_names_value(self) {
    }

    proof fn lemma_named_has_number(number: u8) {
    }
}

impl ItemFormat for ResetCode {
    open spec fn item(self) -> ItemView {
        enumeration_item(self)
    }

    open spec fn accepts(item: ItemView) -> bool {
        enumeration_accepts::<ResetCode>(item)
    }

    open spec fn reads(item: ItemView, value: Self) -> bool {
        item == value.item()
    }

    open spec fn valid(self) -> bool {
        true
    }

    proof fn lemma_round_trip(self) {
        lemma_enumeration_round_trip(self);
    }

    fn into_item(self) -> (r: Item) {
        enumeration_into_item(self)
    }

    fn try_from_item(item: Item) -> (r: Result<Self, Error>) {
        enumeration_try_from_item(item)
    }
}

/// ## RPMACK
///
/// **Reticle Pod Management Service Acknowledge Code**
#[derive(Clone, Copy, Debug, PartialEq, Eq, Structural)]
pub enum ReticlePodManagementAcknowledgeCode {
    Okay,
    ServiceDoesNotExist,
    CannotPerformNow,
    ParameterDoesNotExist,
    ToBeCompleted,
    ServiceFailed,
    ObjectDoesNotExist,
}

impl Enumeration for ReticlePodManagementAcknowledgeCode {
    open spec fn number(self) -> u8 {
        match self {
            ReticlePodManagementAcknowledgeCode::Okay => 0,
            ReticlePodManagementAcknowledgeCode::ServiceDoesNotExist => 1,
            ReticlePodManagementAcknowledgeCode::CannotPerformNow => 2,
            ReticlePodManagementAcknowledgeCode::ParameterDoesNotExist => 3,
            ReticlePodManagementAcknowledgeCode::ToBeCompleted => 4,
            ReticlePodManagementAcknowledgeCode::ServiceFailed => 5,
            ReticlePodManagementAcknowledgeCode::ObjectDoesNotExist => 6,
        }
    }

    open spec fn named(number: u8) -> Option<Self> {
        if number == 0 {
            Some(ReticlePodManagementAcknowledgeCode::Okay)
        } else if number == 1 {
            Some(ReticlePodManagementAcknowledgeCode::ServiceDoesNotExist)
        } else if number == 2 {
            Some(ReticlePodManagementAcknowledgeCode::CannotPerformNow)
        } else if number == 3 {
            Some(ReticlePodManagementAcknowledgeCode::ParameterDoesNotExist)
        } else if number == 4 {
            Some(ReticlePodManagementAcknowledgeCode::ToBeCompleted)
        } else if number == 5 {
            Some(ReticlePodManagementAcknowledgeCode::ServiceFailed)
        } else if number == 6 {
            Some(ReticlePodManagementAcknowledgeCode::ObjectDoesNotExist)
        } else {
            None
        }
    }

    open spec fn binary() -> bool {
        false
    }

    fn into_primitive(self) -> (r: u8) {
        match self {
            ReticlePodManagementAcknowledgeCode::Okay => 0,
            ReticlePodManagementAcknowledgeCode::ServiceDoesNotExist => 1,
            ReticlePodManagementAcknowledgeCode::CannotPerformNow => 2,
            ReticlePodManagementAcknowledgeCode::ParameterDoesNotExist => 3,
            ReticlePodManagementAcknowledgeCode::ToBeCompleted => 4,
            ReticlePodManagementAcknowledgeCode::ServiceFailed => 5,
            ReticlePodManagementAcknowledgeCode::ObjectDoesNotExist => 6,
        }
    }

    fn try_from_primitive(number: u8) -> (r: Option<Self>) {
        match number {
            0 => Some(ReticlePodManagementAcknowledgeCode::Okay),
            1 => Some(ReticlePodManagementAcknowledgeCode::ServiceDoesNotExist),
            2 => Some(ReticlePodManagementAcknowledgeCode::CannotPerformNow),
            3 => Some(ReticlePodManagementAcknowledgeCode::ParameterDoesNotExist),
            4 => Some(ReticlePodManagementAcknowledgeCode::ToBeCompleted),
            5 => Some(ReticlePodManagementAcknowledgeCode::ServiceFailed),
            6 => Some(ReticlePodManagementAcknowledgeCode::ObjectDoesNotExist),
            _ => None,
        }
    }

    fn is_binary() -> (r: bool) {
        false
    }

    proof fn lemma_number_names_value(self) {
    }

    proof fn lemma_named_has_number(number: u8) {
    }
}

impl ItemFormat for ReticlePodManagementAcknowledgeCode {
    open spec fn item(self) -> ItemView {
        enumeration_item(self)
    }

    open spec fn accepts(item: ItemView) -> bool {
        enumeration_accepts::<ReticlePodManagementAcknowledgeCode>(item)
    }

    open spec fn reads(item: ItemView, value: Self) -> bool {
        item == value.item()
    }

    open spec fn valid(self) -> bool {
        true
    }

    proof fn lemma_round_trip(self) {
        lemma_enumeration_round_trip(self);
    }

    fn into_item(self) -> (r: Item) {
        enumeration_into_item(self)
    }

    fn try_from_item(item: Item) -> (r: Result<Self, Error>) {
        enumeration_try_from_item(item)
    }
}

/// ## RPTID
///
/// **Report ID**
#[derive(Clone, Debug, PartialEq, Eq)]
pub enum ReportID {
    Ascii(Vec<Char>),
    I1(i8),
    I2(i16),
    I4(i32),
    I8(i64),
    U1(u8),
    U2(u16),
    U4(u32),
    U8(u64),
}

impl ItemFormat for ReportID {
    open spec fn item(self) -> ItemView {
        match self {
            ReportID::Ascii(values) => ItemView::Ascii(values@),
            ReportID::I1(value) => ItemView::I1(seq![value]),
            ReportID::I2(value) => ItemView::I2(seq![value]),
            ReportID::I4(value) => ItemView::I4(seq![value]),
            ReportID::I8(value) => ItemView::I8(seq![value]),
            ReportID::U1(value) => ItemView::U1(seq![value]),
            ReportID::U2(value) => ItemView::U2(seq![value]),
            ReportID::U4(value) => ItemView::U4(seq![value]),
            ReportID::U8(value) => ItemView::U8(seq![value]),
        }
    }

    open spec fn accepts(item: ItemView) -> bool {
        match item {
            ItemView::Ascii(_) => true,
            ItemView::I1(values) => values.len() == 1,
            ItemView::I2(values) => values.len() == 1,
            ItemView::I4(values) => values.len() == 1,
            ItemView::I8(values) => values.len() == 1,
            ItemView::U1(values) => values.len() == 1,
            ItemView::U2(values) => values.len() == 1,
            ItemView::U4(values) => values.len() == 1,
            ItemView::U8(values) => values.len() == 1,
            _ => false,
        }
    }

    open spec fn reads(item: ItemView, value: Self) -> bool {
        item == value.item()
    }

    open spec fn valid(self) -> bool {
        true
    }

    proof fn lemma_round_trip(self) {
    }

    fn into_item(self) -> (r: Item) {
        match self {
            ReportID::Ascii(values) => Item::Ascii(values),
            ReportID::I1(value) => Item::I1(single(value)),
            ReportID::I2(value) => Item::I2(single(value)),
            ReportID::I4(value) => Item::I4(single(value)),
            ReportID::I8(value) => Item::I8(single(value)),
            ReportID::U1(value) => Item::U1(single(value)),
            ReportID::U2(value) => Item::U2(single(value)),
            ReportID::U4(value) => Item::U4(single(value)),
            ReportID::U8(value) => Item::U8(single(value)),
        }
    }

    fn try_from_item(item: Item) -> (r: Result<Self, Error>) {
        match item {
            Item::Ascii(values) => Ok(ReportID::Ascii(values)),
            Item::I1(values) => match only(&values) {
                Some(value) => Ok(ReportID::I1(value)),
                None => Err(Error::WrongFormat),
            },
            Item::I2(values) => match only(&values) {
                Some(value) => Ok(ReportID::I2(value)),
                None => Err(Error::WrongFormat),
            },
            Item::I4(values) => match only(&values) {
                Some(value) => Ok(ReportID::I4(value)),
                None => Err(Error::WrongFormat),
            },
            Item::I8(values) => match only(&values) {
                Some(value) => Ok(ReportID::I8(value)),
                None => Err(Error::WrongFormat),
            },
            Item::U1(values) => match only(&values) {
                Some(value) => Ok(ReportID::U1(value)),
                None => Err(Error::WrongFormat),
            },
            Item::U2(values) => match only(&values) {
                Some(value) => Ok(ReportID::U2(value)),
                None => Err(Error::WrongFormat),
            },
            Item::U4(values) => match only(&values) {
                Some(value) => Ok(ReportID::U4(value)),
                None => Err(Error::WrongFormat),
            },
            Item::U8(values) => match only(&values) {
                Some(value) => Ok(ReportID::U8(value)),
                None => Err(Error::WrongFormat),
            },
            _ => Err(Error::WrongFormat),
        }
    }
}

/// ## RSPACK
///
/// **Reset Spooling Acknowledge Code**
#[derive(Clone, Copy, Debug, PartialEq, Eq, Structural)]
pub enum ResetSpoolingAcknowledgeCode {
    Okay,
    Rejected,
}

impl Enumeration for ResetSpoolingAcknowledgeCode {
    open spec fn number(self) -> u8 {
        match self {
            ResetSpoolingAcknowledgeCode::Okay => 0,
            ResetSpoolingAcknowledgeCode::Rejected => 1,
        }
    }

    open spec fn named(number: u8) -> Option<Self> {
        if number == 0 {
            Some(ResetSpoolingAcknowledgeCode::Okay)
        } else if number == 1 {
            Some(ResetSpoolingAcknowledgeCode::Rejected)
        } else {
            None
        }
    }

    open spec fn binary() -> bool {
        true
    }

    fn into_primitive(self) -> (r: u8) {
        match self {
            ResetSpoolingAcknowledgeCode::Okay => 0,
            ResetSpoolingAcknowledgeCode::Rejected => 1,
        }
    }

    fn try_from_primitive(number: u8) -> (r: Option<Self>) {
        match number {
            0 => Some(ResetSpoolingAcknowledgeCode::Okay),
            1 => Some(ResetSpoolingAcknowledgeCode::Rejected),
            _ => None,
        }
    }

    fn is_binary() -> (r: bool) {
        true
    }

    proof fn lemma_number_names_value(self) {
    }

    proof fn lemma_named_has_number(number: u8) {
    }
}

impl ItemFormat for ResetSpoolingAcknowledgeCode {
    open spec fn item(self) -> ItemView {
        enumeration_item(self)
    }

    open spec fn accepts(item: ItemView) -> bool {
        enumeration_accepts::<ResetSpoolingAcknowledgeCode>(item)
    }

    open spec fn reads(item: ItemView, value: Self) -> bool {
        item == value.item()
    }

    open spec fn valid(self) -> bool {
        true
    }

    proof fn lemma_round_trip(self) {
        lemma_enumeration_round_trip(self);
    }

    fn into_item(self) -> (r: Item) {
        enumeration_into_item(self)
    }

    fn try_from_item(item: Item) -> (r: Result<Self, Error>) {
        enumeration_try_from_item(item)
    }
}

/// ## SFCD
///
/// Status form code, 1 byte.
#[derive(Clone, Copy, Debug, PartialEq, Eq, Structural)]
pub struct StatusFormCode(pub u8);

impl ItemFormat for StatusFormCode {
    open spec fn item(self) -> ItemView {
        ItemView::Bin(seq![self.0])
    }

    open spec fn accepts(item: ItemView) -> bool {
        item matches ItemView::Bin(values) && values.len() == 1
    }

    open spec fn reads(item: ItemView, value: Self) -> bool {
        item == value.item()
    }

    open spec fn valid(self) -> bool {
        true
    }

    proof fn lemma_round_trip(self) {
    }

    fn into_item(self) -> (r: Item) {
        Item::Bin(single(self.0))
    }

    fn try_from_item(item: Item) -> (r: Result<Self, Error>) {
        match item {
            Item::Bin(values) => match only(&values) {
                Some(value) => Ok(StatusFormCode(value)),
                None => Err(Error::WrongFormat),
            },
            _ => Err(Error::WrongFormat),
        }
    }
}

/// ## SOFTREV
///
/// Software Revision Code, 20 bytes max.
#[derive(Debug, PartialEq, Eq)]
pub struct SoftwareRevision(Vec<Char>);

impl View for SoftwareRevision {
    type V = Seq<Char>;

    closed spec fn view(&self) -> Seq<Char> {
        self.0@
    }
}

impl SoftwareRevision {
    #[verifier::type_invariant]
    spec fn within_limits(self) -> bool {
        Self::allows(self.0@.len())
    }

    /// Whether the item may have a given length: at most 20 characters.
    pub open spec fn allows(length: nat) -> bool {
        length <= 20
    }

    /// Makes the item from its characters, where their number is allowed.
    pub fn new(vec: Vec<Char>) -> (r: Option<Self>)
        ensures
            Self::allows(vec@.len()) ==> (r matches Some(value) && value@ == vec@),
            !Self::allows(vec@.len()) ==> r is None,
    {
        if vec.len() <= 20 {
            Some(SoftwareRevision(vec))
        } else {
            None
        }
    }

    /// The characters of the item.
    pub fn read(&self) -> (r: &Vec<Char>)
        ensures
            r@ == self@,
            Self::allows(r@.len()),
    {
        proof {
            use_type_invariant(self);
        }
        &self.0
    }
}

impl ItemFormat for SoftwareRevision {
    open spec fn item(self) -> ItemView {
        ItemView::Ascii(self@)
    }

    open spec fn accepts(item: ItemView) -> bool {
        item matches ItemView::Ascii(chars) && Self::allows(chars.len())
    }

    open spec fn reads(item: ItemView, value: Self) -> bool {
        item == value.item()
    }

    open spec fn valid(self) -> bool {
        Self::allows(self@.len())
    }

    proof fn lemma_round_trip(self) {
    }

    fn into_item(self) -> (r: Item) {
        Item::Ascii(self.0)
    }

    fn try_from_item(item: Item) -> (r: Result<Self, Error>) {
        match item {
            Item::Ascii(vec) => match SoftwareRevision::new(vec) {
                Some(value) => Ok(value),
                None => Err(Error::WrongFormat),
            },
            _ => Err(Error::WrongFormat),
        }
    }
}

/// ## SPAACK
///
/// Service program acknowledge code, 1 byte.
#[derive(Clone, Copy, Debug, PartialEq, Eq, Structural)]
pub enum ServiceProgramAcknowledge {
    Okay,
    InvalidData,
}

impl Enumeration for ServiceProgramAcknowledge {
    open spec fn number(self) -> u8 {
        match self {
            ServiceProgramAcknowledge::Okay => 0,
            ServiceProgramAcknowledge::InvalidData => 1,
        }
    }

    open spec fn named(number: u8) -> Option<Self> {
        if number == 0 {
            Some(ServiceProgramAcknowledge::Okay)
        } else if number == 1 {
            Some(ServiceProgramAcknowledge::InvalidData)
        } else {
            None
        }
    }

    open spec fn binary() -> bool {
        true
    }

    fn into_primitive(self) -> (r: u8) {
        match self {
            ServiceProgramAcknowledge::Okay => 0,
            ServiceProgramAcknowledge::InvalidData => 1,
        }
    }

    fn try_from_primitive(number: u8) -> (r: Option<Self>) {
        match number {
            0 => Some(ServiceProgramAcknowledge::Okay),
            1 => Some(ServiceProgramAcknowledge::InvalidData),
            _ => None,
        }
    }

    fn is_binary() -> (r: bool) {
        true
    }

    proof fn lemma_number_names_value(self) {
    }

    proof fn lemma_named_has_number(number: u8) {
    }
}

impl ItemFormat for ServiceProgramAcknowledge {
    open spec fn item(self) -> ItemView {
        enumeration_item(self)
    }

    open spec fn accepts(item: ItemView) -> bool {
        enumeration_accepts::<ServiceProgramAcknowledge>(item)
    }

    open spec fn reads(item: ItemView, value: Self) -> bool {
        item == value.item()
    }

    open spec fn valid(self) -> bool {
        true
    }

    proof fn lemma_round_trip(self) {
        lemma_enumeration_round_trip(self);
    }

    fn into_item(self) -> (r: Item) {
        enumeration_into_item(self)
    }

    fn try_from_item(item: Item) -> (r: Result<Self, Error>) {
        enumeration_try_from_item(item)
    }
}

/// ## SPD
///
/// Service program data.
#[derive(Clone, Debug, PartialEq, Eq)]
pub struct ServiceProgramData(pub Vec<u8>);

impl ItemFormat for ServiceProgramData {
    open spec fn item(self) -> ItemView {
        ItemView::Bin(self.0@)
    }

    open spec fn accepts(item: ItemView) -> bool {
        item is Bin
    }

    open spec fn reads(item: ItemView, value: Self) -> bool {
        item == value.item()
    }

    open spec fn valid(self) -> bool {
        true
    }

    proof fn lemma_round_trip(self) {
    }

    fn into_item(self) -> (r: Item) {
        Item::Bin(self.0)
    }

    fn try_from_item(item: Item) -> (r: Result<Self, Error>) {
        match item {
            Item::Bin(values) => Ok(ServiceProgramData(values)),
            _ => Err(Error::WrongFormat),
        }
    }
}

/// ## SPID
///
/// Service program ID, 6 characters.
#[derive(Clone, Copy, Debug, PartialEq, Eq)]
pub struct ServiceProgramID(pub [Char; 6]);

impl ItemFormat for ServiceProgramID {
    open spec fn item(self) -> ItemView {
        ItemView::Ascii(self.0@)
    }

    open spec fn accepts(item: ItemView) -> bool {
        item matches ItemView::Ascii(chars) && chars.len() == 6
    }

    open spec fn reads(item: ItemView, value: Self) -> bool {
        item == value.item()
    }

    open spec fn valid(self) -> bool {
        true
    }

    proof fn lemma_round_trip(self) {
    }

    fn into_item(self) -> (r: Item) {
        let mut chars: Vec<Char> = Vec::new();
        let mut i: usize = 0;
        while i < 6
            invariant
                i <= 6,
                chars@.len() == i,
                forall|k: int| 0 <= k < i ==> chars@[k] == self.0@[k],
            decreases 6 - i,
        {
            chars.push(self.0[i]);
            i = i + 1;
        }
        assert(chars@ =~= self.0@);
        Item::Ascii(chars)
    }

    fn try_from_item(item: Item) -> (r: Result<Self, Error>) {
        match item {
            Item::Ascii(chars) => {
                if chars.len() == 6 {
                    let id = [chars[0], chars[1], chars[2], chars[3], chars[4], chars[5]];
                    assert(id@ =~= chars@);
                    Ok(ServiceProgramID(id))
                } else {
                    Err(Error::WrongFormat)
                }
            },
            _ => Err(Error::WrongFormat),
        }
    }
}

/// ## SPR
///
/// Service program results.
pub type ServiceProgramResults = Item;

/// ## STRACK
///
/// **Spool Stream Acknowledge Code**
#[derive(Clone, Copy, Debug, PartialEq, Eq, Structural)]
pub enum SpoolStreamAcknowledgeCode {
    SpoolingDisallowed,
    StreamUnknown,
    FunctionUnknown,
    SecondaryFunctionDisallowed,
}

impl Enumeration for SpoolStreamAcknowledgeCode {
    open spec fn number(self) -> u8 {
        match self {
            SpoolStreamAcknowledgeCode::SpoolingDisallowed => 1,
            SpoolStreamAcknowledgeCode::StreamUnknown => 2,
            SpoolStreamAcknowledgeCode::FunctionUnknown => 3,
            SpoolStreamAcknowledgeCode::SecondaryFunctionDisallowed => 4,
        }
    }

    open spec fn named(number: u8) -> Option<Self> {
        if number == 1 {
            Some(SpoolStreamAcknowledgeCode::SpoolingDisallowed)
        } else if number == 2 {
            Some(SpoolStreamAcknowledgeCode::StreamUnknown)
        } else if number == 3 {
            Some(SpoolStreamAcknowledgeCode::FunctionUnknown)
        } else if number == 4 {
            Some(SpoolStreamAcknowledgeCode::SecondaryFunctionDisallowed)
        } else {
            None
        }
    }

    open spec fn binary() -> bool {
        true
    }

    fn into_primitive(self) -> (r: u8) {
        match self {
            SpoolStreamAcknowledgeCode::SpoolingDisallowed => 1,
            SpoolStreamAcknowledgeCode::StreamUnknown => 2,
            SpoolStreamAcknowledgeCode::FunctionUnknown => 3,
            SpoolStreamAcknowledgeCode::SecondaryFunctionDisallowed => 4,
        }
    }

    fn try_from_primitive(number: u8) -> (r: Option<Self>) {
        match number {
            1 => Some(SpoolStreamAcknowledgeCode::SpoolingDisallowed),
            2 => Some(SpoolStreamAcknowledgeCode::StreamUnknown),
            3 => Some(SpoolStreamAcknowledgeCode::FunctionUnknown),
            4 => Some(SpoolStreamAcknowledgeCode::SecondaryFunctionDisallowed),
            _ => None,
        }
    }

    fn is_binary() -> (r: bool) {
        true
    }

    proof fn lemma_number_names_value(self) {
    }

    proof fn lemma_named_has_number(number: u8) {
    }
}

impl ItemFormat for SpoolStreamAcknowledgeCode {
    open spec fn item(self) -> ItemView {
        enumeration_item(self)
    }

    open spec fn accepts(item: ItemView) -> bool {
        enumeration_accepts::<SpoolStreamAcknowledgeCode>(item)
    }

    open spec fn reads(item: ItemView, value: Self) -> bool {
        item == value.item()
    }

    open spec fn valid(self) -> bool {
        true
    }

    proof fn lemma_round_trip(self) {
        lemma_enumeration_round_trip(self);
    }

    fn into_item(self) -> (r: Item) {
        enumeration_into_item(self)
    }

    fn try_from_item(item: Item) -> (r: Result<Self, Error>) {
        enumeration_try_from_item(item)
    }
}

/// ## STRID
///
/// **Stream ID**
#[derive(Clone, Copy, Debug, PartialEq, Eq, Structural)]
pub struct StreamID(pub u8);

impl ItemFormat for StreamID {
    open spec fn item(self) -> ItemView {
        ItemView::U1(seq![self.0])
    }

    open spec fn accepts(item: ItemView) -> bool {
        item matches ItemView::U1(values) && values.len() == 1
    }

    open spec fn reads(item: ItemView, value: Self) -> bool {
        item == value.item()
    }

    open spec fn valid(self) -> bool {
        true
    }

    proof fn lemma_round_trip(self) {
    }

    fn into_item(self) -> (r: Item) {
        Item::U1(single(self.0))
    }

    fn try_from_item(item: Item) -> (r: Result<Self, Error>) {
        match item {
            Item::U1(values) => match only(&values) {
                Some(value) => Ok(StreamID(value)),
                None => Err(Error::WrongFormat),
            },
            _ => Err(Error::WrongFormat),
        }
    }
}

/// ## SV
///
/// Status variable value.
#[derive(Debug, PartialEq, Eq)]
pub enum StatusVariableValue {
    List(Vec<Item>),
    Bin(Vec<u8>),
    Bool(Vec<bool>),
    Ascii(Vec<Char>),
    Jis8(String),
    I1(Vec<i8>),
    I2(Vec<i16>),
    I4(Vec<i32>),
    I8(Vec<i64>),
    U1(Vec<u8>),
    U2(Vec<u16>),
    U4(Vec<u32>),
    U8(Vec<u64>),
    /// Floating-point numbers, each held as the bits of its IEEE 754 encoding.
    F4(Vec<u32>),
    /// Floating-point numbers, each held as the bits of its IEEE 754 encoding.
    F8(Vec<u64>),
}

impl ItemFormat for StatusVariableValue {
    open spec fn item(self) -> ItemView {
        match self {
            StatusVariableValue::List(list) => ItemView::List(views_of(list@)),
            StatusVariableValue::Bin(values) => ItemView::Bin(values@),
            StatusVariableValue::Bool(values) => ItemView::Bool(values@),
            StatusVariableValue::Ascii(values) => ItemView::Ascii(values@),
            StatusVariableValue::Jis8(values) => ItemView::Jis8(values@),
            StatusVariableValue::I1(values) => ItemView::I1(values@),
            StatusVariableValue::I2(values) => ItemView::I2(values@),
            StatusVariableValue::I4(values) => ItemView::I4(values@),
            StatusVariableValue::I8(values) => ItemView::I8(values@),
            StatusVariableValue::U1(values) => ItemView::U1(values@),
            StatusVariableValue::U2(values) => ItemView::U2(values@),
            StatusVariableValue::U4(values) => ItemView::U4(values@),
            StatusVariableValue::U8(values) => ItemView::U8(values@),
            StatusVariableValue::F4(values) => ItemView::F4(values@),
            StatusVariableValue::F8(values) => ItemView::F8(values@),
        }
    }

    open spec fn accepts(item: ItemView) -> bool {
        match item {
            ItemView::List(_) => true,
            ItemView::Bin(_) => true,
            ItemView::Bool(_) => true,
            ItemView::Ascii(_) => true,
            ItemView::Jis8(_) => true,
            ItemView::I1(_) => true,
            ItemView::I2(_) => true,
            ItemView::I4(_) => true,
            ItemView::I8(_) => true,
            ItemView::U1(_) => true,
            ItemView::U2(_) => true,
            ItemView::U4(_) => true,
            ItemView::U8(_) => true,
            ItemView::F4(_) => true,
            ItemView::F8(_) => true,
        }
    }

    open spec fn reads(item: ItemView, value: Self) -> bool {
        item == value.item()
    }

    open spec fn valid(self) -> bool {
        true
    }

    proof fn lemma_round_trip(self) {
    }

    fn into_item(self) -> (r: Item) {
        match self {
            StatusVariableValue::List(list) => {
                proof {
                    lemma_list_view(list);
                }
                Item::List(list)
            },
            StatusVariableValue::Bin(values) => Item::Bin(values),
            StatusVariableValue::Bool(values) => Item::Bool(values),
            StatusVariableValue::Ascii(values) => Item::Ascii(values),
            StatusVariableValue::Jis8(values) => Item::Jis8(values),
            StatusVariableValue::I1(values) => Item::I1(values),
            StatusVariableValue::I2(values) => Item::I2(values),
            StatusVariableValue::I4(values) => Item::I4(values),
            StatusVariableValue::I8(values) => Item::I8(values),
            StatusVariableValue::U1(values) => Item::U1(values),
            StatusVariableValue::U2(values) => Item::U2(values),
            StatusVariableValue::U4(values) => Item::U4(values),
            StatusVariableValue::U8(values) => Item::U8(values),
            StatusVariableValue::F4(values) => Item::F4(values),
            StatusVariableValue::F8(values) => Item::F8(values),
        }
    }

    fn try_from_item(item: Item) -> (r: Result<Self, Error>) {
        match item {
            Item::List(list) => {
                proof {
                    lemma_list_view(list);
                }
                Ok(StatusVariableValue::List(list))
            },
            Item::Bin(values) => Ok(StatusVariableValue::Bin(values)),
            Item::Bool(values) => Ok(StatusVariableValue::Bool(values)),
            Item::Ascii(values) => Ok(StatusVariableValue::Ascii(values)),
            Item::Jis8(values) => Ok(StatusVariableValue::Jis8(values)),
            Item::I1(values) => Ok(StatusVariableValue::I1(values)),
            Item::I2(values) => Ok(StatusVariableValue::I2(values)),
            Item::I4(values) => Ok(StatusVariableValue::I4(values)),
            Item::I8(values) => Ok(StatusVariableValue::I8(values)),
            Item::U1(values) => Ok(StatusVariableValue::U1(values)),
            Item::U2(values) => Ok(StatusVariableValue::U2(values)),
            Item::U4(values) => Ok(StatusVariableValue::U4(values)),
            Item::U8(values) => Ok(StatusVariableValue::U8(values)),
            Item::F4(values) => Ok(StatusVariableValue::F4(values)),
            Item::F8(values) => Ok(StatusVariableValue::F8(values)),
        }
    }
}

/// ## SVID
///
/// Status variable ID.
#[derive(Clone, Copy, Debug, PartialEq, Eq, Structural)]
pub enum StatusVariableID {
    I1(i8),
    I2(i16),
    I4(i32),
    I8(i64),
    U1(u8),
    U2(u16),
    U4(u32),
    U8(u64),
}

impl ItemFormat for StatusVariableID {
    open spec fn item(self) -> ItemView {
        match self {
            StatusVariableID::I1(value) => ItemView::I1(seq![value]),
            StatusVariableID::I2(value) => ItemView::I2(seq![value]),
            StatusVariableID::I4(value) => ItemView::I4(seq![value]),
            StatusVariableID::I8(value) => ItemView::I8(seq![value]),
            StatusVariableID::U1(value) => ItemView::U1(seq![value]),
            StatusVariableID::U2(value) => ItemView::U2(seq![value]),
            StatusVariableID::U4(value) => ItemView::U4(seq![value]),
            StatusVariableID::U8(value) => ItemView::U8(seq![value]),
        }
    }

    open spec fn accepts(item: ItemView) -> bool {
        match item {
            ItemView::I1(values) => values.len() == 1,
            ItemView::I2(values) => values.len() == 1,
            ItemView::I4(values) => values.len() == 1,
            ItemView::I8(values) => values.len() == 1,
            ItemView::U1(values) => values.len() == 1,
            ItemView::U2(values) => values.len() == 1,
            ItemView::U4(values) => values.len() == 1,
            ItemView::U8(values) => values.len() == 1,
            _ => false,
        }
    }

    open spec fn reads(item: ItemView, value: Self) -> bool {
        item == value.item()
    }

    open spec fn valid(self) -> bool {
        true
    }

    proof fn lemma_round_trip(self) {
    }

    fn into_item(self) -> (r: Item) {
        match self {
            StatusVariableID::I1(value) => Item::I1(single(value)),
            StatusVariableID::I2(value) => Item::I2(single(value)),
            StatusVariableID::I4(value) => Item::I4(single(value)),
            StatusVariableID::I8(value) => Item::I8(single(value)),
            StatusVariableID::U1(value) => Item::U1(single(value)),
            StatusVariableID::U2(value) => Item::U2(single(value)),
            StatusVariableID::U4(value) => Item::U4(single(value)),
            StatusVariableID::U8(value) => Item::U8(single(value)),
        }
    }

    fn try_from_item(item: Item) -> (r: Result<Self, Error>) {
        match item {
            Item::I1(values) => match only(&values) {
                Some(value) => Ok(StatusVariableID::I1(value)),
                None => Err(Error::WrongFormat),
            },
            Item::I2(values) => match only(&values) {
                Some(value) => Ok(StatusVariableID::I2(value)),
                None => Err(Error::WrongFormat),
            },
            Item::I4(values) => match only(&values) {
                Some(value) => Ok(StatusVariableID::I4(value)),
                None => Err(Error::WrongFormat),
            },
            Item::I8(values) => match only(&values) {
                Some(value) => Ok(StatusVariableID::I8(value)),
                None => Err(Error::WrongFormat),
            },
            Item::U1(values) => match only(&values) {
                Some(value) => Ok(StatusVariableID::U1(value)),
                None => Err(Error::WrongFormat),
            },
            Item::U2(values) => match only(&values) {
                Some(value) => Ok(StatusVariableID::U2(value)),
                None => Err(Error::WrongFormat),
            },
            Item::U4(values) => match only(&values) {
                Some(value) => Ok(StatusVariableID::U4(value)),
                None => Err(Error::WrongFormat),
            },
            Item::U8(values) => match only(&values) {
                Some(value) => Ok(StatusVariableID::U8(value)),
                None => Err(Error::WrongFormat),
            },
            _ => Err(Error::WrongFormat),
        }
    }
}

/// ## SVNAME
///
/// Status variable name.
#[derive(Clone, Debug, PartialEq, Eq)]
pub struct StatusVariableName(pub Vec<Char>);

impl ItemFormat for StatusVariableName {
    open spec fn item(self) -> ItemView {
        ItemView::Ascii(self.0@)
    }

    open spec fn accepts(item: ItemView) -> bool {
        item is Ascii
    }

    open spec fn reads(item: ItemView, value: Self) -> bool {
        item == value.item()
    }

    open spec fn valid(self) -> bool {
        true
    }

    proof fn lemma_round_trip(self) {
    }

    fn into_item(self) -> (r: Item) {
        Item::Ascii(self.0)
    }

    fn try_from_item(item: Item) -> (r: Result<Self, Error>) {
        match item {
            Item::Ascii(values) => Ok(StatusVariableName(values)),
            _ => Err(Error::WrongFormat),
        }
    }
}

/// ## TARGETID
///
/// **Target Identifier**
pub type TargetID = ObjectSpecifier;

/// ## TBLELT
///
/// Table element.
///
/// The first table element in a row is used to identify the row.
#[derive(Debug, PartialEq, Eq)]
pub enum TableElement {
    List(Vec<Item>),
    Bin(Vec<u8>),
    Bool(Vec<bool>),
    Ascii(Vec<Char>),
    Jis8(String),
    I1(Vec<i8>),
    I2(Vec<i16>),
    I4(Vec<i32>),
    I8(Vec<i64>),
    U1(Vec<u8>),
    U2(Vec<u16>),
    U4(Vec<u32>),
    U8(Vec<u64>),
    /// Floating-point numbers, each held as the bits of its IEEE 754 encoding.
    F4(Vec<u32>),
    /// Floating-point numbers, each held as the bits of its IEEE 754 encoding.
    F8(Vec<u64>),
}

impl ItemFormat for TableElement {
    open spec fn item(self) -> ItemView {
        match self {
            TableElement::List(list) => ItemView::List(views_of(list@)),
            TableElement::Bin(values) => ItemView::Bin(values@),
            TableElement::Bool(values) => ItemView::Bool(values@),
            TableElement::Ascii(values) => ItemView::Ascii(values@),
            TableElement::Jis8(values) => ItemView::Jis8(values@),
            TableElement::I1(values) => ItemView::I1(values@),
            TableElement::I2(values) => ItemView::I2(values@),
            TableElement::I4(values) => ItemView::I4(values@),
            TableElement::I8(values) => ItemView::I8(values@),
            TableElement::U1(values) => ItemView::U1(values@),
            TableElement::U2(values) => ItemView::U2(values@),
            TableElement::U4(values) => ItemView::U4(values@),
            TableElement::U8(values) => ItemView::U8(values@),
            TableElement::F4(values) => ItemView::F4(values@),
            TableElement::F8(values) => ItemView::F8(values@),
        }
    }

    open spec fn accepts(item: ItemView) -> bool {
        match item {
            ItemView::List(_) => true,
            ItemView::Bin(_) => true,
            ItemView::Bool(_) => true,
            ItemView::Ascii(_) => true,
            ItemView::Jis8(_) => true,
            ItemView::I1(_) => true,
            ItemView::I2(_) => true,
            ItemView::I4(_) => true,
            ItemView::I8(_) => true,
            ItemView::U1(_) => true,
            ItemView::U2(_) => true,
            ItemView::U4(_) => true,
            ItemView::U8(_) => true,
            ItemView::F4(_) => true,
            ItemView::F8(_) => true,
        }
    }

    open spec fn reads(item: ItemView, value: Self) -> bool {
        item == value.item()
    }

    open spec fn valid(self) -> bool {
        true
    }

    proof fn lemma_round_trip(self) {
    }

    fn into_item(self) -> (r: Item) {
        match self {
            TableElement::List(list) => {
                proof {
                    lemma_list_view(list);
                }
                Item::List(list)
            },
            TableElement::Bin(values) => Item::Bin(values),
            TableElement::Bool(values) => Item::Bool(values),
            TableElement::Ascii(values) => Item::Ascii(values),
            TableElement::Jis8(values) => Item::Jis8(values),
            TableElement::I1(values) => Item::I1(values),
            TableElement::I2(values) => Item::I2(values),
            TableElement::I4(values) => Item::I4(values),
            TableElement::I8(values) => Item::I8(values),
            TableElement::U1(values) => Item::U1(values),
            TableElement::U2(values) => Item::U2(values),
            TableElement::U4(values) => Item::U4(values),
            TableElement::U8(values) => Item::U8(values),
            TableElement::F4(values) => Item::F4(values),
            TableElement::F8(values) => Item::F8(values),
        }
    }

    fn try_from_item(item: Item) -> (r: Result<Self, Error>) {
        match item {
            Item::List(list) => {
                proof {
                    lemma_list_view(list);
                }
                Ok(TableElement::List(list))
            },
            Item::Bin(values) => Ok(TableElement::Bin(values)),
            Item::Bool(values) => Ok(TableElement::Bool(values)),
            Item::Ascii(values) => Ok(TableElement::Ascii(values)),
            Item::Jis8(values) => Ok(TableElement::Jis8(values)),
            Item::I1(values) => Ok(TableElement::I1(values)),
            Item::I2(values) => Ok(TableElement::I2(values)),
            Item::I4(values) => Ok(TableElement::I4(values)),
            Item::I8(values) => Ok(TableElement::I8(values)),
            Item::U1(values) => Ok(TableElement::U1(values)),
            Item::U2(values) => Ok(TableElement::U2(values)),
            Item::U4(values) => Ok(TableElement::U4(values)),
            Item::U8(values) => Ok(TableElement::U8(values)),
            Item::F4(values) => Ok(TableElement::F4(values)),
            Item::F8(values) => Ok(TableElement::F8(values)),
        }
    }
}

/// ## TBLID
///
/// **Table Identifier**
pub type TableID = ObjectSpecifier;

/// ## TBLTYP
///
/// **Table Type**
///
/// A reserved text string to denot the format and application of a table.
pub type TableType = ObjectType;

/// ## TEXT
///
/// A single line of characters.
#[derive(Clone, Debug, PartialEq, Eq)]
pub struct Text(pub Vec<Char>);

impl ItemFormat for Text {
    open spec fn item(self) -> ItemView {
        ItemView::Ascii(self.0@)
    }

    open spec fn accepts(item: ItemView) -> bool {
        item is Ascii
    }

    open spec fn reads(item: ItemView, value: Self) -> bool {
        item == value.item()
    }

    open spec fn valid(self) -> bool {
        true
    }

    proof fn lemma_round_trip(self) {
    }

    fn into_item(self) -> (r: Item) {
        Item::Ascii(self.0)
    }

    fn try_from_item(item: Item) -> (r: Result<Self, Error>) {
        match item {
            Item::Ascii(values) => Ok(Text(values)),
            _ => Err(Error::WrongFormat),
        }
    }
}

/// ## TIAACK
///
/// Equipment acknowledge code, 1 byte.
#[derive(Clone, Copy, Debug, PartialEq, Eq, Structural)]
pub enum TraceInitializeAcknowledgeCode {
    Okay,
    TooManySVID,
    TooManyTraces,
    InvalidPeriod,
    UnknownSVID,
    InvalidREPGSZ,
}

impl Enumeration for TraceInitializeAcknowledgeCode {
    open spec fn number(self) -> u8 {
        match self {
            TraceInitializeAcknowledgeCode::Okay => 0,
            TraceInitializeAcknowledgeCode::TooManySVID => 1,
            TraceInitializeAcknowledgeCode::TooManyTraces => 2,
            TraceInitializeAcknowledgeCode::InvalidPeriod => 3,
            TraceInitializeAcknowledgeCode::UnknownSVID => 4,
            TraceInitializeAcknowledgeCode::InvalidREPGSZ => 5,
        }
    }

    open spec fn named(number: u8) -> Option<Self> {
        if number == 0 {
            Some(TraceInitializeAcknowledgeCode::Okay)
        } else if number == 1 {
            Some(TraceInitializeAcknowledgeCode::TooManySVID)
        } else if number == 2 {
            Some(TraceInitializeAcknowledgeCode::TooManyTraces)
        } else if number == 3 {
            Some(TraceInitializeAcknowledgeCode::InvalidPeriod)
        } else if number == 4 {
            Some(TraceInitializeAcknowledgeCode::UnknownSVID)
        } else if number == 5 {
            Some(TraceInitializeAcknowledgeCode::InvalidREPGSZ)
        } else {
            None
        }
    }

    open spec fn binary() -> bool {
        true
    }

    fn into_primitive(self) -> (r: u8) {
        match self {
            TraceInitializeAcknowledgeCode::Okay => 0,
            TraceInitializeAcknowledgeCode::TooManySVID => 1,
            TraceInitializeAcknowledgeCode::TooManyTraces => 2,
            TraceInitializeAcknowledgeCode::InvalidPeriod => 3,
            TraceInitializeAcknowledgeCode::UnknownSVID => 4,
            TraceInitializeAcknowledgeCode::InvalidREPGSZ => 5,
        }
    }

    fn try_from_primitive(number: u8) -> (r: Option<Self>) {
        match number {
            0 => Some(TraceInitializeAcknowledgeCode::Okay),
            1 => Some(TraceInitializeAcknowledgeCode::TooManySVID),
            2 => Some(TraceInitializeAcknowledgeCode::TooManyTraces),
            3 => Some(TraceInitializeAcknowledgeCode::InvalidPeriod),
            4 => Some(TraceInitializeAcknowledgeCode::UnknownSVID),
            5 => Some(TraceInitializeAcknowledgeCode::InvalidREPGSZ),
            _ => None,
        }
    }

    fn is_binary() -> (r: bool) {
        true
    }

    proof fn lemma_number_names_value(self) {
    }

    proof fn lemma_named_has_number(number: u8) {
    }
}

impl ItemFormat for TraceInitializeAcknowledgeCode {
    open spec fn item(self) -> ItemView {
        enumeration_item(self)
    }

    open spec fn accepts(item: ItemView) -> bool {
        enumeration_accepts::<TraceInitializeAcknowledgeCode>(item)
    }

    open spec fn reads(item: ItemView, value: Self) -> bool {
        item == value.item()
    }

    open spec fn valid(self) -> bool {
        true
    }

    proof fn lemma_round_trip(self) {
        lemma_enumeration_round_trip(self);
    }

    fn into_item(self) -> (r: Item) {
        enumeration_into_item(self)
    }

    fn try_from_item(item: Item) -> (r: Result<Self, Error>) {
        enumeration_try_from_item(item)
    }
}

/// ## TIACK
///
/// **Time Acknowledge Code**
#[derive(Clone, Copy, Debug, PartialEq, Eq, Structural)]
pub enum TimeAcknowledgeCode {
    Okay,
    ErrorNotDone,
}

impl Enumeration for TimeAcknowledgeCode {
    open spec fn number(self) -> u8 {
        match self {
            TimeAcknowledgeCode::Okay => 0,
            TimeAcknowledgeCode::ErrorNotDone => 1,
        }
    }

    open spec fn named(number: u8) -> Option<Self> {
        if number == 0 {
            Some(TimeAcknowledgeCode::Okay)
        } else if number == 1 {
            Some(TimeAcknowledgeCode::ErrorNotDone)
        } else {
            None
        }
    }

    open spec fn binary() -> bool {
        true
    }

    fn into_primitive(self) -> (r: u8) {
        match self {
            TimeAcknowledgeCode::Okay => 0,
            TimeAcknowledgeCode::ErrorNotDone => 1,
        }
    }

    fn try_from_primitive(number: u8) -> (r: Option<Self>) {
        match number {
            0 => Some(TimeAcknowledgeCode::Okay),
            1 => Some(TimeAcknowledgeCode::ErrorNotDone),
            _ => None,
        }
    }

    fn is_binary() -> (r: bool) {
        true
    }

    proof fn lemma_number_names_value(self) {
    }

    proof fn lemma_named_has_number(number: u8) {
    }
}

impl ItemFormat for TimeAcknowledgeCode {
    open spec fn item(self) -> ItemView {
        enumeration_item(self)
    }

    open spec fn accepts(item: ItemView) -> bool {
        enumeration_accepts::<TimeAcknowledgeCode>(item)
    }

    open spec fn reads(item: ItemView, value: Self) -> bool {
        item == value.item()
    }

    open spec fn valid(self) -> bool {
        true
    }

    proof fn lemma_round_trip(self) {
        lemma_enumeration_round_trip(self);
    }

    fn into_item(self) -> (r: Item) {
        enumeration_into_item(self)
    }

    fn try_from_item(item: Item) -> (r: Result<Self, Error>) {
        enumeration_try_from_item(item)
    }
}

/// ## TID
///
/// **Terminal Number**
///
/// Zero is the single or main terminal, the numbers above it are the
/// further terminals of the same equipment.
#[derive(Clone, Copy, Debug, PartialEq, Eq, Structural)]
pub struct TerminalID(pub u8);

impl ItemFormat for TerminalID {
    open spec fn item(self) -> ItemView {
        ItemView::Bin(seq![self.0])
    }

    open spec fn accepts(item: ItemView) -> bool {
        item matches ItemView::Bin(values) && values.len() == 1
    }

    open spec fn reads(item: ItemView, value: Self) -> bool {
        item == value.item()
    }

    open spec fn valid(self) -> bool {
        true
    }

    proof fn lemma_round_trip(self) {
    }

    fn into_item(self) -> (r: Item) {
        Item::Bin(single(self.0))
    }

    fn try_from_item(item: Item) -> (r: Result<Self, Error>) {
        match item {
            Item::Bin(values) => match only(&values) {
                Some(value) => Ok(TerminalID(value)),
                None => Err(Error::WrongFormat),
            },
            _ => Err(Error::WrongFormat),
        }
    }
}

/// ## TIME
///
/// Time of day.
#[derive(Clone, Debug, PartialEq, Eq)]
pub struct Time(pub Vec<Char>);

impl ItemFormat for Time {
    open spec fn item(self) -> ItemView {
        ItemView::Ascii(self.0@)
    }

    open spec fn accepts(item: ItemView) -> bool {
        item is Ascii
    }

    open spec fn reads(item: ItemView, value: Self) -> bool {
        item == value.item()
    }

    open spec fn valid(self) -> bool {
        true
    }

    proof fn lemma_round_trip(self) {
    }

    fn into_item(self) -> (r: Item) {
        Item::Ascii(self.0)
    }

    fn try_from_item(item: Item) -> (r: Result<Self, Error>) {
        match item {
            Item::Ascii(values) => Ok(Time(values)),
            _ => Err(Error::WrongFormat),
        }
    }
}

/// ## TOTSMP
///
/// Total samples to be made.
#[derive(Clone, Debug, PartialEq, Eq)]
pub enum TotalSamples {
    Ascii(Vec<Char>),
    I1(i8),
    I2(i16),
    I4(i32),
    I8(i64),
    U1(u8),
    U2(u16),
    U4(u32),
    U8(u64),
}

impl ItemFormat for TotalSamples {
    open spec fn item(self) -> ItemView {
        match self {
            TotalSamples::Ascii(values) => ItemView::Ascii(values@),
            TotalSamples::I1(value) => ItemView::I1(seq![value]),
            TotalSamples::I2(value) => ItemView::I2(seq![value]),
            TotalSamples::I4(value) => ItemView::I4(seq![value]),
            TotalSamples::I8(value) => ItemView::I8(seq![value]),
            TotalSamples::U1(value) => ItemView::U1(seq![value]),
            TotalSamples::U2(value) => ItemView::U2(seq![value]),
            TotalSamples::U4(value) => ItemView::U4(seq![value]),
            TotalSamples::U8(value) => ItemView::U8(seq![value]),
        }
    }

    open spec fn accepts(item: ItemView) -> bool {
        match item {
            ItemView::Ascii(_) => true,
            ItemView::I1(values) => values.len() == 1,
            ItemView::I2(values) => values.len() == 1,
            ItemView::I4(values) => values.len() == 1,
            ItemView::I8(values) => values.len() == 1,
            ItemView::U1(values) => values.len() == 1,
            ItemView::U2(values) => values.len() == 1,
            ItemView::U4(values) => values.len() == 1,
            ItemView::U8(values) => values.len() == 1,
            _ => false,
        }
    }

    open spec fn reads(item: ItemView, value: Self) -> bool {
        item == value.item()
    }

    open spec fn valid(self) -> bool {
        true
    }

    proof fn lemma_round_trip(self) {
    }

    fn into_item(self) -> (r: Item) {
        match self {
            TotalSamples::Ascii(values) => Item::Ascii(values),
            TotalSamples::I1(value) => Item::I1(single(value)),
            TotalSamples::I2(value) => Item::I2(single(value)),
            TotalSamples::I4(value) => Item::I4(single(value)),
            TotalSamples::I8(value) => Item::I8(single(value)),
            TotalSamples::U1(value) => Item::U1(single(value)),
            TotalSamples::U2(value) => Item::U2(single(value)),
            TotalSamples::U4(value) => Item::U4(single(value)),
            TotalSamples::U8(value) => Item::U8(single(value)),
        }
    }

    fn try_from_item(item: Item) -> (r: Result<Self, Error>) {
        match item {
            Item::Ascii(values) => Ok(TotalSamples::Ascii(values)),
            Item::I1(values) => match only(&values) {
                Some(value) => Ok(TotalSamples::I1(value)),
                None => Err(Error::WrongFormat),
            },
            Item::I2(values) => match only(&values) {
                Some(value) => Ok(TotalSamples::I2(value)),
                None => Err(Error::WrongFormat),
            },
            Item::I4(values) => match only(&values) {
                Some(value) => Ok(TotalSamples::I4(value)),
                None => Err(Error::WrongFormat),
            },
            Item::I8(values) => match only(&values) {
                Some(value) => Ok(TotalSamples::I8(value)),
                None => Err(Error::WrongFormat),
            },
            Item::U1(values) => match only(&values) {
                Some(value) => Ok(TotalSamples::U1(value)),
                None => Err(Error::WrongFormat),
            },
            Item::U2(values) => match only(&values) {
                Some(value) => Ok(TotalSamples::U2(value)),
                None => Err(Error::WrongFormat),
            },
            Item::U4(values) => match only(&values) {
                Some(value) => Ok(TotalSamples::U4(value)),
                None => Err(Error::WrongFormat),
            },
            Item::U8(values) => match only(&values) {
                Some(value) => Ok(TotalSamples::U8(value)),
                None => Err(Error::WrongFormat),
            },
            _ => Err(Error::WrongFormat),
        }
    }
}

/// ## TRID
///
/// Trace request ID.
#[derive(Clone, Debug, PartialEq, Eq)]
pub enum TraceRequestID {
    Ascii(Vec<Char>),
    I1(i8),
    I2(i16),
    I4(i32),
    I8(i64),
    U1(u8),
    U2(u16),
    U4(u32),
    U8(u64),
}

impl ItemFormat for TraceRequestID {
    open spec fn item(self) -> ItemView {
        match self {
            TraceRequestID::Ascii(values) => ItemView::Ascii(values@),
            TraceRequestID::I1(value) => ItemView::I1(seq![value]),
            TraceRequestID::I2(value) => ItemView::I2(seq![value]),
            TraceRequestID::I4(value) => ItemView::I4(seq![value]),
            TraceRequestID::I8(value) => ItemView::I8(seq![value]),
            TraceRequestID::U1(value) => ItemView::U1(seq![value]),
            TraceRequestID::U2(value) => ItemView::U2(seq![value]),
            TraceRequestID::U4(value) => ItemView::U4(seq![value]),
            TraceRequestID::U8(value) => ItemView::U8(seq![value]),
        }
    }

    open spec fn accepts(item: ItemView) -> bool {
        match item {
            ItemView::Ascii(_) => true,
            ItemView::I1(values) => values.len() == 1,
            ItemView::I2(values) => values.len() == 1,
            ItemView::I4(values) => values.len() == 1,
            ItemView::I8(values) => values.len() == 1,
            ItemView::U1(values) => values.len() == 1,
            ItemView::U2(values) => values.len() == 1,
            ItemView::U4(values) => values.len() == 1,
            ItemView::U8(values) => values.len() == 1,
            _ => false,
        }
    }

    open spec fn reads(item: ItemView, value: Self) -> bool {
        item == value.item()
    }

    open spec fn valid(self) -> bool {
        true
    }

    proof fn lemma_round_trip(self) {
    }

    fn into_item(self) -> (r: Item) {
        match self {
            TraceRequestID::Ascii(values) => Item::Ascii(values),
            TraceRequestID::I1(value) => Item::I1(single(value)),
            TraceRequestID::I2(value) => Item::I2(single(value)),
            TraceRequestID::I4(value) => Item::I4(single(value)),
            TraceRequestID::I8(value) => Item::I8(single(value)),
            TraceRequestID::U1(value) => Item::U1(single(value)),
            TraceRequestID::U2(value) => Item::U2(single(value)),
            TraceRequestID::U4(value) => Item::U4(single(value)),
            TraceRequestID::U8(value) => Item::U8(single(value)),
        }
    }

    fn try_from_item(item: Item) -> (r: Result<Self, Error>) {
        match item {
            Item::Ascii(values) => Ok(TraceRequestID::Ascii(values)),
            Item::I1(values) => match only(&values) {
                Some(value) => Ok(TraceRequestID::I1(value)),
                None => Err(Error::WrongFormat),
            },
            Item::I2(values) => match only(&values) {
                Some(value) => Ok(TraceRequestID::I2(value)),
                None => Err(Error::WrongFormat),
            },
            Item::I4(values) => match only(&values) {
                Some(value) => Ok(TraceRequestID::I4(value)),
                None => Err(Error::WrongFormat),
            },
            Item::I8(values) => match only(&values) {
                Some(value) => Ok(TraceRequestID::I8(value)),
                None => Err(Error::WrongFormat),
            },
            Item::U1(values) => match only(&values) {
                Some(value) => Ok(TraceRequestID::U1(value)),
                None => Err(Error::WrongFormat),
            },
            Item::U2(values) => match only(&values) {
                Some(value) => Ok(TraceRequestID::U2(value)),
                None => Err(Error::WrongFormat),
            },
            Item::U4(values) => match only(&values) {
                Some(value) => Ok(TraceRequestID::U4(value)),
                None => Err(Error::WrongFormat),
            },
            Item::U8(values) => match only(&values) {
                Some(value) => Ok(TraceRequestID::U8(value)),
                None => Err(Error::WrongFormat),
            },
            _ => Err(Error::WrongFormat),
        }
    }
}

/// ## TSIP
///
/// Transfer status of input port, 1 byte.
#[derive(Clone, Copy, Debug, PartialEq, Eq, Structural)]
pub enum TransferStatusInputPort {
    Idle,
    Prep,
    TrackOn,
    StuckInReceiver,
}

impl Enumeration for TransferStatusInputPort {
    open spec fn number(self) -> u8 {
        match self {
            TransferStatusInputPort::Idle => 1,
            TransferStatusInputPort::Prep => 2,
            TransferStatusInputPort::TrackOn => 3,
            TransferStatusInputPort::StuckInReceiver => 4,
        }
    }

    open spec fn named(number: u8) -> Option<Self> {
        if number == 1 {
            Some(TransferStatusInputPort::Idle)
        } else if number == 2 {
            Some(TransferStatusInputPort::Prep)
        } else if number == 3 {
            Some(TransferStatusInputPort::TrackOn)
        } else if number == 4 {
            Some(TransferStatusInputPort::StuckInReceiver)
        } else {
            None
        }
    }

    open spec fn binary() -> bool {
        true
    }

    fn into_primitive(self) -> (r: u8) {
        match self {
            TransferStatusInputPort::Idle => 1,
            TransferStatusInputPort::Prep => 2,
            TransferStatusInputPort::TrackOn => 3,
            TransferStatusInputPort::StuckInReceiver => 4,
        }
    }

    fn try_from_primitive(number: u8) -> (r: Option<Self>) {
        match number {
            1 => Some(TransferStatusInputPort::Idle),
            2 => Some(TransferStatusInputPort::Prep),
            3 => Some(TransferStatusInputPort::TrackOn),
            4 => Some(TransferStatusInputPort::StuckInReceiver),
            _ => None,
        }
    }

    fn is_binary() -> (r: bool) {
        true
    }

    proof fn lemma_number_names_value(self) {
    }

    proof fn lemma_named_has_number(number: u8) {
    }
}

impl ItemFormat for TransferStatusInputPort {
    open spec fn item(self) -> ItemView {
        enumeration_item(self)
    }

    open spec fn accepts(item: ItemView) -> bool {
        enumeration_accepts::<TransferStatusInputPort>(item)
    }

    open spec fn reads(item: ItemView, value: Self) -> bool {
        item == value.item()
    }

    open spec fn valid(self) -> bool {
        true
    }

    proof fn lemma_round_trip(self) {
        lemma_enumeration_round_trip(self);
    }

    fn into_item(self) -> (r: Item) {
        enumeration_into_item(self)
    }

    fn try_from_item(item: Item) -> (r: Result<Self, Error>) {
        enumeration_try_from_item(item)
    }
}

/// ## TSOP
///
/// Transfer status of output port, 1 byte.
#[derive(Clone, Copy, Debug, PartialEq, Eq, Structural)]
pub enum TransferStatusOutputPort {
    Idle,
    Prep,
    TrackOn,
    StuckInSender,
    Completed,
}

impl Enumeration for TransferStatusOutputPort {
    open spec fn number(self) -> u8 {
        match self {
            TransferStatusOutputPort::Idle => 1,
            TransferStatusOutputPort::Prep => 2,
            TransferStatusOutputPort::TrackOn => 3,
            TransferStatusOutputPort::StuckInSender => 4,
            TransferStatusOutputPort::Completed => 5,
        }
    }

    open spec fn named(number: u8) -> Option<Self> {
        if number == 1 {
            Some(TransferStatusOutputPort::Idle)
        } else if number == 2 {
            Some(TransferStatusOutputPort::Prep)
        } else if number == 3 {
            Some(TransferStatusOutputPort::TrackOn)
        } else if number == 4 {
            Some(TransferStatusOutputPort::StuckInSender)
        } else if number == 5 {
            Some(TransferStatusOutputPort::Completed)
        } else {
            None
        }
    }

    open spec fn binary() -> bool {
        true
    }

    fn into_primitive(self) -> (r: u8) {
        match self {
            TransferStatusOutputPort::Idle => 1,
            TransferStatusOutputPort::Prep => 2,
            TransferStatusOutputPort::TrackOn => 3,
            TransferStatusOutputPort::StuckInSender => 4,
            TransferStatusOutputPort::Completed => 5,
        }
    }

    fn try_from_primitive(number: u8) -> (r: Option<Self>) {
        match number {
            1 => Some(TransferStatusOutputPort::Idle),
            2 => Some(TransferStatusOutputPort::Prep),
            3 => Some(TransferStatusOutputPort::TrackOn),
            4 => Some(TransferStatusOutputPort::StuckInSender),
            5 => Some(TransferStatusOutputPort::Completed),
            _ => None,
        }
    }

    fn is_binary() -> (r: bool) {
        true
    }

    proof fn lemma_number_names_value(self) {
    }

    proof fn lemma_named_has_number(number: u8) {
    }
}

impl ItemFormat for TransferStatusOutputPort {
    open spec fn item(self) -> ItemView {
        enumeration_item(self)
    }

    open spec fn accepts(item: ItemView) -> bool {
        enumeration_accepts::<TransferStatusOutputPort>(item)
    }

    open spec fn reads(item: ItemView, value: Self) -> bool {
        item == value.item()
    }

    open spec fn valid(self) -> bool {
        true
    }

    proof fn lemma_round_trip(self) {
        lemma_enumeration_round_trip(self);
    }

    fn into_item(self) -> (r: Item) {
        enumeration_into_item(self)
    }

    fn try_from_item(item: Item) -> (r: Result<Self, Error>) {
        enumeration_try_from_item(item)
    }
}

/// ## TTC
///
/// **Time To Completion**
#[derive(Clone, Copy, Debug, PartialEq, Eq, Structural)]
pub enum TimeToCompletion {
    I1(i8),
    I2(i16),
    I4(i32),
    I8(i64),
    U1(u8),
    U2(u16),
    U4(u32),
    U8(u64),
}

impl ItemFormat for TimeToCompletion {
    open spec fn item(self) -> ItemView {
        match self {
            TimeToCompletion::I1(value) => ItemView::I1(seq![value]),
            TimeToCompletion::I2(value) => ItemView::I2(seq![value]),
            TimeToCompletion::I4(value) => ItemView::I4(seq![value]),
            TimeToCompletion::I8(value) => ItemView::I8(seq![value]),
            TimeToCompletion::U1(value) => ItemView::U1(seq![value]),
            TimeToCompletion::U2(value) => ItemView::U2(seq![value]),
            TimeToCompletion::U4(value) => ItemView::U4(seq![value]),
            TimeToCompletion::U8(value) => ItemView::U8(seq![value]),
        }
    }

    open spec fn accepts(item: ItemView) -> bool {
        match item {
            ItemView::I1(values) => values.len() == 1,
            ItemView::I2(values) => values.len() == 1,
            ItemView::I4(values) => values.len() == 1,
            ItemView::I8(values) => values.len() == 1,
            ItemView::U1(values) => values.len() == 1,
            ItemView::U2(values) => values.len() == 1,
            ItemView::U4(values) => values.len() == 1,
            ItemView::U8(values) => values.len() == 1,
            _ => false,
        }
    }

    open spec fn reads(item: ItemView, value: Self) -> bool {
        item == value.item()
    }

    open spec fn valid(self) -> bool {
        true
    }

    proof fn lemma_round_trip(self) {
    }

    fn into_item(self) -> (r: Item) {
        match self {
            TimeToCompletion::I1(value) => Item::I1(single(value)),
            TimeToCompletion::I2(value) => Item::I2(single(value)),
            TimeToCompletion::I4(value) => Item::I4(single(value)),
            TimeToCompletion::I8(value) => Item::I8(single(value)),
            TimeToCompletion::U1(value) => Item::U1(single(value)),
            TimeToCompletion::U2(value) => Item::U2(single(value)),
            TimeToCompletion::U4(value) => Item::U4(single(value)),
            TimeToCompletion::U8(value) => Item::U8(single(value)),
        }
    }

    fn try_from_item(item: Item) -> (r: Result<Self, Error>) {
        match item {
            Item::I1(values) => match only(&values) {
                Some(value) => Ok(TimeToCompletion::I1(value)),
                None => Err(Error::WrongFormat),
            },
            Item::I2(values) => match only(&values) {
                Some(value) => Ok(TimeToCompletion::I2(value)),
                None => Err(Error::WrongFormat),
            },
            Item::I4(values) => match only(&values) {
                Some(value) => Ok(TimeToCompletion::I4(value)),
                None => Err(Error::WrongFormat),
            },
            Item::I8(values) => match only(&values) {
                Some(value) => Ok(TimeToCompletion::I8(value)),
                None => Err(Error::WrongFormat),
            },
            Item::U1(values) => match only(&values) {
                Some(value) => Ok(TimeToCompletion::U1(value)),
                None => Err(Error::WrongFormat),
            },
            Item::U2(values) => match only(&values) {
                Some(value) => Ok(TimeToCompletion::U2(value)),
                None => Err(Error::WrongFormat),
            },
            Item::U4(values) => match only(&values) {
                Some(value) => Ok(TimeToCompletion::U4(value)),
                None => Err(Error::WrongFormat),
            },
            Item::U8(values) => match only(&values) {
                Some(value) => Ok(TimeToCompletion::U8(value)),
                None => Err(Error::WrongFormat),
            },
            _ => Err(Error::WrongFormat),
        }
    }
}

/// ## UNITS
///
/// Units identifier.
#[derive(Clone, Debug, PartialEq, Eq)]
pub struct Units(pub Vec<Char>);

impl ItemFormat for Units {
    open spec fn item(self) -> ItemView {
        ItemView::Ascii(self.0@)
    }

    open spec fn accepts(item: ItemView) -> bool {
        item is Ascii
    }

    open spec fn reads(item: ItemView, value: Self) -> bool {
        item == value.item()
    }

    open spec fn valid(self) -> bool {
        true
    }

    proof fn lemma_round_trip(self) {
    }

    fn into_item(self) -> (r: Item) {
        Item::Ascii(self.0)
    }

    fn try_from_item(item: Item) -> (r: Result<Self, Error>) {
        match item {
            Item::Ascii(values) => Ok(Units(values)),
            _ => Err(Error::WrongFormat),
        }
    }
}

/// ## UPPERDB
///
/// **Upper Deadband**
///
/// Variable limit attribute which defines the upper boundary of the deadband
/// of a limit. The value applies to a single limit for a specified variable.
#[derive(Clone, Debug, PartialEq, Eq)]
pub enum UpperDeadband {
    Bool(Vec<bool>),
    Ascii(Vec<Char>),
    I1(Vec<i8>),
    I2(Vec<i16>),
    I4(Vec<i32>),
    I8(Vec<i64>),
    U1(Vec<u8>),
    U2(Vec<u16>),
    U4(Vec<u32>),
    U8(Vec<u64>),
    /// Floating-point numbers, each held as the bits of its IEEE 754 encoding.
    F4(Vec<u32>),
    /// Floating-point numbers, each held as the bits of its IEEE 754 encoding.
    F8(Vec<u64>),
}

impl ItemFormat for UpperDeadband {
    open spec fn item(self) -> ItemView {
        match self {
            UpperDeadband::Bool(values) => ItemView::Bool(values@),
            UpperDeadband::Ascii(values) => ItemView::Ascii(values@),
            UpperDeadband::I1(values) => ItemView::I1(values@),
            UpperDeadband::I2(values) => ItemView::I2(values@),
            UpperDeadband::I4(values) => ItemView::I4(values@),
            UpperDeadband::I8(values) => ItemView::I8(values@),
            UpperDeadband::U1(values) => ItemView::U1(values@),
            UpperDeadband::U2(values) => ItemView::U2(values@),
            UpperDeadband::U4(values) => ItemView::U4(values@),
            UpperDeadband::U8(values) => ItemView::U8(values@),
            UpperDeadband::F4(values) => ItemView::F4(values@),
            UpperDeadband::F8(values) => ItemView::F8(values@),
        }
    }

    open spec fn accepts(item: ItemView) -> bool {
        match item {
            ItemView::Bool(_) => true,
            ItemView::Ascii(_) => true,
            ItemView::I1(_) => true,
            ItemView::I2(_) => true,
            ItemView::I4(_) => true,
            ItemView::I8(_) => true,
            ItemView::U1(_) => true,
            ItemView::U2(_) => true,
            ItemView::U4(_) => true,
            ItemView::U8(_) => true,
            ItemView::F4(_) => true,
            ItemView::F8(_) => true,
            _ => false,
        }
    }

    open spec fn reads(item: ItemView, value: Self) -> bool {
        item == value.item()
    }

    open spec fn valid(self) -> bool {
        true
    }

    proof fn lemma_round_trip(self) {
    }

    fn into_item(self) -> (r: Item) {
        match self {
            UpperDeadband::Bool(values) => Item::Bool(values),
            UpperDeadband::Ascii(values) => Item::Ascii(values),
            UpperDeadband::I1(values) => Item::I1(values),
            UpperDeadband::I2(values) => Item::I2(values),
            UpperDeadband::I4(values) => Item::I4(values),
            UpperDeadband::I8(values) => Item::I8(values),
            UpperDeadband::U1(values) => Item::U1(values),
            UpperDeadband::U2(values) => Item::U2(values),
            UpperDeadband::U4(values) => Item::U4(values),
            UpperDeadband::U8(values) => Item::U8(values),
            UpperDeadband::F4(values) => Item::F4(values),
            UpperDeadband::F8(values) => Item::F8(values),
        }
    }

    fn try_from_item(item: Item) -> (r: Result<Self, Error>) {
        match item {
            Item::Bool(values) => Ok(UpperDeadband::Bool(values)),
            Item::Ascii(values) => Ok(UpperDeadband::Ascii(values)),
            Item::I1(values) => Ok(UpperDeadband::I1(values)),
            Item::I2(values) => Ok(UpperDeadband::I2(values)),
            Item::I4(values) => Ok(UpperDeadband::I4(values)),
            Item::I8(values) => Ok(UpperDeadband::I8(values)),
            Item::U1(values) => Ok(UpperDeadband::U1(values)),
            Item::U2(values) => Ok(UpperDeadband::U2(values)),
            Item::U4(values) => Ok(UpperDeadband::U4(values)),
            Item::U8(values) => Ok(UpperDeadband::U8(values)),
            Item::F4(values) => Ok(UpperDeadband::F4(values)),
            Item::F8(values) => Ok(UpperDeadband::F8(values)),
            _ => Err(Error::WrongFormat),
        }
    }
}

/// ## VID
///
/// **Variable ID**
#[derive(Clone, Debug, PartialEq, Eq)]
pub enum VariableID {
    Ascii(Vec<Char>),
    I1(i8),
    I2(i16),
    I4(i32),
    I8(i64),
    U1(u8),
    U2(u16),
    U4(u32),
    U8(u64),
}

impl ItemFormat for VariableID {
    open spec fn item(self) -> ItemView {
        match self {
            VariableID::Ascii(values) => ItemView::Ascii(values@),
            VariableID::I1(value) => ItemView::I1(seq![value]),
            VariableID::I2(value) => ItemView::I2(seq![value]),
            VariableID::I4(value) => ItemView::I4(seq![value]),
            VariableID::I8(value) => ItemView::I8(seq![value]),
            VariableID::U1(value) => ItemView::U1(seq![value]),
            VariableID::U2(value) => ItemView::U2(seq![value]),
            VariableID::U4(value) => ItemView::U4(seq![value]),
            VariableID::U8(value) => ItemView::U8(seq![value]),
        }
    }

    open spec fn accepts(item: ItemView) -> bool {
        match item {
            ItemView::Ascii(_) => true,
            ItemView::I1(values) => values.len() == 1,
            ItemView::I2(values) => values.len() == 1,
            ItemView::I4(values) => values.len() == 1,
            ItemView::I8(values) => values.len() == 1,
            ItemView::U1(values) => values.len() == 1,
            ItemView::U2(values) => values.len() == 1,
            ItemView::U4(values) => values.len() == 1,
            ItemView::U8(values) => values.len() == 1,
            _ => false,
        }
    }

    open spec fn reads(item: ItemView, value: Self) -> bool {
        item == value.item()
    }

    open spec fn valid(self) -> bool {
        true
    }

    proof fn lemma_round_trip(self) {
    }

    fn into_item(self) -> (r: Item) {
        match self {
            VariableID::Ascii(values) => Item::Ascii(values),
            VariableID::I1(value) => Item::I1(single(value)),
            VariableID::I2(value) => Item::I2(single(value)),
            VariableID::I4(value) => Item::I4(single(value)),
            VariableID::I8(value) => Item::I8(single(value)),
            VariableID::U1(value) => Item::U1(single(value)),
            VariableID::U2(value) => Item::U2(single(value)),
            VariableID::U4(value) => Item::U4(single(value)),
            VariableID::U8(value) => Item::U8(single(value)),
        }
    }

    fn try_from_item(item: Item) -> (r: Result<Self, Error>) {
        match item {
            Item::Ascii(values) => Ok(VariableID::Ascii(values)),
            Item::I1(values) => match only(&values) {
                Some(value) => Ok(VariableID::I1(value)),
                None => Err(Error::WrongFormat),
            },
            Item::I2(values) => match only(&values) {
                Some(value) => Ok(VariableID::I2(value)),
                None => Err(Error::WrongFormat),
            },
            Item::I4(values) => match only(&values) {
                Some(value) => Ok(VariableID::I4(value)),
                None => Err(Error::WrongFormat),
            },
            Item::I8(values) => match only(&values) {
                Some(value) => Ok(VariableID::I8(value)),
                None => Err(Error::WrongFormat),
            },
            Item::U1(values) => match only(&values) {
                Some(value) => Ok(VariableID::U1(value)),
                None => Err(Error::WrongFormat),
            },
            Item::U2(values) => match only(&values) {
                Some(value) => Ok(VariableID::U2(value)),
                None => Err(Error::WrongFormat),
            },
            Item::U4(values) => match only(&values) {
                Some(value) => Ok(VariableID::U4(value)),
                None => Err(Error::WrongFormat),
            },
            Item::U8(values) => match only(&values) {
                Some(value) => Ok(VariableID::U8(value)),
                None => Err(Error::WrongFormat),
            },
            _ => Err(Error::WrongFormat),
        }
    }
}

/// ## VLAACK
///
/// **Variable Limit Attribute Acknowledge Code**
#[derive(Clone, Copy, Debug, PartialEq, Eq, Structural)]
pub enum VariableLimitAttributeAcknowledgeCode {
    Okay,
    LimitAttributeDefinitionError,
    CannotPerformNow,
}

impl Enumeration for VariableLimitAttributeAcknowledgeCode {
    open spec fn number(self) -> u8 {
        match self {
            VariableLimitAttributeAcknowledgeCode::Okay => 0,
            VariableLimitAttributeAcknowledgeCode::LimitAttributeDefinitionError => 1,
            VariableLimitAttributeAcknowledgeCode::CannotPerformNow => 2,
        }
    }

    open spec fn named(number: u8) -> Option<Self> {
        if number == 0 {
            Some(VariableLimitAttributeAcknowledgeCode::Okay)
        } else if number == 1 {
            Some(VariableLimitAttributeAcknowledgeCode::LimitAttributeDefinitionError)
        } else if number == 2 {
            Some(VariableLimitAttributeAcknowledgeCode::CannotPerformNow)
        } else {
            None
        }
    }

    open spec fn binary() -> bool {
        true
    }

    fn into_primitive(self) -> (r: u8) {
        match self {
            VariableLimitAttributeAcknowledgeCode::Okay => 0,
            VariableLimitAttributeAcknowledgeCode::LimitAttributeDefinitionError => 1,
            VariableLimitAttributeAcknowledgeCode::CannotPerformNow => 2,
        }
    }

    fn try_from_primitive(number: u8) -> (r: Option<Self>) {
        match number {
            0 => Some(VariableLimitAttributeAcknowledgeCode::Okay),
            1 => Some(VariableLimitAttributeAcknowledgeCode::LimitAttributeDefinitionError),
            2 => Some(VariableLimitAttributeAcknowledgeCode::CannotPerformNow),
            _ => None,
        }
    }

    fn is_binary() -> (r: bool) {
        true
    }

    proof fn lemma_number_names_value(self) {
    }

    proof fn lemma_named_has_number(number: u8) {
    }
}

impl ItemFormat for VariableLimitAttributeAcknowledgeCode {
    open spec fn item(self) -> ItemView {
        enumeration_item(self)
    }

    open spec fn accepts(item: ItemView) -> bool {
        enumeration_accepts::<VariableLimitAttributeAcknowledgeCode>(item)
    }

    open spec fn reads(item: ItemView, value: Self) -> bool {
        item == value.item()
    }

    open spec fn valid(self) -> bool {
        true
    }

    proof fn lemma_round_trip(self) {
        lemma_enumeration_round_trip(self);
    }

    fn into_item(self) -> (r: Item) {
        enumeration_into_item(self)
    }

    fn try_from_item(item: Item) -> (r: Result<Self, Error>) {
        enumeration_try_from_item(item)
    }
}

} // verus!
