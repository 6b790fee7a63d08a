//! # SECS-II MESSAGE CONTENT
//!
//! The text of a data message is an item: a list of items, or a vector of
//! values of one format. This module holds the general item, the messages
//! that carry one, and the means by which the specific items of the standard,
//! each with the formats that it allows, are written as general items and read
//! back from them.
use vstd::prelude::*;

pub mod items;
pub mod messages;

verus! {

/// ## ERROR
///
/// Why a general item or message cannot be read as a specific one.
#[derive(Clone, Copy, Debug, PartialEq, Eq, Structural)]
pub enum Error {
    /// The message belongs to another stream.
    WrongStream,
    /// The message is another function of its stream.
    WrongFunction,
    /// The message asks for a reply where none is due, or the reverse.
    WrongReply,
    /// The item has a format, a length or a value that the specific item does
    /// not allow.
    WrongFormat,
}

/// ## CHARACTER
///
/// One of the 128 characters of ASCII.
#[derive(Clone, Copy, Debug, PartialEq, Eq, Structural)]
pub struct Char(u8);

impl Char {
    #[verifier::type_invariant]
    spec fn in_range(self) -> bool {
        self.0 < 128
    }

    /// The code of the character.
    pub closed spec fn code(self) -> u8 {
        self.0
    }

    /// The character with a given code, where the code is below 128.
    pub fn from_u8(byte: u8) -> (r: Option<Char>)
        ensures
            byte < 128 ==> (r matches Some(c) && c.code() == byte),
            byte >= 128 ==> r is None,
    {
        if byte < 128 {
            Some(Char(byte))
        } else {
            None
        }
    }

    /// The code of the character, which is below 128.
    pub fn to_u8(self) -> (r: u8)
        ensures
            r == self.code(),
            r < 128,
    {
        proof {
            use_type_invariant(&self);
        }
        self.0
    }

    /// The colon.
    pub closed spec fn spec_colon() -> Char {
        Char(58)
    }

    /// The colon.
    #[verifier::when_used_as_spec(spec_colon)]
    pub fn colon() -> (r: Char)
        ensures
            r == Self::spec_colon(),
            r.code() == 58,
    {
        Char(58)
    }

    /// The greater-than sign.
    pub closed spec fn spec_greater_than_sign() -> Char {
        Char(62)
    }

    /// The greater-than sign.
    #[verifier::when_used_as_spec(spec_greater_than_sign)]
    pub fn greater_than_sign() -> (r: Char)
        ensures
            r == Self::spec_greater_than_sign(),
            r.code() == 62,
    {
        Char(62)
    }

    /// The colon and the greater-than sign are two characters.
    pub proof fn lemma_colon_is_no_greater_than_sign()
        ensures
            Self::spec_colon() != Self::spec_greater_than_sign(),
            Self::spec_colon().code() == 58,
            Self::spec_greater_than_sign().code() == 62,
    {
    }

    /// Characters with the same code are the same character.
    pub proof fn lemma_code_is_injective(a: Char, b: Char)
        requires
            a.code() == b.code(),
        ensures
            a == b,
    {
    }
}

/// ## ITEM
///
/// A general item: a list of items, or a vector of values of one format.
#[derive(Debug, PartialEq, Eq)]
pub enum Item {
    /// A list of items.
    List(Vec<Item>),
    /// A string of ASCII characters.
    Ascii(Vec<Char>),
    /// A string of JIS-8 characters.
    Jis8(String),
    /// Bytes without further meaning.
    Bin(Vec<u8>),
    /// Truth values.
    Bool(Vec<bool>),
    /// Signed integers of one byte.
    I1(Vec<i8>),
    /// Signed integers of two bytes.
    I2(Vec<i16>),
    /// Signed integers of four bytes.
    I4(Vec<i32>),
    /// Signed integers of eight bytes.
    I8(Vec<i64>),
    /// Unsigned integers of one byte.
    U1(Vec<u8>),
    /// Unsigned integers of two bytes.
    U2(Vec<u16>),
    /// Unsigned integers of four bytes.
    U4(Vec<u32>),
    /// Unsigned integers of eight bytes.
    U8(Vec<u64>),
    /// Binary floating-point numbers of four bytes, each held as the bits of
    /// its IEEE 754 encoding.
    F4(Vec<u32>),
    /// Binary floating-point numbers of eight bytes, each held as the bits of
    /// its IEEE 754 encoding.
    F8(Vec<u64>),
}

/// The mathematical value of an [`Item`]: the same tree, with sequences in
/// place of vectors.
pub enum ItemView {
    List(Seq<ItemView>),
    Ascii(Seq<Char>),
    Jis8(Seq<char>),
    Bin(Seq<u8>),
    Bool(Seq<bool>),
    I1(Seq<i8>),
    I2(Seq<i16>),
    I4(Seq<i32>),
    I8(Seq<i64>),
    U1(Seq<u8>),
    U2(Seq<u16>),
    U4(Seq<u32>),
    U8(Seq<u64>),
    F4(Seq<u32>),
    F8(Seq<u64>),
}

impl View for Item {
    type V = ItemView;

    open spec fn view(&self) -> ItemView
        decreases self,
    {
        match self {
            Item::List(v) => ItemView::List(
                Seq::new(
                    v@.len(),
                    |i: int|
                        if 0 <= i < v@.len() {
                            v@[i].view()
                        } else {
                            ItemView::List(Seq::empty())
                        },
                ),
            ),
            Item::Ascii(v) => ItemView::Ascii(v@),
            Item::Jis8(s) => ItemView::Jis8(s@),
            Item::Bin(v) => ItemView::Bin(v@),
            Item::Bool(v) => ItemView::Bool(v@),
            Item::I1(v) => ItemView::I1(v@),
            Item::I2(v) => ItemView::I2(v@),
            Item::I4(v) => ItemView::I4(v@),
            Item::I8(v) => ItemView::I8(v@),
            Item::U1(v) => ItemView::U1(v@),
            Item::U2(v) => ItemView::U2(v@),
            Item::U4(v) => ItemView::U4(v@),
            Item::U8(v) => ItemView::U8(v@),
            Item::F4(v) => ItemView::F4(v@),
            Item::F8(v) => ItemView::F8(v@),
        }
    }
}

/// The list without elements.
pub open spec fn empty_list() -> ItemView {
    ItemView::List(Seq::empty())
}

/// The values of the elements of a list, in order.
pub open spec fn views_of(list: Seq<Item>) -> Seq<ItemView> {
    Seq::new(list.len(), |i: int| list[i]@)
}

/// The value of a list is the list of the values of its elements.
pub proof fn lemma_list_view(list: Vec<Item>)
    ensures
        Item::List(list)@ == ItemView::List(views_of(list@)),
{
    assert(Item::List(list)@->List_0 =~= views_of(list@));
}

/// ## MESSAGE
///
/// A SECS-II message: its stream and function, whether it asks for a reply,
/// and the item that it carries, if any.
#[derive(Debug, PartialEq, Eq)]
pub struct Message {
    /// The stream, a group of related functions.
    pub stream: u8,
    /// The function within the stream. Primary messages have odd functions,
    /// their replies the even function that follows.
    pub function: u8,
    /// Whether the sender expects a reply.
    pub w: bool,
    /// The item that the message carries; none in a message of header only.
    pub text: Option<Item>,
}

/// The mathematical value of a [`Message`].
pub struct MessageView {
    pub stream: u8,
    pub function: u8,
    pub w: bool,
    pub text: Option<ItemView>,
}

impl View for Message {
    type V = MessageView;

    open spec fn view(&self) -> MessageView {
        MessageView {
            stream: self.stream,
            function: self.function,
            w: self.w,
            text: match self.text {
                Some(item) => Some(item@),
                None => None,
            },
        }
    }
}

/// ## ITEM FORMAT
///
/// A specific item: a type whose values are written as general items of
/// certain formats, and read back from them.
pub trait ItemFormat: Sized {
    /// The general item that a value is written as.
    spec fn item(self) -> ItemView;

    /// Whether a general item can be read as a value of this type.
    spec fn accepts(item: ItemView) -> bool;

    /// Whether a value is what a general item reads as.
    spec fn reads(item: ItemView, value: Self) -> bool;

    /// Whether a value is one that reading can give: it keeps within what
    /// the item allows.
    spec fn valid(self) -> bool;

    /// Round trip: the general item that a valid value is written as can be
    /// read, and reads as that value.
    proof fn lemma_round_trip(self)
        requires
            self.valid(),
        ensures
            Self::accepts(self.item()),
            Self::reads(self.item(), self),
    ;

    /// Writes the value as a general item.
    fn into_item(self) -> (r: Item)
        ensures
            r@ == self.item(),
    ;

    /// Reads a general item as a value of this type. Succeeds on the items
    /// that the type accepts, and on no others.
    fn try_from_item(item: Item) -> (r: Result<Self, Error>)
        ensures
            match r {
                Ok(value) => Self::accepts(item@) && Self::reads(item@, value),
                Err(e) => !Self::accepts(item@) && e == Error::WrongFormat,
            },
    ;
}

/// A vector of one element.
pub fn single<T>(value: T) -> (r: Vec<T>)
    ensures
        r@ == seq![value],
{
    let mut r: Vec<T> = Vec::new();
    r.push(value);
    assert(r@ =~= seq![value]);
    r
}

/// Appends a copy of each element of one vector to another.
pub fn append<T: Copy>(target: &mut Vec<T>, source: &Vec<T>)
    ensures
        final(target)@ == old(target)@ + source@,
{
    let mut i: usize = 0;
    while i < source.len()
        invariant
            i <= source@.len(),
            target@ == old(target)@ + source@.subrange(0, i as int),
        decreases source@.len() - i,
    {
        target.push(source[i]);
        assert(source@.subrange(0, i + 1) =~= source@.subrange(0, i as int).push(
            source@[i as int],
        ));
        i = i + 1;
    }
    assert(source@.subrange(0, i as int) =~= source@);
}

/// The element of a vector of one element; none of any other vector.
pub fn only<T: Copy>(values: &Vec<T>) -> (r: Option<T>)
    ensures
        values@.len() == 1 ==> r == Some(values@[0]) && values@ == seq![values@[0]],
        values@.len() != 1 ==> r is None,
{
    if values.len() == 1 {
        assert(values@ =~= seq![values@[0]]);
        Some(values[0])
    } else {
        None
    }
}

/// ## OPTIONAL ITEM
///
/// An item in whose place the list without elements may stand.
#[derive(Clone, Debug, PartialEq, Eq)]
pub struct OptionItem<T>(pub Option<T>);

impl<A: ItemFormat> ItemFormat for OptionItem<A> {
    open spec fn item(self) -> ItemView {
        match self.0 {
            Some(value) => value.item(),
            None => empty_list(),
        }
    }

    open spec fn accepts(item: ItemView) -> bool {
        item == empty_list() || A::accepts(item)
    }

    open spec fn reads(item: ItemView, value: Self) -> bool {
        if item == empty_list() {
            value.0 is None
        } else {
            value.0 matches Some(inner) && A::reads(item, inner)
        }
    }

    /// The item that is present must not itself be written as the list
    /// without elements, which reads as the absent item.
    open spec fn valid(self) -> bool {
        match self.0 {
            Some(value) => value.valid() && value.item() != empty_list(),
            None => true,
        }
    }

    proof fn lemma_round_trip(self) {
        match self.0 {
            Some(value) => {
                value.lemma_round_trip();
            },
            None => {},
        }
    }

    fn into_item(self) -> (r: Item) {
        match self.0 {
            Some(value) => value.into_item(),
            None => {
                let list: Vec<Item> = Vec::new();
                proof {
                    lemma_list_view(list);
                    assert(views_of(list@) =~= Seq::empty());
                }
                Item::List(list)
            },
        }
    }

    fn try_from_item(item: Item) -> (r: Result<Self, Error>) {
        let empty = match &item {
            Item::List(list) => {
                proof {
                    lemma_list_view(*list);
                    if list@.len() == 0 {
                        assert(views_of(list@) =~= Seq::empty());
                    } else {
                        assert(views_of(list@).len() != 0);
                    }
                }
                list.len() == 0
            },
            _ => false,
        };
        if empty {
            Ok(OptionItem(None))
        } else {
            match A::try_from_item(item) {
                Ok(value) => Ok(OptionItem(Some(value))),
                Err(e) => Err(e),
            }
        }
    }
}

/// ## VECTORIZED LIST
///
/// A list of any number of elements that are all items of one type.
#[derive(Clone, Debug, PartialEq, Eq)]
pub struct VecList<T>(pub Vec<T>);

impl<A: ItemFormat> ItemFormat for VecList<A> {
    open spec fn item(self) -> ItemView {
        ItemView::List(Seq::new(self.0@.len(), |i: int| self.0@[i].item()))
    }

    open spec fn accepts(item: ItemView) -> bool {
        item matches ItemView::List(list) && forall|i: int|
            0 <= i < list.len() ==> A::accepts(#[trigger] list[i])
    }

    open spec fn reads(item: ItemView, value: Self) -> bool {
        item matches ItemView::List(list) && list.len() == value.0@.len() && forall|i: int|
            0 <= i < list.len() ==> A::reads(#[trigger] list[i], value.0@[i])
    }

    open spec fn valid(self) -> bool {
        forall|i: int| 0 <= i < self.0@.len() ==> (#[trigger] self.0@[i]).valid()
    }

    proof fn lemma_round_trip(self) {
        let list = self.item()->List_0;
        assert forall|i: int| 0 <= i < list.len() implies A::accepts(#[trigger] list[i])
            && A::reads(list[i], self.0@[i]) by {
            self.0@[i].lemma_round_trip();
        }
    }

    fn into_item(self) -> (r: Item) {
        let mut list: Vec<Item> = Vec::new();
        let ghost values = self.0@;
        for value in iter: self.0
            invariant
                values == iter.seq(),
                list@.len() == iter.index(),
                forall|i: int| 0 <= i < list@.len() ==> (#[trigger] list@[i])@ == values[i].item(),
        {
            list.push(value.into_item());
        }
        proof {
            lemma_list_view(list);
            assert(views_of(list@) =~= self.item()->List_0);
        }
        Item::List(list)
    }

    fn try_from_item(item: Item) -> (r: Result<Self, Error>) {
        match item {
            Item::List(list) => {
                let mut values: Vec<A> = Vec::new();
                let ghost items = views_of(list@);
                proof {
                    lemma_list_view(list);
                }
                for element in iter: list
                    invariant
                        items == views_of(iter.seq()),
                        item@ == ItemView::List(items),
                        values@.len() == iter.index(),
                        forall|i: int|
                            0 <= i < values@.len() ==> A::accepts(#[trigger] items[i]) && A::reads(
                                items[i],
                                values@[i],
                            ),
                {
                    assert(0 <= iter.index() < items.len());
                    assert(items[iter.index()] == element@);
                    match A::try_from_item(element) {
                        Ok(value) => values.push(value),
                        Err(e) => {
                            assert(item@->List_0 == items);
                            assert(!A::accepts(items[iter.index()]));
                            return Err(e);
                        },
                    }
                }
                Ok(VecList(values))
            },
            _ => Err(Error::WrongFormat),
        }
    }
}

/// The unit is the list without elements.
impl ItemFormat for () {
    open spec fn item(self) -> ItemView {
        empty_list()
    }

    open spec fn accepts(item: ItemView) -> bool {
        item == empty_list()
    }

    open spec fn reads(item: ItemView, value: Self) -> bool {
        true
    }

    open spec fn valid(self) -> bool {
        true
    }

    proof fn lemma_round_trip(self) {
    }

    fn into_item(self) -> (r: Item) {
        let list: Vec<Item> = Vec::new();
        proof {
            lemma_list_view(list);
            assert(views_of(list@) =~= Seq::empty());
        }
        Item::List(list)
    }

    fn try_from_item(item: Item) -> (r: Result<Self, Error>) {
        match item {
            Item::List(list) => {
                proof {
                    lemma_list_view(list);
                    if list@.len() == 0 {
                        assert(views_of(list@) =~= Seq::empty());
                    } else {
                        assert(views_of(list@).len() != 0);
                    }
                }
                if list.len() == 0 {
                    Ok(())
                } else {
                    Err(Error::WrongFormat)
                }
            },
            _ => Err(Error::WrongFormat),
        }
    }
}

/// A tuple of two items is the list of two elements in which each
/// element is of its own type.
impl<A: ItemFormat, B: ItemFormat> ItemFormat for (A, B) {
    open spec fn item(self) -> ItemView {
        ItemView::List(seq![self.0.item(), self.1.item()])
    }

    open spec fn accepts(item: ItemView) -> bool {
        &&& item matches ItemView::List(list)
        &&& list.len() == 2
        &&& A::accepts(list[0])
        &&& B::accepts(list[1])
    }

    open spec fn reads(item: ItemView, value: Self) -> bool {
        &&& item matches ItemView::List(list)
        &&& list.len() == 2
        &&& A::reads(list[0], value.0)
        &&& B::reads(list[1], value.1)
    }

    open spec fn valid(self) -> bool {
        &&& self.0.valid()
        &&& self.1.valid()
    }

    proof fn lemma_round_trip(self) {
        self.0.lemma_round_trip();
        self.1.lemma_round_trip();
    }

    fn into_item(self) -> (r: Item) {
        let mut list: Vec<Item> = Vec::new();
        list.push(self.0.into_item());
        list.push(self.1.into_item());
        proof {
            lemma_list_view(list);
            assert(views_of(list@) =~= self.item()->List_0);
        }
        Item::List(list)
    }

    fn try_from_item(item: Item) -> (r: Result<Self, Error>) {
        match item {
            Item::List(list) => {
                let mut list = list;
                if list.len() != 2 {
                    proof {
                        lemma_list_view(list);
                    }
                    return Err(Error::WrongFormat);
                }
                let ghost items = views_of(list@);
                proof {
                    lemma_list_view(list);
                    assert(item@->List_0 == items);
                }
                let item_b = list.pop().unwrap();
                assert(item_b@ == items[1]);
                let item_a = list.pop().unwrap();
                assert(item_a@ == items[0]);
                let a = match A::try_from_item(item_a) {
                    Ok(value) => value,
                    Err(e) => {
                        return Err(e);
                    },
                };
                let b = match B::try_from_item(item_b) {
                    Ok(value) => value,
                    Err(e) => {
                        return Err(e);
                    },
                };
                Ok((a, b))
            },
            _ => Err(Error::WrongFormat),
        }
    }
}

/// A tuple of three items is the list of three elements in which each
/// element is of its own type.
impl<A: ItemFormat, B: ItemFormat, C: ItemFormat> ItemFormat for (A, B, C) {
    open spec fn item(self) -> ItemView {
        ItemView::List(seq![self.0.item(), self.1.item(), self.2.item()])
    }

    open spec fn accepts(item: ItemView) -> bool {
        &&& item matches ItemView::List(list)
        &&& list.len() == 3
        &&& A::accepts(list[0])
        &&& B::accepts(list[1])
        &&& C::accepts(list[2])
    }

    open spec fn reads(item: ItemView, value: Self) -> bool {
        &&& item matches ItemView::List(list)
        &&& list.len() == 3
        &&& A::reads(list[0], value.0)
        &&& B::reads(list[1], value.1)
        &&& C::reads(list[2], value.2)
    }

    open spec fn valid(self) -> bool {
        &&& self.0.valid()
        &&& self.1.valid()
        &&& self.2.valid()
    }

    proof fn lemma_round_trip(self) {
        self.0.lemma_round_trip();
        self.1.lemma_round_trip();
        self.2.lemma_round_trip();
    }

    fn into_item(self) -> (r: Item) {
        let mut list: Vec<Item> = Vec::new();
        list.push(self.0.into_item());
        list.push(self.1.into_item());
        list.push(self.2.into_item());
        proof {
            lemma_list_view(list);
            assert(views_of(list@) =~= self.item()->List_0);
        }
        Item::List(list)
    }

    fn try_from_item(item: Item) -> (r: Result<Self, Error>) {
        match item {
            Item::List(list) => {
                let mut list = list;
                if list.len() != 3 {
                    proof {
                        lemma_list_view(list);
                    }
                    return Err(Error::WrongFormat);
                }
                let ghost items = views_of(list@);
                proof {
                    lemma_list_view(list);
                    assert(item@->List_0 == items);
                }
                let item_c = list.pop().unwrap();
                assert(item_c@ == items[2]);
                let item_b = list.pop().unwrap();
                assert(item_b@ == items[1]);
                let item_a = list.pop().unwrap();
                assert(item_a@ == items[0]);
                let a = match A::try_from_item(item_a) {
                    Ok(value) => value,
                    Err(e) => {
                        return Err(e);
                    },
                };
                let b = match B::try_from_item(item_b) {
                    Ok(value) => value,
                    Err(e) => {
                        return Err(e);
                    },
                };
                let c = match C::try_from_item(item_c) {
                    Ok(value) => value,
                    Err(e) => {
                        return Err(e);
                    },
                };
                Ok((a, b, c))
            },
            _ => Err(Error::WrongFormat),
        }
    }
}

/// A tuple of four items is the list of four elements in which each
/// element is of its own type.
impl<A: ItemFormat, B: ItemFormat, C: ItemFormat, D: ItemFormat> ItemFormat for (A, B, C, D) {
    open spec fn item(self) -> ItemView {
        ItemView::List(seq![self.0.item(), self.1.item(), self.2.item(), self.3.item()])
    }

    open spec fn accepts(item: ItemView) -> bool {
        &&& item matches ItemView::List(list)
        &&& list.len() == 4
        &&& A::accepts(list[0])
        &&& B::accepts(list[1])
        &&& C::accepts(list[2])
        &&& D::accepts(list[3])
    }

    open spec fn reads(item: ItemView, value: Self) -> bool {
        &&& item matches ItemView::List(list)
        &&& list.len() == 4
        &&& A::reads(list[0], value.0)
        &&& B::reads(list[1], value.1)
        &&& C::reads(list[2], value.2)
        &&& D::reads(list[3], value.3)
    }

    open spec fn valid(self) -> bool {
        &&& self.0.valid()
        &&& self.1.valid()
        &&& self.2.valid()
        &&& self.3.valid()
    }

    proof fn lemma_round_trip(self) {
        self.0.lemma_round_trip();
        self.1.lemma_round_trip();
        self.2.lemma_round_trip();
        self.3.lemma_round_trip();
    }

    fn into_item(self) -> (r: Item) {
        let mut list: Vec<Item> = Vec::new();
        list.push(self.0.into_item());
        list.push(self.1.into_item());
        list.push(self.2.into_item());
        list.push(self.3.into_item());
        proof {
            lemma_list_view(list);
            assert(views_of(list@) =~= self.item()->List_0);
        }
        Item::List(list)
    }

    fn try_from_item(item: Item) -> (r: Result<Self, Error>) {
        match item {
            Item::List(list) => {
                let mut list = list;
                if list.len() != 4 {
                    proof {
                        lemma_list_view(list);
                    }
                    return Err(Error::WrongFormat);
                }
                let ghost items = views_of(list@);
                proof {
                    lemma_list_view(list);
                    assert(item@->List_0 == items);
                }
                let item_d = list.pop().unwrap();
                assert(item_d@ == items[3]);
                let item_c = list.pop().unwrap();
                assert(item_c@ == items[2]);
                let item_b = list.pop().unwrap();
                assert(item_b@ == items[1]);
                let item_a = list.pop().unwrap();
                assert(item_a@ == items[0]);
                let a = match A::try_from_item(item_a) {
                    Ok(value) => value,
                    Err(e) => {
                        return Err(e);
                    },
                };
                let b = match B::try_from_item(item_b) {
                    Ok(value) => value,
                    Err(e) => {
                        return Err(e);
                    },
                };
                let c = match C::try_from_item(item_c) {
                    Ok(value) => value,
                    Err(e) => {
                        return Err(e);
                    },
                };
                let d = match D::try_from_item(item_d) {
                    Ok(value) => value,
                    Err(e) => {
                        return Err(e);
                    },
                };
                Ok((a, b, c, d))
            },
            _ => Err(Error::WrongFormat),
        }
    }
}

/// A tuple of five items is the list of five elements in which each
/// element is of its own type.
impl<
    A: ItemFormat,
    B: ItemFormat,
    C: ItemFormat,
    D: ItemFormat,
    E: ItemFormat,
> ItemFormat for (A, B, C, D, E) {
    open spec fn item(self) -> ItemView {
        ItemView::List(
            seq![
                self.0.item(),
                self.1.item(),
                self.2.item(),
                self.3.item(),
                self.4.item(),
            ],
        )
    }

    open spec fn accepts(item: ItemView) -> bool {
        &&& item matches ItemView::List(list)
        &&& list.len() == 5
        &&& A::accepts(list[0])
        &&& B::accepts(list[1])
        &&& C::accepts(list[2])
        &&& D::accepts(list[3])
        &&& E::accepts(list[4])
    }

    open spec fn reads(item: ItemView, value: Self) -> bool {
        &&& item matches ItemView::List(list)
        &&& list.len() == 5
        &&& A::reads(list[0], value.0)
        &&& B::reads(list[1], value.1)
        &&& C::reads(list[2], value.2)
        &&& D::reads(list[3], value.3)
        &&& E::reads(list[4], value.4)
    }

    open spec fn valid(self) -> bool {
        &&& self.0.valid()
        &&& self.1.valid()
        &&& self.2.valid()
        &&& self.3.valid()
        &&& self.4.valid()
    }

    proof fn lemma_round_trip(self) {
        self.0.lemma_round_trip();
        self.1.lemma_round_trip();
        self.2.lemma_round_trip();
        self.3.lemma_round_trip();
        self.4.lemma_round_trip();
    }

    fn into_item(self) -> (r: Item) {
        let mut list: Vec<Item> = Vec::new();
        list.push(self.0.into_item());
        list.push(self.1.into_item());
        list.push(self.2.into_item());
        list.push(self.3.into_item());
        list.push(self.4.into_item());
        proof {
            lemma_list_view(list);
            assert(views_of(list@) =~= self.item()->List_0);
        }
        Item::List(list)
    }

    fn try_from_item(item: Item) -> (r: Result<Self, Error>) {
        match item {
            Item::List(list) => {
                let mut list = list;
                if list.len() != 5 {
                    proof {
                        lemma_list_view(list);
                    }
                    return Err(Error::WrongFormat);
                }
                let ghost items = views_of(list@);
                proof {
                    lemma_list_view(list);
                    assert(item@->List_0 == items);
                }
                let item_e = list.pop().unwrap();
                assert(item_e@ == items[4]);
                let item_d = list.pop().unwrap();
                assert(item_d@ == items[3]);
                let item_c = list.pop().unwrap();
                assert(item_c@ == items[2]);
                let item_b = list.pop().unwrap();
                assert(item_b@ == items[1]);
                let item_a = list.pop().unwrap();
                assert(item_a@ == items[0]);
                let a = match A::try_from_item(item_a) {
                    Ok(value) => value,
                    Err(e) => {
                        return Err(e);
                    },
                };
                let b = match B::try_from_item(item_b) {
                    Ok(value) => value,
                    Err(e) => {
                        return Err(e);
                    },
                };
                let c = match C::try_from_item(item_c) {
                    Ok(value) => value,
                    Err(e) => {
                        return Err(e);
                    },
                };
                let d = match D::try_from_item(item_d) {
                    Ok(value) => value,
                    Err(e) => {
                        return Err(e);
                    },
                };
                let e = match E::try_from_item(item_e) {
                    Ok(value) => value,
                    Err(e) => {
                        return Err(e);
                    },
                };
                Ok((a, b, c, d, e))
            },
            _ => Err(Error::WrongFormat),
        }
    }
}

/// A tuple of six items is the list of six elements in which each
/// element is of its own type.
impl<
    A: ItemFormat,
    B: ItemFormat,
    C: ItemFormat,
    D: ItemFormat,
    E: ItemFormat,
    F: ItemFormat,
> ItemFormat for (A, B, C, D, E, F) {
    open spec fn item(self) -> ItemView {
        ItemView::List(
            seq![
                self.0.item(),
                self.1.item(),
                self.2.item(),
                self.3.item(),
                self.4.item(),
                self.5.item(),
            ],
        )
    }

    open spec fn accepts(item: ItemView) -> bool {
        &&& item matches ItemView::List(list)
        &&& list.len() == 6
        &&& A::accepts(list[0])
        &&& B::accepts(list[1])
        &&& C::accepts(list[2])
        &&& D::accepts(list[3])
        &&& E::accepts(list[4])
        &&& F::accepts(list[5])
    }

    open spec fn reads(item: ItemView, value: Self) -> bool {
        &&& item matches ItemView::List(list)
        &&& list.len() == 6
        &&& A::reads(list[0], value.0)
        &&& B::reads(list[1], value.1)
        &&& C::reads(list[2], value.2)
        &&& D::reads(list[3], value.3)
        &&& E::reads(list[4], value.4)
        &&& F::reads(list[5], value.5)
    }

    open spec fn valid(self) -> bool {
        &&& self.0.valid()
        &&& self.1.valid()
        &&& self.2.valid()
        &&& self.3.valid()
        &&& self.4.valid()
        &&& self.5.valid()
    }

    proof fn lemma_round_trip(self) {
        self.0.lemma_round_trip();
        self.1.lemma_round_trip();
        self.2.lemma_round_trip();
        self.3.lemma_round_trip();
        self.4.lemma_round_trip();
        self.5.lemma_round_trip();
    }

    fn into_item(self) -> (r: Item) {
        let mut list: Vec<Item> = Vec::new();
        list.push(self.0.into_item());
        list.push(self.1.into_item());
        list.push(self.2.into_item());
        list.push(self.3.into_item());
        list.push(self.4.into_item());
        list.push(self.5.into_item());
        proof {
            lemma_list_view(list);
            assert(views_of(list@) =~= self.item()->List_0);
        }
        Item::List(list)
    }

    fn try_from_item(item: Item) -> (r: Result<Self, Error>) {
        match item {
            Item::List(list) => {
                let mut list = list;
                if list.len() != 6 {
                    proof {
                        lemma_list_view(list);
                    }
                    return Err(Error::WrongFormat);
                }
                let ghost items = views_of(list@);
                proof {
                    lemma_list_view(list);
                    assert(item@->List_0 == items);
                }
                let item_f = list.pop().unwrap();
                assert(item_f@ == items[5]);
                let item_e = list.pop().unwrap();
                assert(item_e@ == items[4]);
                let item_d = list.pop().unwrap();
                assert(item_d@ == items[3]);
                let item_c = list.pop().unwrap();
                assert(item_c@ == items[2]);
                let item_b = list.pop().unwrap();
                assert(item_b@ == items[1]);
                let item_a = list.pop().unwrap();
                assert(item_a@ == items[0]);
                let a = match A::try_from_item(item_a) {
                    Ok(value) => value,
                    Err(e) => {
                        return Err(e);
                    },
                };
                let b = match B::try_from_item(item_b) {
                    Ok(value) => value,
                    Err(e) => {
                        return Err(e);
                    },
                };
                let c = match C::try_from_item(item_c) {
                    Ok(value) => value,
                    Err(e) => {
                        return Err(e);
                    },
                };
                let d = match D::try_from_item(item_d) {
                    Ok(value) => value,
                    Err(e) => {
                        return Err(e);
                    },
                };
                let e = match E::try_from_item(item_e) {
                    Ok(value) => value,
                    Err(e) => {
                        return Err(e);
                    },
                };
                let f = match F::try_from_item(item_f) {
                    Ok(value) => value,
                    Err(e) => {
                        return Err(e);
                    },
                };
                Ok((a, b, c, d, e, f))
            },
            _ => Err(Error::WrongFormat),
        }
    }
}

/// A tuple of seven items is the list of seven elements in which each
/// element is of its own type.
impl<
    A: ItemFormat,
    B: ItemFormat,
    C: ItemFormat,
    D: ItemFormat,
    E: ItemFormat,
    F: ItemFormat,
    G: ItemFormat,
> ItemFormat for (A, B, C, D, E, F, G) {
    open spec fn item(self) -> ItemView {
        ItemView::List(
            seq![
                self.0.item(),
                self.1.item(),
                self.2.item(),
                self.3.item(),
                self.4.item(),
                self.5.item(),
                self.6.item(),
            ],
        )
    }

    open spec fn accepts(item: ItemView) -> bool {
        &&& item matches ItemView::List(list)
        &&& list.len() == 7
        &&& A::accepts(list[0])
        &&& B::accepts(list[1])
        &&& C::accepts(list[2])
        &&& D::accepts(list[3])
        &&& E::accepts(list[4])
        &&& F::accepts(list[5])
        &&& G::accepts(list[6])
    }

    open spec fn reads(item: ItemView, value: Self) -> bool {
        &&& item matches ItemView::List(list)
        &&& list.len() == 7
        &&& A::reads(list[0], value.0)
        &&& B::reads(list[1], value.1)
        &&& C::reads(list[2], value.2)
        &&& D::reads(list[3], value.3)
        &&& E::reads(list[4], value.4)
        &&& F::reads(list[5], value.5)
        &&& G::reads(list[6], value.6)
    }

    open spec fn valid(self) -> bool {
        &&& self.0.valid()
        &&& self.1.valid()
        &&& self.2.valid()
        &&& self.3.valid()
        &&& self.4.valid()
        &&& self.5.valid()
        &&& self.6.valid()
    }

    proof fn lemma_round_trip(self) {
        self.0.lemma_round_trip();
        self.1.lemma_round_trip();
        self.2.lemma_round_trip();
        self.3.lemma_round_trip();
        self.4.lemma_round_trip();
        self.5.lemma_round_trip();
        self.6.lemma_round_trip();
    }

    fn into_item(self) -> (r: Item) {
        let mut list: Vec<Item> = Vec::new();
        list.push(self.0.into_item());
        list.push(self.1.into_item());
        list.push(self.2.into_item());
        list.push(self.3.into_item());
        list.push(self.4.into_item());
        list.push(self.5.into_item());
        list.push(self.6.into_item());
        proof {
            lemma_list_view(list);
            assert(views_of(list@) =~= self.item()->List_0);
        }
        Item::List(list)
    }

    fn try_from_item(item: Item) -> (r: Result<Self, Error>) {
        match item {
            Item::List(list) => {
                let mut list = list;
                if list.len() != 7 {
                    proof {
                        lemma_list_view(list);
                    }
                    return Err(Error::WrongFormat);
                }
                let ghost items = views_of(list@);
                proof {
                    lemma_list_view(list);
                    assert(item@->List_0 == items);
                }
                let item_g = list.pop().unwrap();
                assert(item_g@ == items[6]);
                let item_f = list.pop().unwrap();
                assert(item_f@ == items[5]);
                let item_e = list.pop().unwrap();
                assert(item_e@ == items[4]);
                let item_d = list.pop().unwrap();
                assert(item_d@ == items[3]);
                let item_c = list.pop().unwrap();
                assert(item_c@ == items[2]);
                let item_b = list.pop().unwrap();
                assert(item_b@ == items[1]);
                let item_a = list.pop().unwrap();
                assert(item_a@ == items[0]);
                let a = match A::try_from_item(item_a) {
                    Ok(value) => value,
                    Err(e) => {
                        return Err(e);
                    },
                };
                let b = match B::try_from_item(item_b) {
                    Ok(value) => value,
                    Err(e) => {
                        return Err(e);
                    },
                };
                let c = match C::try_from_item(item_c) {
                    Ok(value) => value,
                    Err(e) => {
                        return Err(e);
                    },
                };
                let d = match D::try_from_item(item_d) {
                    Ok(value) => value,
                    Err(e) => {
                        return Err(e);
                    },
                };
                let e = match E::try_from_item(item_e) {
                    Ok(value) => value,
                    Err(e) => {
                        return Err(e);
                    },
                };
                let f = match F::try_from_item(item_f) {
                    Ok(value) => value,
                    Err(e) => {
                        return Err(e);
                    },
                };
                let g = match G::try_from_item(item_g) {
                    Ok(value) => value,
                    Err(e) => {
                        return Err(e);
                    },
                };
                Ok((a, b, c, d, e, f, g))
            },
            _ => Err(Error::WrongFormat),
        }
    }
}

/// ## ENUMERATION
///
/// An item of a single byte whose values have names. Each name stands for one
/// number, and the numbers without a name are no values of the item.
pub trait Enumeration: Sized + Copy {
    /// The number that a value stands for.
    spec fn number(self) -> u8;

    /// The value that a number stands for, if it has a name.
    spec fn named(number: u8) -> Option<Self>;

    /// Whether the item is written in the binary format rather than as an
    /// unsigned integer of one byte.
    spec fn binary() -> bool;

    /// The number that a value stands for.
    fn into_primitive(self) -> (r: u8)
        ensures
            r == self.number(),
    ;

    /// The value that a number stands for, if it has a name.
    fn try_from_primitive(number: u8) -> (r: Option<Self>)
        ensures
            r == Self::named(number),
    ;

    /// Whether the item is written in the binary format.
    fn is_binary() -> (r: bool)
        ensures
            r == Self::binary(),
    ;

    /// The number of a value names that value.
    proof fn lemma_number_names_value(self)
        ensures
            Self::named(self.number()) == Some(self),
    ;

    /// A number that names a value is the number of that value.
    proof fn lemma_named_has_number(number: u8)
        ensures
            Self::named(number) matches Some(value) ==> value.number() == number,
    ;
}

/// The general item that one value of an enumeration is written as.
pub open spec fn enumeration_item<E: Enumeration>(value: E) -> ItemView {
    if E::binary() {
        ItemView::Bin(seq![value.number()])
    } else {
        ItemView::U1(seq![value.number()])
    }
}

/// Whether a general item can be read as one value of an enumeration: it has
/// the format of the enumeration and holds one number, which has a name.
pub open spec fn enumeration_accepts<E: Enumeration>(item: ItemView) -> bool {
    match item {
        ItemView::Bin(numbers) => E::binary() && numbers.len() == 1 && E::named(numbers[0]) is Some,
        ItemView::U1(numbers) => !E::binary() && numbers.len() == 1 && E::named(numbers[0]) is Some,
        _ => false,
    }
}

/// Round trip of one value of an enumeration: the item that it is written as
/// can be read as a value of the enumeration.
pub proof fn lemma_enumeration_round_trip<E: Enumeration>(value: E)
    ensures
        enumeration_accepts::<E>(enumeration_item(value)),
{
    value.lemma_number_names_value();
}

/// Writes one value of an enumeration as a general item.
pub fn enumeration_into_item<E: Enumeration>(value: E) -> (r: Item)
    ensures
        r@ == enumeration_item(value),
{
    let numbers = single(value.into_primitive());
    if E::is_binary() {
        Item::Bin(numbers)
    } else {
        Item::U1(numbers)
    }
}

/// Reads a general item as one value of an enumeration.
pub fn enumeration_try_from_item<E: Enumeration>(item: Item) -> (r: Result<E, Error>)
    ensures
        match r {
            Ok(value) => enumeration_accepts::<E>(item@) && item@ == enumeration_item(value),
            Err(e) => !enumeration_accepts::<E>(item@) && e == Error::WrongFormat,
        },
{
    let binary = E::is_binary();
    let numbers = match item {
        Item::Bin(numbers) => {
            if !binary {
                return Err(Error::WrongFormat);
            }
            numbers
        },
        Item::U1(numbers) => {
            if binary {
                return Err(Error::WrongFormat);
            }
            numbers
        },
        _ => {
            return Err(Error::WrongFormat);
        },
    };
    match only(&numbers) {
        Some(number) => match E::try_from_primitive(number) {
            Some(value) => {
                proof {
                    E::lemma_named_has_number(number);
                }
                Ok(value)
            },
            None => Err(Error::WrongFormat),
        },
        None => Err(Error::WrongFormat),
    }
}

/// The numbers of a sequence of values of an enumeration, in order.
pub open spec fn numbers_of<E: Enumeration>(values: Seq<E>) -> Seq<u8> {
    Seq::new(values.len(), |i: int| values[i].number())
}

/// A vector of values of an enumeration is written as one item that holds
/// their numbers.
impl<E: Enumeration> ItemFormat for Vec<E> {
    open spec fn item(self) -> ItemView {
        if E::binary() {
            ItemView::Bin(numbers_of(self@))
        } else {
            ItemView::U1(numbers_of(self@))
        }
    }

    open spec fn accepts(item: ItemView) -> bool {
        match item {
            ItemView::Bin(numbers) => E::binary() && forall|i: int|
                0 <= i < numbers.len() ==> E::named(#[trigger] numbers[i]) is Some,
            ItemView::U1(numbers) => !E::binary() && forall|i: int|
                0 <= i < numbers.len() ==> E::named(#[trigger] numbers[i]) is Some,
            _ => false,
        }
    }

    open spec fn reads(item: ItemView, value: Self) -> bool {
        item == value.item()
    }

    open spec fn valid(self) -> bool {
        true
    }

    proof fn lemma_round_trip(self) {
        let numbers = numbers_of(self@);
        assert forall|i: int| 0 <= i < numbers.len() implies E::named(#[trigger] numbers[i])
            is Some by {
            self@[i].lemma_number_names_value();
        }
    }

    fn into_item(self) -> (r: Item) {
        let mut numbers: Vec<u8> = Vec::new();
        let mut i: usize = 0;
        while i < self.len()
            invariant
                i <= self@.len(),
                numbers@.len() == i,
                forall|k: int| 0 <= k < i ==> numbers@[k] == (#[trigger] self@[k]).number(),
            decreases self@.len() - i,
        {
            numbers.push(self[i].into_primitive());
            i = i + 1;
        }
        assert(numbers@ =~= numbers_of(self@));
        if E::is_binary() {
            Item::Bin(numbers)
        } else {
            Item::U1(numbers)
        }
    }

    fn try_from_item(item: Item) -> (r: Result<Self, Error>) {
        let binary = E::is_binary();
        let numbers = match item {
            Item::Bin(numbers) => {
                if !binary {
                    return Err(Error::WrongFormat);
                }
                numbers
            },
            Item::U1(numbers) => {
                if binary {
                    return Err(Error::WrongFormat);
                }
                numbers
            },
            _ => {
                return Err(Error::WrongFormat);
            },
        };
        let mut values: Vec<E> = Vec::new();
        let mut i: usize = 0;
        while i < numbers.len()
            invariant
                i <= numbers@.len(),
                values@.len() == i,
                binary == E::binary(),
                item@ == if binary {
                    ItemView::Bin(numbers@)
                } else {
                    ItemView::U1(numbers@)
                },
                forall|k: int|
                    0 <= k < i ==> E::named(#[trigger] numbers@[k]) is Some && values@[k].number()
                        == numbers@[k],
            decreases numbers@.len() - i,
        {
            match E::try_from_primitive(numbers[i]) {
                Some(value) => {
                    proof {
                        E::lemma_named_has_number(numbers@[i as int]);
                    }
                    values.push(value);
                },
                None => {
                    assert(E::named(numbers@[i as int]) is None);
                    assert(binary ==> item@->Bin_0 == numbers@);
                    assert(!binary ==> item@->U1_0 == numbers@);
                    return Err(Error::WrongFormat);
                },
            }
            i = i + 1;
        }
        assert(numbers@ =~= numbers_of(values@));
        Ok(values)
    }
}

/// Why a message is not a given function of a given stream with a given
/// demand for a reply; none where it is.
pub open spec fn header_fault(message: MessageView, stream: u8, function: u8, w: bool) -> Option<
    Error,
> {
    if message.stream != stream {
        Some(Error::WrongStream)
    } else if message.function != function {
        Some(Error::WrongFunction)
    } else if message.w != w {
        Some(Error::WrongReply)
    } else {
        None
    }
}

/// Why a message is not a given message of header only; none where it is.
pub open spec fn header_only_fault(
    message: MessageView,
    stream: u8,
    function: u8,
    w: bool,
) -> Option<Error> {
    match header_fault(message, stream, function, w) {
        Some(e) => Some(e),
        None => if message.text is Some {
            Some(Error::WrongFormat)
        } else {
            None
        },
    }
}

/// Why a message is not a given message whose text is an item of type `T`;
/// none where it is.
pub open spec fn text_fault<T: ItemFormat>(
    message: MessageView,
    stream: u8,
    function: u8,
    w: bool,
) -> Option<Error> {
    match header_fault(message, stream, function, w) {
        Some(e) => Some(e),
        None => match message.text {
            Some(item) => if T::accepts(item) {
                None
            } else {
                Some(Error::WrongFormat)
            },
            None => Some(Error::WrongFormat),
        },
    }
}

/// Whether a specific item is what the text of a message reads as.
pub open spec fn text_reads<T: ItemFormat>(message: MessageView, text: T) -> bool {
    message.text matches Some(item) && T::reads(item, text)
}

/// The message of header only with a given header.
pub fn header_only_message(stream: u8, function: u8, w: bool) -> (r: Message)
    ensures
        r@ == (MessageView { stream, function, w, text: None }),
{
    Message { stream, function, w, text: None }
}

/// The message with a given header whose text is a given specific item.
pub fn message_with_text<T: ItemFormat>(stream: u8, function: u8, w: bool, text: T) -> (r: Message)
    ensures
        r@ == (MessageView { stream, function, w, text: Some(text.item()) }),
{
    Message { stream, function, w, text: Some(text.into_item()) }
}

/// Checks that a message is a given message of header only.
pub fn read_header_only(message: Message, stream: u8, function: u8, w: bool) -> (r: Result<
    (),
    Error,
>)
    ensures
        match r {
            Ok(_) => header_only_fault(message@, stream, function, w) is None,
            Err(e) => header_only_fault(message@, stream, function, w) == Some(e),
        },
{
    if message.stream != stream {
        Err(Error::WrongStream)
    } else if message.function != function {
        Err(Error::WrongFunction)
    } else if message.w != w {
        Err(Error::WrongReply)
    } else if message.text.is_some() {
        Err(Error::WrongFormat)
    } else {
        Ok(())
    }
}

/// Reads the text of a message as a specific item, after checking that the
/// message is the given function of the given stream.
pub fn read_text<T: ItemFormat>(message: Message, stream: u8, function: u8, w: bool) -> (r: Result<
    T,
    Error,
>)
    ensures
        match r {
            Ok(text) => text_fault::<T>(message@, stream, function, w) is None && text_reads(
                message@,
                text,
            ),
            Err(e) => text_fault::<T>(message@, stream, function, w) == Some(e),
        },
{
    if message.stream != stream {
        Err(Error::WrongStream)
    } else if message.function != function {
        Err(Error::WrongFunction)
    } else if message.w != w {
        Err(Error::WrongReply)
    } else {
        match message.text {
            Some(item) => T::try_from_item(item),
            None => Err(Error::WrongFormat),
        }
    }
}

/// ## MESSAGE FORMAT
///
/// A specific message: a type whose values are written as general messages
/// of one stream and function, and read back from them.
pub trait MessageFormat: Sized {
    /// The general message that a value is written as.
    spec fn message(self) -> MessageView;

    /// Why a general message cannot be read as a value of this type; none
    /// where it can. The stream is looked at first, then the function, then
    /// the demand for a reply, and the text last.
    spec fn fault(message: MessageView) -> Option<Error>;

    /// Whether a value is what a general message reads as.
    spec fn reads(message: MessageView, value: Self) -> bool;

    /// Whether a value is one that reading can give.
    spec fn valid(self) -> bool;

    /// Round trip: the general message that a valid value is written as can
    /// be read, and reads as that value.
    proof fn lemma_round_trip(self)
        requires
            self.valid(),
        ensures
            Self::fault(self.message()) is None,
            Self::reads(self.message(), self),
    ;

    /// Writes the value as a general message.
    fn into_message(self) -> (r: Message)
        ensures
            r@ == self.message(),
    ;

    /// Reads a general message as a value of this type.
    fn try_from_message(message: Message) -> (r: Result<Self, Error>)
        ensures
            match r {
                Ok(value) => Self::fault(message@) is None && Self::reads(message@, value),
                Err(e) => Self::fault(message@) == Some(e),
            },
    ;
}

} // verus!
