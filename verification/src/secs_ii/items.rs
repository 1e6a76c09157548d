//! Data items (SEMI E5 section 9.6): the values that messages carry, and
//! their conversions to and from items.
use vstd::prelude::*;
use crate::secs_ii::{DataItem, Error, Item, ItemV, items_view};
use crate::secs_ii::item_bytes::lemma_items_view;
use crate::secs_ii::bytes::check_ascii;
use crate::secs_ii::codec::all_ascii;

verus! {

/// A one-element vector.
fn single<T>(x: T) -> (r: Vec<T>)
    ensures
        r@ == seq![x],
{
    let mut v: Vec<T> = Vec::new();
    v.push(x);
    assert(v@ =~= seq![x]);
    v
}

/// The only element of a one-element vector.
fn only<T: Copy>(v: &Vec<T>) -> (r: T)
    requires
        v.len() == 1,
    ensures
        r == v@[0],
{
    v[0]
}

/// ABS: any binary string.
#[derive(Debug)]
pub struct AnyBinaryString(Vec<u8>);

impl AnyBinaryString {
    /// The bytes of the string.
    pub closed spec fn bytes(&self) -> Seq<u8> {
        self.0@
    }

    /// A binary string of any length.
    pub fn new(vec: Vec<u8>) -> (r: Option<Self>)
        ensures
            r matches Some(s) && s.bytes() == vec@,
    {
        Some(AnyBinaryString(vec))
    }
}

impl DataItem for AnyBinaryString {
    open spec fn item_of(&self) -> ItemV {
        ItemV::Binary(self.bytes())
    }

    open spec fn accepts(item: ItemV) -> bool {
        item is Binary
    }

    fn into_item(self) -> (r: Item) {
        Item::Binary(self.0)
    }

    fn try_from_item(item: Item) -> (r: Result<Self, Error>) {
        match item {
            Item::Binary(vec) => Ok(AnyBinaryString(vec)),
            _ => Err(Error::WrongFormat),
        }
    }
}

/// ALCD: alarm code byte.
///
/// Bit 8 set means the alarm is set, cleared means it is cleared; bits 7 to 1
/// give the alarm category.
#[derive(Debug, Clone, Copy, PartialEq, Eq, Structural)]
pub struct AlarmCode(pub u8);

impl DataItem for AlarmCode {
    open spec fn item_of(&self) -> ItemV {
        ItemV::Binary(seq![self.0])
    }

    open spec fn accepts(item: ItemV) -> bool {
        match item {
            ItemV::Binary(s) => s.len() == 1,
            _ => false,
        }
    }

    fn into_item(self) -> (r: Item) {
        Item::Binary(single(self.0))
    }

    fn try_from_item(item: Item) -> (r: Result<Self, Error>) {
        match item {
            Item::Binary(vec) => if vec.len() == 1 {
                let x = only(&vec);
                assert(seq![x] =~= vec@);
                Ok(AlarmCode(x))
            } else {
                Err(Error::WrongFormat)
            },
            _ => Err(Error::WrongFormat),
        }
    }
}

/// SFCD: status form code, 1 byte.
#[derive(Debug, Clone, Copy, PartialEq, Eq, Structural)]
pub struct StatusFormCode(pub u8);

impl DataItem for StatusFormCode {
    open spec fn item_of(&self) -> ItemV {
        ItemV::Binary(seq![self.0])
    }

    open spec fn accepts(item: ItemV) -> bool {
        match item {
            ItemV::Binary(s) => s.len() == 1,
            _ => false,
        }
    }

    fn into_item(self) -> (r: Item) {
        Item::Binary(single(self.0))
    }

    fn try_from_item(item: Item) -> (r: Result<Self, Error>) {
        match item {
            Item::Binary(vec) => if vec.len() == 1 {
                let x = only(&vec);
                assert(seq![x] =~= vec@);
                Ok(StatusFormCode(x))
            } else {
                Err(Error::WrongFormat)
            },
            _ => Err(Error::WrongFormat),
        }
    }
}

/// MDLN: equipment model type, ASCII, 20 bytes at most.
#[derive(Debug)]
pub struct ModelName(Vec<u8>);

impl ModelName {
    #[verifier::type_invariant]
    spec fn inv(&self) -> bool {
        self.0.len() <= 20 && all_ascii(self.0@)
    }

    /// The character codes of the text.
    pub closed spec fn chars(&self) -> Seq<u8> {
        self.0@
    }

    /// The text with these character codes, if there are at most 20 and
    /// all are ASCII.
    pub fn new(vec: Vec<u8>) -> (r: Option<Self>)
        ensures
            match r {
                Some(s) => vec.len() <= 20 && all_ascii(vec@) && s.chars() == vec@,
                None => !(vec.len() <= 20 && all_ascii(vec@)),
            },
    {
        assert(vec@.subrange(0, vec@.len() as int) =~= vec@);
        if vec.len() <= 20 && check_ascii(&vec, 0, vec.len()) {
            Some(ModelName(vec))
        } else {
            None
        }
    }
}

impl DataItem for ModelName {
    open spec fn item_of(&self) -> ItemV {
        ItemV::Ascii(self.chars())
    }

    open spec fn accepts(item: ItemV) -> bool {
        match item {
            ItemV::Ascii(s) => s.len() <= 20 && all_ascii(s),
            _ => false,
        }
    }

    fn into_item(self) -> (r: Item) {
        proof {
            use_type_invariant(&self);
        }
        Item::Ascii(self.0)
    }

    fn try_from_item(item: Item) -> (r: Result<Self, Error>) {
        match item {
            Item::Ascii(vec) => {
                assert(vec@.subrange(0, vec@.len() as int) =~= vec@);
                if vec.len() <= 20 && check_ascii(&vec, 0, vec.len()) {
                    Ok(ModelName(vec))
                } else {
                    Err(Error::WrongFormat)
                }
            },
            _ => Err(Error::WrongFormat),
        }
    }
}

/// SOFTREV: software revision code, ASCII, 20 bytes at most.
#[derive(Debug)]
pub struct SoftwareRevision(Vec<u8>);

impl SoftwareRevision {
    #[verifier::type_invariant]
    spec fn inv(&self) -> bool {
        self.0.len() <= 20 && all_ascii(self.0@)
    }

    /// The character codes of the text.
    pub closed spec fn chars(&self) -> Seq<u8> {
        self.0@
    }

    /// The text with these character codes, if there are at most 20 and
    /// all are ASCII.
    pub fn new(vec: Vec<u8>) -> (r: Option<Self>)
        ensures
            match r {
                Some(s) => vec.len() <= 20 && all_ascii(vec@) && s.chars() == vec@,
                None => !(vec.len() <= 20 && all_ascii(vec@)),
            },
    {
        assert(vec@.subrange(0, vec@.len() as int) =~= vec@);
        if vec.len() <= 20 && check_ascii(&vec, 0, vec.len()) {
            Some(SoftwareRevision(vec))
        } else {
            None
        }
    }
}

impl DataItem for SoftwareRevision {
    open spec fn item_of(&self) -> ItemV {
        ItemV::Ascii(self.chars())
    }

    open spec fn accepts(item: ItemV) -> bool {
        match item {
            ItemV::Ascii(s) => s.len() <= 20 && all_ascii(s),
            _ => false,
        }
    }

    fn into_item(self) -> (r: Item) {
        proof {
            use_type_invariant(&self);
        }
        Item::Ascii(self.0)
    }

    fn try_from_item(item: Item) -> (r: Result<Self, Error>) {
        match item {
            Item::Ascii(vec) => {
                assert(vec@.subrange(0, vec@.len() as int) =~= vec@);
                if vec.len() <= 20 && check_ascii(&vec, 0, vec.len()) {
                    Ok(SoftwareRevision(vec))
                } else {
                    Err(Error::WrongFormat)
                }
            },
            _ => Err(Error::WrongFormat),
        }
    }
}

/// SVNAME: status variable name, ASCII.
#[derive(Debug)]
pub struct StatusVariableName(pub Vec<u8>);

impl DataItem for StatusVariableName {
    open spec fn item_of(&self) -> ItemV {
        ItemV::Ascii(self.0@)
    }

    open spec fn accepts(item: ItemV) -> bool {
        item is Ascii
    }

    fn into_item(self) -> (r: Item) {
        Item::Ascii(self.0)
    }

    fn try_from_item(item: Item) -> (r: Result<Self, Error>) {
        match item {
            Item::Ascii(vec) => Ok(StatusVariableName(vec)),
            _ => Err(Error::WrongFormat),
        }
    }
}

/// UNITS: units identifier, ASCII.
#[derive(Debug)]
pub struct Units(pub Vec<u8>);

impl DataItem for Units {
    open spec fn item_of(&self) -> ItemV {
        ItemV::Ascii(self.0@)
    }

    open spec fn accepts(item: ItemV) -> bool {
        item is Ascii
    }

    fn into_item(self) -> (r: Item) {
        Item::Ascii(self.0)
    }

    fn try_from_item(item: Item) -> (r: Result<Self, Error>) {
        match item {
            Item::Ascii(vec) => Ok(Units(vec)),
            _ => Err(Error::WrongFormat),
        }
    }
}

/// COMMACK: establish communications acknowledge code, 1 byte.
#[derive(Debug, Clone, Copy, PartialEq, Eq, Structural)]
pub enum CommAck {
    Accepted,
    Denied,
}

impl CommAck {
    /// The code of the value.
    pub open spec fn spec_code(self) -> u8 {
        match self {
            CommAck::Accepted => 0,
            CommAck::Denied => 1,
        }
    }

    /// Whether `x` is the code of a value.
    pub open spec fn is_code(x: u8) -> bool {
        x == 0 || x == 1
    }

    /// The code of the value.
    pub fn code(self) -> (r: u8)
        ensures
            r == self.spec_code(),
    {
        match self {
            CommAck::Accepted => 0,
            CommAck::Denied => 1,
        }
    }

    /// The value with code `x`, if there is one.
    pub fn from_code(x: u8) -> (r: Option<Self>)
        ensures
            match r {
                Some(v) => Self::is_code(x) && v.spec_code() == x,
                None => !Self::is_code(x),
            },
    {
        if x == 0 {
            Some(CommAck::Accepted)
        } else if x == 1 {
            Some(CommAck::Denied)
        } else {
            None
        }
    }
}

impl DataItem for CommAck {
    open spec fn item_of(&self) -> ItemV {
        ItemV::Binary(seq![self.spec_code()])
    }

    open spec fn accepts(item: ItemV) -> bool {
        match item {
            ItemV::Binary(s) => s.len() == 1 && Self::is_code(s[0]),
            _ => false,
        }
    }

    fn into_item(self) -> (r: Item) {
        Item::Binary(single(self.code()))
    }

    fn try_from_item(item: Item) -> (r: Result<Self, Error>) {
        match item {
            Item::Binary(vec) => if vec.len() == 1 {
                let x = only(&vec);
                match Self::from_code(x) {
                    Some(v) => {
                        assert(seq![x] =~= vec@);
                        Ok(v)
                    },
                    None => Err(Error::WrongFormat),
                }
            } else {
                Err(Error::WrongFormat)
            },
            _ => Err(Error::WrongFormat),
        }
    }
}

/// OFLACK: acknowledge code for an OFF-LINE request.
#[derive(Debug, Clone, Copy, PartialEq, Eq, Structural)]
pub enum OffLineAcknowledge {
    Acknowledge,
}

impl OffLineAcknowledge {
    /// The code of the value.
    pub open spec fn spec_code(self) -> u8 {
        match self {
            OffLineAcknowledge::Acknowledge => 0,
        }
    }

    /// Whether `x` is the code of a value.
    pub open spec fn is_code(x: u8) -> bool {
        x == 0
    }

    /// The code of the value.
    pub fn code(self) -> (r: u8)
        ensures
            r == self.spec_code(),
    {
        match self {
            OffLineAcknowledge::Acknowledge => 0,
        }
    }

    /// The value with code `x`, if there is one.
    pub fn from_code(x: u8) -> (r: Option<Self>)
        ensures
            match r {
                Some(v) => Self::is_code(x) && v.spec_code() == x,
                None => !Self::is_code(x),
            },
    {
        if x == 0 {
            Some(OffLineAcknowledge::Acknowledge)
        } else {
            None
        }
    }
}

impl DataItem for OffLineAcknowledge {
    open spec fn item_of(&self) -> ItemV {
        ItemV::Binary(seq![self.spec_code()])
    }

    open spec fn accepts(item: ItemV) -> bool {
        match item {
            ItemV::Binary(s) => s.len() == 1 && Self::is_code(s[0]),
            _ => false,
        }
    }

    fn into_item(self) -> (r: Item) {
        Item::Binary(single(self.code()))
    }

    fn try_from_item(item: Item) -> (r: Result<Self, Error>) {
        match item {
            Item::Binary(vec) => if vec.len() == 1 {
                let x = only(&vec);
                match Self::from_code(x) {
                    Some(v) => {
                        assert(seq![x] =~= vec@);
                        Ok(v)
                    },
                    None => Err(Error::WrongFormat),
                }
            } else {
                Err(Error::WrongFormat)
            },
            _ => Err(Error::WrongFormat),
        }
    }
}

/// ONLACK: acknowledge code for an ON-LINE request.
#[derive(Debug, Clone, Copy, PartialEq, Eq, Structural)]
pub enum OnLineAcknowledge {
    Accepted,
    NotAllowed,
    AlreadyOnLine,
}

impl OnLineAcknowledge {
    /// The code of the value.
    pub open spec fn spec_code(self) -> u8 {
        match self {
            OnLineAcknowledge::Accepted => 0,
            OnLineAcknowledge::NotAllowed => 1,
            OnLineAcknowledge::AlreadyOnLine => 2,
        }
    }

    /// Whether `x` is the code of a value.
    pub open spec fn is_code(x: u8) -> bool {
        x == 0 || x == 1 || x == 2
    }

    /// The code of the value.
    pub fn code(self) -> (r: u8)
        ensures
            r == self.spec_code(),
    {
        match self {
            OnLineAcknowledge::Accepted => 0,
            OnLineAcknowledge::NotAllowed => 1,
            OnLineAcknowledge::AlreadyOnLine => 2,
        }
    }

    /// The value with code `x`, if there is one.
    pub fn from_code(x: u8) -> (r: Option<Self>)
        ensures
            match r {
                Some(v) => Self::is_code(x) && v.spec_code() == x,
                None => !Self::is_code(x),
            },
    {
        if x == 0 {
            Some(OnLineAcknowledge::Accepted)
        } else if x == 1 {
            Some(OnLineAcknowledge::NotAllowed)
        } else if x == 2 {
            Some(OnLineAcknowledge::AlreadyOnLine)
        } else {
            None
        }
    }
}

impl DataItem for OnLineAcknowledge {
    open spec fn item_of(&self) -> ItemV {
        ItemV::Binary(seq![self.spec_code()])
    }

    open spec fn accepts(item: ItemV) -> bool {
        match item {
            ItemV::Binary(s) => s.len() == 1 && Self::is_code(s[0]),
            _ => false,
        }
    }

    fn into_item(self) -> (r: Item) {
        Item::Binary(single(self.code()))
    }

    fn try_from_item(item: Item) -> (r: Result<Self, Error>) {
        match item {
            Item::Binary(vec) => if vec.len() == 1 {
                let x = only(&vec);
                match Self::from_code(x) {
                    Some(v) => {
                        assert(seq![x] =~= vec@);
                        Ok(v)
                    },
                    None => Err(Error::WrongFormat),
                }
            } else {
                Err(Error::WrongFormat)
            },
            _ => Err(Error::WrongFormat),
        }
    }
}

/// TSIP: transfer status of an input port, 1 byte.
#[derive(Debug, Clone, Copy, PartialEq, Eq, Structural)]
pub enum TransferStatusInputPort {
    Idle,
    Prep,
    TrackOn,
    StuckInReceiver,
}

impl TransferStatusInputPort {
    /// The code of the value.
    pub open spec fn spec_code(self) -> u8 {
        match self {
            TransferStatusInputPort::Idle => 1,
            TransferStatusInputPort::Prep => 2,
            TransferStatusInputPort::TrackOn => 3,
            TransferStatusInputPort::StuckInReceiver => 4,
        }
    }

    /// Whether `x` is the code of a value.
    pub open spec fn is_code(x: u8) -> bool {
        x == 1 || x == 2 || x == 3 || x == 4
    }

    /// The code of the value.
    pub fn code(self) -> (r: u8)
        ensures
            r == self.spec_code(),
    {
        match self {
            TransferStatusInputPort::Idle => 1,
            TransferStatusInputPort::Prep => 2,
            TransferStatusInputPort::TrackOn => 3,
            TransferStatusInputPort::StuckInReceiver => 4,
        }
    }

    /// The value with code `x`, if there is one.
    pub fn from_code(x: u8) -> (r: Option<Self>)
        ensures
            match r {
                Some(v) => Self::is_code(x) && v.spec_code() == x,
                None => !Self::is_code(x),
            },
    {
        if x == 1 {
            Some(TransferStatusInputPort::Idle)
        } else if x == 2 {
            Some(TransferStatusInputPort::Prep)
        } else if x == 3 {
            Some(TransferStatusInputPort::TrackOn)
        } else if x == 4 {
            Some(TransferStatusInputPort::StuckInReceiver)
        } else {
            None
        }
    }
}

impl DataItem for TransferStatusInputPort {
    open spec fn item_of(&self) -> ItemV {
        ItemV::Binary(seq![self.spec_code()])
    }

    open spec fn accepts(item: ItemV) -> bool {
        match item {
            ItemV::Binary(s) => s.len() == 1 && Self::is_code(s[0]),
            _ => false,
        }
    }

    fn into_item(self) -> (r: Item) {
        Item::Binary(single(self.code()))
    }

    fn try_from_item(item: Item) -> (r: Result<Self, Error>) {
        match item {
            Item::Binary(vec) => if vec.len() == 1 {
                let x = only(&vec);
                match Self::from_code(x) {
                    Some(v) => {
                        assert(seq![x] =~= vec@);
                        Ok(v)
                    },
                    None => Err(Error::WrongFormat),
                }
            } else {
                Err(Error::WrongFormat)
            },
            _ => Err(Error::WrongFormat),
        }
    }
}

/// TSOP: transfer status of an output port, 1 byte.
#[derive(Debug, Clone, Copy, PartialEq, Eq, Structural)]
pub enum TransferStatusOutputPort {
    Idle,
    Prep,
    TrackOn,
    StuckInSender,
    Completed,
}

impl TransferStatusOutputPort {
    /// The code of the value.
    pub open spec fn spec_code(self) -> u8 {
        match self {
            TransferStatusOutputPort::Idle => 1,
            TransferStatusOutputPort::Prep => 2,
            TransferStatusOutputPort::TrackOn => 3,
            TransferStatusOutputPort::StuckInSender => 4,
            TransferStatusOutputPort::Completed => 5,
        }
    }

    /// Whether `x` is the code of a value.
    pub open spec fn is_code(x: u8) -> bool {
        x == 1 || x == 2 || x == 3 || x == 4 || x == 5
    }

    /// The code of the value.
    pub fn code(self) -> (r: u8)
        ensures
            r == self.spec_code(),
    {
        match self {
            TransferStatusOutputPort::Idle => 1,
            TransferStatusOutputPort::Prep => 2,
            TransferStatusOutputPort::TrackOn => 3,
            TransferStatusOutputPort::StuckInSender => 4,
            TransferStatusOutputPort::Completed => 5,
        }
    }

    /// The value with code `x`, if there is one.
    pub fn from_code(x: u8) -> (r: Option<Self>)
        ensures
            match r {
                Some(v) => Self::is_code(x) && v.spec_code() == x,
                None => !Self::is_code(x),
            },
    {
        if x == 1 {
            Some(TransferStatusOutputPort::Idle)
        } else if x == 2 {
            Some(TransferStatusOutputPort::Prep)
        } else if x == 3 {
            Some(TransferStatusOutputPort::TrackOn)
        } else if x == 4 {
            Some(TransferStatusOutputPort::StuckInSender)
        } else if x == 5 {
            Some(TransferStatusOutputPort::Completed)
        } else {
            None
        }
    }
}

impl DataItem for TransferStatusOutputPort {
    open spec fn item_of(&self) -> ItemV {
        ItemV::Binary(seq![self.spec_code()])
    }

    open spec fn accepts(item: ItemV) -> bool {
        match item {
            ItemV::Binary(s) => s.len() == 1 && Self::is_code(s[0]),
            _ => false,
        }
    }

    fn into_item(self) -> (r: Item) {
        Item::Binary(single(self.code()))
    }

    fn try_from_item(item: Item) -> (r: Result<Self, Error>) {
        match item {
            Item::Binary(vec) => if vec.len() == 1 {
                let x = only(&vec);
                match Self::from_code(x) {
                    Some(v) => {
                        assert(seq![x] =~= vec@);
                        Ok(v)
                    },
                    None => Err(Error::WrongFormat),
                }
            } else {
                Err(Error::WrongFormat)
            },
            _ => Err(Error::WrongFormat),
        }
    }
}

/// SV: status variable value, in any item format but localized string.
///
/// The floating-point variants hold IEEE-754 bit patterns.
#[derive(Debug)]
pub enum StatusVariableValue {
    List(Vec<Item>),
    Binary(Vec<u8>),
    Boolean(Vec<bool>),
    Ascii(Vec<u8>),
    Jis8(Vec<u8>),
    Signed1(Vec<i8>),
    Signed2(Vec<i16>),
    Signed4(Vec<i32>),
    Signed8(Vec<i64>),
    Unsigned1(Vec<u8>),
    Unsigned2(Vec<u16>),
    Unsigned4(Vec<u32>),
    Unsigned8(Vec<u64>),
    Float4(Vec<u32>),
    Float8(Vec<u64>),
}

impl DataItem for StatusVariableValue {
    open spec fn item_of(&self) -> ItemV {
        match self {
            StatusVariableValue::List(vec) => ItemV::List(items_view(vec@)),
            StatusVariableValue::Binary(vec) => ItemV::Binary(vec@),
            StatusVariableValue::Boolean(vec) => ItemV::Boolean(vec@),
            StatusVariableValue::Ascii(vec) => ItemV::Ascii(vec@),
            StatusVariableValue::Jis8(vec) => ItemV::Jis8(vec@),
            StatusVariableValue::Signed1(vec) => ItemV::Signed1(vec@),
            StatusVariableValue::Signed2(vec) => ItemV::Signed2(vec@),
            StatusVariableValue::Signed4(vec) => ItemV::Signed4(vec@),
            StatusVariableValue::Signed8(vec) => ItemV::Signed8(vec@),
            StatusVariableValue::Unsigned1(vec) => ItemV::Unsigned1(vec@),
            StatusVariableValue::Unsigned2(vec) => ItemV::Unsigned2(vec@),
            StatusVariableValue::Unsigned4(vec) => ItemV::Unsigned4(vec@),
            StatusVariableValue::Unsigned8(vec) => ItemV::Unsigned8(vec@),
            StatusVariableValue::Float4(vec) => ItemV::Float4(vec@),
            StatusVariableValue::Float8(vec) => ItemV::Float8(vec@),
        }
    }

    open spec fn accepts(item: ItemV) -> bool {
        !(item is Localized)
    }

    fn into_item(self) -> (r: Item) {
        match self {
            StatusVariableValue::List(vec) => Item::List(vec),
            StatusVariableValue::Binary(vec) => Item::Binary(vec),
            StatusVariableValue::Boolean(vec) => Item::Boolean(vec),
            StatusVariableValue::Ascii(vec) => Item::Ascii(vec),
            StatusVariableValue::Jis8(vec) => Item::Jis8(vec),
            StatusVariableValue::Signed1(vec) => Item::Signed1(vec),
            StatusVariableValue::Signed2(vec) => Item::Signed2(vec),
            StatusVariableValue::Signed4(vec) => Item::Signed4(vec),
            StatusVariableValue::Signed8(vec) => Item::Signed8(vec),
            StatusVariableValue::Unsigned1(vec) => Item::Unsigned1(vec),
            StatusVariableValue::Unsigned2(vec) => Item::Unsigned2(vec),
            StatusVariableValue::Unsigned4(vec) => Item::Unsigned4(vec),
            StatusVariableValue::Unsigned8(vec) => Item::Unsigned8(vec),
            StatusVariableValue::Float4(vec) => Item::Float4(vec),
            StatusVariableValue::Float8(vec) => Item::Float8(vec),
        }
    }

    fn try_from_item(item: Item) -> (r: Result<Self, Error>) {
        match item {
            Item::List(vec) => Ok(StatusVariableValue::List(vec)),
            Item::Binary(vec) => Ok(StatusVariableValue::Binary(vec)),
            Item::Boolean(vec) => Ok(StatusVariableValue::Boolean(vec)),
            Item::Ascii(vec) => Ok(StatusVariableValue::Ascii(vec)),
            Item::Jis8(vec) => Ok(StatusVariableValue::Jis8(vec)),
            Item::Signed1(vec) => Ok(StatusVariableValue::Signed1(vec)),
            Item::Signed2(vec) => Ok(StatusVariableValue::Signed2(vec)),
            Item::Signed4(vec) => Ok(StatusVariableValue::Signed4(vec)),
            Item::Signed8(vec) => Ok(StatusVariableValue::Signed8(vec)),
            Item::Unsigned1(vec) => Ok(StatusVariableValue::Unsigned1(vec)),
            Item::Unsigned2(vec) => Ok(StatusVariableValue::Unsigned2(vec)),
            Item::Unsigned4(vec) => Ok(StatusVariableValue::Unsigned4(vec)),
            Item::Unsigned8(vec) => Ok(StatusVariableValue::Unsigned8(vec)),
            Item::Float4(vec) => Ok(StatusVariableValue::Float4(vec)),
            Item::Float8(vec) => Ok(StatusVariableValue::Float8(vec)),
            Item::Localized(_, _) => Err(Error::WrongFormat),
        }
    }
}

/// SVID: status variable identifier, a single binary or integer value.
#[derive(Debug, Clone, Copy, PartialEq, Eq, Structural)]
pub enum StatusVariableID {
    Binary(u8),
    Signed1(i8),
    Signed2(i16),
    Signed4(i32),
    Signed8(i64),
    Unsigned1(u8),
    Unsigned2(u16),
    Unsigned4(u32),
    Unsigned8(u64),
}

impl DataItem for StatusVariableID {
    open spec fn item_of(&self) -> ItemV {
        match self {
            StatusVariableID::Binary(x) => ItemV::Binary(seq![*x]),
            StatusVariableID::Signed1(x) => ItemV::Signed1(seq![*x]),
            StatusVariableID::Signed2(x) => ItemV::Signed2(seq![*x]),
            StatusVariableID::Signed4(x) => ItemV::Signed4(seq![*x]),
            StatusVariableID::Signed8(x) => ItemV::Signed8(seq![*x]),
            StatusVariableID::Unsigned1(x) => ItemV::Unsigned1(seq![*x]),
            StatusVariableID::Unsigned2(x) => ItemV::Unsigned2(seq![*x]),
            StatusVariableID::Unsigned4(x) => ItemV::Unsigned4(seq![*x]),
            StatusVariableID::Unsigned8(x) => ItemV::Unsigned8(seq![*x]),
        }
    }

    open spec fn accepts(item: ItemV) -> bool {
        match item {
            ItemV::Binary(s) => s.len() == 1,
            ItemV::Signed1(s) => s.len() == 1,
            ItemV::Signed2(s) => s.len() == 1,
            ItemV::Signed4(s) => s.len() == 1,
            ItemV::Signed8(s) => s.len() == 1,
            ItemV::Unsigned1(s) => s.len() == 1,
            ItemV::Unsigned2(s) => s.len() == 1,
            ItemV::Unsigned4(s) => s.len() == 1,
            ItemV::Unsigned8(s) => s.len() == 1,
            _ => false,
        }
    }

    fn into_item(self) -> (r: Item) {
        match self {
            StatusVariableID::Binary(x) => Item::Binary(single(x)),
            StatusVariableID::Signed1(x) => Item::Signed1(single(x)),
            StatusVariableID::Signed2(x) => Item::Signed2(single(x)),
            StatusVariableID::Signed4(x) => Item::Signed4(single(x)),
            StatusVariableID::Signed8(x) => Item::Signed8(single(x)),
            StatusVariableID::Unsigned1(x) => Item::Unsigned1(single(x)),
            StatusVariableID::Unsigned2(x) => Item::Unsigned2(single(x)),
            StatusVariableID::Unsigned4(x) => Item::Unsigned4(single(x)),
            StatusVariableID::Unsigned8(x) => Item::Unsigned8(single(x)),
        }
    }

    fn try_from_item(item: Item) -> (r: Result<Self, Error>) {
        match item {
            Item::Binary(vec) => if vec.len() == 1 {
                let x = only(&vec);
                assert(seq![x] =~= vec@);
                Ok(StatusVariableID::Binary(x))
            } else {
                Err(Error::WrongFormat)
            },
            Item::Signed1(vec) => if vec.len() == 1 {
                let x = only(&vec);
                assert(seq![x] =~= vec@);
                Ok(StatusVariableID::Signed1(x))
            } else {
                Err(Error::WrongFormat)
            },
            Item::Signed2(vec) => if vec.len() == 1 {
                let x = only(&vec);
                assert(seq![x] =~= vec@);
                Ok(StatusVariableID::Signed2(x))
            } else {
                Err(Error::WrongFormat)
            },
            Item::Signed4(vec) => if vec.len() == 1 {
                let x = only(&vec);
                assert(seq![x] =~= vec@);
                Ok(StatusVariableID::Signed4(x))
            } else {
                Err(Error::WrongFormat)
            },
            Item::Signed8(vec) => if vec.len() == 1 {
                let x = only(&vec);
                assert(seq![x] =~= vec@);
                Ok(StatusVariableID::Signed8(x))
            } else {
                Err(Error::WrongFormat)
            },
            Item::Unsigned1(vec) => if vec.len() == 1 {
                let x = only(&vec);
                assert(seq![x] =~= vec@);
                Ok(StatusVariableID::Unsigned1(x))
            } else {
                Err(Error::WrongFormat)
            },
            Item::Unsigned2(vec) => if vec.len() == 1 {
                let x = only(&vec);
                assert(seq![x] =~= vec@);
                Ok(StatusVariableID::Unsigned2(x))
            } else {
                Err(Error::WrongFormat)
            },
            Item::Unsigned4(vec) => if vec.len() == 1 {
                let x = only(&vec);
                assert(seq![x] =~= vec@);
                Ok(StatusVariableID::Unsigned4(x))
            } else {
                Err(Error::WrongFormat)
            },
            Item::Unsigned8(vec) => if vec.len() == 1 {
                let x = only(&vec);
                assert(seq![x] =~= vec@);
                Ok(StatusVariableID::Unsigned8(x))
            } else {
                Err(Error::WrongFormat)
            },
            _ => Err(Error::WrongFormat),
        }
    }
}

/// ERRCODE: code identifying an error; its numeric value is given by
/// [ErrorCode::code].
#[derive(Debug, Clone, Copy, PartialEq, Eq, Structural)]
pub enum ErrorCode {
    NoError,
    UnknownObjectInObjectSpecifier,
    UnknownTargetObjectType,
    UnknownObjectInstance,
    UnknownAttributeName,
    ReadonlyAttributeAccessDenied,
    UnknownObjectType,
    InvalidAttributeValue,
    SyntaxError,
    VerificationError,
    ValidationError,
    ObjectIdentifierInUse,
    ParametersImproperlySpecified,
    InsufficientParametersSpecified,
    UnsupportedOptionRequested,
    Busy,
    NotAvailableForProcessing,
    CommandNotValidForCurrentState,
    NoMaterialAltered,
    MaterialPartiallyProcessed,
    AllMaterialProcessed,
    RecipeSpecificationError,
    FailedDuringProcessing,
    FailedWhileNotProcessing,
    FailedDueToLackOfMaterial,
    JobAborted,
    JobStopped,
    JobCancelled,
    CannotChangeSelectedRecipe,
    UnknownEvent,
    DuplicateReportID,
    UnknownDataReport,
    DataReportNotLinked,
    UnknownTraceReport,
    DuplicateTraceID,
    TooManyDataReports,
    SamplePeriodOutOfRange,
    GroupSizeTooLarge,
    RecoveryActionCurrentlyInvalid,
    BusyWithAnotherRecovery,
    NoActiveRecoveryAction,
    ExceptionRecoveryFailed,
    ExceptionRecoveryAborted,
    InvalidTableElement,
    UnknownTableElement,
    CannotDeletePredefined,
    InvalidToken,
    InvalidParameter,
    LoadPortDoesNotExist,
    LoadPortAlreadyInUse,
    MissingCarrier,
    ActionWillBePerformed,
    ActionCannotBePerformedNow,
    ActionFailedDueToErrors,
    InvalidCommand,
    ClientAlr,
    DuplicateClientID,
    InvalidClientType,
    IncompatibleVersions,
    UnrecognizedClientID,
    FailedCompletedUnsuccessfully,
    FailedUnsafe,
    SensorDetectedObstacle,
    MaterialNotSent,
    MaterialNotReceived,
    MaterialLost,
    HardwareFailure,
    TransferCancelled,
}

impl ErrorCode {
    /// The numeric code of the error.
    pub open spec fn spec_code(self) -> u32 {
        match self {
            ErrorCode::NoError => 0,
            ErrorCode::UnknownObjectInObjectSpecifier => 1,
            ErrorCode::UnknownTargetObjectType => 2,
            ErrorCode::UnknownObjectInstance => 3,
            ErrorCode::UnknownAttributeName => 4,
            ErrorCode::ReadonlyAttributeAccessDenied => 5,
            ErrorCode::UnknownObjectType => 6,
            ErrorCode::InvalidAttributeValue => 7,
            ErrorCode::SyntaxError => 8,
            ErrorCode::VerificationError => 9,
            ErrorCode::ValidationError => 10,
            ErrorCode::ObjectIdentifierInUse => 11,
            ErrorCode::ParametersImproperlySpecified => 12,
            ErrorCode::InsufficientParametersSpecified => 13,
            ErrorCode::UnsupportedOptionRequested => 14,
            ErrorCode::Busy => 15,
            ErrorCode::NotAvailableForProcessing => 16,
            ErrorCode::CommandNotValidForCurrentState => 17,
            ErrorCode::NoMaterialAltered => 18,
            ErrorCode::MaterialPartiallyProcessed => 19,
            ErrorCode::AllMaterialProcessed => 20,
            ErrorCode::RecipeSpecificationError => 21,
            ErrorCode::FailedDuringProcessing => 22,
            ErrorCode::FailedWhileNotProcessing => 23,
            ErrorCode::FailedDueToLackOfMaterial => 24,
            ErrorCode::JobAborted => 25,
            ErrorCode::JobStopped => 26,
            ErrorCode::JobCancelled => 27,
            ErrorCode::CannotChangeSelectedRecipe => 28,
            ErrorCode::UnknownEvent => 29,
            ErrorCode::DuplicateReportID => 30,
            ErrorCode::UnknownDataReport => 31,
            ErrorCode::DataReportNotLinked => 32,
            ErrorCode::UnknownTraceReport => 33,
            ErrorCode::DuplicateTraceID => 34,
            ErrorCode::TooManyDataReports => 35,
            ErrorCode::SamplePeriodOutOfRange => 36,
            ErrorCode::GroupSizeTooLarge => 37,
            ErrorCode::RecoveryActionCurrentlyInvalid => 38,
            ErrorCode::BusyWithAnotherRecovery => 39,
            ErrorCode::NoActiveRecoveryAction => 40,
            ErrorCode::ExceptionRecoveryFailed => 41,
            ErrorCode::ExceptionRecoveryAborted => 42,
            ErrorCode::InvalidTableElement => 43,
            ErrorCode::UnknownTableElement => 44,
            ErrorCode::CannotDeletePredefined => 45,
            ErrorCode::InvalidToken => 46,
            ErrorCode::InvalidParameter => 47,
            ErrorCode::LoadPortDoesNotExist => 48,
            ErrorCode::LoadPortAlreadyInUse => 49,
            ErrorCode::MissingCarrier => 50,
            ErrorCode::ActionWillBePerformed => 32768,
            ErrorCode::ActionCannotBePerformedNow => 32769,
            ErrorCode::ActionFailedDueToErrors => 32770,
            ErrorCode::InvalidCommand => 32771,
            ErrorCode::ClientAlr => 32772,
            ErrorCode::DuplicateClientID => 32773,
            ErrorCode::InvalidClientType => 32774,
            ErrorCode::IncompatibleVersions => 32775,
            ErrorCode::UnrecognizedClientID => 32776,
            ErrorCode::FailedCompletedUnsuccessfully => 32777,
            ErrorCode::FailedUnsafe => 32778,
            ErrorCode::SensorDetectedObstacle => 32779,
            ErrorCode::MaterialNotSent => 32780,
            ErrorCode::MaterialNotReceived => 32781,
            ErrorCode::MaterialLost => 32782,
            ErrorCode::HardwareFailure => 32783,
            ErrorCode::TransferCancelled => 32784,
        }
    }

    /// The numeric code of the error.
    pub fn code(self) -> (r: u32)
        ensures
            r == self.spec_code(),
    {
        match self {
            ErrorCode::NoError => 0,
            ErrorCode::UnknownObjectInObjectSpecifier => 1,
            ErrorCode::UnknownTargetObjectType => 2,
            ErrorCode::UnknownObjectInstance => 3,
            ErrorCode::UnknownAttributeName => 4,
            ErrorCode::ReadonlyAttributeAccessDenied => 5,
            ErrorCode::UnknownObjectType => 6,
            ErrorCode::InvalidAttributeValue => 7,
            ErrorCode::SyntaxError => 8,
            ErrorCode::VerificationError => 9,
            ErrorCode::ValidationError => 10,
            ErrorCode::ObjectIdentifierInUse => 11,
            ErrorCode::ParametersImproperlySpecified => 12,
            ErrorCode::InsufficientParametersSpecified => 13,
            ErrorCode::UnsupportedOptionRequested => 14,
            ErrorCode::Busy => 15,
            ErrorCode::NotAvailableForProcessing => 16,
            ErrorCode::CommandNotValidForCurrentState => 17,
            ErrorCode::NoMaterialAltered => 18,
            ErrorCode::MaterialPartiallyProcessed => 19,
            ErrorCode::AllMaterialProcessed => 20,
            ErrorCode::RecipeSpecificationError => 21,
            ErrorCode::FailedDuringProcessing => 22,
            ErrorCode::FailedWhileNotProcessing => 23,
            ErrorCode::FailedDueToLackOfMaterial => 24,
            ErrorCode::JobAborted => 25,
            ErrorCode::JobStopped => 26,
            ErrorCode::JobCancelled => 27,
            ErrorCode::CannotChangeSelectedRecipe => 28,
            ErrorCode::UnknownEvent => 29,
            ErrorCode::DuplicateReportID => 30,
            ErrorCode::UnknownDataReport => 31,
            ErrorCode::DataReportNotLinked => 32,
            ErrorCode::UnknownTraceReport => 33,
            ErrorCode::DuplicateTraceID => 34,
            ErrorCode::TooManyDataReports => 35,
            ErrorCode::SamplePeriodOutOfRange => 36,
            ErrorCode::GroupSizeTooLarge => 37,
            ErrorCode::RecoveryActionCurrentlyInvalid => 38,
            ErrorCode::BusyWithAnotherRecovery => 39,
            ErrorCode::NoActiveRecoveryAction => 40,
            ErrorCode::ExceptionRecoveryFailed => 41,
            ErrorCode::ExceptionRecoveryAborted => 42,
            ErrorCode::InvalidTableElement => 43,
            ErrorCode::UnknownTableElement => 44,
            ErrorCode::CannotDeletePredefined => 45,
            ErrorCode::InvalidToken => 46,
            ErrorCode::InvalidParameter => 47,
            ErrorCode::LoadPortDoesNotExist => 48,
            ErrorCode::LoadPortAlreadyInUse => 49,
            ErrorCode::MissingCarrier => 50,
            ErrorCode::ActionWillBePerformed => 32768,
            ErrorCode::ActionCannotBePerformedNow => 32769,
            ErrorCode::ActionFailedDueToErrors => 32770,
            ErrorCode::InvalidCommand => 32771,
            ErrorCode::ClientAlr => 32772,
            ErrorCode::DuplicateClientID => 32773,
            ErrorCode::InvalidClientType => 32774,
            ErrorCode::IncompatibleVersions => 32775,
            ErrorCode::UnrecognizedClientID => 32776,
            ErrorCode::FailedCompletedUnsuccessfully => 32777,
            ErrorCode::FailedUnsafe => 32778,
            ErrorCode::SensorDetectedObstacle => 32779,
            ErrorCode::MaterialNotSent => 32780,
            ErrorCode::MaterialNotReceived => 32781,
            ErrorCode::MaterialLost => 32782,
            ErrorCode::HardwareFailure => 32783,
            ErrorCode::TransferCancelled => 32784,
        }
    }
}

/// The codes of the enumerated data items (SEMI E5 section 9.6), and the
/// codes that name a value.
pub proof fn lemma_codes()
    ensures
        CommAck::Accepted.spec_code() == 0,
        CommAck::Denied.spec_code() == 1,
        forall|x: u8| CommAck::is_code(x) <==> (x == 0 || x == 1),
        OffLineAcknowledge::Acknowledge.spec_code() == 0,
        forall|x: u8| OffLineAcknowledge::is_code(x) <==> (x == 0),
        OnLineAcknowledge::Accepted.spec_code() == 0,
        OnLineAcknowledge::NotAllowed.spec_code() == 1,
        OnLineAcknowledge::AlreadyOnLine.spec_code() == 2,
        forall|x: u8| OnLineAcknowledge::is_code(x) <==> (x == 0 || x == 1 || x == 2),
        TransferStatusInputPort::Idle.spec_code() == 1,
        TransferStatusInputPort::Prep.spec_code() == 2,
        TransferStatusInputPort::TrackOn.spec_code() == 3,
        TransferStatusInputPort::StuckInReceiver.spec_code() == 4,
        forall|x: u8| TransferStatusInputPort::is_code(x) <==> (x == 1 || x == 2 || x == 3 || x == 4),
        TransferStatusOutputPort::Idle.spec_code() == 1,
        TransferStatusOutputPort::Prep.spec_code() == 2,
        TransferStatusOutputPort::TrackOn.spec_code() == 3,
        TransferStatusOutputPort::StuckInSender.spec_code() == 4,
        TransferStatusOutputPort::Completed.spec_code() == 5,
        forall|x: u8| TransferStatusOutputPort::is_code(x) <==> (x == 1 || x == 2 || x == 3 || x == 4 || x == 5),
        ErrorCode::NoError.spec_code() == 0,
        ErrorCode::UnknownObjectInObjectSpecifier.spec_code() == 1,
        ErrorCode::UnknownTargetObjectType.spec_code() == 2,
        ErrorCode::UnknownObjectInstance.spec_code() == 3,
        ErrorCode::UnknownAttributeName.spec_code() == 4,
        ErrorCode::ReadonlyAttributeAccessDenied.spec_code() == 5,
        ErrorCode::UnknownObjectType.spec_code() == 6,
        ErrorCode::InvalidAttributeValue.spec_code() == 7,
        ErrorCode::SyntaxError.spec_code() == 8,
        ErrorCode::VerificationError.spec_code() == 9,
        ErrorCode::ValidationError.spec_code() == 10,
        ErrorCode::ObjectIdentifierInUse.spec_code() == 11,
        ErrorCode::ParametersImproperlySpecified.spec_code() == 12,
        ErrorCode::InsufficientParametersSpecified.spec_code() == 13,
        ErrorCode::UnsupportedOptionRequested.spec_code() == 14,
        ErrorCode::Busy.spec_code() == 15,
        ErrorCode::NotAvailableForProcessing.spec_code() == 16,
        ErrorCode::CommandNotValidForCurrentState.spec_code() == 17,
        ErrorCode::NoMaterialAltered.spec_code() == 18,
        ErrorCode::MaterialPartiallyProcessed.spec_code() == 19,
        ErrorCode::AllMaterialProcessed.spec_code() == 20,
        ErrorCode::RecipeSpecificationError.spec_code() == 21,
        ErrorCode::FailedDuringProcessing.spec_code() == 22,
        ErrorCode::FailedWhileNotProcessing.spec_code() == 23,
        ErrorCode::FailedDueToLackOfMaterial.spec_code() == 24,
        ErrorCode::JobAborted.spec_code() == 25,
        ErrorCode::JobStopped.spec_code() == 26,
        ErrorCode::JobCancelled.spec_code() == 27,
        ErrorCode::CannotChangeSelectedRecipe.spec_code() == 28,
        ErrorCode::UnknownEvent.spec_code() == 29,
        ErrorCode::DuplicateReportID.spec_code() == 30,
        ErrorCode::UnknownDataReport.spec_code() == 31,
        ErrorCode::DataReportNotLinked.spec_code() == 32,
        ErrorCode::UnknownTraceReport.spec_code() == 33,
        ErrorCode::DuplicateTraceID.spec_code() == 34,
        ErrorCode::TooManyDataReports.spec_code() == 35,
        ErrorCode::SamplePeriodOutOfRange.spec_code() == 36,
        ErrorCode::GroupSizeTooLarge.spec_code() == 37,
        ErrorCode::RecoveryActionCurrentlyInvalid.spec_code() == 38,
        ErrorCode::BusyWithAnotherRecovery.spec_code() == 39,
        ErrorCode::NoActiveRecoveryAction.spec_code() == 40,
        ErrorCode::ExceptionRecoveryFailed.spec_code() == 41,
        ErrorCode::ExceptionRecoveryAborted.spec_code() == 42,
        ErrorCode::InvalidTableElement.spec_code() == 43,
        ErrorCode::UnknownTableElement.spec_code() == 44,
        ErrorCode::CannotDeletePredefined.spec_code() == 45,
        ErrorCode::InvalidToken.spec_code() == 46,
        ErrorCode::InvalidParameter.spec_code() == 47,
        ErrorCode::LoadPortDoesNotExist.spec_code() == 48,
        ErrorCode::LoadPortAlreadyInUse.spec_code() == 49,
        ErrorCode::MissingCarrier.spec_code() == 50,
        ErrorCode::ActionWillBePerformed.spec_code() == 32768,
        ErrorCode::ActionCannotBePerformedNow.spec_code() == 32769,
        ErrorCode::ActionFailedDueToErrors.spec_code() == 32770,
        ErrorCode::InvalidCommand.spec_code() == 32771,
        ErrorCode::ClientAlr.spec_code() == 32772,
        ErrorCode::DuplicateClientID.spec_code() == 32773,
        ErrorCode::InvalidClientType.spec_code() == 32774,
        ErrorCode::IncompatibleVersions.spec_code() == 32775,
        ErrorCode::UnrecognizedClientID.spec_code() == 32776,
        ErrorCode::FailedCompletedUnsuccessfully.spec_code() == 32777,
        ErrorCode::FailedUnsafe.spec_code() == 32778,
        ErrorCode::SensorDetectedObstacle.spec_code() == 32779,
        ErrorCode::MaterialNotSent.spec_code() == 32780,
        ErrorCode::MaterialNotReceived.spec_code() == 32781,
        ErrorCode::MaterialLost.spec_code() == 32782,
        ErrorCode::HardwareFailure.spec_code() == 32783,
        ErrorCode::TransferCancelled.spec_code() == 32784,
{
}

/// The item format of each data item (SEMI E5 section 9.6): ALCD and SFCD
/// one binary byte; ABS any binary; MDLN and SOFTREV ASCII of at most 20
/// characters; SVNAME and UNITS ASCII; the enumerated items one binary byte
/// holding their code; SV any format but localized; SVID one value of a
/// binary or integer format.
pub proof fn lemma_item_formats(x: u8, u2: u16, u4: u32, u8v: u64, i1: i8, i2: i16, i4: i32, i8v: i64, item: ItemV)
    ensures
        AlarmCode(x).item_of() == ItemV::Binary(seq![x]),
        AlarmCode::accepts(item) <==> (item is Binary && item->Binary_0.len() == 1),
        StatusFormCode(x).item_of() == ItemV::Binary(seq![x]),
        StatusFormCode::accepts(item) <==> (item is Binary && item->Binary_0.len() == 1),
        AnyBinaryString::accepts(item) <==> item is Binary,
        ModelName::accepts(item) <==> (item is Ascii && item->Ascii_0.len() <= 20 && all_ascii(item->Ascii_0)),
        SoftwareRevision::accepts(item) <==> (item is Ascii && item->Ascii_0.len() <= 20 && all_ascii(item->Ascii_0)),
        StatusVariableName::accepts(item) <==> item is Ascii,
        Units::accepts(item) <==> item is Ascii,
        CommAck::Accepted.item_of() == ItemV::Binary(seq![0u8]),
        CommAck::Denied.item_of() == ItemV::Binary(seq![1u8]),
        CommAck::accepts(item) <==> (item is Binary && item->Binary_0.len() == 1 && (item->Binary_0[0] == 0 || item->Binary_0[0] == 1)),
        OffLineAcknowledge::Acknowledge.item_of() == ItemV::Binary(seq![0u8]),
        OffLineAcknowledge::accepts(item) <==> (item is Binary && item->Binary_0.len() == 1 && (item->Binary_0[0] == 0)),
        OnLineAcknowledge::Accepted.item_of() == ItemV::Binary(seq![0u8]),
        OnLineAcknowledge::NotAllowed.item_of() == ItemV::Binary(seq![1u8]),
        OnLineAcknowledge::AlreadyOnLine.item_of() == ItemV::Binary(seq![2u8]),
        OnLineAcknowledge::accepts(item) <==> (item is Binary && item->Binary_0.len() == 1 && (item->Binary_0[0] == 0 || item->Binary_0[0] == 1 || item->Binary_0[0] == 2)),
        TransferStatusInputPort::Idle.item_of() == ItemV::Binary(seq![1u8]),
        TransferStatusInputPort::Prep.item_of() == ItemV::Binary(seq![2u8]),
        TransferStatusInputPort::TrackOn.item_of() == ItemV::Binary(seq![3u8]),
        TransferStatusInputPort::StuckInReceiver.item_of() == ItemV::Binary(seq![4u8]),
        TransferStatusInputPort::accepts(item) <==> (item is Binary && item->Binary_0.len() == 1 && (item->Binary_0[0] == 1 || item->Binary_0[0] == 2 || item->Binary_0[0] == 3 || item->Binary_0[0] == 4)),
        TransferStatusOutputPort::Idle.item_of() == ItemV::Binary(seq![1u8]),
        TransferStatusOutputPort::Prep.item_of() == ItemV::Binary(seq![2u8]),
        TransferStatusOutputPort::TrackOn.item_of() == ItemV::Binary(seq![3u8]),
        TransferStatusOutputPort::StuckInSender.item_of() == ItemV::Binary(seq![4u8]),
        TransferStatusOutputPort::Completed.item_of() == ItemV::Binary(seq![5u8]),
        TransferStatusOutputPort::accepts(item) <==> (item is Binary && item->Binary_0.len() == 1 && (item->Binary_0[0] == 1 || item->Binary_0[0] == 2 || item->Binary_0[0] == 3 || item->Binary_0[0] == 4 || item->Binary_0[0] == 5)),
        StatusVariableValue::accepts(item) <==> !(item is Localized),
        StatusVariableID::Binary(x).item_of() == ItemV::Binary(seq![x]),
        StatusVariableID::Unsigned1(x).item_of() == ItemV::Unsigned1(seq![x]),
        StatusVariableID::Unsigned2(u2).item_of() == ItemV::Unsigned2(seq![u2]),
        StatusVariableID::Unsigned4(u4).item_of() == ItemV::Unsigned4(seq![u4]),
        StatusVariableID::Unsigned8(u8v).item_of() == ItemV::Unsigned8(seq![u8v]),
        StatusVariableID::Signed1(i1).item_of() == ItemV::Signed1(seq![i1]),
        StatusVariableID::Signed2(i2).item_of() == ItemV::Signed2(seq![i2]),
        StatusVariableID::Signed4(i4).item_of() == ItemV::Signed4(seq![i4]),
        StatusVariableID::Signed8(i8v).item_of() == ItemV::Signed8(seq![i8v]),
        StatusVariableID::accepts(item) <==> (match item {
            ItemV::Binary(v) => v.len() == 1,
            ItemV::Unsigned1(v) => v.len() == 1,
            ItemV::Unsigned2(v) => v.len() == 1,
            ItemV::Unsigned4(v) => v.len() == 1,
            ItemV::Unsigned8(v) => v.len() == 1,
            ItemV::Signed1(v) => v.len() == 1,
            ItemV::Signed2(v) => v.len() == 1,
            ItemV::Signed4(v) => v.len() == 1,
            ItemV::Signed8(v) => v.len() == 1,
            _ => false,
        }),
{
}

} // verus!
