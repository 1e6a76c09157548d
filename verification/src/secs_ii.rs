//! SECS-II message content (SEMI E5): generic messages and items, the
//! conversions between items and the data they carry, and the byte encoding
//! of items.
use vstd::prelude::*;

pub mod codec;
pub mod bytes;
pub mod item_bytes;
pub mod items;
pub mod messages;
pub mod units;

use crate::secs_ii::codec::{decode, encode, lemma_decode_wf, wf};
use crate::secs_ii::item_bytes::{decode_item, encode_item, lemma_items_view};

verus! {

/// A generic SECS-II message (SEMI E5 section 6).
#[derive(Debug)]
pub struct Message {
    /// The stream (0 to 127), which with the function identifies the message.
    pub stream: u8,
    /// The function, which with the stream identifies the message.
    pub function: u8,
    /// Whether a reply is requested to a primary message.
    pub w: bool,
    /// The message body; `None` for a header-only message.
    pub body: Option<Item>,
}

/// The mathematical value of a [Message].
pub struct MessageV {
    pub stream: u8,
    pub function: u8,
    pub w: bool,
    pub body: Option<ItemV>,
}

impl View for Message {
    type V = MessageV;

    open spec fn view(&self) -> MessageV {
        MessageV {
            stream: self.stream,
            function: self.function,
            w: self.w,
            body: match self.body {
                Some(item) => Some(item@),
                None => None,
            },
        }
    }
}

/// An error in converting a generic [Message] or [Item] into a specific one.
#[derive(Debug, Clone, Copy, PartialEq, Eq, Structural)]
pub enum Error {
    /// The message has another stream.
    WrongStream,
    /// The message has another function.
    WrongFunction,
    /// The message has an unacceptable reply bit.
    WrongReply,
    /// The message body or item is not formatted as required.
    WrongFormat,
}

/// A generic SECS-II item (SEMI E5 section 9).
///
/// The ASCII variant holds the character codes; the two floating-point
/// variants hold the IEEE-754 bit patterns of their values.
#[derive(Debug)]
pub enum Item {
    List(Vec<Item>),
    Binary(Vec<u8>),
    Boolean(Vec<bool>),
    Ascii(Vec<u8>),
    Jis8(Vec<u8>),
    Localized(u16, Vec<u16>),
    Signed8(Vec<i64>),
    Signed1(Vec<i8>),
    Signed2(Vec<i16>),
    Signed4(Vec<i32>),
    Float8(Vec<u64>),
    Float4(Vec<u32>),
    Unsigned8(Vec<u64>),
    Unsigned1(Vec<u8>),
    Unsigned2(Vec<u16>),
    Unsigned4(Vec<u32>),
}

/// The mathematical value of an [Item].
pub enum ItemV {
    List(Seq<ItemV>),
    Binary(Seq<u8>),
    Boolean(Seq<bool>),
    Ascii(Seq<u8>),
    Jis8(Seq<u8>),
    Localized(u16, Seq<u16>),
    Signed8(Seq<i64>),
    Signed1(Seq<i8>),
    Signed2(Seq<i16>),
    Signed4(Seq<i32>),
    Float8(Seq<u64>),
    Float4(Seq<u32>),
    Unsigned8(Seq<u64>),
    Unsigned1(Seq<u8>),
    Unsigned2(Seq<u16>),
    Unsigned4(Seq<u32>),
}

impl View for Item {
    type V = ItemV;

    open spec fn view(&self) -> ItemV
        decreases self,
    {
        match self {
            Item::List(v) => ItemV::List(items_view(v@)),
            Item::Binary(v) => ItemV::Binary(v@),
            Item::Boolean(v) => ItemV::Boolean(v@),
            Item::Ascii(v) => ItemV::Ascii(v@),
            Item::Jis8(v) => ItemV::Jis8(v@),
            Item::Localized(h, v) => ItemV::Localized(*h, v@),
            Item::Signed8(v) => ItemV::Signed8(v@),
            Item::Signed1(v) => ItemV::Signed1(v@),
            Item::Signed2(v) => ItemV::Signed2(v@),
            Item::Signed4(v) => ItemV::Signed4(v@),
            Item::Float8(v) => ItemV::Float8(v@),
            Item::Float4(v) => ItemV::Float4(v@),
            Item::Unsigned8(v) => ItemV::Unsigned8(v@),
            Item::Unsigned1(v) => ItemV::Unsigned1(v@),
            Item::Unsigned2(v) => ItemV::Unsigned2(v@),
            Item::Unsigned4(v) => ItemV::Unsigned4(v@),
        }
    }
}

/// The values of a sequence of items.
pub open spec fn items_view(s: Seq<Item>) -> Seq<ItemV>
    decreases s,
{
    if s.len() == 0 {
        Seq::empty()
    } else {
        items_view(s.drop_last()).push(s.last()@)
    }
}

impl Item {
    /// The encoding of the item (SEMI E5 section 9): its header, then its
    /// body, or for a list its elements' encodings in order.
    pub fn into_bytes(self) -> (r: Vec<u8>)
        requires
            wf(self@),
        ensures
            r@ == encode(self@),
    {
        let mut out: Vec<u8> = Vec::new();
        encode_item(&self, &mut out);
        assert(out@ =~= encode(self@));
        out
    }

    /// The item that `bytes` encode, exactly and with no bytes left over; it
    /// has an encoding of its own.
    pub fn try_from_bytes(bytes: Vec<u8>) -> (r: Result<Item, Error>)
        ensures
            match r {
                Ok(item) => decode(bytes@) == Some(item@) && wf(item@),
                Err(e) => decode(bytes@) is None && e == Error::WrongFormat,
            },
    {
        proof {
            lemma_decode_wf(bytes@);
        }
        match decode_item(&bytes) {
            Some(item) => Ok(item),
            None => Err(Error::WrongFormat),
        }
    }
}

/// The character-set header of a localized string (SEMI E5 section 9.4).
#[derive(Debug, Clone, Copy, PartialEq, Eq, Structural)]
pub enum LocalizedStringHeader {
    Ucs2,
    Utf8,
    Iso646_1991,
    Iso8859_1,
    Iso8859_11,
    Tis620,
    Is13194_1991,
    ShiftJis,
    EucJp,
    EucKr,
    Gb,
    EucCn,
    Big5,
    EucTw,
}

impl LocalizedStringHeader {
    /// The two-byte code of the character set.
    pub open spec fn spec_code(self) -> u16 {
        match self {
            LocalizedStringHeader::Ucs2 => 1,
            LocalizedStringHeader::Utf8 => 2,
            LocalizedStringHeader::Iso646_1991 => 3,
            LocalizedStringHeader::Iso8859_1 => 4,
            LocalizedStringHeader::Iso8859_11 => 5,
            LocalizedStringHeader::Tis620 => 6,
            LocalizedStringHeader::Is13194_1991 => 7,
            LocalizedStringHeader::ShiftJis => 8,
            LocalizedStringHeader::EucJp => 9,
            LocalizedStringHeader::EucKr => 10,
            LocalizedStringHeader::Gb => 11,
            LocalizedStringHeader::EucCn => 12,
            LocalizedStringHeader::Big5 => 13,
            LocalizedStringHeader::EucTw => 14,
        }
    }

    /// The two-byte code of the character set.
    pub fn code(self) -> (r: u16)
        ensures
            r == self.spec_code(),
    {
        match self {
            LocalizedStringHeader::Ucs2 => 1,
            LocalizedStringHeader::Utf8 => 2,
            LocalizedStringHeader::Iso646_1991 => 3,
            LocalizedStringHeader::Iso8859_1 => 4,
            LocalizedStringHeader::Iso8859_11 => 5,
            LocalizedStringHeader::Tis620 => 6,
            LocalizedStringHeader::Is13194_1991 => 7,
            LocalizedStringHeader::ShiftJis => 8,
            LocalizedStringHeader::EucJp => 9,
            LocalizedStringHeader::EucKr => 10,
            LocalizedStringHeader::Gb => 11,
            LocalizedStringHeader::EucCn => 12,
            LocalizedStringHeader::Big5 => 13,
            LocalizedStringHeader::EucTw => 14,
        }
    }
}

/// A value carried by an item: it converts into an item, and some items
/// convert back into it.
pub trait DataItem: Sized {
    /// The item that this value converts into.
    spec fn item_of(&self) -> ItemV;

    /// The items that convert into a value of this type.
    spec fn accepts(item: ItemV) -> bool;

    /// Converts the value into its item; that item converts back.
    fn into_item(self) -> (r: Item)
        ensures
            r@ == self.item_of(),
            Self::accepts(r@),
    ;

    /// Converts an item into a value of this type; the value converts back
    /// into the same item.
    fn try_from_item(item: Item) -> (r: Result<Self, Error>)
        ensures
            match r {
                Ok(v) => Self::accepts(item@) && v.item_of() == item@,
                Err(e) => !Self::accepts(item@) && e == Error::WrongFormat,
            },
    ;
}

/// A list with a set number of elements, or with none.
pub struct OptionList<T>(pub Option<T>);

/// A list of any number of elements of the same structure.
pub struct VecList<T>(pub Vec<T>);

/// The items of the values of a sequence.
pub open spec fn item_seq<A: DataItem>(s: Seq<A>) -> Seq<ItemV> {
    Seq::new(s.len(), |i: int| s[i].item_of())
}

/// Every item of the sequence converts into a value of type `A`.
pub open spec fn all_accepted<A: DataItem>(s: Seq<ItemV>) -> bool
    decreases s.len(),
{
    if s.len() == 0 {
        true
    } else {
        A::accepts(s.last()) && all_accepted::<A>(s.drop_last())
    }
}

/// [all_accepted] holds exactly when each item is accepted.
pub proof fn lemma_all_accepted<A: DataItem>(s: Seq<ItemV>)
    ensures
        all_accepted::<A>(s) <==> forall|i: int| 0 <= i < s.len() ==> #[trigger] A::accepts(s[i]),
    decreases s.len(),
{
    if s.len() > 0 {
        let t = s.drop_last();
        lemma_all_accepted::<A>(t);
        assert forall|i: int| 0 <= i < t.len() implies t[i] == s[i] by {}
        if forall|i: int| 0 <= i < s.len() ==> #[trigger] A::accepts(s[i]) {
            assert(A::accepts(s[s.len() - 1]));
            assert forall|i: int| 0 <= i < t.len() implies #[trigger] A::accepts(t[i]) by {
                assert(A::accepts(s[i]));
            }
        }
        if all_accepted::<A>(s) {
            assert forall|i: int| 0 <= i < s.len() implies #[trigger] A::accepts(s[i]) by {
                if i < s.len() - 1 {
                    assert(s[i] == t[i]);
                }
            }
        }
    }
}

impl<A: DataItem> DataItem for VecList<A> {
    open spec fn item_of(&self) -> ItemV {
        ItemV::List(item_seq(self.0@))
    }

    open spec fn accepts(item: ItemV) -> bool {
        match item {
            ItemV::List(s) => all_accepted::<A>(s),
            _ => false,
        }
    }

    fn into_item(self) -> (r: Item) {
        let ghost src = self.0@;
        let mut out: Vec<Item> = Vec::new();
        for a in it: self.0.into_iter()
            invariant
                it.seq() == src,
                out@.len() == it.index(),
                forall|j: int| 0 <= j < out@.len() ==> #[trigger] out@[j]@ == src[j].item_of(),
                forall|j: int| 0 <= j < out@.len() ==> A::accepts(#[trigger] out@[j]@),
        {
            out.push(a.into_item());
        }
        proof {
            lemma_items_view(out@);
            assert(items_view(out@) =~= item_seq(src));
            lemma_all_accepted::<A>(items_view(out@));
        }
        Item::List(out)
    }

    fn try_from_item(item: Item) -> (r: Result<Self, Error>) {
        match item {
            Item::List(list) => {
                let ghost src = list@;
                proof {
                    lemma_items_view(src);
                }
                let mut out: Vec<A> = Vec::new();
                for e in it: list.into_iter()
                    invariant
                        it.seq() == src,
                        item@ == ItemV::List(items_view(src)),
                        items_view(src).len() == src.len(),
                        forall|j: int| 0 <= j < src.len() ==> #[trigger] items_view(src)[j] == src[j]@,
                        out@.len() == it.index(),
                        forall|j: int| 0 <= j < out@.len() ==> #[trigger] out@[j].item_of() == src[j]@,
                        forall|j: int| 0 <= j < out@.len() ==> A::accepts(#[trigger] src[j]@),
                {
                    let ghost k = it.index();
                    assert(e@ == src[k]@);
                    match A::try_from_item(e) {
                        Ok(a) => out.push(a),
                        Err(err) => {
                            assert(!A::accepts(items_view(src)[k]));
                            proof {
                                lemma_all_accepted::<A>(items_view(src));
                            }
                            return Err(err);
                        },
                    }
                }
                assert(item_seq(out@) =~= items_view(src));
                proof {
                    lemma_all_accepted::<A>(items_view(src));
                }
                Ok(VecList(out))
            },
            _ => Err(Error::WrongFormat),
        }
    }
}

/// A value whose item is always a list.
pub trait ListItem: DataItem {
    proof fn lemma_item_is_list(&self)
        ensures
            self.item_of() is List,
    ;
}

/// A list holding the given items, in order.
fn list_of(items: Vec<Item>) -> (r: Item)
    ensures
        r@ == ItemV::List(items_view(items@)),
{
    Item::List(items)
}

/// The last element of a non-empty list, removed from it.
fn pop_item(list: &mut Vec<Item>) -> (r: Item)
    requires
        old(list).len() > 0,
    ensures
        items_view(old(list)@) == items_view(final(list)@).push(r@),
        final(list)@ == old(list)@.drop_last(),
{
    match list.pop() {
        Some(x) => x,
        None => {
            assert(false);
            Item::List(Vec::new())
        },
    }
}

impl<A: DataItem> ListItem for VecList<A> {
    proof fn lemma_item_is_list(&self) {
    }
}

impl DataItem for () {
    open spec fn item_of(&self) -> ItemV {
        ItemV::List(Seq::empty())
    }

    open spec fn accepts(item: ItemV) -> bool {
        match item {
            ItemV::List(s) => s.len() == 0,
            _ => false,
        }
    }

    fn into_item(self) -> (r: Item) {
        let v: Vec<Item> = Vec::new();
        proof {
            lemma_items_view(v@);
        }
        Item::List(v)
    }

    fn try_from_item(item: Item) -> (r: Result<Self, Error>) {
        match item {
            Item::List(list) => {
                proof {
                    lemma_items_view(list@);
                }
                if list.len() == 0 {
                    assert(items_view(list@) =~= Seq::<ItemV>::empty());
                    Ok(())
                } else {
                    Err(Error::WrongFormat)
                }
            },
            _ => Err(Error::WrongFormat),
        }
    }
}

impl ListItem for () {
    proof fn lemma_item_is_list(&self) {
    }
}

impl<A: ListItem> DataItem for OptionList<A> {
    open spec fn item_of(&self) -> ItemV {
        match self.0 {
            Some(a) => a.item_of(),
            None => ItemV::List(Seq::empty()),
        }
    }

    open spec fn accepts(item: ItemV) -> bool {
        match item {
            ItemV::List(s) => s.len() == 0 || A::accepts(item),
            _ => false,
        }
    }

    fn into_item(self) -> (r: Item) {
        match self.0 {
            Some(a) => {
                proof {
                    a.lemma_item_is_list();
                }
                a.into_item()
            },
            None => {
                let v: Vec<Item> = Vec::new();
                proof {
                    lemma_items_view(v@);
                }
                Item::List(v)
            },
        }
    }

    fn try_from_item(item: Item) -> (r: Result<Self, Error>) {
        match item {
            Item::List(list) => {
                proof {
                    lemma_items_view(list@);
                }
                if list.len() == 0 {
                    assert(items_view(list@) =~= Seq::<ItemV>::empty());
                    Ok(OptionList(None))
                } else {
                    match A::try_from_item(list_of(list)) {
                        Ok(a) => Ok(OptionList(Some(a))),
                        Err(e) => Err(e),
                    }
                }
            },
            _ => Err(Error::WrongFormat),
        }
    }
}

impl<A: ListItem> ListItem for OptionList<A> {
    proof fn lemma_item_is_list(&self) {
        match self.0 {
            Some(a) => a.lemma_item_is_list(),
            None => {},
        }
    }
}

impl<A: DataItem, B: DataItem> DataItem for (A, B) {
    open spec fn item_of(&self) -> ItemV {
        ItemV::List(seq![self.0.item_of(), self.1.item_of()])
    }

    open spec fn accepts(item: ItemV) -> bool {
        match item {
            ItemV::List(s) => s.len() == 2 && A::accepts(s[0]) && B::accepts(s[1]),
            _ => false,
        }
    }

    fn into_item(self) -> (r: Item) {
        let (a, b) = self;
        let ia = a.into_item();
        let ib = b.into_item();
        let mut v: Vec<Item> = Vec::new();
        v.push(ia);
        v.push(ib);
        proof {
            lemma_items_view(v@);
            assert(items_view(v@) =~= seq![ia@, ib@]);
        }
        Item::List(v)
    }

    fn try_from_item(item: Item) -> (r: Result<Self, Error>) {
        match item {
            Item::List(list) => {
                let mut list = list;
                proof {
                    lemma_items_view(list@);
                }
                if list.len() != 2 {
                    return Err(Error::WrongFormat);
                }
                let ghost s = items_view(list@);
                let ib = pop_item(&mut list);
                let ia = pop_item(&mut list);
                proof {
                    lemma_items_view(list@);
                    assert(s =~= seq![ia@, ib@]);
                }
                match A::try_from_item(ia) {
                    Ok(a) => match B::try_from_item(ib) {
                        Ok(b) => Ok((a, b)),
                        Err(e) => Err(e),
                    },
                    Err(e) => Err(e),
                }
            },
            _ => Err(Error::WrongFormat),
        }
    }
}

impl<A: DataItem, B: DataItem> ListItem for (A, B) {
    proof fn lemma_item_is_list(&self) {
    }
}

impl<A: DataItem, B: DataItem, C: DataItem> DataItem for (A, B, C) {
    open spec fn item_of(&self) -> ItemV {
        ItemV::List(seq![self.0.item_of(), self.1.item_of(), self.2.item_of()])
    }

    open spec fn accepts(item: ItemV) -> bool {
        match item {
            ItemV::List(s) => s.len() == 3 && A::accepts(s[0]) && B::accepts(s[1]) && C::accepts(
                s[2],
            ),
            _ => false,
        }
    }

    fn into_item(self) -> (r: Item) {
        let (a, b, c) = self;
        let ia = a.into_item();
        let ib = b.into_item();
        let ic = c.into_item();
        let mut v: Vec<Item> = Vec::new();
        v.push(ia);
        v.push(ib);
        v.push(ic);
        proof {
            lemma_items_view(v@);
            assert(items_view(v@) =~= seq![ia@, ib@, ic@]);
        }
        Item::List(v)
    }

    fn try_from_item(item: Item) -> (r: Result<Self, Error>) {
        match item {
            Item::List(list) => {
                let mut list = list;
                proof {
                    lemma_items_view(list@);
                }
                if list.len() != 3 {
                    return Err(Error::WrongFormat);
                }
                let ghost s = items_view(list@);
                let ic = pop_item(&mut list);
                let ib = pop_item(&mut list);
                let ia = pop_item(&mut list);
                proof {
                    lemma_items_view(list@);
                    assert(s =~= seq![ia@, ib@, ic@]);
                }
                match A::try_from_item(ia) {
                    Ok(a) => match B::try_from_item(ib) {
                        Ok(b) => match C::try_from_item(ic) {
                            Ok(c) => Ok((a, b, c)),
                            Err(e) => Err(e),
                        },
                        Err(e) => Err(e),
                    },
                    Err(e) => Err(e),
                }
            },
            _ => Err(Error::WrongFormat),
        }
    }
}

impl<A: DataItem, B: DataItem, C: DataItem> ListItem for (A, B, C) {
    proof fn lemma_item_is_list(&self) {
    }
}

/// The codes of the character sets of localized strings (SEMI E5 section
/// 9.4).
pub proof fn lemma_codes()
    ensures
        LocalizedStringHeader::Ucs2.spec_code() == 1,
        LocalizedStringHeader::Utf8.spec_code() == 2,
        LocalizedStringHeader::Iso646_1991.spec_code() == 3,
        LocalizedStringHeader::Iso8859_1.spec_code() == 4,
        LocalizedStringHeader::Iso8859_11.spec_code() == 5,
        LocalizedStringHeader::Tis620.spec_code() == 6,
        LocalizedStringHeader::Is13194_1991.spec_code() == 7,
        LocalizedStringHeader::ShiftJis.spec_code() == 8,
        LocalizedStringHeader::EucJp.spec_code() == 9,
        LocalizedStringHeader::EucKr.spec_code() == 10,
        LocalizedStringHeader::Gb.spec_code() == 11,
        LocalizedStringHeader::EucCn.spec_code() == 12,
        LocalizedStringHeader::Big5.spec_code() == 13,
        LocalizedStringHeader::EucTw.spec_code() == 14,
{
}

/// The items of list values: the empty tuple is the empty list; a pair and
/// a triple are lists of their elements' items in order; a vector list is the
/// list of its elements' items in order; an optional list is the empty list
/// when absent.
pub proof fn lemma_list_items<A: DataItem, B: DataItem, C: DataItem, L: ListItem>(
    a: A,
    b: B,
    c: C,
    v: VecList<A>,
    o: OptionList<L>,
)
    ensures
        ().item_of() == ItemV::List(Seq::empty()),
        (a, b).item_of() == ItemV::List(seq![a.item_of(), b.item_of()]),
        (a, b, c).item_of() == ItemV::List(seq![a.item_of(), b.item_of(), c.item_of()]),
        v.item_of() matches ItemV::List(s) && s.len() == v.0@.len() && forall|i: int|
            0 <= i < s.len() ==> s[i] == #[trigger] v.0@[i].item_of(),
        o.0 is None ==> o.item_of() == ItemV::List(Seq::empty()),
        o.0 matches Some(x) ==> o.item_of() == x.item_of(),
{
}

} // verus!
