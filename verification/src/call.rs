//! What a call carries in, and what it hands back.

use vstd::prelude::*;

verus! {

/// An amount of one denomination.
#[derive(Debug, Clone, PartialEq, Eq)]
pub struct Coin {
    pub denom: String,
    pub amount: u128,
}

/// A `Coin` as mathematics sees it.
pub struct CoinView {
    pub denom: Seq<char>,
    pub amount: nat,
}

impl View for Coin {
    type V = CoinView;

    open spec fn view(&self) -> CoinView {
        CoinView { denom: self.denom@, amount: self.amount as nat }
    }
}

/// Who makes a call, and the funds attached to it.
#[derive(Debug, Clone, PartialEq, Eq)]
pub struct MessageInfo {
    pub sender: String,
    pub funds: Vec<Coin>,
}

/// A `MessageInfo` as mathematics sees it.
pub struct MessageInfoView {
    pub sender: Seq<char>,
    pub funds: Seq<CoinView>,
}

impl View for MessageInfo {
    type V = MessageInfoView;

    open spec fn view(&self) -> MessageInfoView {
        MessageInfoView { sender: self.sender@, funds: self.funds@.map_values(|c: Coin| c@) }
    }
}

/// A value transfer that the host is to carry out once the call commits.
#[derive(Debug, Clone, PartialEq, Eq)]
pub struct Transfer {
    pub to_address: String,
    pub amount: Coin,
}

/// A `Transfer` as mathematics sees it.
pub struct TransferView {
    pub to_address: Seq<char>,
    pub amount: CoinView,
}

impl View for Transfer {
    type V = TransferView;

    open spec fn view(&self) -> TransferView {
        TransferView { to_address: self.to_address@, amount: self.amount@ }
    }
}

/// One key/value pair of the event that a call emits.
#[derive(Debug, Clone, PartialEq, Eq)]
pub struct Attribute {
    pub key: String,
    pub value: String,
}

impl View for Attribute {
    type V = (Seq<char>, Seq<char>);

    open spec fn view(&self) -> (Seq<char>, Seq<char>) {
        (self.key@, self.value@)
    }
}

/// The acknowledgment of a call that was carried out: the transfers it
/// schedules and the attributes of its event.
#[derive(Debug, Clone, PartialEq, Eq)]
pub struct Response {
    pub transfers: Vec<Transfer>,
    pub attributes: Vec<Attribute>,
}

/// A `Response` as mathematics sees it.
pub struct ResponseView {
    pub transfers: Seq<TransferView>,
    pub attributes: Seq<(Seq<char>, Seq<char>)>,
}

impl View for Response {
    type V = ResponseView;

    open spec fn view(&self) -> ResponseView {
        ResponseView {
            transfers: self.transfers@.map_values(|t: Transfer| t@),
            attributes: self.attributes@.map_values(|a: Attribute| a@),
        }
    }
}

impl Response {
    /// The acknowledgment that schedules nothing and says nothing.
    pub fn new() -> (r: Self)
        ensures
            r@.transfers == Seq::<TransferView>::empty(),
            r@.attributes == Seq::<(Seq<char>, Seq<char>)>::empty(),
    {
        let r = Response { transfers: Vec::new(), attributes: Vec::new() };
        assert(r@.transfers =~= Seq::<TransferView>::empty());
        assert(r@.attributes =~= Seq::<(Seq<char>, Seq<char>)>::empty());
        r
    }

    /// Schedules one more transfer, after those already scheduled.
    pub fn add_transfer(self, transfer: Transfer) -> (r: Self)
        ensures
            r@.transfers == self@.transfers.push(transfer@),
            r@.attributes == self@.attributes,
    {
        let mut r = self;
        r.transfers.push(transfer);
        assert(r@.transfers =~= self@.transfers.push(transfer@));
        r
    }

    /// Adds one more attribute, after those already there.
    pub fn add_attribute(self, key: &str, value: &str) -> (r: Self)
        ensures
            r@.transfers == self@.transfers,
            r@.attributes == self@.attributes.push((key@, value@)),
    {
        let mut r = self;
        let attribute = Attribute { key: String::from_str(key), value: String::from_str(value) };
        r.attributes.push(attribute);
        assert(r@.attributes =~= self@.attributes.push((key@, value@)));
        r
    }
}

} // verus!
