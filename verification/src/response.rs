//! What a successful operation hands back: attributes for observers and
//! transfers for the custodian.

use vstd::prelude::*;

use crate::bank::{transfers_view, Transfer, TransferView};

verus! {

/// A key and a value that describe what an operation did.
#[derive(Clone, Debug, PartialEq, Eq)]
pub struct Attribute {
    pub key: String,
    pub value: String,
}

/// What an [`Attribute`] is.
pub struct AttributeView {
    pub key: Seq<char>,
    pub value: Seq<char>,
}

impl View for Attribute {
    type V = AttributeView;

    open spec fn view(&self) -> AttributeView {
        AttributeView { key: self.key@, value: self.value@ }
    }
}

/// The views of a list of attributes, in order.
pub open spec fn attributes_view(attributes: Seq<Attribute>) -> Seq<AttributeView> {
    attributes.map_values(|a: Attribute| a@)
}

/// The outcome of a successful operation. The transfers are meant to be
/// executed in one transaction with the change of the ledger: all of it
/// commits, or none.
#[derive(Clone, Debug, PartialEq, Eq)]
pub struct Response {
    pub messages: Vec<Transfer>,
    pub attributes: Vec<Attribute>,
}

/// What a [`Response`] is.
pub struct ResponseView {
    pub messages: Seq<TransferView>,
    pub attributes: Seq<AttributeView>,
}

impl View for Response {
    type V = ResponseView;

    open spec fn view(&self) -> ResponseView {
        ResponseView {
            messages: transfers_view(self.messages@),
            attributes: attributes_view(self.attributes@),
        }
    }
}

/// The attribute with the given key and value.
pub open spec fn attribute(key: Seq<char>, value: Seq<char>) -> AttributeView {
    AttributeView { key, value }
}

impl Response {
    /// A response without attributes or transfers.
    pub fn new() -> (r: Response)
        ensures
            r@.messages == Seq::<TransferView>::empty(),
            r@.attributes == Seq::<AttributeView>::empty(),
    {
        let r = Response { messages: Vec::new(), attributes: Vec::new() };
        assert(r@.messages =~= Seq::<TransferView>::empty());
        assert(r@.attributes =~= Seq::<AttributeView>::empty());
        r
    }

    /// Appends one attribute and leaves the transfers as they are.
    pub fn add_attribute(self, key: String, value: String) -> (r: Response)
        ensures
            r@.attributes == self@.attributes.push(attribute(key@, value@)),
            r@.messages == self@.messages,
    {
        let mut r = self;
        let a = Attribute { key, value };
        r.attributes.push(a);
        assert(r@.attributes =~= self@.attributes.push(a@));
        r
    }

    /// Appends one transfer and leaves the attributes as they are.
    pub fn add_message(self, msg: Transfer) -> (r: Response)
        ensures
            r@.messages == self@.messages.push(msg@),
            r@.attributes == self@.attributes,
    {
        let mut r = self;
        r.messages.push(msg);
        assert(r@.messages =~= self@.messages.push(msg@));
        r
    }
}

} // verus!
