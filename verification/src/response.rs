//! What an operation hands back to the host: attributes, event records, and
//! the messages to be sent to the token contract.

use vstd::prelude::*;
use vstd::string::*;

verus! {

/// A key with its value.
#[derive(Clone, Debug, PartialEq, Eq)]
pub struct Attribute {
    pub key: String,
    pub value: String,
}

/// What an [`Attribute`] holds.
pub struct AttributeView {
    pub key: Seq<char>,
    pub value: Seq<char>,
}

impl View for Attribute {
    type V = AttributeView;

    open spec fn view(&self) -> AttributeView {
        AttributeView { key: self.key@, value: self.value@ }
    }
}

/// The attributes of a vector, in order.
pub open spec fn attribute_views(attributes: Seq<Attribute>) -> Seq<AttributeView> {
    Seq::new(attributes.len(), |i: int| attributes[i]@)
}

/// A structured record for external indexing.
#[derive(Clone, Debug, PartialEq, Eq)]
pub struct Event {
    pub ty: String,
    pub attributes: Vec<Attribute>,
}

/// What an [`Event`] holds.
pub struct EventView {
    pub ty: Seq<char>,
    pub attributes: Seq<AttributeView>,
}

impl View for Event {
    type V = EventView;

    open spec fn view(&self) -> EventView {
        EventView { ty: self.ty@, attributes: attribute_views(self.attributes@) }
    }
}

impl Event {
    /// An event of the given type with no attributes.
    pub fn new(ty: &str) -> (e: Event)
        ensures
            e@ == (EventView { ty: ty@, attributes: Seq::empty() }),
    {
        let e = Event { ty: String::from_str(ty), attributes: Vec::new() };
        assert(attribute_views(e.attributes@) =~= Seq::empty());
        e
    }

    /// The event with one more attribute at its end.
    pub fn add_attribute(self, key: &str, value: String) -> (e: Event)
        ensures
            e@ == (EventView {
                ty: self@.ty,
                attributes: self@.attributes.push(AttributeView { key: key@, value: value@ }),
            }),
    {
        let mut e = self;
        e.attributes.push(Attribute { key: String::from_str(key), value });
        assert(attribute_views(e.attributes@) =~= attribute_views(self.attributes@).push(
            AttributeView { key: key@, value: value@ },
        ));
        e
    }
}

/// The events of a vector, in order.
pub open spec fn event_views(events: Seq<Event>) -> Seq<EventView> {
    Seq::new(events.len(), |i: int| events[i]@)
}

/// A message for another contract.
#[derive(Clone, Debug, PartialEq, Eq)]
pub enum WasmMsg {
    /// Calls `contract_addr` with `msg` as the encoded message. No native
    /// funds go with the call.
    Execute { contract_addr: String, msg: Vec<u8> },
}

/// What a [`WasmMsg`] holds.
pub enum WasmMsgView {
    Execute { contract_addr: Seq<char>, msg: Seq<u8> },
}

impl View for WasmMsg {
    type V = WasmMsgView;

    open spec fn view(&self) -> WasmMsgView {
        match self {
            WasmMsg::Execute { contract_addr, msg } => WasmMsgView::Execute {
                contract_addr: contract_addr@,
                msg: msg@,
            },
        }
    }
}

/// The messages of a vector, in order.
pub open spec fn message_views(messages: Seq<WasmMsg>) -> Seq<WasmMsgView> {
    Seq::new(messages.len(), |i: int| messages[i]@)
}

/// The result of a successful operation.
#[derive(Clone, Debug, PartialEq, Eq)]
pub struct Response {
    /// Messages that the host sends once the operation's writes are recorded.
    pub messages: Vec<WasmMsg>,
    pub attributes: Vec<Attribute>,
    pub events: Vec<Event>,
}

/// What a [`Response`] holds.
pub struct ResponseView {
    pub messages: Seq<WasmMsgView>,
    pub attributes: Seq<AttributeView>,
    pub events: Seq<EventView>,
}

impl View for Response {
    type V = ResponseView;

    open spec fn view(&self) -> ResponseView {
        ResponseView {
            messages: message_views(self.messages@),
            attributes: attribute_views(self.attributes@),
            events: event_views(self.events@),
        }
    }
}

impl ResponseView {
    /// A response that holds nothing.
    pub open spec fn empty() -> ResponseView {
        ResponseView { messages: Seq::empty(), attributes: Seq::empty(), events: Seq::empty() }
    }

    /// A response that holds the attribute `method` with the given value and
    /// nothing else.
    pub open spec fn method(name: Seq<char>) -> ResponseView {
        ResponseView {
            messages: Seq::empty(),
            attributes: seq![AttributeView { key: "method"@, value: name }],
            events: Seq::empty(),
        }
    }

    pub open spec fn add_attribute(self, key: Seq<char>, value: Seq<char>) -> ResponseView {
        ResponseView { attributes: self.attributes.push(AttributeView { key, value }), ..self }
    }

    pub open spec fn add_event(self, event: EventView) -> ResponseView {
        ResponseView { events: self.events.push(event), ..self }
    }

    pub open spec fn add_message(self, message: WasmMsgView) -> ResponseView {
        ResponseView { messages: self.messages.push(message), ..self }
    }
}

impl Response {
    /// A response that holds nothing.
    pub fn new() -> (r: Response)
        ensures
            r@ == ResponseView::empty(),
    {
        let r = Response { messages: Vec::new(), attributes: Vec::new(), events: Vec::new() };
        assert(r@.messages =~= Seq::empty());
        assert(r@.attributes =~= Seq::empty());
        assert(r@.events =~= Seq::empty());
        r
    }

    /// The response with one more attribute at the end of its attributes.
    pub fn add_attribute(self, key: &str, value: String) -> (r: Response)
        ensures
            r@ == self@.add_attribute(key@, value@),
    {
        let mut r = self;
        r.attributes.push(Attribute { key: String::from_str(key), value });
        assert(r@.attributes =~= self@.attributes.push(AttributeView { key: key@, value: value@ }));
        r
    }

    /// The response with one more event at the end of its events.
    pub fn add_event(self, event: Event) -> (r: Response)
        ensures
            r@ == self@.add_event(event@),
    {
        let mut r = self;
        r.events.push(event);
        assert(r@.events =~= self@.events.push(event@));
        r
    }

    /// The response with one more message at the end of its messages.
    pub fn add_message(self, message: WasmMsg) -> (r: Response)
        ensures
            r@ == self@.add_message(message@),
    {
        let mut r = self;
        r.messages.push(message);
        assert(r@.messages =~= self@.messages.push(message@));
        r
    }
}

} // verus!
