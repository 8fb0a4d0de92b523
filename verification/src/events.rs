use vstd::prelude::*;

use crate::address::Address;

verus! {

/// The first topic of each event the contract publishes.
#[derive(Clone, Copy, Debug, PartialEq, Eq, Structural)]
pub enum Topic {
    Admin,
    Donation,
    Minimum,
    Provider,
    ProviderFees,
    Vendor,
    VendorFees,
    Xlm,
    Sink,
    Usdc,
    Router,
}

/// The short symbol under which an event of this topic is published.
pub open spec fn topic_symbol(t: Topic) -> Seq<char> {
    match t {
        Topic::Admin => "admin"@,
        Topic::Donation => "donation"@,
        Topic::Minimum => "minimum"@,
        Topic::Provider => "provider"@,
        Topic::ProviderFees => "provfees"@,
        Topic::Vendor => "vendor"@,
        Topic::VendorFees => "vendfees"@,
        Topic::Xlm => "xlm"@,
        Topic::Sink => "sink"@,
        Topic::Usdc => "usdc"@,
        Topic::Router => "router"@,
    }
}

/// The second topic of every change event.
pub open spec fn change_symbol() -> Seq<char> {
    "change"@
}

impl Topic {
    /// The short symbol under which an event of this topic is published.
    pub fn symbol(&self) -> (s: &'static str)
        ensures
            s@ == topic_symbol(*self),
            *self == Topic::Admin ==> s@ == "admin"@,
            *self == Topic::Donation ==> s@ == "donation"@,
            *self == Topic::Minimum ==> s@ == "minimum"@,
            *self == Topic::Provider ==> s@ == "provider"@,
            *self == Topic::ProviderFees ==> s@ == "provfees"@,
            *self == Topic::Vendor ==> s@ == "vendor"@,
            *self == Topic::VendorFees ==> s@ == "vendfees"@,
            *self == Topic::Xlm ==> s@ == "xlm"@,
            *self == Topic::Sink ==> s@ == "sink"@,
            *self == Topic::Usdc ==> s@ == "usdc"@,
            *self == Topic::Router ==> s@ == "router"@,
    {
        match self {
            Topic::Admin => "admin",
            Topic::Donation => "donation",
            Topic::Minimum => "minimum",
            Topic::Provider => "provider",
            Topic::ProviderFees => "provfees",
            Topic::Vendor => "vendor",
            Topic::VendorFees => "vendfees",
            Topic::Xlm => "xlm",
            Topic::Sink => "sink",
            Topic::Usdc => "usdc",
            Topic::Router => "router",
        }
    }
}

/// The second topic of every change event.
pub fn change() -> (s: &'static str)
    ensures
        s@ == change_symbol(),
{
    "change"
}

/// An event the contract publishes.
///
/// A change is published under the topics `(symbol, "change")` with the
/// pair `(old, new)` as data; a donation under `("donation", from, destin)`
/// with the donated amount as data.
#[derive(Clone, Debug, PartialEq, Eq)]
pub enum Event {
    AddressChange { topic: Topic, old: Address, new: Address },
    AmountChange { topic: Topic, old_amount: i128, new_amount: i128 },
    Donation { from: Address, destin: Address, amount: i128 },
}

pub enum EventView {
    AddressChange { topic: Topic, old: Seq<u8>, new: Seq<u8> },
    AmountChange { topic: Topic, old_amount: i128, new_amount: i128 },
    Donation { from: Seq<u8>, destin: Seq<u8>, amount: i128 },
}

impl View for Event {
    type V = EventView;

    open spec fn view(&self) -> EventView {
        match self {
            Event::AddressChange { topic, old, new } => EventView::AddressChange {
                topic: *topic,
                old: old@,
                new: new@,
            },
            Event::AmountChange { topic, old_amount, new_amount } => EventView::AmountChange {
                topic: *topic,
                old_amount: *old_amount,
                new_amount: *new_amount,
            },
            Event::Donation { from, destin, amount } => EventView::Donation {
                from: from@,
                destin: destin@,
                amount: *amount,
            },
        }
    }
}

impl Event {
    /// The topic under which this event is published.
    pub fn topic(&self) -> (t: Topic)
        ensures
            t == match self@ {
                EventView::AddressChange { topic, .. } => topic,
                EventView::AmountChange { topic, .. } => topic,
                EventView::Donation { .. } => Topic::Donation,
            },
    {
        match self {
            Event::AddressChange { topic, .. } => *topic,
            Event::AmountChange { topic, .. } => *topic,
            Event::Donation { .. } => Topic::Donation,
        }
    }
}

pub open spec fn address_change(topic: Topic, old: Seq<u8>, new: Seq<u8>) -> EventView {
    EventView::AddressChange { topic, old, new }
}

pub open spec fn amount_change(topic: Topic, old_amount: i128, new_amount: i128) -> EventView {
    EventView::AmountChange { topic, old_amount, new_amount }
}

pub fn admin(oldValue: Address, newValue: Address) -> (ev: Event)
    ensures
        ev@ == address_change(Topic::Admin, oldValue@, newValue@),
{
    Event::AddressChange { topic: Topic::Admin, old: oldValue, new: newValue }
}

pub fn donation(from: Address, destin: Address, amount: i128) -> (ev: Event)
    ensures
        ev@ == (EventView::Donation { from: from@, destin: destin@, amount }),
{
    Event::Donation { from, destin, amount }
}

pub fn minimum(oldValue: i128, newValue: i128) -> (ev: Event)
    ensures
        ev@ == amount_change(Topic::Minimum, oldValue, newValue),
{
    Event::AmountChange { topic: Topic::Minimum, old_amount: oldValue, new_amount: newValue }
}

pub fn provider(oldValue: Address, newValue: Address) -> (ev: Event)
    ensures
        ev@ == address_change(Topic::Provider, oldValue@, newValue@),
{
    Event::AddressChange { topic: Topic::Provider, old: oldValue, new: newValue }
}

pub fn providerFees(oldValue: i128, newValue: i128) -> (ev: Event)
    ensures
        ev@ == amount_change(Topic::ProviderFees, oldValue, newValue),
{
    Event::AmountChange { topic: Topic::ProviderFees, old_amount: oldValue, new_amount: newValue }
}

pub fn vendor(oldValue: Address, newValue: Address) -> (ev: Event)
    ensures
        ev@ == address_change(Topic::Vendor, oldValue@, newValue@),
{
    Event::AddressChange { topic: Topic::Vendor, old: oldValue, new: newValue }
}

pub fn vendorFees(oldValue: i128, newValue: i128) -> (ev: Event)
    ensures
        ev@ == amount_change(Topic::VendorFees, oldValue, newValue),
{
    Event::AmountChange { topic: Topic::VendorFees, old_amount: oldValue, new_amount: newValue }
}

pub fn xlmChange(oldValue: Address, newValue: Address) -> (ev: Event)
    ensures
        ev@ == address_change(Topic::Xlm, oldValue@, newValue@),
{
    Event::AddressChange { topic: Topic::Xlm, old: oldValue, new: newValue }
}

pub fn sinkChange(oldValue: Address, newValue: Address) -> (ev: Event)
    ensures
        ev@ == address_change(Topic::Sink, oldValue@, newValue@),
{
    Event::AddressChange { topic: Topic::Sink, old: oldValue, new: newValue }
}

pub fn usdcChange(oldValue: Address, newValue: Address) -> (ev: Event)
    ensures
        ev@ == address_change(Topic::Usdc, oldValue@, newValue@),
{
    Event::AddressChange { topic: Topic::Usdc, old: oldValue, new: newValue }
}

pub fn soroswapRouterChange(oldValue: Address, newValue: Address) -> (ev: Event)
    ensures
        ev@ == address_change(Topic::Router, oldValue@, newValue@),
{
    Event::AddressChange { topic: Topic::Router, old: oldValue, new: newValue }
}

} // verus!
