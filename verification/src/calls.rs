use vstd::prelude::*;

use crate::events::{address_change, amount_change, EventView, Topic};
use crate::storage::{DataKey, StorageView};
use crate::views::constructed;

verus! {

/// A call of the contract that writes storage, with the values it writes.
pub enum Call {
    Construct {
        admin: Seq<u8>,
        initiative: Seq<u8>,
        provider: Seq<u8>,
        vendor: Seq<u8>,
        xlm: Seq<u8>,
        usdc: Seq<u8>,
        carbon_sac: Seq<u8>,
        sink: Seq<u8>,
        soroswap_router: Seq<u8>,
    },
    SetAdmin(Seq<u8>),
    SetMinimum(i128),
    SetProvider(Seq<u8>),
    SetProviderFees(i128),
    SetVendor(Seq<u8>),
    SetVendorFees(i128),
    SetXLMToken(Seq<u8>),
    SetUSDCToken(Seq<u8>),
    SetCarbonSacToken(Seq<u8>),
    /// Moving the sink to the end of its chain of successors, which is the
    /// given sink.
    SetSinkToSuccessor(Seq<u8>),
    SetSoroswapRouter(Seq<u8>),
    /// Settling a donation, which leaves the given balance.
    SettleDonation(i128),
}

/// The storage a successful call leaves behind. (The token and external
/// contract setters write the other entries of their group back as they
/// read, which a successful call finds stored, so those stay as they were.)
pub open spec fn after_call(s: StorageView, c: Call) -> StorageView {
    match c {
        Call::Construct { admin, initiative, provider, vendor, xlm, usdc, carbon_sac, sink, soroswap_router } =>
            constructed(s, admin, initiative, provider, vendor, xlm, usdc, carbon_sac, sink, soroswap_router),
        Call::SetAdmin(a) => s.with_admin(a),
        Call::SetMinimum(n) => s.with_minimum_donation(n),
        Call::SetProvider(a) => s.with_provider(a),
        Call::SetProviderFees(n) => s.with_provider_fees(n),
        Call::SetVendor(a) => s.with_vendor(a),
        Call::SetVendorFees(n) => s.with_vendor_fees(n),
        Call::SetXLMToken(a) => StorageView { xlm_contract: Some(a), ..s },
        Call::SetUSDCToken(a) => StorageView { usdc_contract: Some(a), ..s },
        Call::SetCarbonSacToken(a) => StorageView { carbon_sac: Some(a), ..s },
        Call::SetSinkToSuccessor(a) => StorageView { sink_contract: Some(a), ..s },
        Call::SetSoroswapRouter(a) => StorageView { soroswap_router: Some(a), ..s },
        Call::SettleDonation(n) => s.with_balance(n),
    }
}

/// The change event an admin-only update publishes: its topic, the value
/// the update replaces and the new value. (The constructor and the
/// settlement of a donation publish no change event.)
pub open spec fn call_event(s: StorageView, c: Call) -> EventView {
    match c {
        Call::SetAdmin(a) => address_change(Topic::Admin, s.admin->0, a),
        Call::SetMinimum(n) => amount_change(Topic::Minimum, s.minimum_donation_read(), n),
        Call::SetProvider(a) => address_change(Topic::Provider, s.provider_read(), a),
        Call::SetProviderFees(n) => amount_change(Topic::ProviderFees, s.provider_fees_read(), n),
        Call::SetVendor(a) => address_change(Topic::Vendor, s.vendor_read(), a),
        Call::SetVendorFees(n) => amount_change(Topic::VendorFees, s.vendor_fees_read(), n),
        Call::SetXLMToken(a) => address_change(Topic::Xlm, s.xlm_read(), a),
        Call::SetUSDCToken(a) => address_change(Topic::Usdc, s.usdc_read(), a),
        Call::SetCarbonSacToken(a) => address_change(Topic::Usdc, s.carbon_sac_read(), a),
        Call::SetSinkToSuccessor(a) => address_change(Topic::Sink, s.sink_read(), a),
        Call::SetSoroswapRouter(a) => address_change(Topic::Router, s.router_read(), a),
        Call::Construct { .. } | Call::SettleDonation(_) => amount_change(Topic::Donation, 0, 0),
    }
}

/// The storage after a sequence of successful calls, in order.
pub open spec fn run(s: StorageView, calls: Seq<Call>) -> StorageView
    decreases calls.len(),
{
    if calls.len() == 0 {
        s
    } else {
        after_call(run(s, calls.drop_last()), calls.last())
    }
}

/// What a read of one key gives back.
pub enum Entry {
    Absent,
    Amount(i128),
    Bytes(Seq<u8>),
}

/// What the read of an address key gives back: the address, or nothing
/// where it is unset.
pub open spec fn bytes_entry(v: Option<Seq<u8>>) -> Entry {
    match v {
        Some(a) => Entry::Bytes(a),
        None => Entry::Absent,
    }
}

/// What the read of `k` gives back from `s`.
pub open spec fn read_entry(s: StorageView, k: DataKey) -> Entry {
    match k {
        DataKey::Admin => bytes_entry(s.admin),
        DataKey::Balance => Entry::Amount(s.balance_read()),
        DataKey::Initiative => Entry::Bytes(s.initiative_read()),
        DataKey::MinimumDonation => Entry::Amount(s.minimum_donation_read()),
        DataKey::Provider => bytes_entry(s.provider),
        DataKey::ProviderFees => Entry::Amount(s.provider_fees_read()),
        DataKey::Vendor => bytes_entry(s.vendor),
        DataKey::VendorFees => Entry::Amount(s.vendor_fees_read()),
        DataKey::XLMContract => bytes_entry(s.xlm_contract),
        DataKey::USDCContract => bytes_entry(s.usdc_contract),
        DataKey::CarbonSac => bytes_entry(s.carbon_sac),
        DataKey::SinkContract => bytes_entry(s.sink_contract),
        DataKey::SoroswapRouter => bytes_entry(s.soroswap_router),
    }
}

/// The value a call gives to key `k`, where it sets that key.
pub open spec fn set_by(c: Call, k: DataKey) -> Option<Entry> {
    match (c, k) {
        (Call::Construct { admin, .. }, DataKey::Admin) => Some(Entry::Bytes(admin)),
        (Call::Construct { .. }, DataKey::Balance) => Some(Entry::Amount(0)),
        (Call::Construct { initiative, .. }, DataKey::Initiative) => Some(Entry::Bytes(initiative)),
        (Call::Construct { .. }, DataKey::MinimumDonation) => Some(
            Entry::Amount(crate::views::INITIAL_MINIMUM_DONATION),
        ),
        (Call::Construct { provider, .. }, DataKey::Provider) => Some(Entry::Bytes(provider)),
        (Call::Construct { .. }, DataKey::ProviderFees) => Some(
            Entry::Amount(crate::views::INITIAL_PROVIDER_FEES),
        ),
        (Call::Construct { vendor, .. }, DataKey::Vendor) => Some(Entry::Bytes(vendor)),
        (Call::Construct { .. }, DataKey::VendorFees) => Some(
            Entry::Amount(crate::views::INITIAL_VENDOR_FEES),
        ),
        (Call::Construct { xlm, .. }, DataKey::XLMContract) => Some(Entry::Bytes(xlm)),
        (Call::Construct { usdc, .. }, DataKey::USDCContract) => Some(Entry::Bytes(usdc)),
        (Call::Construct { carbon_sac, .. }, DataKey::CarbonSac) => Some(Entry::Bytes(carbon_sac)),
        (Call::Construct { sink, .. }, DataKey::SinkContract) => Some(Entry::Bytes(sink)),
        (Call::Construct { soroswap_router, .. }, DataKey::SoroswapRouter) => Some(
            Entry::Bytes(soroswap_router),
        ),
        (Call::SetAdmin(a), DataKey::Admin) => Some(Entry::Bytes(a)),
        (Call::SetMinimum(n), DataKey::MinimumDonation) => Some(Entry::Amount(n)),
        (Call::SetProvider(a), DataKey::Provider) => Some(Entry::Bytes(a)),
        (Call::SetProviderFees(n), DataKey::ProviderFees) => Some(Entry::Amount(n)),
        (Call::SetVendor(a), DataKey::Vendor) => Some(Entry::Bytes(a)),
        (Call::SetVendorFees(n), DataKey::VendorFees) => Some(Entry::Amount(n)),
        (Call::SetXLMToken(a), DataKey::XLMContract) => Some(Entry::Bytes(a)),
        (Call::SetUSDCToken(a), DataKey::USDCContract) => Some(Entry::Bytes(a)),
        (Call::SetCarbonSacToken(a), DataKey::CarbonSac) => Some(Entry::Bytes(a)),
        (Call::SetSinkToSuccessor(a), DataKey::SinkContract) => Some(Entry::Bytes(a)),
        (Call::SetSoroswapRouter(a), DataKey::SoroswapRouter) => Some(Entry::Bytes(a)),
        (Call::SettleDonation(n), DataKey::Balance) => Some(Entry::Amount(n)),
        _ => None,
    }
}

/// The value last given to key `k` by a sequence of calls, or what `s`
/// reads where none of them sets it.
pub open spec fn last_set(s: StorageView, calls: Seq<Call>, k: DataKey) -> Entry
    decreases calls.len(),
{
    if calls.len() == 0 {
        read_entry(s, k)
    } else {
        match set_by(calls.last(), k) {
            Some(v) => v,
            None => last_set(s, calls.drop_last(), k),
        }
    }
}

} // verus!
