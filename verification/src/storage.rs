use vstd::prelude::*;

use crate::address::{copy_bytes, opt_view, same_bytes, same_opt, Address};
use crate::errors::CreditsError;

verus! {

/// The keys under which the contract keeps its data.
#[derive(Clone, Copy, Debug, PartialEq, Eq, Structural)]
pub enum DataKey {
    Admin,
    Balance,
    Initiative,
    MinimumDonation,
    Provider,
    ProviderFees,
    Vendor,
    VendorFees,
    XLMContract,
    USDCContract,
    CarbonSac,
    SinkContract,
    SoroswapRouter,
}

/// Whether a key lives in persistent storage (the others live in the
/// contract instance's storage).
pub open spec fn spec_is_persistent(k: DataKey) -> bool {
    match k {
        DataKey::Balance | DataKey::XLMContract | DataKey::USDCContract | DataKey::CarbonSac
        | DataKey::SinkContract | DataKey::SoroswapRouter => true,
        _ => false,
    }
}

impl DataKey {
    /// Whether this key lives in persistent storage rather than in the
    /// contract instance's storage.
    pub fn is_persistent(&self) -> (b: bool)
        ensures
            b == spec_is_persistent(*self),
    {
        match self {
            DataKey::Balance | DataKey::XLMContract | DataKey::USDCContract | DataKey::CarbonSac
            | DataKey::SinkContract | DataKey::SoroswapRouter => true,
            _ => false,
        }
    }
}

/// What the contract's storage holds: one entry per key, `None` where the
/// key was never written.
#[derive(Clone, Debug, PartialEq, Eq)]
pub struct Storage {
    pub admin: Option<Address>,
    pub balance: Option<i128>,
    pub initiative: Option<Vec<u8>>,
    pub minimum_donation: Option<i128>,
    pub provider: Option<Address>,
    pub provider_fees: Option<i128>,
    pub vendor: Option<Address>,
    pub vendor_fees: Option<i128>,
    pub xlm_contract: Option<Address>,
    pub usdc_contract: Option<Address>,
    pub carbon_sac: Option<Address>,
    pub sink_contract: Option<Address>,
    pub soroswap_router: Option<Address>,
}

/// The mathematical model of the storage.
pub struct StorageView {
    pub admin: Option<Seq<u8>>,
    pub balance: Option<i128>,
    pub initiative: Option<Seq<u8>>,
    pub minimum_donation: Option<i128>,
    pub provider: Option<Seq<u8>>,
    pub provider_fees: Option<i128>,
    pub vendor: Option<Seq<u8>>,
    pub vendor_fees: Option<i128>,
    pub xlm_contract: Option<Seq<u8>>,
    pub usdc_contract: Option<Seq<u8>>,
    pub carbon_sac: Option<Seq<u8>>,
    pub sink_contract: Option<Seq<u8>>,
    pub soroswap_router: Option<Seq<u8>>,
}

pub open spec fn opt_bytes_view(b: Option<Vec<u8>>) -> Option<Seq<u8>> {
    match b {
        Some(v) => Some(v@),
        None => None,
    }
}

impl View for Storage {
    type V = StorageView;

    open spec fn view(&self) -> StorageView {
        StorageView {
            admin: opt_view(self.admin),
            balance: self.balance,
            initiative: opt_bytes_view(self.initiative),
            minimum_donation: self.minimum_donation,
            provider: opt_view(self.provider),
            provider_fees: self.provider_fees,
            vendor: opt_view(self.vendor),
            vendor_fees: self.vendor_fees,
            xlm_contract: opt_view(self.xlm_contract),
            usdc_contract: opt_view(self.usdc_contract),
            carbon_sac: opt_view(self.carbon_sac),
            sink_contract: opt_view(self.sink_contract),
            soroswap_router: opt_view(self.soroswap_router),
        }
    }
}

/// An integer entry, or zero where it is unset.
pub open spec fn amount_or_zero(v: Option<i128>) -> i128 {
    match v {
        Some(x) => x,
        None => 0,
    }
}

/// A read of an address entry: the stored address, or `AddressNotSet`
/// where the key is unset (the contract aborts there: for an unset key it
/// builds an address from thirty-two zero bytes, which the host refuses).
pub open spec fn address_read(v: Option<Seq<u8>>, r: Result<Address, CreditsError>) -> bool {
    match r {
        Ok(a) => v == Some(a@),
        Err(e) => v is None && e == CreditsError::AddressNotSet,
    }
}

impl StorageView {
    /// The storage of a contract that has not written anything yet.
    pub open spec fn empty() -> StorageView {
        StorageView {
            admin: None,
            balance: None,
            initiative: None,
            minimum_donation: None,
            provider: None,
            provider_fees: None,
            vendor: None,
            vendor_fees: None,
            xlm_contract: None,
            usdc_contract: None,
            carbon_sac: None,
            sink_contract: None,
            soroswap_router: None,
        }
    }

    // What each read gives back; for an address key, the stored address,
    // meaningful only where one is stored.
    pub open spec fn balance_read(self) -> i128 {
        amount_or_zero(self.balance)
    }

    pub open spec fn initiative_read(self) -> Seq<u8> {
        match self.initiative {
            Some(x) => x,
            None => Seq::empty(),
        }
    }

    pub open spec fn minimum_donation_read(self) -> i128 {
        amount_or_zero(self.minimum_donation)
    }

    pub open spec fn provider_read(self) -> Seq<u8> {
        self.provider->0
    }

    pub open spec fn provider_fees_read(self) -> i128 {
        amount_or_zero(self.provider_fees)
    }

    pub open spec fn vendor_read(self) -> Seq<u8> {
        self.vendor->0
    }

    pub open spec fn vendor_fees_read(self) -> i128 {
        amount_or_zero(self.vendor_fees)
    }

    pub open spec fn xlm_read(self) -> Seq<u8> {
        self.xlm_contract->0
    }

    pub open spec fn usdc_read(self) -> Seq<u8> {
        self.usdc_contract->0
    }

    pub open spec fn carbon_sac_read(self) -> Seq<u8> {
        self.carbon_sac->0
    }

    pub open spec fn sink_read(self) -> Seq<u8> {
        self.sink_contract->0
    }

    pub open spec fn router_read(self) -> Seq<u8> {
        self.soroswap_router->0
    }

    // What each write leaves behind.
    pub open spec fn with_admin(self, v: Seq<u8>) -> StorageView {
        StorageView { admin: Some(v), ..self }
    }

    pub open spec fn with_balance(self, v: i128) -> StorageView {
        StorageView { balance: Some(v), ..self }
    }

    pub open spec fn with_initiative(self, v: Seq<u8>) -> StorageView {
        StorageView { initiative: Some(v), ..self }
    }

    pub open spec fn with_minimum_donation(self, v: i128) -> StorageView {
        StorageView { minimum_donation: Some(v), ..self }
    }

    pub open spec fn with_provider(self, v: Seq<u8>) -> StorageView {
        StorageView { provider: Some(v), ..self }
    }

    pub open spec fn with_provider_fees(self, v: i128) -> StorageView {
        StorageView { provider_fees: Some(v), ..self }
    }

    pub open spec fn with_vendor(self, v: Seq<u8>) -> StorageView {
        StorageView { vendor: Some(v), ..self }
    }

    pub open spec fn with_vendor_fees(self, v: i128) -> StorageView {
        StorageView { vendor_fees: Some(v), ..self }
    }

    pub open spec fn with_token_contracts(self, xlm: Seq<u8>, usdc: Seq<u8>, carbon: Seq<u8>) -> StorageView {
        StorageView {
            xlm_contract: Some(xlm),
            usdc_contract: Some(usdc),
            carbon_sac: Some(carbon),
            ..self
        }
    }

    pub open spec fn with_external_contracts(self, sink: Seq<u8>, router: Seq<u8>) -> StorageView {
        StorageView { sink_contract: Some(sink), soroswap_router: Some(router), ..self }
    }

    /// Whether two storages hold the same entry under `k`.
    pub open spec fn same_at(self, other: StorageView, k: DataKey) -> bool {
        match k {
            DataKey::Admin => self.admin == other.admin,
            DataKey::Balance => self.balance == other.balance,
            DataKey::Initiative => self.initiative == other.initiative,
            DataKey::MinimumDonation => self.minimum_donation == other.minimum_donation,
            DataKey::Provider => self.provider == other.provider,
            DataKey::ProviderFees => self.provider_fees == other.provider_fees,
            DataKey::Vendor => self.vendor == other.vendor,
            DataKey::VendorFees => self.vendor_fees == other.vendor_fees,
            DataKey::XLMContract => self.xlm_contract == other.xlm_contract,
            DataKey::USDCContract => self.usdc_contract == other.usdc_contract,
            DataKey::CarbonSac => self.carbon_sac == other.carbon_sac,
            DataKey::SinkContract => self.sink_contract == other.sink_contract,
            DataKey::SoroswapRouter => self.soroswap_router == other.soroswap_router,
        }
    }
}

impl Storage {
    /// A storage in which nothing was written yet.
    pub fn new() -> (s: Storage)
        ensures
            s@ == StorageView::empty(),
    {
        Storage {
            admin: None,
            balance: None,
            initiative: None,
            minimum_donation: None,
            provider: None,
            provider_fees: None,
            vendor: None,
            vendor_fees: None,
            xlm_contract: None,
            usdc_contract: None,
            carbon_sac: None,
            sink_contract: None,
            soroswap_router: None,
        }
    }
}

fn amount_entry(v: Option<i128>) -> (r: i128)
    ensures
        r == amount_or_zero(v),
{
    match v {
        Some(x) => x,
        None => 0,
    }
}

/// The address stored in an entry; `AddressNotSet` where it is unset.
fn get_contract_address(v: &Option<Address>) -> (r: Result<Address, CreditsError>)
    ensures
        address_read(opt_view(*v), r),
{
    match v {
        Some(a) => Ok(a.duplicate()),
        None => Err(CreditsError::AddressNotSet),
    }
}

//---- READ/WRITE

pub fn read_balance(s: &Storage) -> (r: i128)
    ensures
        r == s@.balance_read(),
{
    amount_entry(s.balance)
}

pub fn write_balance(s: &mut Storage, amount: i128)
    ensures
        final(s)@ == old(s)@.with_balance(amount),
{
    s.balance = Some(amount);
}

pub fn read_initiative(s: &Storage) -> (r: Vec<u8>)
    ensures
        r@ == s@.initiative_read(),
{
    match &s.initiative {
        Some(v) => copy_bytes(v),
        None => Vec::new(),
    }
}

pub fn write_initiative(s: &mut Storage, value: Vec<u8>)
    ensures
        final(s)@ == old(s)@.with_initiative(value@),
{
    s.initiative = Some(value);
}

pub fn read_minimum_donation(s: &Storage) -> (r: i128)
    ensures
        r == s@.minimum_donation_read(),
{
    amount_entry(s.minimum_donation)
}

pub fn write_minimum_donation(s: &mut Storage, value: i128)
    ensures
        final(s)@ == old(s)@.with_minimum_donation(value),
{
    s.minimum_donation = Some(value);
}

pub fn read_provider(s: &Storage) -> (r: Result<Address, CreditsError>)
    ensures
        address_read(s@.provider, r),
{
    get_contract_address(&s.provider)
}

pub fn write_provider(s: &mut Storage, value: &Address)
    ensures
        final(s)@ == old(s)@.with_provider(value@),
{
    s.provider = Some(value.duplicate());
}

pub fn read_provider_fees(s: &Storage) -> (r: i128)
    ensures
        r == s@.provider_fees_read(),
{
    amount_entry(s.provider_fees)
}

pub fn write_provider_fees(s: &mut Storage, value: i128)
    ensures
        final(s)@ == old(s)@.with_provider_fees(value),
{
    s.provider_fees = Some(value);
}

pub fn read_vendor(s: &Storage) -> (r: Result<Address, CreditsError>)
    ensures
        address_read(s@.vendor, r),
{
    get_contract_address(&s.vendor)
}

pub fn write_vendor(s: &mut Storage, value: &Address)
    ensures
        final(s)@ == old(s)@.with_vendor(value@),
{
    s.vendor = Some(value.duplicate());
}

pub fn read_vendor_fees(s: &Storage) -> (r: i128)
    ensures
        r == s@.vendor_fees_read(),
{
    amount_entry(s.vendor_fees)
}

pub fn write_vendor_fees(s: &mut Storage, value: i128)
    ensures
        final(s)@ == old(s)@.with_vendor_fees(value),
{
    s.vendor_fees = Some(value);
}

/// Whether the XLM, USDC and carbon token contracts are all stored.
pub open spec fn tokens_set(s: StorageView) -> bool {
    s.xlm_contract is Some && s.usdc_contract is Some && s.carbon_sac is Some
}

/// The XLM, USDC and carbon token contracts, in that order; `AddressNotSet`
/// where one of them is unset.
pub fn read_token_contracts(s: &Storage) -> (r: Result<(Address, Address, Address), CreditsError>)
    ensures
        match r {
            Ok(t) => tokens_set(s@) && t.0@ == s@.xlm_read() && t.1@ == s@.usdc_read()
                && t.2@ == s@.carbon_sac_read(),
            Err(e) => !tokens_set(s@) && e == CreditsError::AddressNotSet,
        },
{
    let xlm = match get_contract_address(&s.xlm_contract) {
        Ok(a) => a,
        Err(e) => return Err(e),
    };
    let usdc = match get_contract_address(&s.usdc_contract) {
        Ok(a) => a,
        Err(e) => return Err(e),
    };
    let carbon = match get_contract_address(&s.carbon_sac) {
        Ok(a) => a,
        Err(e) => return Err(e),
    };
    Ok((xlm, usdc, carbon))
}

pub fn write_token_contracts(s: &mut Storage, xlm: &Address, usdc: &Address, carbonSac: &Address)
    ensures
        final(s)@ == old(s)@.with_token_contracts(xlm@, usdc@, carbonSac@),
{
    s.xlm_contract = Some(xlm.duplicate());
    s.usdc_contract = Some(usdc.duplicate());
    s.carbon_sac = Some(carbonSac.duplicate());
}

/// Whether the sink contract and the Soroswap router are both stored.
pub open spec fn externals_set(s: StorageView) -> bool {
    s.sink_contract is Some && s.soroswap_router is Some
}

/// The sink contract and the Soroswap router, in that order;
/// `AddressNotSet` where one of them is unset.
pub fn read_external_contracts(s: &Storage) -> (r: Result<(Address, Address), CreditsError>)
    ensures
        match r {
            Ok(t) => externals_set(s@) && t.0@ == s@.sink_read() && t.1@ == s@.router_read(),
            Err(e) => !externals_set(s@) && e == CreditsError::AddressNotSet,
        },
{
    let sink = match get_contract_address(&s.sink_contract) {
        Ok(a) => a,
        Err(e) => return Err(e),
    };
    let router = match get_contract_address(&s.soroswap_router) {
        Ok(a) => a,
        Err(e) => return Err(e),
    };
    Ok((sink, router))
}

pub fn write_external_contracts(s: &mut Storage, sink: &Address, soroswapRouter: &Address)
    ensures
        final(s)@ == old(s)@.with_external_contracts(sink@, soroswapRouter@),
{
    s.sink_contract = Some(sink.duplicate());
    s.soroswap_router = Some(soroswapRouter.duplicate());
}

fn same_opt_bytes(a: &Option<Vec<u8>>, b: &Option<Vec<u8>>) -> (r: bool)
    ensures
        r == (opt_bytes_view(*a) == opt_bytes_view(*b)),
{
    match (a, b) {
        (Some(x), Some(y)) => same_bytes(x, y),
        (None, None) => true,
        _ => false,
    }
}

/// The position of a key in the order in which `DataKey` lists them.
pub open spec fn key_index(k: DataKey) -> int {
    match k {
        DataKey::Admin => 0,
        DataKey::Balance => 1,
        DataKey::Initiative => 2,
        DataKey::MinimumDonation => 3,
        DataKey::Provider => 4,
        DataKey::ProviderFees => 5,
        DataKey::Vendor => 6,
        DataKey::VendorFees => 7,
        DataKey::XLMContract => 8,
        DataKey::USDCContract => 9,
        DataKey::CarbonSac => 10,
        DataKey::SinkContract => 11,
        DataKey::SoroswapRouter => 12,
    }
}

/// Number of keys.
pub const KEY_COUNT: usize = 13;

/// The key at a position in the order in which `DataKey` lists them.
fn key_at(i: usize) -> (k: DataKey)
    requires
        i < KEY_COUNT,
    ensures
        key_index(k) == i,
{
    match i {
        0 => DataKey::Admin,
        1 => DataKey::Balance,
        2 => DataKey::Initiative,
        3 => DataKey::MinimumDonation,
        4 => DataKey::Provider,
        5 => DataKey::ProviderFees,
        6 => DataKey::Vendor,
        7 => DataKey::VendorFees,
        8 => DataKey::XLMContract,
        9 => DataKey::USDCContract,
        10 => DataKey::CarbonSac,
        11 => DataKey::SinkContract,
        _ => DataKey::SoroswapRouter,
    }
}

proof fn lemma_key_index(a: DataKey, b: DataKey)
    ensures
        0 <= key_index(a) < KEY_COUNT,
        key_index(a) == key_index(b) ==> a == b,
{
}

/// Whether two storages hold different entries under `k`.
fn entry_differs(before: &Storage, after: &Storage, k: DataKey) -> (r: bool)
    ensures
        r == !before@.same_at(after@, k),
{
    match k {
        DataKey::Admin => !same_opt(&before.admin, &after.admin),
        DataKey::Balance => before.balance != after.balance,
        DataKey::Initiative => !same_opt_bytes(&before.initiative, &after.initiative),
        DataKey::MinimumDonation => before.minimum_donation != after.minimum_donation,
        DataKey::Provider => !same_opt(&before.provider, &after.provider),
        DataKey::ProviderFees => before.provider_fees != after.provider_fees,
        DataKey::Vendor => !same_opt(&before.vendor, &after.vendor),
        DataKey::VendorFees => before.vendor_fees != after.vendor_fees,
        DataKey::XLMContract => !same_opt(&before.xlm_contract, &after.xlm_contract),
        DataKey::USDCContract => !same_opt(&before.usdc_contract, &after.usdc_contract),
        DataKey::CarbonSac => !same_opt(&before.carbon_sac, &after.carbon_sac),
        DataKey::SinkContract => !same_opt(&before.sink_contract, &after.sink_contract),
        DataKey::SoroswapRouter => !same_opt(&before.soroswap_router, &after.soroswap_router),
    }
}

/// The keys whose entries differ between two storages, each once, in the
/// order in which `DataKey` lists them; what a caller must write back to
/// bring `before` to `after`.
pub fn changed_keys(before: &Storage, after: &Storage) -> (keys: Vec<DataKey>)
    ensures
        forall|k: DataKey| keys@.contains(k) <==> !before@.same_at(after@, k),
        keys@.no_duplicates(),
        forall|a: int, b: int|
            0 <= a < b < keys@.len() ==> key_index(keys@[a]) < key_index(keys@[b]),
{
    let mut keys: Vec<DataKey> = Vec::new();
    let mut i: usize = 0;
    while i < KEY_COUNT
        invariant
            i <= KEY_COUNT,
            forall|k: DataKey|
                keys@.contains(k) <==> (key_index(k) < i && !before@.same_at(after@, k)),
            forall|a: int| 0 <= a < keys@.len() ==> key_index(#[trigger] keys@[a]) < i,
            forall|a: int, b: int|
                0 <= a < b < keys@.len() ==> key_index(keys@[a]) < key_index(keys@[b]),
        decreases KEY_COUNT - i,
    {
        let k = key_at(i);
        let ghost old_keys = keys@;
        let differs = entry_differs(before, after, k);
        if differs {
            keys.push(k);
        }
        assert(differs ==> keys@ == old_keys.push(k));
        assert(!differs ==> keys@ == old_keys);
        assert forall|x: DataKey|
            keys@.contains(x) <==> (key_index(x) < i + 1 && !before@.same_at(after@, x)) by {
            lemma_key_index(x, k);
            if keys@.contains(x) {
                let j = choose|j: int| 0 <= j < keys@.len() && keys@[j] == x;
                if j < old_keys.len() {
                    assert(old_keys[j] == x);
                    assert(old_keys.contains(x));
                }
            }
            if key_index(x) < i + 1 && !before@.same_at(after@, x) {
                if key_index(x) < i {
                    assert(old_keys.contains(x));
                    let j = choose|j: int| 0 <= j < old_keys.len() && old_keys[j] == x;
                    assert(keys@[j] == x);
                } else {
                    assert(x == k);
                    assert(keys@[keys@.len() - 1] == x);
                }
            }
        }
        i = i + 1;
    }
    assert forall|a: int, b: int| 0 <= a < keys@.len() && 0 <= b < keys@.len() && a != b implies
        keys@[a] != keys@[b] by {
        if a < b {
            assert(key_index(keys@[a]) < key_index(keys@[b]));
        } else {
            assert(key_index(keys@[b]) < key_index(keys@[a]));
        }
    }
    keys
}

} // verus!
