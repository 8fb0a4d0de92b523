use vstd::prelude::*;

use crate::address::{opt_view, Address};
use crate::admin::{read_administrator, write_administrator};
use crate::calls::{after_call, Call};
use crate::contract::Credits;
use crate::errors::CreditsError;
use crate::storage::{
    read_balance, read_external_contracts, read_initiative, read_minimum_donation, read_provider,
    read_provider_fees, read_token_contracts, read_vendor, read_vendor_fees,
    write_balance, write_external_contracts, write_initiative, write_minimum_donation,
    write_provider, write_provider_fees, write_token_contracts, write_vendor, write_vendor_fees,
    address_read, externals_set, tokens_set, Storage, StorageView,
};

verus! {

/// Smallest donation accepted right after deployment.
pub const INITIAL_MINIMUM_DONATION: i128 = 1000000;

/// Provider fee rate right after deployment, in percent.
pub const INITIAL_PROVIDER_FEES: i128 = 90;

/// Vendor fee rate right after deployment, in percent.
pub const INITIAL_VENDOR_FEES: i128 = 10;

/// What the constructor writes over `s`.
pub open spec fn constructed(
    s: StorageView,
    admin: Seq<u8>,
    initiative: Seq<u8>,
    provider: Seq<u8>,
    vendor: Seq<u8>,
    xlm: Seq<u8>,
    usdc: Seq<u8>,
    carbon_sac: Seq<u8>,
    sink: Seq<u8>,
    soroswap_router: Seq<u8>,
) -> StorageView {
    s.with_admin(admin)
        .with_balance(0)
        .with_initiative(initiative)
        .with_minimum_donation(INITIAL_MINIMUM_DONATION)
        .with_provider(provider)
        .with_provider_fees(INITIAL_PROVIDER_FEES)
        .with_vendor(vendor)
        .with_vendor_fees(INITIAL_VENDOR_FEES)
        .with_token_contracts(xlm, usdc, carbon_sac)
        .with_external_contracts(sink, soroswap_router)
}

impl Credits {
    /// Sets the contract up: the given administrator, initiative and
    /// addresses, a zero balance, the initial minimum donation and the
    /// initial fee rates.
    pub fn __constructor(
        s: &mut Storage,
        admin: Address,
        initiative: Vec<u8>,
        provider: Address,
        vendor: Address,
        xlm: Address,
        usdc: Address,
        carbonSac: Address,
        sink: Address,
        soroswapRouter: Address,
    ) -> (r: Result<(), CreditsError>)
        ensures
            r is Ok,
            final(s)@ == after_call(
                old(s)@,
                Call::Construct {
                    admin: admin@,
                    initiative: initiative@,
                    provider: provider@,
                    vendor: vendor@,
                    xlm: xlm@,
                    usdc: usdc@,
                    carbon_sac: carbonSac@,
                    sink: sink@,
                    soroswap_router: soroswapRouter@,
                },
            ),
    {
        write_administrator(s, &admin);
        write_balance(s, 0);
        write_initiative(s, initiative);
        write_minimum_donation(s, INITIAL_MINIMUM_DONATION);
        write_provider(s, &provider);
        write_provider_fees(s, INITIAL_PROVIDER_FEES);
        write_vendor(s, &vendor);
        write_vendor_fees(s, INITIAL_VENDOR_FEES);
        write_token_contracts(s, &xlm, &usdc, &carbonSac);
        write_external_contracts(s, &sink, &soroswapRouter);
        Ok(())
    }

    //---- VIEWS

    /// The administrator, where one is stored.
    pub fn getAdmin(s: &Storage) -> (r: Option<Address>)
        ensures
            opt_view(r) == s@.admin,
    {
        read_administrator(s)
    }

    /// The carbon accumulated towards the next bucket.
    pub fn getBalance(s: &Storage) -> (r: i128)
        ensures
            r == s@.balance_read(),
    {
        read_balance(s)
    }

    pub fn getInitiative(s: &Storage) -> (r: Vec<u8>)
        ensures
            r@ == s@.initiative_read(),
    {
        read_initiative(s)
    }

    pub fn getMinimum(s: &Storage) -> (r: i128)
        ensures
            r == s@.minimum_donation_read(),
    {
        read_minimum_donation(s)
    }

    pub fn getProvider(s: &Storage) -> (r: Result<Address, CreditsError>)
        ensures
            address_read(s@.provider, r),
    {
        read_provider(s)
    }

    pub fn getProviderFees(s: &Storage) -> (r: i128)
        ensures
            r == s@.provider_fees_read(),
    {
        read_provider_fees(s)
    }

    pub fn getVendor(s: &Storage) -> (r: Result<Address, CreditsError>)
        ensures
            address_read(s@.vendor, r),
    {
        read_vendor(s)
    }

    pub fn getVendorFees(s: &Storage) -> (r: i128)
        ensures
            r == s@.vendor_fees_read(),
    {
        read_vendor_fees(s)
    }

    /// The XLM, USDC and carbon token contracts, in that order.
    pub fn getTokens(s: &Storage) -> (r: Result<(Address, Address, Address), CreditsError>)
        ensures
            match r {
                Ok(t) => tokens_set(s@) && t.0@ == s@.xlm_read() && t.1@ == s@.usdc_read()
                    && t.2@ == s@.carbon_sac_read(),
                Err(e) => !tokens_set(s@) && e == CreditsError::AddressNotSet,
            },
    {
        read_token_contracts(s)
    }

    /// The sink contract and the Soroswap router, in that order.
    pub fn getExternalContracts(s: &Storage) -> (r: Result<(Address, Address), CreditsError>)
        ensures
            match r {
                Ok(t) => externals_set(s@) && t.0@ == s@.sink_read() && t.1@ == s@.router_read(),
                Err(e) => !externals_set(s@) && e == CreditsError::AddressNotSet,
            },
    {
        read_external_contracts(s)
    }
}

} // verus!
