use vstd::prelude::*;

use crate::address::Address;
use crate::admin::{check_admin, write_administrator};
use crate::calls::{after_call, call_event, Call};
use crate::contract::Credits;
use crate::errors::CreditsError;
use crate::events::{
    admin, minimum, provider, providerFees, soroswapRouterChange, usdcChange, vendor, vendorFees,
    xlmChange, Event, EventView,
};
use crate::storage::{
    read_external_contracts, read_minimum_donation, read_provider, read_provider_fees,
    read_token_contracts, read_vendor, read_vendor_fees, write_external_contracts,
    write_minimum_donation, write_provider, write_provider_fees, write_token_contracts,
    write_vendor, write_vendor_fees, externals_set, tokens_set, Storage, StorageView,
};

verus! {

/// An accepted admin-only update: the administrator who must authorize it,
/// and the event that records it.
#[derive(Clone, Debug, PartialEq, Eq)]
pub struct AdminUpdate {
    pub admin: Address,
    pub event: Event,
}

/// The outcome of an admin-only update from `pre` to `post`, where
/// `unset` says whether an address the update reads is unset. Refused, with
/// nothing written, when no administrator is stored (`AdminNotSet`), and
/// otherwise when `unset` (`AddressNotSet`; this refusal comes after the
/// administrator's authorization). Else the stored administrator must
/// authorize it, the storage becomes `expected` (what the call leaves,
/// `after_call`), and `event` is published.
pub open spec fn admin_update(
    pre: StorageView,
    post: StorageView,
    r: Result<AdminUpdate, CreditsError>,
    unset: bool,
    expected: StorageView,
    event: EventView,
) -> bool {
    match r {
        Err(e) => post == pre && if pre.admin is None {
            e == CreditsError::AdminNotSet
        } else {
            unset && e == CreditsError::AddressNotSet
        },
        Ok(u) => !unset && pre.admin == Some(u.admin@) && post == expected && u.event@ == event,
    }
}

impl Credits {
    /// Hands the administration to `newval`.
    pub fn setAdmin(s: &mut Storage, newval: Address) -> (r: Result<AdminUpdate, CreditsError>)
        ensures
            admin_update(
                old(s)@,
                final(s)@,
                r,
                false,
                after_call(old(s)@, Call::SetAdmin(newval@)),
                call_event(old(s)@, Call::SetAdmin(newval@)),
            ),
    {
        let current = match check_admin(s) {
            Ok(a) => a,
            Err(e) => return Err(e),
        };
        write_administrator(s, &newval);
        let event = admin(current.duplicate(), newval);
        Ok(AdminUpdate { admin: current, event })
    }

    /// Sets the minimum donation.
    pub fn setMinimum(s: &mut Storage, newval: i128) -> (r: Result<AdminUpdate, CreditsError>)
        ensures
            admin_update(
                old(s)@,
                final(s)@,
                r,
                false,
                after_call(old(s)@, Call::SetMinimum(newval)),
                call_event(old(s)@, Call::SetMinimum(newval)),
            ),
    {
        let current = match check_admin(s) {
            Ok(a) => a,
            Err(e) => return Err(e),
        };
        let oldval = read_minimum_donation(s);
        write_minimum_donation(s, newval);
        Ok(AdminUpdate { admin: current, event: minimum(oldval, newval) })
    }

    /// Sets the carbon-credit provider.
    pub fn setProvider(s: &mut Storage, newval: Address) -> (r: Result<AdminUpdate, CreditsError>)
        ensures
            admin_update(
                old(s)@,
                final(s)@,
                r,
                old(s)@.provider is None,
                after_call(old(s)@, Call::SetProvider(newval@)),
                call_event(old(s)@, Call::SetProvider(newval@)),
            ),
    {
        let current = match check_admin(s) {
            Ok(a) => a,
            Err(e) => return Err(e),
        };
        let oldval = match read_provider(s) {
            Ok(a) => a,
            Err(e) => return Err(e),
        };
        write_provider(s, &newval);
        Ok(AdminUpdate { admin: current, event: provider(oldval, newval) })
    }

    /// Sets the provider's fee rate, in percent of each donation.
    pub fn setProviderFees(s: &mut Storage, newval: i128) -> (r: Result<AdminUpdate, CreditsError>)
        ensures
            admin_update(
                old(s)@,
                final(s)@,
                r,
                false,
                after_call(old(s)@, Call::SetProviderFees(newval)),
                call_event(old(s)@, Call::SetProviderFees(newval)),
            ),
    {
        let current = match check_admin(s) {
            Ok(a) => a,
            Err(e) => return Err(e),
        };
        let oldval = read_provider_fees(s);
        write_provider_fees(s, newval);
        Ok(AdminUpdate { admin: current, event: providerFees(oldval, newval) })
    }

    /// Sets the vendor.
    pub fn setVendor(s: &mut Storage, newval: Address) -> (r: Result<AdminUpdate, CreditsError>)
        ensures
            admin_update(
                old(s)@,
                final(s)@,
                r,
                old(s)@.vendor is None,
                after_call(old(s)@, Call::SetVendor(newval@)),
                call_event(old(s)@, Call::SetVendor(newval@)),
            ),
    {
        let current = match check_admin(s) {
            Ok(a) => a,
            Err(e) => return Err(e),
        };
        let oldval = match read_vendor(s) {
            Ok(a) => a,
            Err(e) => return Err(e),
        };
        write_vendor(s, &newval);
        Ok(AdminUpdate { admin: current, event: vendor(oldval, newval) })
    }

    /// Sets the vendor's fee rate, in percent of each donation.
    pub fn setVendorFees(s: &mut Storage, newval: i128) -> (r: Result<AdminUpdate, CreditsError>)
        ensures
            admin_update(
                old(s)@,
                final(s)@,
                r,
                false,
                after_call(old(s)@, Call::SetVendorFees(newval)),
                call_event(old(s)@, Call::SetVendorFees(newval)),
            ),
    {
        let current = match check_admin(s) {
            Ok(a) => a,
            Err(e) => return Err(e),
        };
        let oldval = read_vendor_fees(s);
        write_vendor_fees(s, newval);
        Ok(AdminUpdate { admin: current, event: vendorFees(oldval, newval) })
    }

    /// Sets the XLM token contract; the USDC and carbon entries are written
    /// back as they read.
    pub fn setXLMToken(s: &mut Storage, newval: Address) -> (r: Result<AdminUpdate, CreditsError>)
        ensures
            admin_update(
                old(s)@,
                final(s)@,
                r,
                !tokens_set(old(s)@),
                after_call(old(s)@, Call::SetXLMToken(newval@)),
                call_event(old(s)@, Call::SetXLMToken(newval@)),
            ),
    {
        let current = match check_admin(s) {
            Ok(a) => a,
            Err(e) => return Err(e),
        };
        let (oldval, usdc, carbon_sac) = match read_token_contracts(s) {
            Ok(t) => t,
            Err(e) => return Err(e),
        };
        write_token_contracts(s, &newval, &usdc, &carbon_sac);
        Ok(AdminUpdate { admin: current, event: xlmChange(oldval, newval) })
    }

    /// Sets the USDC token contract; the XLM and carbon entries are written
    /// back as they read.
    pub fn setUSDCToken(s: &mut Storage, newval: Address) -> (r: Result<AdminUpdate, CreditsError>)
        ensures
            admin_update(
                old(s)@,
                final(s)@,
                r,
                !tokens_set(old(s)@),
                after_call(old(s)@, Call::SetUSDCToken(newval@)),
                call_event(old(s)@, Call::SetUSDCToken(newval@)),
            ),
    {
        let current = match check_admin(s) {
            Ok(a) => a,
            Err(e) => return Err(e),
        };
        let (xlm, oldval, carbon_sac) = match read_token_contracts(s) {
            Ok(t) => t,
            Err(e) => return Err(e),
        };
        write_token_contracts(s, &xlm, &newval, &carbon_sac);
        Ok(AdminUpdate { admin: current, event: usdcChange(oldval, newval) })
    }

    /// Sets the carbon token contract; the XLM and USDC entries are written
    /// back as they read. The change is published under the USDC topic.
    pub fn setCarbonSacToken(s: &mut Storage, newval: Address) -> (r: Result<AdminUpdate, CreditsError>)
        ensures
            admin_update(
                old(s)@,
                final(s)@,
                r,
                !tokens_set(old(s)@),
                after_call(old(s)@, Call::SetCarbonSacToken(newval@)),
                call_event(old(s)@, Call::SetCarbonSacToken(newval@)),
            ),
    {
        let current = match check_admin(s) {
            Ok(a) => a,
            Err(e) => return Err(e),
        };
        let (xlm, usdc, oldval) = match read_token_contracts(s) {
            Ok(t) => t,
            Err(e) => return Err(e),
        };
        write_token_contracts(s, &xlm, &usdc, &newval);
        Ok(AdminUpdate { admin: current, event: usdcChange(oldval, newval) })
    }

    /// Sets the Soroswap router; the sink entry is written back as it reads.
    pub fn setSoroswapRouter(s: &mut Storage, newval: Address) -> (r: Result<AdminUpdate, CreditsError>)
        ensures
            admin_update(
                old(s)@,
                final(s)@,
                r,
                !externals_set(old(s)@),
                after_call(old(s)@, Call::SetSoroswapRouter(newval@)),
                call_event(old(s)@, Call::SetSoroswapRouter(newval@)),
            ),
    {
        let current = match check_admin(s) {
            Ok(a) => a,
            Err(e) => return Err(e),
        };
        let (sink, oldval) = match read_external_contracts(s) {
            Ok(t) => t,
            Err(e) => return Err(e),
        };
        write_external_contracts(s, &sink, &newval);
        Ok(AdminUpdate { admin: current, event: soroswapRouterChange(oldval, newval) })
    }
}

} // verus!
