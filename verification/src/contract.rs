use vstd::prelude::*;

use crate::address::Address;
use crate::errors::CreditsError;
use crate::storage::{externals_set, read_external_contracts, read_token_contracts, tokens_set, Storage, StorageView};

verus! {

/// The credits contract. Its operations work on a model of the contract's
/// storage; where an operation needs the host (authorization, token and
/// router calls, the sink contract, events) it hands back what to ask of
/// the host, or takes the host's answer as an argument.
pub struct Credits;

/// Who pays, is paid or authorizes: an account or contract by address, or
/// the credits contract itself.
#[derive(Clone, Debug, PartialEq, Eq)]
pub enum Party {
    Account(Address),
    ThisContract,
}

pub enum PartyView {
    Account(Seq<u8>),
    ThisContract,
}

impl View for Party {
    type V = PartyView;

    open spec fn view(&self) -> PartyView {
        match self {
            Party::Account(a) => PartyView::Account(a@),
            Party::ThisContract => PartyView::ThisContract,
        }
    }
}

/// A token transfer.
#[derive(Clone, Debug, PartialEq, Eq)]
pub struct Payment {
    pub token: Address,
    pub from: Party,
    pub to: Party,
    pub amount: i128,
}

pub struct PaymentView {
    pub token: Seq<u8>,
    pub from: PartyView,
    pub to: PartyView,
    pub amount: i128,
}

impl View for Payment {
    type V = PaymentView;

    open spec fn view(&self) -> PaymentView {
        PaymentView { token: self.token@, from: self.from@, to: self.to@, amount: self.amount }
    }
}

/// How long a swap stays valid, in seconds of ledger time.
pub const SWAP_VALIDITY_SECONDS: u64 = 60;

/// A swap on the router: exactly `amount_in` of the first token of `path`
/// for the last, along `path`, with at least `amount_out_min` out, paid to
/// `to`, who has authorized it, before ledger time `deadline`.
#[derive(Clone, Debug, PartialEq, Eq)]
pub struct SwapRequest {
    pub router: Address,
    pub amount_in: i128,
    pub amount_out_min: i128,
    pub path: Vec<Address>,
    pub to: Party,
    pub deadline: u64,
}

pub struct SwapRequestView {
    pub router: Seq<u8>,
    pub amount_in: i128,
    pub amount_out_min: i128,
    pub path: Seq<Seq<u8>>,
    pub to: PartyView,
    pub deadline: u64,
}

/// The views of a sequence of addresses.
pub open spec fn addresses_view(v: Seq<Address>) -> Seq<Seq<u8>> {
    v.map_values(|a: Address| a@)
}

impl View for SwapRequest {
    type V = SwapRequestView;

    open spec fn view(&self) -> SwapRequestView {
        SwapRequestView {
            router: self.router@,
            amount_in: self.amount_in,
            amount_out_min: self.amount_out_min,
            path: addresses_view(self.path@),
            to: self.to@,
            deadline: self.deadline,
        }
    }
}

/// What a swap of `amount_in` XLM to carbon for `to` at ledger time `now`
/// asks of the router, once `to` authorized it: refused where a token
/// contract, the sink or the router is unset, and then where the deadline
/// does not fit a `u64`.
pub open spec fn swap_request_spec(s: StorageView, to: PartyView, amount_in: i128, now: u64) -> Result<SwapRequestView, CreditsError> {
    if !tokens_set(s) || !externals_set(s) {
        Err(CreditsError::AddressNotSet)
    } else if now + SWAP_VALIDITY_SECONDS > u64::MAX {
        Err(CreditsError::Overflow)
    } else {
        Ok(SwapRequestView {
            router: s.router_read(),
            amount_in,
            amount_out_min: 0,
            path: seq![s.xlm_read(), s.usdc_read(), s.carbon_sac_read()],
            to,
            deadline: (now + SWAP_VALIDITY_SECONDS) as u64,
        })
    }
}

/// An accepted swap of `amount` XLM to carbon for `from`, who must
/// authorize it next.
#[derive(Clone, Debug, PartialEq, Eq)]
pub struct Swap {
    pub from: Address,
    pub amount: i128,
}

/// Index, in the amounts the router reports for a swap along three tokens,
/// of the amount that came out at the end.
pub const SWAP_OUTPUT_INDEX: usize = 2;

impl Credits {
    /// Accepts a swap of `xlm_amount` XLM to carbon credits for `from`,
    /// before `from` is asked to authorize it; refused for an amount of zero
    /// or less.
    pub fn swap_xlm_to_carbon(from: &Address, xlm_amount: i128) -> (r: Result<Swap, CreditsError>)
        ensures
            match r {
                Err(e) => xlm_amount <= 0 && e == CreditsError::AmountNotPositive,
                Ok(q) => xlm_amount > 0 && q.from@ == from@ && q.amount == xlm_amount,
            },
    {
        if xlm_amount <= 0 {
            return Err(CreditsError::AmountNotPositive);
        }
        Ok(Swap { from: from.duplicate(), amount: xlm_amount })
    }

    /// The router request for a swap of `amount_in` XLM to carbon for `to`
    /// at ledger time `now`, once `to` authorized it: through the stored
    /// router, along the stored XLM, USDC and carbon tokens, with no minimum
    /// out, valid for `SWAP_VALIDITY_SECONDS`.
    pub fn swap_request(s: &Storage, to: Party, amount_in: i128, now: u64) -> (r: Result<SwapRequest, CreditsError>)
        ensures
            match r {
                Ok(q) => swap_request_spec(s@, to@, amount_in, now) == Ok::<SwapRequestView, CreditsError>(q@),
                Err(e) => swap_request_spec(s@, to@, amount_in, now) == Err::<SwapRequestView, CreditsError>(e),
            },
    {
        let ghost to_view = to@;
        let (xlm, usdc, carbon) = match read_token_contracts(s) {
            Ok(t) => t,
            Err(e) => return Err(e),
        };
        let (_, soroswap_router) = match read_external_contracts(s) {
            Ok(t) => t,
            Err(e) => return Err(e),
        };
        let deadline = match now.checked_add(SWAP_VALIDITY_SECONDS) {
            Some(d) => d,
            None => return Err(CreditsError::Overflow),
        };
        let mut path: Vec<Address> = Vec::new();
        path.push(xlm);
        path.push(usdc);
        path.push(carbon);
        assert(addresses_view(path@) =~= seq![s@.xlm_read(), s@.usdc_read(), s@.carbon_sac_read()]);
        Ok(SwapRequest { router: soroswap_router, amount_in, amount_out_min: 0, path, to, deadline })
    }

    /// The carbon a swap along three tokens bought, from the amounts the
    /// router reports (what went in, then what came out at each hop); refused
    /// where the router reported fewer than three.
    pub fn swap_output(executed_amounts: &Vec<i128>) -> (r: Result<i128, CreditsError>)
        ensures
            match r {
                Ok(c) => executed_amounts@.len() > SWAP_OUTPUT_INDEX
                    && c == executed_amounts@[SWAP_OUTPUT_INDEX as int],
                Err(e) => executed_amounts@.len() <= SWAP_OUTPUT_INDEX
                    && e == CreditsError::MissingSwapResult,
            },
    {
        if executed_amounts.len() > SWAP_OUTPUT_INDEX {
            Ok(executed_amounts[SWAP_OUTPUT_INDEX])
        } else {
            Err(CreditsError::MissingSwapResult)
        }
    }
}

} // verus!
