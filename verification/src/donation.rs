use vstd::prelude::*;

use crate::address::Address;
use crate::arith::{fee_share, fits_i128, percent_of, remainder, trunc_rem};
use crate::calls::{after_call, Call};
use crate::contract::{
    swap_request_spec, Credits, Party, PartyView, Payment, PaymentView, SwapRequest,
    SwapRequestView, SWAP_OUTPUT_INDEX,
};
use crate::errors::CreditsError;
use crate::events::{donation, Event, EventView};
use crate::storage::{
    externals_set, read_balance, read_external_contracts, read_minimum_donation, read_provider,
    read_provider_fees, read_token_contracts, read_vendor, read_vendor_fees, tokens_set,
    write_balance, Storage, StorageView,
};

verus! {

/// Why a donation of `amount` is refused before the donor is asked to
/// authorize it, or `None` where it is accepted.
pub open spec fn donation_error(s: StorageView, amount: i128) -> Option<CreditsError> {
    if amount <= 0 {
        Some(CreditsError::AmountNotPositive)
    } else if amount < s.minimum_donation_read() {
        Some(CreditsError::BelowMinimum)
    } else {
        None
    }
}

/// What a donation does to the carbon balance: the accumulated balance plus
/// the carbon just bought is kept whole below one bucket, and from one
/// bucket on only its remainder by the bucket is kept while the rest is
/// paid to the provider. Gives the new balance and the payout.
pub open spec fn settle(balance: i128, carbon: i128, bucket: i128) -> Result<(int, Option<int>), CreditsError> {
    let total = balance + carbon;
    if !fits_i128(total) {
        Err(CreditsError::Overflow)
    } else if total >= bucket {
        if bucket == 0 {
            Err(CreditsError::DivisionByZero)
        } else {
            let reminder = trunc_rem(total, bucket as int);
            Ok((reminder, Some(total - reminder)))
        }
    } else {
        Ok((total, None))
    }
}

/// What a donation in progress waits for: the outcome of the last action it
/// asked of the host.
#[derive(Clone, Copy, Debug, PartialEq, Eq, Structural)]
pub enum Stage {
    /// The donor's authorization.
    DonorAuth,
    /// The sink's minimum amount, the bucket size.
    Bucket,
    /// The transfer of the donation from the donor to the contract.
    Deposit,
    /// The contract's authorization of the swap.
    ContractAuth,
    /// The amounts the router reports for the swap.
    Swap,
    /// The transfer of the vendor's share.
    VendorPayment,
    /// The transfer of the payout to the provider.
    Payout,
    /// The publication of the donation event.
    Publish,
    /// Nothing: the donation is done.
    Finished,
}

/// What a donation asks of the host next.
#[derive(Clone, Debug, PartialEq, Eq)]
pub enum Action {
    RequireAuth(Party),
    /// Ask the sink at this address for its minimum amount.
    QueryBucket(Address),
    Transfer(Payment),
    Swap(SwapRequest),
    Publish(Event),
    Finished,
}

pub enum ActionView {
    RequireAuth(PartyView),
    QueryBucket(Seq<u8>),
    Transfer(PaymentView),
    Swap(SwapRequestView),
    Publish(EventView),
    Finished,
}

impl View for Action {
    type V = ActionView;

    open spec fn view(&self) -> ActionView {
        match self {
            Action::RequireAuth(p) => ActionView::RequireAuth(p@),
            Action::QueryBucket(a) => ActionView::QueryBucket(a@),
            Action::Transfer(p) => ActionView::Transfer(p@),
            Action::Swap(q) => ActionView::Swap(q@),
            Action::Publish(e) => ActionView::Publish(e@),
            Action::Finished => ActionView::Finished,
        }
    }
}

/// What the host answers to the last action.
#[derive(Clone, Debug, PartialEq, Eq)]
pub enum Answer {
    /// The action was carried out (an authorization, a transfer, a
    /// publication).
    Done,
    /// The sink's minimum amount.
    Bucket(i128),
    /// The amounts the router reports for the swap.
    SwapAmounts(Vec<i128>),
}

pub enum AnswerView {
    Done,
    Bucket(i128),
    SwapAmounts(Seq<i128>),
}

impl View for Answer {
    type V = AnswerView;

    open spec fn view(&self) -> AnswerView {
        match self {
            Answer::Done => AnswerView::Done,
            Answer::Bucket(b) => AnswerView::Bucket(*b),
            Answer::SwapAmounts(v) => AnswerView::SwapAmounts(v@),
        }
    }
}

/// Whether `a` is the kind of answer a donation waiting at `stage` takes.
pub open spec fn answers(stage: Stage, a: AnswerView) -> bool {
    match stage {
        Stage::Bucket => a is Bucket,
        Stage::Swap => a is SwapAmounts,
        Stage::Finished => false,
        _ => a is Done,
    }
}

/// A donation in progress.
#[derive(Debug)]
pub struct DonationFlow {
    donor: Address,
    amount: i128,
    now: u64,
    stage: Stage,
    provider: Address,
    provider_fees: i128,
    vendor_fees: i128,
    balance: i128,
    bucket: i128,
    xlm: Address,
    share: i128,
    carbon: i128,
}

/// The state of a donation in progress: the donor, the amount and the
/// ledger time, the stage, and what it has read or been told so far (each
/// meaningful from the stage at which it is set on).
pub struct FlowView {
    pub donor: Seq<u8>,
    pub amount: i128,
    pub now: u64,
    pub stage: Stage,
    pub provider: Seq<u8>,
    pub provider_fees: i128,
    pub vendor_fees: i128,
    pub balance: i128,
    pub bucket: i128,
    pub xlm: Seq<u8>,
    pub share: i128,
    pub carbon: i128,
}

impl View for DonationFlow {
    type V = FlowView;

    closed spec fn view(&self) -> FlowView {
        FlowView {
            donor: self.donor@,
            amount: self.amount,
            now: self.now,
            stage: self.stage,
            provider: self.provider@,
            provider_fees: self.provider_fees,
            vendor_fees: self.vendor_fees,
            balance: self.balance,
            bucket: self.bucket,
            xlm: self.xlm@,
            share: self.share,
            carbon: self.carbon,
        }
    }
}

/// The event that records a donation.
pub open spec fn donation_event(f: FlowView) -> EventView {
    EventView::Donation { from: f.donor, destin: f.provider, amount: f.amount }
}

/// Settling the carbon bought: the balance read at the start plus the
/// carbon, by `settle`; the new balance is written, then the payout, if any,
/// goes from the contract to the provider in XLM, then the event.
pub open spec fn settle_step(s: StorageView, f: FlowView) -> Result<(StorageView, FlowView, ActionView), CreditsError> {
    match settle(f.balance, f.carbon, f.bucket) {
        Err(e) => Err(e),
        Ok((kept, payout)) => {
            let s2 = after_call(s, Call::SettleDonation(kept as i128));
            match payout {
                Some(p) => Ok((
                    s2,
                    FlowView { stage: Stage::Payout, ..f },
                    ActionView::Transfer(PaymentView {
                        token: f.xlm,
                        from: PartyView::ThisContract,
                        to: PartyView::Account(f.provider),
                        amount: p as i128,
                    }),
                )),
                None => Ok((s2, FlowView { stage: Stage::Publish, ..f }, ActionView::Publish(donation_event(f)))),
            }
        },
    }
}

/// One step of a donation: from the storage, the donation's state and the
/// host's answer to the last action, the storage, state and action after
/// it, or why the donation is refused there. In order, a donation asks for
/// the donor's authorization; reads the provider, the fee rates and the
/// balance and asks the stored sink for the bucket size; reads the XLM token
/// and moves the donation from the donor to the contract; takes the
/// provider's share (`amount * provider fees / 100`, rounded toward zero)
/// and refuses it where it is zero or less; asks the contract's own
/// authorization for the swap; swaps the share through the router; takes the
/// carbon out of the router's answer and the vendor's share, paying the
/// vendor where that share is above zero; settles (`settle_step`); publishes
/// the donation event; and is finished.
pub open spec fn next(s: StorageView, f: FlowView, a: AnswerView) -> Result<(StorageView, FlowView, ActionView), CreditsError> {
    match f.stage {
        Stage::DonorAuth => {
            if s.provider is None || !externals_set(s) {
                Err(CreditsError::AddressNotSet)
            } else {
                Ok((
                    s,
                    FlowView {
                        stage: Stage::Bucket,
                        provider: s.provider_read(),
                        provider_fees: s.provider_fees_read(),
                        vendor_fees: s.vendor_fees_read(),
                        balance: s.balance_read(),
                        ..f
                    },
                    ActionView::QueryBucket(s.sink_read()),
                ))
            }
        },
        Stage::Bucket => {
            if !tokens_set(s) {
                Err(CreditsError::AddressNotSet)
            } else {
                Ok((
                    s,
                    FlowView { stage: Stage::Deposit, bucket: a->Bucket_0, xlm: s.xlm_read(), ..f },
                    ActionView::Transfer(PaymentView {
                        token: s.xlm_read(),
                        from: PartyView::Account(f.donor),
                        to: PartyView::ThisContract,
                        amount: f.amount,
                    }),
                ))
            }
        },
        Stage::Deposit => {
            if !fits_i128(f.amount * f.provider_fees) {
                Err(CreditsError::Overflow)
            } else if fee_share(f.amount as int, f.provider_fees as int) <= 0 {
                Err(CreditsError::AmountNotPositive)
            } else {
                Ok((
                    s,
                    FlowView {
                        stage: Stage::ContractAuth,
                        share: fee_share(f.amount as int, f.provider_fees as int) as i128,
                        ..f
                    },
                    ActionView::RequireAuth(PartyView::ThisContract),
                ))
            }
        },
        Stage::ContractAuth => {
            match swap_request_spec(s, PartyView::ThisContract, f.share, f.now) {
                Err(e) => Err(e),
                Ok(q) => Ok((s, FlowView { stage: Stage::Swap, ..f }, ActionView::Swap(q))),
            }
        },
        Stage::Swap => {
            let v = a->SwapAmounts_0;
            if v.len() <= SWAP_OUTPUT_INDEX {
                Err(CreditsError::MissingSwapResult)
            } else if !fits_i128(f.amount * f.vendor_fees) {
                Err(CreditsError::Overflow)
            } else {
                let f2 = FlowView { carbon: v[SWAP_OUTPUT_INDEX as int], ..f };
                let vendor_share = fee_share(f.amount as int, f.vendor_fees as int);
                if vendor_share > 0 {
                    if s.vendor is None {
                        Err(CreditsError::AddressNotSet)
                    } else {
                        Ok((
                            s,
                            FlowView { stage: Stage::VendorPayment, ..f2 },
                            ActionView::Transfer(PaymentView {
                                token: f.xlm,
                                from: PartyView::ThisContract,
                                to: PartyView::Account(s.vendor_read()),
                                amount: vendor_share as i128,
                            }),
                        ))
                    }
                } else {
                    settle_step(s, f2)
                }
            }
        },
        Stage::VendorPayment => settle_step(s, f),
        Stage::Payout => Ok((s, FlowView { stage: Stage::Publish, ..f }, ActionView::Publish(donation_event(f)))),
        Stage::Publish => Ok((s, FlowView { stage: Stage::Finished, ..f }, ActionView::Finished)),
        Stage::Finished => Ok((s, f, ActionView::Finished)),
    }
}

impl Credits {
    /// Starts a donation of `amount` by `from` at ledger time `now`: refused
    /// when it is zero or less, or below the stored minimum; otherwise the
    /// donor is asked to authorize it.
    pub fn donate(s: &Storage, from: &Address, amount: i128, now: u64) -> (r: Result<(DonationFlow, Action), CreditsError>)
        ensures
            match r {
                Err(e) => donation_error(s@, amount) == Some(e),
                Ok((f, act)) => {
                    &&& donation_error(s@, amount) is None
                    &&& f@.donor == from@
                    &&& f@.amount == amount
                    &&& f@.now == now
                    &&& f@.stage == Stage::DonorAuth
                    &&& act@ == ActionView::RequireAuth(PartyView::Account(from@))
                },
            },
    {
        if amount <= 0 {
            return Err(CreditsError::AmountNotPositive);
        }
        let minimum = read_minimum_donation(s);
        if amount < minimum {
            return Err(CreditsError::BelowMinimum);
        }
        let flow = DonationFlow {
            donor: from.duplicate(),
            amount,
            now,
            stage: Stage::DonorAuth,
            provider: Address::new(Vec::new()),
            provider_fees: 0,
            vendor_fees: 0,
            balance: 0,
            bucket: 0,
            xlm: Address::new(Vec::new()),
            share: 0,
            carbon: 0,
        };
        Ok((flow, Action::RequireAuth(Party::Account(from.duplicate()))))
    }
}

impl DonationFlow {
    /// What the donation waits for.
    pub fn stage(&self) -> (st: Stage)
        ensures
            st == self@.stage,
    {
        self.stage
    }

    fn settle_step(&mut self, s: &mut Storage) -> (r: Result<Action, CreditsError>)
        ensures
            match r {
                Ok(act) => settle_step(old(s)@, old(self)@) == Ok::<(StorageView, FlowView, ActionView), CreditsError>(
                    (final(s)@, final(self)@, act@),
                ),
                Err(e) => settle_step(old(s)@, old(self)@) == Err::<(StorageView, FlowView, ActionView), CreditsError>(e)
                    && final(s)@ == old(s)@,
            },
    {
        let total = match self.balance.checked_add(self.carbon) {
            Some(v) => v,
            None => return Err(CreditsError::Overflow),
        };
        if total >= self.bucket {
            if self.bucket == 0 {
                return Err(CreditsError::DivisionByZero);
            }
            let reminder = remainder(total, self.bucket);
            proof {
                crate::arith::lemma_rem_bounds(total as int, self.bucket as int);
            }
            let credits = total - reminder;
            write_balance(s, reminder);
            self.stage = Stage::Payout;
            Ok(Action::Transfer(Payment {
                token: self.xlm.duplicate(),
                from: Party::ThisContract,
                to: Party::Account(self.provider.duplicate()),
                amount: credits,
            }))
        } else {
            write_balance(s, total);
            self.stage = Stage::Publish;
            Ok(Action::Publish(donation(self.donor.duplicate(), self.provider.duplicate(), self.amount)))
        }
    }

    /// Takes the host's answer to the last action and gives the next one;
    /// exactly `next`. On a refusal the storage is left as it was.
    pub fn step(&mut self, s: &mut Storage, answer: Answer) -> (r: Result<Action, CreditsError>)
        requires
            answers(old(self)@.stage, answer@),
        ensures
            match r {
                Ok(act) => next(old(s)@, old(self)@, answer@) == Ok::<(StorageView, FlowView, ActionView), CreditsError>(
                    (final(s)@, final(self)@, act@),
                ),
                Err(e) => next(old(s)@, old(self)@, answer@) == Err::<(StorageView, FlowView, ActionView), CreditsError>(e)
                    && final(s)@ == old(s)@,
            },
    {
        match self.stage {
            Stage::DonorAuth => {
                let provider = match read_provider(s) {
                    Ok(a) => a,
                    Err(e) => return Err(e),
                };
                let (sink, _) = match read_external_contracts(s) {
                    Ok(t) => t,
                    Err(e) => return Err(e),
                };
                self.provider = provider;
                self.provider_fees = read_provider_fees(s);
                self.vendor_fees = read_vendor_fees(s);
                self.balance = read_balance(s);
                self.stage = Stage::Bucket;
                Ok(Action::QueryBucket(sink))
            },
            Stage::Bucket => {
                let bucket = match answer {
                    Answer::Bucket(b) => b,
                    _ => 0,
                };
                let (xlm, _, _) = match read_token_contracts(s) {
                    Ok(t) => t,
                    Err(e) => return Err(e),
                };
                self.bucket = bucket;
                self.xlm = xlm.duplicate();
                self.stage = Stage::Deposit;
                Ok(Action::Transfer(Payment {
                    token: xlm,
                    from: Party::Account(self.donor.duplicate()),
                    to: Party::ThisContract,
                    amount: self.amount,
                }))
            },
            Stage::Deposit => {
                let share = match percent_of(self.amount, self.provider_fees) {
                    Ok(v) => v,
                    Err(e) => return Err(e),
                };
                if share <= 0 {
                    return Err(CreditsError::AmountNotPositive);
                }
                self.share = share;
                self.stage = Stage::ContractAuth;
                Ok(Action::RequireAuth(Party::ThisContract))
            },
            Stage::ContractAuth => {
                let request = match Credits::swap_request(s, Party::ThisContract, self.share, self.now) {
                    Ok(q) => q,
                    Err(e) => return Err(e),
                };
                self.stage = Stage::Swap;
                Ok(Action::Swap(request))
            },
            Stage::Swap => {
                let carbon = match &answer {
                    Answer::SwapAmounts(v) => match Credits::swap_output(v) {
                        Ok(c) => c,
                        Err(e) => return Err(e),
                    },
                    _ => 0,
                };
                let vendor_share = match percent_of(self.amount, self.vendor_fees) {
                    Ok(v) => v,
                    Err(e) => return Err(e),
                };
                self.carbon = carbon;
                if vendor_share > 0 {
                    let vendor = match read_vendor(s) {
                        Ok(a) => a,
                        Err(e) => return Err(e),
                    };
                    self.stage = Stage::VendorPayment;
                    Ok(Action::Transfer(Payment {
                        token: self.xlm.duplicate(),
                        from: Party::ThisContract,
                        to: Party::Account(vendor),
                        amount: vendor_share,
                    }))
                } else {
                    self.settle_step(s)
                }
            },
            Stage::VendorPayment => self.settle_step(s),
            Stage::Payout => {
                self.stage = Stage::Publish;
                Ok(Action::Publish(donation(self.donor.duplicate(), self.provider.duplicate(), self.amount)))
            },
            Stage::Publish => {
                self.stage = Stage::Finished;
                Ok(Action::Finished)
            },
            Stage::Finished => Ok(Action::Finished),
        }
    }
}

} // verus!
