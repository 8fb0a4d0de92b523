use vstd::prelude::*;

use crate::arith::{fee_share, lemma_rem_positive, trunc_div, PERCENT};
use crate::calls::{after_call, call_event, last_set, read_entry, run, set_by, Call, Entry};
use crate::contract::{PartyView, PaymentView};
use crate::events::{topic_symbol, EventView, Topic};
use crate::donation::{donation_error, next, settle, ActionView, AnswerView, FlowView, Stage};
use crate::errors::{error_message, CreditsError};
use crate::updates::{admin_update, AdminUpdate};
use crate::storage::{spec_is_persistent, tokens_set, DataKey, StorageView};

verus! {

/// A read gives back what the last write of its key wrote.
pub proof fn law_read_after_write(s: StorageView, n: i128, a: Seq<u8>, b: Seq<u8>, c: Seq<u8>)
    ensures
        s.with_admin(a).admin == Some(a),
        s.with_balance(n).balance_read() == n,
        s.with_initiative(a).initiative_read() == a,
        s.with_minimum_donation(n).minimum_donation_read() == n,
        s.with_provider(a).provider_read() == a,
        s.with_provider_fees(n).provider_fees_read() == n,
        s.with_vendor(a).vendor_read() == a,
        s.with_vendor_fees(n).vendor_fees_read() == n,
        s.with_token_contracts(a, b, c).xlm_read() == a,
        s.with_token_contracts(a, b, c).usdc_read() == b,
        s.with_token_contracts(a, b, c).carbon_sac_read() == c,
        s.with_external_contracts(a, b).sink_read() == a,
        s.with_external_contracts(a, b).router_read() == b,
{
}

/// A write leaves the entry of every key it does not write as it was.
pub proof fn law_write_keeps_other_keys(s: StorageView, k: DataKey, n: i128, a: Seq<u8>, b: Seq<u8>, c: Seq<u8>)
    ensures
        k != DataKey::Admin ==> s.with_admin(a).same_at(s, k),
        k != DataKey::Balance ==> s.with_balance(n).same_at(s, k),
        k != DataKey::Initiative ==> s.with_initiative(a).same_at(s, k),
        k != DataKey::MinimumDonation ==> s.with_minimum_donation(n).same_at(s, k),
        k != DataKey::Provider ==> s.with_provider(a).same_at(s, k),
        k != DataKey::ProviderFees ==> s.with_provider_fees(n).same_at(s, k),
        k != DataKey::Vendor ==> s.with_vendor(a).same_at(s, k),
        k != DataKey::VendorFees ==> s.with_vendor_fees(n).same_at(s, k),
        k != DataKey::XLMContract && k != DataKey::USDCContract && k != DataKey::CarbonSac
            ==> s.with_token_contracts(a, b, c).same_at(s, k),
        k != DataKey::SinkContract && k != DataKey::SoroswapRouter
            ==> s.with_external_contracts(a, b).same_at(s, k),
{
}

/// With fee rates that are not negative and add up to at most a hundred
/// percent, the provider's and the vendor's shares of a positive donation
/// are not negative and together take no more than the donation.
pub proof fn law_fee_shares_within_donation(amount: int, provider_fees: int, vendor_fees: int)
    requires
        amount > 0,
        provider_fees >= 0,
        vendor_fees >= 0,
        provider_fees + vendor_fees <= PERCENT,
    ensures
        fee_share(amount, provider_fees) >= 0,
        fee_share(amount, vendor_fees) >= 0,
        fee_share(amount, provider_fees) + fee_share(amount, vendor_fees) <= amount,
{
    let p = amount * provider_fees;
    let v = amount * vendor_fees;
    assert(p >= 0 && v >= 0) by (nonlinear_arith)
        requires
            amount > 0,
            provider_fees >= 0,
            vendor_fees >= 0,
            p == amount * provider_fees,
            v == amount * vendor_fees,
    ;
    assert(p + v <= amount * 100) by (nonlinear_arith)
        requires
            amount > 0,
            provider_fees + vendor_fees <= 100,
            p == amount * provider_fees,
            v == amount * vendor_fees,
    ;
    assert(trunc_div(p, 100) == p / 100);
    assert(trunc_div(v, 100) == v / 100);
    assert(p / 100 >= 0 && v / 100 >= 0);
    assert(p / 100 + v / 100 <= amount) by {
        vstd::arithmetic::div_mod::lemma_fundamental_div_mod(p, 100);
        vstd::arithmetic::div_mod::lemma_fundamental_div_mod(v, 100);
        vstd::arithmetic::div_mod::lemma_mod_pos_bound(p, 100);
        vstd::arithmetic::div_mod::lemma_mod_pos_bound(v, 100);
    }
}

/// Settling a donation keeps every unit of carbon: what stays in the balance
/// plus what is paid out equals the balance before plus the carbon bought.
pub proof fn law_settlement_conserves_carbon(balance: i128, carbon: i128, bucket: i128)
    requires
        settle(balance, carbon, bucket) is Ok,
    ensures
        settle(balance, carbon, bucket) matches Ok((kept, payout))
            && kept + match payout {
                Some(p) => p,
                None => 0,
            } == balance + carbon,
{
}

/// With a positive bucket size, a settlement pays out only once the carbon
/// reaches a bucket, and then whole buckets, keeping less than one bucket;
/// below one bucket nothing is paid and everything is kept.
pub proof fn law_settlement_pays_whole_buckets(balance: i128, carbon: i128, bucket: i128)
    requires
        bucket > 0,
        settle(balance, carbon, bucket) is Ok,
    ensures
        settle(balance, carbon, bucket) matches Ok((kept, payout)) && {
            if balance + carbon >= bucket {
                &&& payout matches Some(p)
                &&& p >= bucket
                &&& p % (bucket as int) == 0
                &&& 0 <= kept < bucket
            } else {
                &&& payout is None
                &&& kept == balance + carbon
            }
        },
{
    let total = balance + carbon;
    if total >= bucket {
        lemma_rem_positive(total, bucket as int);
    }
}

/// With a positive bucket size, a balance that is not negative stays within
/// `[0, bucket)` across every settlement that adds carbon that is not
/// negative.
pub proof fn law_balance_stays_below_bucket(balance: i128, carbon: i128, bucket: i128)
    requires
        bucket > 0,
        balance >= 0,
        carbon >= 0,
        settle(balance, carbon, bucket) is Ok,
    ensures
        settle(balance, carbon, bucket) matches Ok((kept, _)) && 0 <= kept < bucket,
{
    law_settlement_pays_whole_buckets(balance, carbon, bucket);
}

/// What one call does to the read of one key: where the call sets the key,
/// the read gives the value it set; otherwise the read is unchanged.
pub proof fn law_call_sets_or_keeps(s: StorageView, c: Call, k: DataKey)
    ensures
        match set_by(c, k) {
            Some(v) => read_entry(after_call(s, c), k) == v,
            None => read_entry(after_call(s, c), k) == read_entry(s, k),
        },
{
}

/// After any sequence of successful calls, every read gives back the value
/// last given to its key by one of the calls, or what it read before where
/// none of them set it.
pub proof fn law_reads_give_last_set(s: StorageView, calls: Seq<Call>, k: DataKey)
    ensures
        read_entry(run(s, calls), k) == last_set(s, calls, k),
    decreases calls.len(),
{
    if calls.len() > 0 {
        law_reads_give_last_set(s, calls.drop_last(), k);
        law_call_sets_or_keeps(run(s, calls.drop_last()), calls.last(), k);
    }
}

/// Every key holds an entry.
pub open spec fn all_set(s: StorageView) -> bool {
    &&& s.admin is Some
    &&& s.balance is Some
    &&& s.initiative is Some
    &&& s.minimum_donation is Some
    &&& s.provider is Some
    &&& s.provider_fees is Some
    &&& s.vendor is Some
    &&& s.vendor_fees is Some
    &&& s.xlm_contract is Some
    &&& s.usdc_contract is Some
    &&& s.carbon_sac is Some
    &&& s.sink_contract is Some
    &&& s.soroswap_router is Some
}

/// Once the constructor ran, every key holds an entry after any sequence of
/// successful calls, so no read falls back to its default and no address
/// read is refused.
pub proof fn law_constructed_keys_stay_set(s: StorageView, calls: Seq<Call>)
    requires
        calls.len() > 0,
        calls[0] is Construct,
    ensures
        all_set(run(s, calls)),
    decreases calls.len(),
{
    if calls.len() > 1 {
        law_constructed_keys_stay_set(s, calls.drop_last());
        assert(calls.drop_last()[0] == calls[0]);
    } else {
        assert(calls.drop_last().len() == 0);
    }
}

/// After the constructor and any sequence of successful calls, the token
/// contracts that `getTokens` reads are all stored and are the XLM, USDC and
/// carbon addresses last given by the constructor or by the token setters,
/// each on its own.
pub proof fn law_tokens_are_last_given(s: StorageView, calls: Seq<Call>)
    requires
        calls.len() > 0,
        calls[0] is Construct,
    ensures
        tokens_set(run(s, calls)),
        last_set(s, calls, DataKey::XLMContract) == Entry::Bytes(run(s, calls).xlm_read()),
        last_set(s, calls, DataKey::USDCContract) == Entry::Bytes(run(s, calls).usdc_read()),
        last_set(s, calls, DataKey::CarbonSac) == Entry::Bytes(run(s, calls).carbon_sac_read()),
{
    law_constructed_keys_stay_set(s, calls);
    law_reads_give_last_set(s, calls, DataKey::XLMContract);
    law_reads_give_last_set(s, calls, DataKey::USDCContract);
    law_reads_give_last_set(s, calls, DataKey::CarbonSac);
}

/// The stages a donation may move to from `from`, in the order the contract
/// takes its steps.
pub open spec fn stage_follows(from: Stage, to: Stage) -> bool {
    match from {
        Stage::DonorAuth => to == Stage::Bucket,
        Stage::Bucket => to == Stage::Deposit,
        Stage::Deposit => to == Stage::ContractAuth,
        Stage::ContractAuth => to == Stage::Swap,
        Stage::Swap => to == Stage::VendorPayment || to == Stage::Payout || to == Stage::Publish,
        Stage::VendorPayment => to == Stage::Payout || to == Stage::Publish,
        Stage::Payout => to == Stage::Publish,
        Stage::Publish => to == Stage::Finished,
        Stage::Finished => to == Stage::Finished,
    }
}

/// A donation moves only forward, through the contract's steps in order,
/// and every step but the settlement leaves the storage as it was.
pub proof fn law_donation_steps_in_order(s: StorageView, f: FlowView, a: AnswerView)
    ensures
        next(s, f, a) matches Ok((s2, f2, _)) ==> {
            &&& stage_follows(f.stage, f2.stage)
            &&& (f.stage != Stage::Swap && f.stage != Stage::VendorPayment ==> s2 == s)
        },
{
}

/// The swap of a donation is of exactly the provider's share of the
/// donation, from the contract's own account, once the contract authorized
/// it: `amount * provider fees / 100`, rounded toward zero, and above zero.
pub proof fn law_donation_swaps_the_provider_share(s: StorageView, f: FlowView, s1: StorageView)
    requires
        f.stage == Stage::Deposit,
    ensures
        next(s, f, AnswerView::Done) matches Ok((_, f1, _)) ==> (next(s1, f1, AnswerView::Done) matches Ok(
            (_, _, ActionView::Swap(q)),
        ) ==> {
            &&& q.amount_in == fee_share(f.amount as int, f.provider_fees as int)
            &&& q.amount_in > 0
            &&& q.to == PartyView::ThisContract
        }),
{
}

/// The carbon a donation settles is the amount the router reported as the
/// swap's output, and the balance it leaves is `settle` of the balance read
/// at the start, that carbon and the bucket size the sink gave.
pub proof fn law_donation_settles_the_swap_output(s: StorageView, f: FlowView, v: Seq<i128>, s1: StorageView)
    requires
        f.stage == Stage::Swap,
    ensures
        next(s, f, AnswerView::SwapAmounts(v)) matches Ok((s2, f2, _)) ==> {
            &&& f2.carbon == v[2]
            &&& f2.stage != Stage::VendorPayment ==> (settle(f.balance, v[2], f.bucket) matches Ok((kept, _))
                && s2.balance == Some(kept as i128))
            &&& f2.stage == Stage::VendorPayment ==> (next(s1, f2, AnswerView::Done) matches Ok((s3, _, _)) ==> settle(
                f.balance,
                v[2],
                f.bucket,
            ) matches Ok((kept, _)) && s3.balance == Some(kept as i128))
        },
{
}

/// The carbon a settling step adds to the balance: the router's output when
/// it settles right after the swap, the carbon recorded at the swap when it
/// settles after the vendor payment.
pub open spec fn settled_carbon(f: FlowView, a: AnswerView) -> i128 {
    if f.stage == Stage::Swap {
        a->SwapAmounts_0[2]
    } else {
        f.carbon
    }
}

/// Whichever step settles a donation (right after the swap, where the
/// vendor gets nothing, or after the vendor payment), what the balance does
/// not keep of the balance read at the start plus the carbon bought goes to
/// the provider: only the balance changes in storage, and either the next
/// action is a transfer in XLM from the contract to the provider of exactly
/// `balance + carbon - kept`, or the whole total is kept and the next action
/// is the donation event. With a positive bucket the payout is made as soon
/// as the total reaches the bucket, and a total that is not negative leaves
/// a balance within `[0, bucket)`.
pub proof fn law_donation_pays_out_what_it_does_not_keep(s: StorageView, f: FlowView, a: AnswerView)
    requires
        f.stage == Stage::Swap || f.stage == Stage::VendorPayment,
    ensures
        next(s, f, a) matches Ok((s2, f2, act)) ==> (f2.stage != Stage::VendorPayment ==> {
            let total = f.balance + settled_carbon(f, a);
            &&& s2 == StorageView { balance: s2.balance, ..s }
            &&& s2.balance matches Some(kept) && {
                &&& act == ActionView::Transfer(PaymentView {
                    token: f.xlm,
                    from: PartyView::ThisContract,
                    to: PartyView::Account(f.provider),
                    amount: (total - kept) as i128,
                }) || (kept == total && act == ActionView::Publish(
                    EventView::Donation { from: f.donor, destin: f.provider, amount: f.amount },
                ))
                &&& (f.bucket > 0 && total >= f.bucket ==> act is Transfer)
                &&& (f.bucket > 0 && total >= 0 ==> 0 <= kept < f.bucket)
            }
        }),
{
    if next(s, f, a) is Ok {
        let total = f.balance + settled_carbon(f, a);
        if f.bucket > 0 && total >= f.bucket {
            lemma_rem_positive(total, f.bucket as int);
        }
    }
}

/// The symbols under which the contract publishes its events, as the
/// contract's event functions write them: "donation" for a donation, and for
/// each change the symbol of its setting, beside the second topic "change".
pub proof fn law_event_symbols()
    ensures
        topic_symbol(Topic::Admin) == "admin"@,
        topic_symbol(Topic::Donation) == "donation"@,
        topic_symbol(Topic::Minimum) == "minimum"@,
        topic_symbol(Topic::Provider) == "provider"@,
        topic_symbol(Topic::ProviderFees) == "provfees"@,
        topic_symbol(Topic::Vendor) == "vendor"@,
        topic_symbol(Topic::VendorFees) == "vendfees"@,
        topic_symbol(Topic::Xlm) == "xlm"@,
        topic_symbol(Topic::Sink) == "sink"@,
        topic_symbol(Topic::Usdc) == "usdc"@,
        topic_symbol(Topic::Router) == "router"@,
        crate::events::change_symbol() == "change"@,
{
}

/// `q` is the whole number of hundredths of `amount * fees`: `fees` percent
/// of `amount`, rounded down.
pub open spec fn whole_percent(q: int, amount: int, fees: int) -> bool {
    100 * q <= amount * fees < 100 * q + 100
}

/// A fee share above zero is the whole number of hundredths of its product.
pub proof fn lemma_positive_share_is_whole_percent(amount: int, fees: int)
    requires
        fee_share(amount, fees) > 0,
    ensures
        amount * fees >= 100,
        whole_percent(fee_share(amount, fees), amount, fees),
{
    let p = amount * fees;
    assert(trunc_div(p, 100) == if p < 0 { -((-p) / 100) } else { p / 100 });
    if p < 0 {
        assert((-p) / 100 >= 0);
        assert(false);
    }
    vstd::arithmetic::div_mod::lemma_fundamental_div_mod(p, 100);
    vstd::arithmetic::div_mod::lemma_mod_pos_bound(p, 100);
}

/// What each step of a donation asks of the host, stated by the storage it
/// reads and the arithmetic of the fees: after the donor's authorization,
/// the bucket size from the stored sink; after the bucket size, the deposit
/// of the donated amount from the donor to the contract in the stored XLM
/// token; after the deposit, the contract's own authorization, with the
/// provider's share `amount * provider fees / 100` above zero; after that,
/// the swap of exactly that share through the stored router along the
/// stored XLM, USDC and carbon tokens, with no minimum out, paid to the
/// contract, within a minute of the ledger time; after the swap, where the
/// vendor's share `amount * vendor fees / 100` is above zero, exactly that
/// share in XLM from the contract to the stored vendor; after the payout, the
/// donation event; after the event, the end.
pub proof fn law_donation_step_actions(s: StorageView, f: FlowView, a: AnswerView)
    ensures
        next(s, f, a) matches Ok((_, f2, act)) ==> match f.stage {
            Stage::DonorAuth => {
                &&& act matches ActionView::QueryBucket(sink) && s.sink_contract == Some(sink)
                &&& s.provider == Some(f2.provider)
                &&& f2.balance == s.balance_read() && f2.provider_fees == s.provider_fees_read()
                &&& f2.vendor_fees == s.vendor_fees_read()
            },
            Stage::Bucket => {
                &&& s.xlm_contract == Some(f2.xlm)
                &&& act == ActionView::Transfer(PaymentView {
                    token: f2.xlm,
                    from: PartyView::Account(f.donor),
                    to: PartyView::ThisContract,
                    amount: f.amount,
                })
                &&& f2.bucket == a->Bucket_0
            },
            Stage::Deposit => {
                &&& act == ActionView::RequireAuth(PartyView::ThisContract)
                &&& f2.share > 0
                &&& whole_percent(f2.share as int, f.amount as int, f.provider_fees as int)
            },
            Stage::ContractAuth => act matches ActionView::Swap(q) && {
                &&& s.soroswap_router == Some(q.router)
                &&& q.amount_in == f.share
                &&& q.amount_out_min == 0
                &&& q.path.len() == 3
                &&& s.xlm_contract == Some(q.path[0])
                &&& s.usdc_contract == Some(q.path[1])
                &&& s.carbon_sac == Some(q.path[2])
                &&& q.to == PartyView::ThisContract
                &&& q.deadline == f.now + 60
            },
            Stage::Swap => f2.stage == Stage::VendorPayment ==> (act matches ActionView::Transfer(p) && {
                &&& p.token == f.xlm
                &&& p.from == PartyView::ThisContract
                &&& s.vendor == Some(p.to->Account_0) && p.to is Account
                &&& p.amount > 0
                &&& whole_percent(p.amount as int, f.amount as int, f.vendor_fees as int)
            }),
            Stage::Payout => act == ActionView::Publish(
                EventView::Donation { from: f.donor, destin: f.provider, amount: f.amount },
            ),
            Stage::Publish => act == ActionView::Finished && f2.stage == Stage::Finished,
            _ => true,
        },
{
    if next(s, f, a) is Ok {
        if f.stage == Stage::Deposit {
            lemma_positive_share_is_whole_percent(f.amount as int, f.provider_fees as int);
        }
        if f.stage == Stage::Swap {
            if fee_share(f.amount as int, f.vendor_fees as int) > 0 {
                lemma_positive_share_is_whole_percent(f.amount as int, f.vendor_fees as int);
            }
        }
    }
}

/// Where the vendor's share `amount * vendor fees / 100` of a donation is
/// above zero, a successful swap step always pays the vendor; where it is not,
/// it never does.
pub proof fn law_donation_pays_the_vendor_exactly_when_its_share_is_positive(s: StorageView, f: FlowView, a: AnswerView)
    requires
        f.stage == Stage::Swap,
    ensures
        next(s, f, a) matches Ok((_, f2, _)) ==> (f2.stage == Stage::VendorPayment <==> f.amount * f.vendor_fees >= 100),
{
    if next(s, f, a) is Ok {
        let p = f.amount * f.vendor_fees;
        if fee_share(f.amount as int, f.vendor_fees as int) > 0 {
            lemma_positive_share_is_whole_percent(f.amount as int, f.vendor_fees as int);
        }
        if p >= 100 {
            assert(trunc_div(p, 100) == p / 100);
            vstd::arithmetic::div_mod::lemma_div_pos_is_pos(p, 100);
            assert(p / 100 >= 1) by {
                vstd::arithmetic::div_mod::lemma_div_non_zero(p, 100);
            }
        }
    }
}

/// The first topic of an event, as the symbol it is published under.
pub open spec fn event_symbol(ev: EventView) -> Seq<char> {
    match ev {
        EventView::AddressChange { topic, .. } => topic_symbol(topic),
        EventView::AmountChange { topic, .. } => topic_symbol(topic),
        EventView::Donation { .. } => topic_symbol(Topic::Donation),
    }
}

/// Whether `ev` is a change of an address from `old` to `new`.
pub open spec fn changes_address(ev: EventView, old: Seq<u8>, new: Seq<u8>) -> bool {
    ev matches EventView::AddressChange { old: o, new: n, .. } && o == old && n == new
}

/// Whether `ev` is a change of an amount from `old` to `new`.
pub open spec fn changes_amount(ev: EventView, old: i128, new: i128) -> bool {
    ev matches EventView::AmountChange { old_amount: o, new_amount: n, .. } && o == old && n == new
}

/// Each admin-only update publishes, under the symbol of its setting (the
/// carbon token's under "usdc", as the contract does), the value it replaces
/// as read before it and the value it was given.
pub proof fn law_update_events(s: StorageView, a: Seq<u8>, n: i128)
    ensures
        event_symbol(call_event(s, Call::SetAdmin(a))) == "admin"@,
        changes_address(call_event(s, Call::SetAdmin(a)), s.admin->0, a),
        event_symbol(call_event(s, Call::SetMinimum(n))) == "minimum"@,
        changes_amount(call_event(s, Call::SetMinimum(n)), s.minimum_donation_read(), n),
        event_symbol(call_event(s, Call::SetProvider(a))) == "provider"@,
        changes_address(call_event(s, Call::SetProvider(a)), s.provider->0, a),
        event_symbol(call_event(s, Call::SetProviderFees(n))) == "provfees"@,
        changes_amount(call_event(s, Call::SetProviderFees(n)), s.provider_fees_read(), n),
        event_symbol(call_event(s, Call::SetVendor(a))) == "vendor"@,
        changes_address(call_event(s, Call::SetVendor(a)), s.vendor->0, a),
        event_symbol(call_event(s, Call::SetVendorFees(n))) == "vendfees"@,
        changes_amount(call_event(s, Call::SetVendorFees(n)), s.vendor_fees_read(), n),
        event_symbol(call_event(s, Call::SetXLMToken(a))) == "xlm"@,
        changes_address(call_event(s, Call::SetXLMToken(a)), s.xlm_contract->0, a),
        event_symbol(call_event(s, Call::SetUSDCToken(a))) == "usdc"@,
        changes_address(call_event(s, Call::SetUSDCToken(a)), s.usdc_contract->0, a),
        event_symbol(call_event(s, Call::SetCarbonSacToken(a))) == "usdc"@,
        changes_address(call_event(s, Call::SetCarbonSacToken(a)), s.carbon_sac->0, a),
        event_symbol(call_event(s, Call::SetSinkToSuccessor(a))) == "sink"@,
        changes_address(call_event(s, Call::SetSinkToSuccessor(a)), s.sink_contract->0, a),
        event_symbol(call_event(s, Call::SetSoroswapRouter(a))) == "router"@,
        changes_address(call_event(s, Call::SetSoroswapRouter(a)), s.soroswap_router->0, a),
{
}

/// Each update writes exactly its own key, with the value it was given;
/// the settlement writes only the balance; the constructor writes every
/// key, with a zero balance, a minimum donation of 1000000 and fee rates of
/// 90 and 10 percent.
pub proof fn law_calls_write_their_keys(
    s: StorageView,
    a: Seq<u8>,
    n: i128,
    admin: Seq<u8>,
    initiative: Seq<u8>,
    provider: Seq<u8>,
    vendor: Seq<u8>,
    xlm: Seq<u8>,
    usdc: Seq<u8>,
    carbon_sac: Seq<u8>,
    sink: Seq<u8>,
    soroswap_router: Seq<u8>,
)
    ensures
        after_call(s, Call::SetAdmin(a)) == (StorageView { admin: Some(a), ..s }),
        after_call(s, Call::SetMinimum(n)) == (StorageView { minimum_donation: Some(n), ..s }),
        after_call(s, Call::SetProvider(a)) == (StorageView { provider: Some(a), ..s }),
        after_call(s, Call::SetProviderFees(n)) == (StorageView { provider_fees: Some(n), ..s }),
        after_call(s, Call::SetVendor(a)) == (StorageView { vendor: Some(a), ..s }),
        after_call(s, Call::SetVendorFees(n)) == (StorageView { vendor_fees: Some(n), ..s }),
        after_call(s, Call::SetXLMToken(a)) == (StorageView { xlm_contract: Some(a), ..s }),
        after_call(s, Call::SetUSDCToken(a)) == (StorageView { usdc_contract: Some(a), ..s }),
        after_call(s, Call::SetCarbonSacToken(a)) == (StorageView { carbon_sac: Some(a), ..s }),
        after_call(s, Call::SetSinkToSuccessor(a)) == (StorageView { sink_contract: Some(a), ..s }),
        after_call(s, Call::SetSoroswapRouter(a)) == (StorageView { soroswap_router: Some(a), ..s }),
        after_call(s, Call::SettleDonation(n)) == (StorageView { balance: Some(n), ..s }),
        after_call(
            s,
            (Call::Construct { admin, initiative, provider, vendor, xlm, usdc, carbon_sac, sink, soroswap_router }),
        ) == (StorageView {
            admin: Some(admin),
            balance: Some(0),
            initiative: Some(initiative),
            minimum_donation: Some(1000000),
            provider: Some(provider),
            provider_fees: Some(90),
            vendor: Some(vendor),
            vendor_fees: Some(10),
            xlm_contract: Some(xlm),
            usdc_contract: Some(usdc),
            carbon_sac: Some(carbon_sac),
            sink_contract: Some(sink),
            soroswap_router: Some(soroswap_router),
        }),
{
}

/// A donation is accepted before authorization exactly when it is above
/// zero and at least the stored minimum; one of zero or less is refused as
/// "amount less than zero", one below the minimum as "amount less than
/// minimum allowed", the messages the contract panics with.
pub proof fn law_donation_acceptance(s: StorageView, amount: i128)
    ensures
        donation_error(s, amount) is None <==> amount > 0 && amount >= s.minimum_donation_read(),
        amount <= 0 ==> donation_error(s, amount) == Some(CreditsError::AmountNotPositive),
        amount > 0 && amount < s.minimum_donation_read() ==> donation_error(s, amount) == Some(
            CreditsError::BelowMinimum,
        ),
        error_message(CreditsError::AmountNotPositive) == "amount less than zero"@,
        error_message(CreditsError::BelowMinimum) == "amount less than minimum allowed"@,
{
}

/// The balance and the token, sink and router contracts live in persistent
/// storage; the administrator, the initiative, the minimum donation, the
/// provider, the vendor and the fee rates in the contract instance's.
pub proof fn law_persistent_keys()
    ensures
        spec_is_persistent(DataKey::Balance),
        spec_is_persistent(DataKey::XLMContract),
        spec_is_persistent(DataKey::USDCContract),
        spec_is_persistent(DataKey::CarbonSac),
        spec_is_persistent(DataKey::SinkContract),
        spec_is_persistent(DataKey::SoroswapRouter),
        !spec_is_persistent(DataKey::Admin),
        !spec_is_persistent(DataKey::Initiative),
        !spec_is_persistent(DataKey::MinimumDonation),
        !spec_is_persistent(DataKey::Provider),
        !spec_is_persistent(DataKey::ProviderFees),
        !spec_is_persistent(DataKey::Vendor),
        !spec_is_persistent(DataKey::VendorFees),
{
}

/// An unset number reads as zero and an unset initiative as empty.
pub proof fn law_unset_reads()
    ensures
        StorageView::empty().balance_read() == 0,
        StorageView::empty().minimum_donation_read() == 0,
        StorageView::empty().provider_fees_read() == 0,
        StorageView::empty().vendor_fees_read() == 0,
        StorageView::empty().initiative_read() == Seq::<u8>::empty(),
{
}

/// An admin-only update goes through only with a stored administrator, who
/// is the one asked to authorize it, and only where the addresses it reads
/// are set; a refused update writes nothing.
pub proof fn law_admin_updates(
    pre: StorageView,
    post: StorageView,
    r: Result<AdminUpdate, CreditsError>,
    unset: bool,
    expected: StorageView,
    event: EventView,
)
    requires
        admin_update(pre, post, r, unset, expected, event),
    ensures
        r is Ok ==> pre.admin is Some && r->Ok_0.admin@ == pre.admin->0 && !unset && post == expected,
        r is Err ==> post == pre,
        pre.admin is None ==> r == Err::<AdminUpdate, CreditsError>(CreditsError::AdminNotSet),
        pre.admin is Some && unset ==> r == Err::<AdminUpdate, CreditsError>(CreditsError::AddressNotSet),
{
}

} // verus!
