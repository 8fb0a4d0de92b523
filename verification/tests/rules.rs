use credits::address::Address;
use credits::contract::{Credits, Party, Payment};
use credits::donation::{Action, Answer};
use credits::errors::CreditsError;
use credits::events::{Event, Topic};
use credits::storage::{
    changed_keys, read_balance, read_provider, read_token_contracts, write_balance, DataKey,
    Storage,
};

fn addr(s: &str) -> Address {
    Address::new(s.as_bytes().to_vec())
}

fn setup() -> Storage {
    let mut s = Storage::new();
    Credits::__constructor(
        &mut s,
        addr("ADMIN"),
        b"initiative".to_vec(),
        addr("PROVIDER"),
        addr("VENDOR"),
        addr("XLM"),
        addr("USDC"),
        addr("CARBON"),
        addr("SINK"),
        addr("ROUTER"),
    )
    .unwrap();
    s
}

#[test]
fn donation_of_zero_or_less_is_refused() {
    let s = setup();
    assert!(matches!(Credits::donate(&s, &addr("D"), 0, 0), Err(CreditsError::AmountNotPositive)));
    assert!(matches!(Credits::donate(&s, &addr("D"), -5, 0), Err(CreditsError::AmountNotPositive)));
    assert_eq!(CreditsError::AmountNotPositive.message(), "amount less than zero");
}

#[test]
fn donation_below_minimum_is_refused() {
    let s = setup();
    assert!(matches!(Credits::donate(&s, &addr("D"), 999_999, 0), Err(CreditsError::BelowMinimum)));
    assert_eq!(CreditsError::BelowMinimum.message(), "amount less than minimum allowed");
    assert!(Credits::donate(&s, &addr("D"), 1_000_000, 0).is_ok());
}

/// A host that answers every action of a donation: the sink's minimum is
/// `bucket` and the router reports `swap_amounts`. Gives the actions asked
/// for, in order, and how the donation ended.
fn run_donation(
    s: &mut Storage,
    amount: i128,
    now: u64,
    bucket: i128,
    swap_amounts: Vec<i128>,
) -> (Vec<Action>, Result<(), CreditsError>) {
    let mut actions = Vec::new();
    let (mut flow, mut action) = match Credits::donate(s, &addr("D"), amount, now) {
        Ok(started) => started,
        Err(e) => return (actions, Err(e)),
    };
    loop {
        actions.push(action.clone());
        let answer = match &action {
            Action::QueryBucket(_) => Answer::Bucket(bucket),
            Action::Swap(_) => Answer::SwapAmounts(swap_amounts.clone()),
            Action::Finished => return (actions, Ok(())),
            _ => Answer::Done,
        };
        action = match flow.step(s, answer) {
            Ok(a) => a,
            Err(e) => return (actions, Err(e)),
        };
    }
}

fn transfer_amounts(actions: &[Action]) -> Vec<i128> {
    actions
        .iter()
        .filter_map(|a| match a {
            Action::Transfer(p) => Some(p.amount),
            _ => None,
        })
        .collect()
}

fn swap_amount_in(actions: &[Action]) -> Option<i128> {
    actions.iter().find_map(|a| match a {
        Action::Swap(q) => Some(q.amount_in),
        _ => None,
    })
}

#[test]
fn donation_share_overflow_is_refused_after_the_deposit() {
    let mut s = setup();
    let (actions, r) = run_donation(&mut s, i128::MAX, 0, 1_000_000, vec![1, 2, 3]);
    assert_eq!(r, Err(CreditsError::Overflow));
    // The donor authorized, the bucket was asked for and the deposit made first.
    assert_eq!(actions.len(), 3);
    assert_eq!(actions[0], Action::RequireAuth(Party::Account(addr("D"))));
    assert_eq!(CreditsError::Overflow.message(), "arithmetic overflow");
}

#[test]
fn zero_provider_share_is_refused_before_the_vendor_share() {
    let mut s = setup();
    Credits::setProviderFees(&mut s, 0).unwrap();
    let (actions, r) = run_donation(&mut s, i128::MAX, 0, 1_000_000, vec![1, 2, 3]);
    // The vendor's share would overflow, but the swap refuses the zero share first.
    assert_eq!(r, Err(CreditsError::AmountNotPositive));
    assert_eq!(actions.len(), 3);
}

#[test]
fn vendor_share_overflow_is_refused_after_the_swap() {
    let mut s = setup();
    Credits::setProviderFees(&mut s, 1).unwrap();
    Credits::setVendorFees(&mut s, 2).unwrap();
    let (actions, r) = run_donation(&mut s, i128::MAX / 2 + 1, 0, 1_000_000, vec![1, 2, 3]);
    assert_eq!(r, Err(CreditsError::Overflow));
    assert!(matches!(actions.last(), Some(Action::Swap(_))));
}

#[test]
fn vendor_share_of_zero_is_not_paid() {
    let mut s = setup();
    Credits::setVendorFees(&mut s, 0).unwrap();
    let (actions, r) = run_donation(&mut s, 1_000_000, 0, 1_000_000, vec![900_000, 5, 7]);
    assert_eq!(r, Ok(()));
    assert_eq!(swap_amount_in(&actions), Some(900_000));
    // Only the deposit: no vendor payment, no payout.
    assert_eq!(transfer_amounts(&actions), vec![1_000_000]);
    assert_eq!(read_balance(&s), 7);
}

#[test]
fn shares_round_toward_zero() {
    let mut s = setup();
    Credits::setMinimum(&mut s, 1).unwrap();
    let (actions, r) = run_donation(&mut s, 199, 0, 1_000_000, vec![179, 1, 1]);
    assert_eq!(r, Ok(()));
    // 199 * 90 / 100 = 179.1 and 199 * 10 / 100 = 19.9
    assert_eq!(swap_amount_in(&actions), Some(179));
    assert_eq!(transfer_amounts(&actions), vec![199, 19]);
}

#[test]
fn negative_provider_share_is_refused() {
    let mut s = setup();
    Credits::setMinimum(&mut s, 1).unwrap();
    Credits::setProviderFees(&mut s, -3).unwrap();
    let (_, r) = run_donation(&mut s, 199, 0, 1_000_000, vec![1, 1, 1]);
    assert_eq!(r, Err(CreditsError::AmountNotPositive));
}

#[test]
fn settlement_pays_whole_buckets() {
    let mut s = setup();
    write_balance(&mut s, 700_000);
    let (actions, r) = run_donation(&mut s, 1_000_000, 0, 1_000_000, vec![900_000, 1, 2_500_000]);
    assert_eq!(r, Ok(()));
    let payout = Payment {
        token: addr("XLM"),
        from: Party::ThisContract,
        to: Party::Account(addr("PROVIDER")),
        amount: 3_000_000,
    };
    assert_eq!(actions[actions.len() - 3], Action::Transfer(payout));
    assert_eq!(
        actions[actions.len() - 2],
        Action::Publish(Event::Donation { from: addr("D"), destin: addr("PROVIDER"), amount: 1_000_000 })
    );
    assert_eq!(read_balance(&s), 200_000);
}

#[test]
fn settlement_at_exactly_one_bucket() {
    let mut s = setup();
    write_balance(&mut s, 400_000);
    let (actions, r) = run_donation(&mut s, 1_000_000, 0, 1_000_000, vec![1, 1, 600_000]);
    assert_eq!(r, Ok(()));
    assert_eq!(transfer_amounts(&actions), vec![1_000_000, 100_000, 1_000_000]);
    assert_eq!(read_balance(&s), 0);
}

#[test]
fn settlement_with_zero_bucket_is_refused() {
    let mut s = setup();
    let before = s.clone();
    let (_, r) = run_donation(&mut s, 1_000_000, 0, 0, vec![1, 1, 10]);
    assert_eq!(r, Err(CreditsError::DivisionByZero));
    assert_eq!(s, before);
}

#[test]
fn settlement_overflow_is_refused() {
    let mut s = setup();
    write_balance(&mut s, i128::MAX);
    let (_, r) = run_donation(&mut s, 1_000_000, 0, 1_000_000, vec![1, 1, 1]);
    assert_eq!(r, Err(CreditsError::Overflow));
    assert_eq!(read_balance(&s), i128::MAX);
}

#[test]
fn settlement_with_negative_bucket_keeps_remainder() {
    let mut s = setup();
    write_balance(&mut s, 0);
    let (actions, r) = run_donation(&mut s, 1_000_000, 0, -3, vec![1, 1, 7]);
    assert_eq!(r, Ok(()));
    // 7 % -3 == 1 in Rust, so 6 is paid out.
    assert_eq!(transfer_amounts(&actions), vec![1_000_000, 100_000, 6]);
    assert_eq!(read_balance(&s), 1);
}

#[test]
fn swap_of_zero_or_less_is_refused() {
    assert_eq!(Credits::swap_xlm_to_carbon(&addr("U"), 0), Err(CreditsError::AmountNotPositive));
    assert_eq!(Credits::swap_xlm_to_carbon(&addr("U"), -1), Err(CreditsError::AmountNotPositive));
}

#[test]
fn swap_deadline_overflow_is_refused() {
    let s = setup();
    assert_eq!(
        Credits::swap_request(&s, Party::ThisContract, 5, u64::MAX - 10),
        Err(CreditsError::Overflow)
    );
    assert_eq!(
        Credits::swap_request(&s, Party::ThisContract, 5, u64::MAX - 60).unwrap().deadline,
        u64::MAX
    );
}

#[test]
fn swap_with_unset_token_is_refused() {
    let mut s = setup();
    s.usdc_contract = None;
    assert_eq!(
        Credits::swap_request(&s, Party::ThisContract, 5, 0),
        Err(CreditsError::AddressNotSet)
    );
}

#[test]
fn short_router_answer_is_refused_in_a_donation() {
    let mut s = setup();
    let (_, r) = run_donation(&mut s, 1_000_000, 0, 1_000_000, vec![1, 2]);
    assert_eq!(r, Err(CreditsError::MissingSwapResult));
}

#[test]
fn donation_with_unset_provider_is_refused_after_authorization() {
    let mut s = setup();
    s.provider = None;
    let (actions, r) = run_donation(&mut s, 1_000_000, 0, 1_000_000, vec![1, 2, 3]);
    assert_eq!(actions, vec![Action::RequireAuth(Party::Account(addr("D")))]);
    assert_eq!(r, Err(CreditsError::AddressNotSet));
    assert_eq!(CreditsError::AddressNotSet.message(), "address not set");
}

#[test]
fn swap_with_short_router_answer_is_refused() {
    assert_eq!(Credits::swap_output(&vec![1, 2]), Err(CreditsError::MissingSwapResult));
}

#[test]
fn updates_need_an_administrator() {
    let mut s = Storage::new();
    let before = s.clone();
    assert_eq!(Credits::setMinimum(&mut s, 5), Err(CreditsError::AdminNotSet));
    assert_eq!(Credits::setSoroswapRouter(&mut s, addr("R")), Err(CreditsError::AdminNotSet));
    assert_eq!(s, before);
    assert!(Credits::setSinkToSuccessor(&s).is_err());
}

#[test]
fn set_admin_reads_back() {
    let mut s = setup();
    let u = Credits::setAdmin(&mut s, addr("NEWADMIN")).unwrap();
    assert_eq!(u.admin, addr("ADMIN"));
    assert_eq!(
        u.event,
        Event::AddressChange { topic: Topic::Admin, old: addr("ADMIN"), new: addr("NEWADMIN") }
    );
    assert_eq!(Credits::getAdmin(&s), Some(addr("NEWADMIN")));
    let u = Credits::setMinimum(&mut s, 7).unwrap();
    assert_eq!(u.admin, addr("NEWADMIN"));
}

#[test]
fn setters_change_only_their_key() {
    let mut s = setup();
    let before = s.clone();
    let u = Credits::setProvider(&mut s, addr("P2")).unwrap();
    assert_eq!(u.event.topic().symbol(), "provider");
    assert_eq!(changed_keys(&before, &s), vec![DataKey::Provider]);
    assert_eq!(read_provider(&s), Ok(addr("P2")));

    let before = s.clone();
    let u = Credits::setProviderFees(&mut s, 80).unwrap();
    assert_eq!(u.event, Event::AmountChange { topic: Topic::ProviderFees, old_amount: 90, new_amount: 80 });
    assert_eq!(u.event.topic().symbol(), "provfees");
    assert_eq!(changed_keys(&before, &s), vec![DataKey::ProviderFees]);

    let before = s.clone();
    let u = Credits::setVendor(&mut s, addr("V2")).unwrap();
    assert_eq!(u.event.topic().symbol(), "vendor");
    assert_eq!(changed_keys(&before, &s), vec![DataKey::Vendor]);

    let before = s.clone();
    let u = Credits::setVendorFees(&mut s, 20).unwrap();
    assert_eq!(u.event.topic().symbol(), "vendfees");
    assert_eq!(changed_keys(&before, &s), vec![DataKey::VendorFees]);

    let before = s.clone();
    let u = Credits::setMinimum(&mut s, 20).unwrap();
    assert_eq!(u.event, Event::AmountChange { topic: Topic::Minimum, old_amount: 1_000_000, new_amount: 20 });
    assert_eq!(changed_keys(&before, &s), vec![DataKey::MinimumDonation]);

    let before = s.clone();
    let u = Credits::setXLMToken(&mut s, addr("X2")).unwrap();
    assert_eq!(u.event.topic().symbol(), "xlm");
    assert_eq!(changed_keys(&before, &s), vec![DataKey::XLMContract]);

    let before = s.clone();
    let u = Credits::setUSDCToken(&mut s, addr("U2")).unwrap();
    assert_eq!(u.event.topic().symbol(), "usdc");
    assert_eq!(changed_keys(&before, &s), vec![DataKey::USDCContract]);

    let before = s.clone();
    let u = Credits::setCarbonSacToken(&mut s, addr("C2")).unwrap();
    // The carbon token change is published under the USDC topic.
    assert_eq!(
        u.event,
        Event::AddressChange { topic: Topic::Usdc, old: addr("CARBON"), new: addr("C2") }
    );
    assert_eq!(changed_keys(&before, &s), vec![DataKey::CarbonSac]);
    assert_eq!(read_token_contracts(&s), Ok((addr("X2"), addr("U2"), addr("C2"))));

    let before = s.clone();
    let u = Credits::setSoroswapRouter(&mut s, addr("R2")).unwrap();
    assert_eq!(u.event.topic().symbol(), "router");
    assert_eq!(changed_keys(&before, &s), vec![DataKey::SoroswapRouter]);
}

#[test]
fn token_update_with_unset_token_is_refused() {
    let mut s = Storage::new();
    s.admin = Some(addr("ADMIN"));
    let before = s.clone();
    assert_eq!(Credits::setXLMToken(&mut s, addr("X")), Err(CreditsError::AddressNotSet));
    assert_eq!(Credits::setProvider(&mut s, addr("P")), Err(CreditsError::AddressNotSet));
    assert_eq!(Credits::setSoroswapRouter(&mut s, addr("R")), Err(CreditsError::AddressNotSet));
    assert_eq!(s, before);
    // Updates that read no address go through.
    assert!(Credits::setMinimum(&mut s, 1).is_ok());
}

#[test]
fn unset_entries_read_as_defaults_or_are_refused() {
    let s = Storage::new();
    assert_eq!(Credits::getBalance(&s), 0);
    assert_eq!(Credits::getMinimum(&s), 0);
    assert_eq!(Credits::getInitiative(&s), Vec::<u8>::new());
    assert_eq!(Credits::getProvider(&s), Err(CreditsError::AddressNotSet));
    assert_eq!(Credits::getTokens(&s), Err(CreditsError::AddressNotSet));
    assert_eq!(Credits::getExternalContracts(&s), Err(CreditsError::AddressNotSet));
    assert_eq!(Credits::getAdmin(&s), None);
}

#[test]
fn changed_keys_lists_keys_in_order() {
    let before = Storage::new();
    let after = setup();
    let keys = changed_keys(&before, &after);
    assert_eq!(keys.len(), 13);
    assert_eq!(keys[0], DataKey::Admin);
    assert_eq!(keys[12], DataKey::SoroswapRouter);
    assert_eq!(changed_keys(&after, &after.clone()), vec![]);
}

#[test]
fn persistent_keys() {
    assert!(DataKey::Balance.is_persistent());
    assert!(DataKey::SinkContract.is_persistent());
    assert!(DataKey::XLMContract.is_persistent());
    assert!(!DataKey::Admin.is_persistent());
    assert!(!DataKey::MinimumDonation.is_persistent());
}

#[test]
fn sink_walk_writes_back_the_router() {
    let mut s = setup();
    let mut walk = Credits::setSinkToSuccessor(&s).unwrap();
    walk.advance(addr("SINK2"));
    assert!(!walk.is_done());
    walk.advance(addr("SINK2"));
    assert!(walk.is_done());
    let before = s.clone();
    walk.finish(&mut s).unwrap();
    assert_eq!(changed_keys(&before, &s), vec![DataKey::SinkContract]);
    assert_eq!(Credits::getExternalContracts(&s), Ok((addr("SINK2"), addr("ROUTER"))));
}

#[test]
fn sink_that_is_its_own_successor_stays() {
    let mut s = setup();
    let mut walk = Credits::setSinkToSuccessor(&s).unwrap();
    walk.advance(addr("SINK"));
    assert!(walk.is_done());
    let ev = walk.finish(&mut s).unwrap();
    assert_eq!(ev, Event::AddressChange { topic: Topic::Sink, old: addr("SINK"), new: addr("SINK") });
    assert_eq!(Credits::getExternalContracts(&s), Ok((addr("SINK"), addr("ROUTER"))));
}

#[test]
fn fee_shares_stay_within_donation_with_initial_rates() {
    for amount in [1_000_000i128, 1_234_567, 99_999_999] {
        let mut s = setup();
        let (actions, r) = run_donation(&mut s, amount, 0, i128::MAX, vec![1, 1, 1]);
        assert_eq!(r, Ok(()));
        let provider = swap_amount_in(&actions).unwrap();
        let transfers = transfer_amounts(&actions);
        let vendor = if transfers.len() > 1 { transfers[1] } else { 0 };
        assert!(provider >= 0 && vendor >= 0);
        assert!(provider + vendor <= amount);
    }
}

#[test]
fn settlement_conserves_carbon() {
    for (balance, carbon, bucket) in [(0i128, 444_813i128, 1_000_000i128), (999_999, 1, 1_000_000), (5, 2_000_003, 1_000_000)] {
        let mut s = setup();
        write_balance(&mut s, balance);
        let (actions, r) = run_donation(&mut s, 1_000_000, 0, bucket, vec![1, 1, carbon]);
        assert_eq!(r, Ok(()));
        // Deposit and vendor payment, then the payout if any.
        let transfers = transfer_amounts(&actions);
        let paid = if transfers.len() > 2 { transfers[2] } else { 0 };
        assert_eq!(read_balance(&s) + paid, balance + carbon);
        assert!(read_balance(&s) < bucket);
    }
}

#[test]
fn tokens_read_back_the_last_given_each() {
    let mut s = setup();
    Credits::setXLMToken(&mut s, addr("X1")).unwrap();
    Credits::setUSDCToken(&mut s, addr("U1")).unwrap();
    Credits::setMinimum(&mut s, 3).unwrap();
    Credits::setXLMToken(&mut s, addr("X2")).unwrap();
    Credits::setCarbonSacToken(&mut s, addr("C1")).unwrap();
    Credits::setSoroswapRouter(&mut s, addr("R1")).unwrap();
    assert_eq!(Credits::getTokens(&s), Ok((addr("X2"), addr("U1"), addr("C1"))));
    assert_eq!(Credits::getMinimum(&s), 3);
    assert_eq!(Credits::getExternalContracts(&s), Ok((addr("SINK"), addr("R1"))));
}
