use credits::address::Address;
use credits::contract::{Credits, Party, Payment, SwapRequest};
use credits::donation::{Action, Answer, Stage};
use credits::events::{Event, Topic};
use credits::storage::Storage;

const ADMIN: &str = "GADMINAAAAAAAAAAAAAAAAAAAAAAAAAAAAAAAAAAAAAAAAAAAAAAAAAA";
const PROVIDER: &str = "GPROVIDERAAAAAAAAAAAAAAAAAAAAAAAAAAAAAAAAAAAAAAAAAAAAAAA";
const VENDOR: &str = "GVENDORAAAAAAAAAAAAAAAAAAAAAAAAAAAAAAAAAAAAAAAAAAAAAAAAA";
const XLM: &str = "CXLMAAAAAAAAAAAAAAAAAAAAAAAAAAAAAAAAAAAAAAAAAAAAAAAAAAAA";
const USDC: &str = "CUSDCAAAAAAAAAAAAAAAAAAAAAAAAAAAAAAAAAAAAAAAAAAAAAAAAAAA";
const CARBON: &str = "CCARBONAAAAAAAAAAAAAAAAAAAAAAAAAAAAAAAAAAAAAAAAAAAAAAAAA";
const SINK: &str = "CSINKAAAAAAAAAAAAAAAAAAAAAAAAAAAAAAAAAAAAAAAAAAAAAAAAAAA";
const ROUTER: &str = "CROUTERAAAAAAAAAAAAAAAAAAAAAAAAAAAAAAAAAAAAAAAAAAAAAAAAA";
const INITIATIVE: &str = "30c0636f-b0f1-40d5-bb9c-a531dc4d69e2";
const DONOR: &str = "GDUY7J7A33TQWOSOQGDO776GGLM3UQERL4J3SPT56F6YS4ID7MLDERI4";

fn addr(s: &str) -> Address {
    Address::new(s.as_bytes().to_vec())
}

fn setup() -> Storage {
    let mut s = Storage::new();
    let r = Credits::__constructor(
        &mut s,
        addr(ADMIN),
        INITIATIVE.as_bytes().to_vec(),
        addr(PROVIDER),
        addr(VENDOR),
        addr(XLM),
        addr(USDC),
        addr(CARBON),
        addr(SINK),
        addr(ROUTER),
    );
    assert_eq!(r, Ok(()));
    s
}

#[test]
fn test_views() {
    let s = setup();
    assert_eq!(Credits::getAdmin(&s), Some(addr(ADMIN)));
    assert_eq!(Credits::getBalance(&s), 0);
    assert_eq!(Credits::getInitiative(&s), INITIATIVE.as_bytes().to_vec());
    assert_eq!(Credits::getMinimum(&s), 1000000);
    assert_eq!(Credits::getProvider(&s), Ok(addr(PROVIDER)));
    assert_eq!(Credits::getProviderFees(&s), 90);
    assert_eq!(Credits::getVendor(&s), Ok(addr(VENDOR)));
    assert_eq!(Credits::getVendorFees(&s), 10);
    assert_eq!(Credits::getTokens(&s), Ok((addr(XLM), addr(USDC), addr(CARBON))));
    assert_eq!(Credits::getExternalContracts(&s), Ok((addr(SINK), addr(ROUTER))));
}

#[test]
fn test_donate() {
    let mut s = setup();
    let donor = addr(DONOR);
    let donor_balance: i128 = 10_000_000_000;
    let now: u64 = 1_700_000_000;
    let (mut flow, action) = Credits::donate(&s, &donor, 100_000_000, now).unwrap();
    assert_eq!(action, Action::RequireAuth(Party::Account(donor.clone())));

    let action = flow.step(&mut s, Answer::Done).unwrap();
    assert_eq!(action, Action::QueryBucket(addr(SINK)));
    // The sink's minimum amount is 1000000.
    let action = flow.step(&mut s, Answer::Bucket(1000000)).unwrap();
    let deposit = Payment {
        token: addr(XLM),
        from: Party::Account(donor.clone()),
        to: Party::ThisContract,
        amount: 100_000_000,
    };
    assert_eq!(action, Action::Transfer(deposit));
    assert_eq!(donor_balance - 100_000_000, 9_900_000_000);

    let action = flow.step(&mut s, Answer::Done).unwrap();
    assert_eq!(action, Action::RequireAuth(Party::ThisContract));
    let action = flow.step(&mut s, Answer::Done).unwrap();
    let request = SwapRequest {
        router: addr(ROUTER),
        amount_in: 90_000_000,
        amount_out_min: 0,
        path: vec![addr(XLM), addr(USDC), addr(CARBON)],
        to: Party::ThisContract,
        deadline: now + 60,
    };
    assert_eq!(action, Action::Swap(request));

    // The swap of 90_000_000 XLM through USDC bought 444813 carbon.
    let action = flow.step(&mut s, Answer::SwapAmounts(vec![90_000_000, 8_947_909, 444_813])).unwrap();
    let vendor_payment = Payment {
        token: addr(XLM),
        from: Party::ThisContract,
        to: Party::Account(addr(VENDOR)),
        amount: 10_000_000,
    };
    assert_eq!(action, Action::Transfer(vendor_payment));
    // What the contract keeps of the donation in XLM after the swap and the vendor payment.
    assert_eq!(100_000_000 - 90_000_000 - 10_000_000, 0);

    let action = flow.step(&mut s, Answer::Done).unwrap();
    assert_eq!(
        action,
        Action::Publish(Event::Donation { from: addr(DONOR), destin: addr(PROVIDER), amount: 100_000_000 })
    );
    assert_eq!(Credits::getBalance(&s), 444813);
    let action = flow.step(&mut s, Answer::Done).unwrap();
    assert_eq!(action, Action::Finished);
    assert_eq!(flow.stage(), Stage::Finished);
}

#[test]
fn test_set_sink_to_successor() {
    let mut s = setup();
    let first_sink = addr(SINK);
    let middle_sink = addr("CMIDDLEAAAAAAAAAAAAAAAAAAAAAAAAAAAAAAAAAAAAAAAAAAAAAAAAA");
    let last_sink = addr("CLASTAAAAAAAAAAAAAAAAAAAAAAAAAAAAAAAAAAAAAAAAAAAAAAAAAAA");
    let (sink, _) = Credits::getExternalContracts(&s).unwrap();
    assert_eq!(sink, first_sink);

    let mut walk = Credits::setSinkToSuccessor(&s).unwrap();
    assert_eq!(walk.admin(), &addr(ADMIN));
    let successor_of = |a: &Address| -> Address {
        if *a == first_sink {
            middle_sink.clone()
        } else {
            last_sink.clone()
        }
    };
    let mut asked = 0;
    while !walk.is_done() {
        let successor = successor_of(walk.current());
        walk.advance(successor);
        asked += 1;
    }
    assert_eq!(asked, 3);
    let event = walk.finish(&mut s).unwrap();
    let (sink, router) = Credits::getExternalContracts(&s).unwrap();
    assert_eq!(sink, last_sink);
    assert_eq!(router, addr(ROUTER));
    assert_eq!(
        event,
        Event::AddressChange { topic: Topic::Sink, old: first_sink, new: last_sink }
    );
    assert_eq!(event.topic().symbol(), "sink");
    assert_eq!(credits::events::change(), "change");
}

#[test]
fn test_token_swap_via_soroswap() {
    let s = setup();
    let user = addr("GUSERAAAAAAAAAAAAAAAAAAAAAAAAAAAAAAAAAAAAAAAAAAAAAAAAAAA");
    let accepted = Credits::swap_xlm_to_carbon(&user, 10_000).unwrap();
    assert_eq!(accepted.from, user);
    assert_eq!(accepted.amount, 10_000);
    let request = Credits::swap_request(&s, Party::Account(user.clone()), accepted.amount, 1_700_000_000).unwrap();
    assert_eq!(request.router, addr(ROUTER));
    assert_eq!(request.amount_in, 10_000);
    assert_eq!(request.amount_out_min, 0);
    assert_eq!(request.path, vec![addr(XLM), addr(USDC), addr(CARBON)]);
    assert_eq!(request.to, Party::Account(user));
    assert_eq!(request.deadline, 1_700_000_060);
    // The router reports what went in and what came out of each hop.
    let executed = vec![10_000i128, 996, 49];
    let expected_balance = 49;
    assert_eq!(Credits::swap_output(&executed), Ok(expected_balance));
}
