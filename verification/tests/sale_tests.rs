use nft_sale::errors::SaleError;
use nft_sale::policy::{TokenMeta, TraitData};
use nft_sale::sale::{HandleMsg, InitMsg, QueryAnswer, QueryMsg, Sale};
use nft_sale::shares::{Payee, SHARE_ONE};

const T: u64 = 1_571_797_419;

fn pct(n: u128) -> u128 {
    SHARE_ONE / 100 * n
}

fn payees_70_30() -> Vec<Payee> {
    vec![
        Payee { address: "reward1".to_string(), share: pct(70) },
        Payee { address: "reward2".to_string(), share: pct(30) },
    ]
}

fn base_init(total_supply: u128, public_price: u128, private_price: u128, presale_start: u64) -> InitMsg {
    InitMsg {
        white_members: vec!["white1".to_string(), "white2".to_string()],
        admin: "admin".to_string(),
        total_supply,
        maximum_count: 1,
        public_price,
        private_price,
        reward_wallet: payees_70_30(),
        presale_start,
        presale_period: 100,
        denom: "uscrt".to_string(),
        token_address: "token_address".to_string(),
        token_contract_hash: "token_hash".to_string(),
        check_minted: vec![true, true, true, true, true],
    }
}

fn meta(number: u64) -> TokenMeta {
    TokenMeta {
        token_id: Some("punks1".to_string()),
        number: Some(number),
        code_hash: Some("CodeHash".to_string()),
        name: Some("name".to_string()),
        description: Some("secret steam".to_string()),
        image: Some("image".to_string()),
        attributes: Some(vec![TraitData {
            display_type: None,
            trait_type: Some("Clothes".to_string()),
            value: "value".to_string(),
            max_value: None,
        }]),
        protected_attributes: None,
    }
}

fn receive(buyer: &str, amount: u128, number: u64) -> HandleMsg {
    HandleMsg::Receive {
        sender: buyer.to_string(),
        from: "xxx".to_string(),
        amount,
        msg: meta(number),
    }
}

#[test]
fn proper_initialization() {
    let sale = Sale::init(base_init(5, 500000, 600000, T));
    assert_eq!(sale.state.count, 0);
    assert_eq!(sale.state.total_supply, 5);
    assert_eq!(sale.state.maximum_count, 1);
    assert_eq!(sale.state.public_price, 500000);
    assert_eq!(sale.state.private_price, 600000);
    assert!(sale.state.can_mint);
    assert_eq!(sale.state.admin, "admin");
    assert_eq!(sale.state.nft_address, "nft_address");
    assert_eq!(sale.state.denom, "uscrt");
    assert_eq!(sale.state.token_address, "token_address");
    assert_eq!(sale.state.token_contract_hash, "token_hash");
    assert_eq!(sale.state.check_minted, vec![true, true, true, true, true]);
    assert_eq!(sale.whitelist, vec!["white1".to_string(), "white2".to_string()]);
    assert_eq!(sale.ledger.len(), 0);
}

#[test]
fn test_state() {
    let mut sale = Sale::init(base_init(5, 500000, 600000, T));
    let admin = "admin".to_string();

    let msg = HandleMsg::SetRewardWallet {
        wallet: vec![Payee { address: "reward1".to_string(), share: SHARE_ONE }],
    };
    let emitted = sale.handle(T, &admin, msg).unwrap();
    assert!(emitted.is_empty());
    let state = sale.query_count();
    assert_eq!(state.reward_wallet.len(), 1);
    assert_eq!(state.reward_wallet[0].address, "reward1");
    assert_eq!(state.reward_wallet[0].share, SHARE_ONE);

    sale.handle(T, &admin, HandleMsg::SetMaximumNft { amount: 2 }).unwrap();
    assert_eq!(sale.query_count().maximum_count, 2);

    sale.handle(T, &admin, HandleMsg::SetTotalSupply { amount: 100 }).unwrap();
    assert_eq!(sale.query_count().total_supply, 100);

    sale.handle(T, &admin, HandleMsg::SetMintFlag { flag: false }).unwrap();
    assert_eq!(sale.query_count().can_mint, false);

    sale.handle(T, &admin, HandleMsg::SetPrice { public_price: 5, private_price: 10 }).unwrap();
    assert_eq!(sale.query_count().public_price, 5);
    assert_eq!(sale.query_count().private_price, 10);

    sale.handle(T, &admin, HandleMsg::SetMintTime { presale_start: T + 10, presale_period: 200 })
        .unwrap();
    assert_eq!(sale.query_count().presale_period, 200);

    sale.handle(T, &admin, HandleMsg::ChangeAdmin { address: "admin1".to_string() }).unwrap();
    assert_eq!(sale.query_count().admin, "admin1");

    let admin1 = "admin1".to_string();
    sale.handle(T, &admin1, HandleMsg::SetWhiteUsers { members: vec!["white1".to_string()] })
        .unwrap();
    assert_eq!(sale.query_white_users(), vec!["white1".to_string()]);

    sale.handle(T, &admin1, HandleMsg::AddWhiteUser { member: "white2".to_string() }).unwrap();
    assert_eq!(sale.query_white_users(), vec!["white1".to_string(), "white2".to_string()]);
}

#[test]
fn mint() {
    let mut sale = Sale::init(base_init(3, 600000, 400000, T - 110));
    let admin = "admin".to_string();
    sale.handle(T, &admin, HandleMsg::SetNftAddress { nft_address: "nft".to_string() }).unwrap();
    assert_eq!(sale.query_count().nft_address, "nft");

    let origin = "token_address".to_string();
    sale.handle(T, &origin, receive("white1", 600000, 3)).unwrap();

    let empty: Vec<String> = vec![];
    assert_eq!(sale.query_user_info(&"minter2".to_string()), empty);
    assert_eq!(sale.query_user_info(&"white1".to_string()), vec!["punks1".to_string()]);

    // The same numbered slot cannot be claimed twice.
    let second = sale.handle(T, &origin, receive("white1", 600000, 3));
    assert_eq!(second.unwrap_err(), SaleError::TokenAlreadyClaimed);
}

#[test]
fn public_phase_exact_payment_scenario() {
    // Presale started 110 back with a 100 window, so the sale is public.
    let mut sale = Sale::init(base_init(3, 600000, 400000, T - 110));
    let origin = "token_address".to_string();

    // A whitelisted caller paying the presale price fails: the phase is public.
    let r = sale.handle(T, &origin, receive("white1", 400000, 1));
    assert_eq!(r.unwrap_err(), SaleError::IncorrectPayment);
    assert_eq!(sale.state.count, 0);

    // Paying the public price succeeds and the ledger gains the token id.
    sale.handle(T, &origin, receive("white1", 600000, 1)).unwrap();
    assert_eq!(sale.state.count, 1);
    assert_eq!(sale.query_user_info(&"white1".to_string()), vec!["punks1".to_string()]);
    assert_eq!(sale.state.check_minted, vec![false, true, true, true, true]);
}

#[test]
fn presale_requires_whitelist() {
    let mut sale = Sale::init(base_init(3, 600000, 400000, T - 10));
    let origin = "token_address".to_string();
    let r = sale.handle(T, &origin, receive("stranger", 400000, 1));
    assert_eq!(r.unwrap_err(), SaleError::NotWhitelisted);
}

#[test]
fn presale_exact_payment() {
    let mut sale = Sale::init(base_init(3, 600000, 400000, T - 10));
    let origin = "token_address".to_string();
    let r = sale.handle(T, &origin, receive("white1", 600000, 1));
    assert_eq!(r.unwrap_err(), SaleError::IncorrectPayment);
}

#[test]
fn presale_wallet_cap() {
    let mut sale = Sale::init(base_init(3, 600000, 400000, T));
    let origin = "token_address".to_string();

    sale.handle(T + 10, &origin, receive("white1", 400000, 1)).unwrap();
    let r = sale.handle(T + 20, &origin, receive("white1", 400000, 2));
    assert_eq!(r.unwrap_err(), SaleError::WalletCapExceeded);

    // The cap no longer applies once the phase is public.
    sale.handle(T + 200, &origin, receive("white1", 600000, 2)).unwrap();
    assert_eq!(sale.state.count, 2);
    assert_eq!(
        sale.query_user_info(&"white1".to_string()),
        vec!["punks1".to_string(), "punks1".to_string()]
    );
}

#[test]
fn presale_not_started() {
    let mut sale = Sale::init(base_init(3, 600000, 400000, T + 50));
    let origin = "token_address".to_string();
    let r = sale.handle(T, &origin, receive("white1", 400000, 1));
    assert_eq!(r.unwrap_err(), SaleError::PresaleNotStarted);
}

#[test]
fn wrong_payment_origin() {
    let mut sale = Sale::init(base_init(3, 600000, 400000, T - 110));
    let origin = "bogus".to_string();
    let r = sale.handle(T, &origin, receive("white1", 600000, 1));
    assert_eq!(r.unwrap_err(), SaleError::WrongPaymentOrigin);
}

#[test]
fn supply_exhausted() {
    let mut sale = Sale::init(base_init(0, 600000, 400000, T - 110));
    let origin = "token_address".to_string();
    let r = sale.handle(T, &origin, receive("white1", 600000, 1));
    assert_eq!(r.unwrap_err(), SaleError::SupplyExhausted);
}

#[test]
fn minting_paused() {
    let mut sale = Sale::init(base_init(3, 600000, 400000, T - 110));
    let admin = "admin".to_string();
    sale.handle(T, &admin, HandleMsg::SetMintFlag { flag: false }).unwrap();
    let origin = "token_address".to_string();
    let r = sale.handle(T, &origin, receive("white1", 600000, 1));
    assert_eq!(r.unwrap_err(), SaleError::MintingPaused);
}

#[test]
fn malformed_metadata() {
    let mut sale = Sale::init(base_init(3, 600000, 400000, T - 110));
    let origin = "token_address".to_string();
    let mut m = meta(1);
    m.token_id = None;
    let msg = HandleMsg::Receive {
        sender: "white1".to_string(),
        from: "xxx".to_string(),
        amount: 600000,
        msg: m,
    };
    let r = sale.handle(T, &origin, msg);
    assert_eq!(r.unwrap_err(), SaleError::MalformedMetadata);
}

#[test]
fn invalid_slot() {
    let mut sale = Sale::init(base_init(3, 600000, 400000, T - 110));
    let origin = "token_address".to_string();
    let r = sale.handle(T, &origin, receive("white1", 600000, 0));
    assert_eq!(r.unwrap_err(), SaleError::InvalidSlot);
    let r = sale.handle(T, &origin, receive("white1", 600000, 6));
    assert_eq!(r.unwrap_err(), SaleError::InvalidSlot);
}

#[test]
fn whitelist_duplicates_and_authority() {
    let mut sale = Sale::init(base_init(3, 600000, 400000, T));
    let admin = "admin".to_string();
    let nobody = "nobody".to_string();

    let r = sale.handle(T, &nobody, HandleMsg::AddWhiteUser { member: "white3".to_string() });
    assert_eq!(r.unwrap_err(), SaleError::Unauthorized);

    let r = sale.handle(T, &admin, HandleMsg::AddWhiteUser { member: "white1".to_string() });
    assert_eq!(r.unwrap_err(), SaleError::DuplicateWhitelistEntry);

    sale.handle(T, &admin, HandleMsg::AddWhiteUser { member: "white3".to_string() }).unwrap();
    assert_eq!(
        sale.query_white_users(),
        vec!["white1".to_string(), "white2".to_string(), "white3".to_string()]
    );
}

#[test]
fn payee_share_validation() {
    let mut sale = Sale::init(base_init(3, 600000, 400000, T));
    let admin = "admin".to_string();

    // Shares summing to 0.97 are refused.
    let bad = vec![
        Payee { address: "reward1".to_string(), share: pct(70) },
        Payee { address: "reward2".to_string(), share: pct(27) },
    ];
    let r = sale.handle(T, &admin, HandleMsg::SetRewardWallet { wallet: bad });
    assert_eq!(r.unwrap_err(), SaleError::InvalidPayeeShares);

    // Shares summing to exactly 1.0 are accepted.
    let good = vec![
        Payee { address: "reward1".to_string(), share: pct(70) },
        Payee { address: "reward2".to_string(), share: pct(30) },
    ];
    sale.handle(T, &admin, HandleMsg::SetRewardWallet { wallet: good }).unwrap();
    assert_eq!(sale.state.reward_wallet.len(), 2);
}

#[test]
fn share_arithmetic() {
    assert!(nft_sale::shares::check_shares(&payees_70_30()));
    assert!(!nft_sale::shares::check_shares(&vec![Payee {
        address: "reward1".to_string(),
        share: pct(97),
    }]));
    assert_eq!(nft_sale::shares::mul_share(600000, pct(70)), 420000);
    assert_eq!(nft_sale::shares::mul_share(600000, pct(30)), 180000);
    assert_eq!(nft_sale::shares::mul_share(1, SHARE_ONE / 2), 0);
    assert_eq!(nft_sale::shares::mul_share(u64::MAX as u128, SHARE_ONE), u64::MAX as u128);
}

#[test]
fn queries_are_stable() {
    let sale = Sale::init(base_init(3, 600000, 400000, T));
    let never = "minter2".to_string();
    let empty: Vec<String> = vec![];
    assert_eq!(sale.query_user_info(&never), empty);
    assert_eq!(sale.query_user_info(&never), empty);
    assert_eq!(sale.query_white_users(), sale.query_white_users());

    match sale.query(&QueryMsg::GetUserInfo { address: never.clone() }) {
        QueryAnswer::UserInfo(v) => assert_eq!(v, empty),
        _ => panic!("wrong answer kind"),
    }
    match sale.query(&QueryMsg::GetStateInfo) {
        QueryAnswer::StateInfo(s) => assert_eq!(s.count, 0),
        _ => panic!("wrong answer kind"),
    }
    match sale.query(&QueryMsg::GetWhiteUsers) {
        QueryAnswer::WhiteUsers(v) => {
            assert_eq!(v, vec!["white1".to_string(), "white2".to_string()])
        },
        _ => panic!("wrong answer kind"),
    }
}
