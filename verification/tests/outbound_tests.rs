use nft_sale::outbound::{to_cosmos_msgs, Instruction};
use nft_sale::policy::{TokenMeta, TraitData};
use nft_sale::sale::{HandleMsg, InitMsg, Sale};
use nft_sale::shares::Payee;
use secret_cosmwasm_std::{CosmosMsg, WasmMsg};

const T: u64 = 1_571_797_419;

fn pct(n: u128) -> u128 {
    nft_sale::shares::SHARE_ONE / 100 * n
}

fn setup() -> Sale {
    let msg = InitMsg {
        white_members: vec!["white1".to_string()],
        admin: "admin".to_string(),
        total_supply: 3,
        maximum_count: 1,
        public_price: 600000,
        private_price: 400000,
        reward_wallet: vec![
            Payee { address: "reward1".to_string(), share: pct(70) },
            Payee { address: "reward2".to_string(), share: pct(30) },
        ],
        presale_start: T - 110,
        presale_period: 100,
        denom: "uscrt".to_string(),
        token_address: "token_address".to_string(),
        token_contract_hash: "token_hash".to_string(),
        check_minted: vec![true, true, true],
    };
    let mut sale = Sale::init(msg);
    let admin = "admin".to_string();
    sale.handle(T, &admin, HandleMsg::SetNftAddress { nft_address: "nft".to_string() }).unwrap();
    sale
}

fn mint_instructions(sale: &mut Sale) -> Vec<Instruction> {
    let origin = "token_address".to_string();
    let msg = HandleMsg::Receive {
        sender: "white1".to_string(),
        from: "xxx".to_string(),
        amount: 600000,
        msg: TokenMeta {
            token_id: Some("punks1".to_string()),
            number: Some(2),
            code_hash: Some("CodeHash".to_string()),
            name: Some("name".to_string()),
            description: Some("secret steam".to_string()),
            image: Some("image".to_string()),
            attributes: Some(vec![TraitData {
                display_type: None,
                trait_type: Some("Clothes".to_string()),
                value: "value".to_string(),
                max_value: None,
            }]),
            protected_attributes: None,
        },
    };
    sale.handle(T, &origin, msg).unwrap()
}

#[test]
fn mint_emits_issue_then_payouts() {
    let mut sale = setup();
    let instrs = mint_instructions(&mut sale);
    assert_eq!(instrs.len(), 3);
    match &instrs[0] {
        Instruction::MintNft { token_id, recipient, code_hash, nft_contract, .. } => {
            assert_eq!(token_id, "punks1");
            assert_eq!(recipient, "white1");
            assert_eq!(code_hash, "CodeHash");
            assert_eq!(nft_contract, "nft");
        },
        _ => panic!("first instruction must issue the NFT"),
    }
    match &instrs[1] {
        Instruction::PayShare { recipient, amount, token_hash, token_contract } => {
            assert_eq!(recipient, "reward1");
            assert_eq!(*amount, 420000);
            assert_eq!(token_hash, "token_hash");
            assert_eq!(token_contract, "token_address");
        },
        _ => panic!("second instruction must pay the first payee"),
    }
    match &instrs[2] {
        Instruction::PayShare { recipient, amount, .. } => {
            assert_eq!(recipient, "reward2");
            assert_eq!(*amount, 180000);
        },
        _ => panic!("third instruction must pay the second payee"),
    }
}

#[test]
fn instructions_encode_to_host_messages() {
    let mut sale = setup();
    let instrs = mint_instructions(&mut sale);
    let msgs = to_cosmos_msgs(instrs).unwrap();
    assert_eq!(msgs.len(), 3);

    match &msgs[0] {
        CosmosMsg::Wasm(WasmMsg::Execute { contract_addr, code_hash, msg, .. }) => {
            assert_eq!(contract_addr, "nft");
            assert_eq!(code_hash, "CodeHash");
            let body = String::from_utf8_lossy(msg.as_slice()).to_string();
            assert!(body.contains("punks1"));
            assert!(body.contains("white1"));
            assert!(body.contains("mint_nft"));
        },
        _ => panic!("the issuance must execute the NFT contract"),
    }
    match &msgs[1] {
        CosmosMsg::Wasm(WasmMsg::Execute { contract_addr, code_hash, msg, .. }) => {
            assert_eq!(contract_addr, "token_address");
            assert_eq!(code_hash, "token_hash");
            let body = String::from_utf8_lossy(msg.as_slice()).to_string();
            assert!(body.contains("reward1"));
            assert!(body.contains("420000"));
            assert!(body.contains("transfer"));
        },
        _ => panic!("a payout must execute the payment contract"),
    }
}
