use vstd::prelude::*;
use crate::errors::SaleError;
use crate::policy::TraitData;
use crate::shares::Payee;
use crate::shares::share_amount;

verus! {

/// Outbound messages are padded to blocks of this size.
pub const RESPONSE_BLOCK_SIZE: usize = 256;

/// One outbound instruction of a successful mint.  The host runtime
/// executes the list transactionally with the invocation, in order:
/// first the NFT issuance, then one payment per payee.
#[derive(Debug)]
pub enum Instruction {
    /// Mint the token and transfer it to the buyer, addressed to the
    /// NFT contract.
    MintNft {
        /// Id of the token to mint.
        token_id: String,
        /// The buyer: the new owner of the token.
        recipient: String,
        /// Content hash the NFT contract is called with.
        code_hash: String,
        /// Display name.
        name: Option<String>,
        /// Display description.
        description: Option<String>,
        /// Image reference.
        image: Option<String>,
        /// Display attributes.
        attributes: Option<Vec<TraitData>>,
        /// Address of the NFT contract.
        nft_contract: String,
    },
    /// Transfer one payee's share of the payment, addressed to the
    /// payment contract.
    PayShare {
        /// The payee.
        recipient: String,
        /// Exactly `floor(payment * share / SHARE_ONE)`.
        amount: u128,
        /// Code hash of the payment contract.
        token_hash: String,
        /// Address of the payment contract.
        token_contract: String,
    },
}

/// Whether `ins` is the NFT issuance the mint owes: the requested token,
/// made over to the buyer, carrying the request's display metadata,
/// addressed to the NFT contract.
pub open spec fn mint_instruction_ok(
    ins: Instruction,
    token: crate::policy::TokenMeta,
    buyer: Seq<char>,
    nft_contract: Seq<char>,
) -> bool {
    ins matches Instruction::MintNft {
        token_id,
        recipient,
        code_hash,
        name,
        description,
        image,
        attributes,
        nft_contract: nc,
    } && token_id@ == token.token_id->0@ && recipient@ == buyer && code_hash@
        == token.code_hash->0@ && name == token.name && description == token.description && image
        == token.image && attributes == token.attributes && nc@ == nft_contract
}

/// Whether `instrs[1..]` pays every payee its exact share of `amount`
/// through the payment contract, in the stored payee order.
pub open spec fn payout_instructions_ok(
    instrs: Seq<Instruction>,
    payees: Seq<Payee>,
    amount: u128,
    token_contract: Seq<char>,
    token_hash: Seq<char>,
) -> bool {
    forall|k: int| 0 <= k < payees.len() ==> (#[trigger] instrs[k + 1] matches Instruction::PayShare {
        recipient,
        amount: a,
        token_hash: th,
        token_contract: tc,
    } && recipient@ == payees[k].address@ && a as int == share_amount(amount, payees[k].share)
        && th@ == token_hash && tc@ == token_contract)
}

#[verifier::external_type_specification]
#[verifier::external_body]
#[verifier::reject_recursive_types(T)]
pub struct ExCosmosMsg<T>(secret_cosmwasm_std::CosmosMsg<T>);

#[verifier::external_type_specification]
#[verifier::external_body]
pub struct ExEmpty(secret_cosmwasm_std::Empty);

#[verifier::external_type_specification]
#[verifier::external_body]
pub struct ExStdError(secret_cosmwasm_std::StdError);

/// Relies on secret_toolkit::snip721::mint_nft_msg to encode the
/// mint-and-transfer call addressed to the NFT contract.
#[verifier::external_body]
fn snip721_mint(
    token_id: String,
    owner: String,
    code_hash: String,
    name: Option<String>,
    description: Option<String>,
    image: Option<String>,
    attributes: Option<Vec<TraitData>>,
    contract_addr: String,
) -> Result<secret_cosmwasm_std::CosmosMsg, secret_cosmwasm_std::StdError> {
    let attrs = attributes.map(|v| v.into_iter().map(|t| secret_toolkit::snip721::Trait {
        display_type: t.display_type, trait_type: t.trait_type,
        value: t.value, max_value: t.max_value,
    }).collect());
    let ext = secret_toolkit::snip721::Extension {
        image, image_data: None, external_url: None, description, name, attributes: attrs,
        background_color: None, animation_url: None, youtube_url: None, media: None,
        protected_attributes: None,
    };
    let meta = secret_toolkit::snip721::Metadata { token_uri: None, extension: Some(ext) };
    secret_toolkit::snip721::mint_nft_msg(Some(token_id), Some(owner), Some(meta), None, None,
        None, RESPONSE_BLOCK_SIZE, code_hash, contract_addr)
}

/// Relies on secret_toolkit::snip20::transfer_msg to encode the
/// transfer of one payee's share through the payment contract.
#[verifier::external_body]
fn snip20_transfer(
    recipient: String,
    amount: u128,
    code_hash: String,
    contract_addr: String,
) -> Result<secret_cosmwasm_std::CosmosMsg, secret_cosmwasm_std::StdError> {
    secret_toolkit::snip20::transfer_msg(recipient, secret_cosmwasm_std::Uint128::new(amount),
        None, None, RESPONSE_BLOCK_SIZE, code_hash, contract_addr)
}

/// Encodes an instruction list into host messages, one for one and in
/// order.  Fails only where the host encoder refuses an instruction.
pub fn to_cosmos_msgs(instructions: Vec<Instruction>) -> (r: Result<
    Vec<secret_cosmwasm_std::CosmosMsg>,
    SaleError,
>)
    ensures
        r matches Ok(msgs) ==> msgs@.len() == instructions@.len(),
        r matches Err(e) ==> e == SaleError::InstructionEncoding,
{
    let ghost n: nat = instructions@.len();
    let mut rest = instructions;
    let mut out: Vec<secret_cosmwasm_std::CosmosMsg> = Vec::new();
    while rest.len() > 0
        invariant
            out@.len() + rest@.len() == n,
        decreases rest@.len(),
    {
        let ins = rest.remove(0);
        let encoded = match ins {
            Instruction::MintNft {
                token_id,
                recipient,
                code_hash,
                name,
                description,
                image,
                attributes,
                nft_contract,
            } => snip721_mint(token_id, recipient, code_hash, name, description, image,
                attributes, nft_contract),
            Instruction::PayShare { recipient, amount, token_hash, token_contract } =>
                snip20_transfer(recipient, amount, token_hash, token_contract),
        };
        match encoded {
            Ok(m) => out.push(m),
            Err(_) => {
                return Err(SaleError::InstructionEncoding);
            },
        }
    }
    Ok(out)
}

} // verus!
