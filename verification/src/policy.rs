use vstd::prelude::*;
use crate::errors::SaleError;
use crate::state::SaleState;
use crate::state::contains_addr;
use crate::text::string_eq;

verus! {

/// The two phases of the sale, decided by the block time against the
/// presale window.
#[derive(Clone, Copy, Debug, PartialEq, Eq, Structural)]
pub enum Phase {
    /// Within the presale window: whitelist, private price, wallet cap.
    Presale,
    /// After the window: public price, no cap.
    Public,
}

/// One display attribute of a token.
#[derive(Debug)]
pub struct TraitData {
    /// How the trait should be displayed.
    pub display_type: Option<String>,
    /// Name of the trait.
    pub trait_type: Option<String>,
    /// Value of the trait.
    pub value: String,
    /// Optional maximum for numeric traits.
    pub max_value: Option<String>,
}

/// The decoded metadata blob attached to a payment notification.  The
/// token id, the numeric slot and the content hash are mandatory for a
/// successful mint; the rest is display material passed through.
pub struct TokenMeta {
    /// Id of the token to mint.
    pub token_id: Option<String>,
    /// One-based numeric slot of the pre-numbered token.
    pub number: Option<u64>,
    /// Content hash of the token's asset.
    pub code_hash: Option<String>,
    /// Display name.
    pub name: Option<String>,
    /// Display description.
    pub description: Option<String>,
    /// Image reference.
    pub image: Option<String>,
    /// Display attributes.
    pub attributes: Option<Vec<TraitData>>,
    /// Trait names whose values are kept private.
    pub protected_attributes: Option<Vec<String>>,
}

/// What a granted mint must commit: the counter after the mint and the
/// zero-based slot whose unclaimed flag is to be cleared.
#[derive(Clone, Copy, Debug, PartialEq, Eq, Structural)]
pub struct MintDecision {
    /// New value of `count`, exactly one above the old one.
    pub new_count: u128,
    /// Zero-based index into `check_minted` to clear.
    pub slot: usize,
}

/// The phase a mint at time `now` falls in.
pub open spec fn spec_phase(state: SaleState, now: u64) -> Phase {
    if (now as int) < state.presale_start + state.presale_period {
        Phase::Presale
    } else {
        Phase::Public
    }
}

/// Outcome of the slot claim shared by both phases: the one-based
/// `number` must name a reserved slot that is still unclaimed.
pub open spec fn slot_policy(state: SaleState, number: u64) -> Result<MintDecision, SaleError> {
    if number == 0 || number - 1 >= state.check_minted@.len() {
        Err(SaleError::InvalidSlot)
    } else if !state.check_minted@[number - 1] {
        Err(SaleError::TokenAlreadyClaimed)
    } else {
        Ok(MintDecision { new_count: (state.count + 1) as u128, slot: (number - 1) as usize })
    }
}

/// The sale policy: whether a payment notification may mint, and which
/// error it fails with otherwise.  The checks short-circuit in order, so
/// the first failing check names the error.
///
/// `record` is the buyer's existing mint record, if the wallet minted
/// before; the per-wallet cap reads only its length and applies only
/// during the presale phase.
pub open spec fn mint_policy(
    state: SaleState,
    whitelist: Seq<Seq<char>>,
    record: Option<Seq<Seq<char>>>,
    now: u64,
    origin: Seq<char>,
    buyer: Seq<char>,
    amount: u128,
    token: TokenMeta,
) -> Result<MintDecision, SaleError> {
    if token.token_id is None || token.number is None || token.code_hash is None {
        Err(SaleError::MalformedMetadata)
    } else if origin != state.token_address@ {
        Err(SaleError::WrongPaymentOrigin)
    } else if now < state.presale_start {
        Err(SaleError::PresaleNotStarted)
    } else if state.count >= state.total_supply {
        Err(SaleError::SupplyExhausted)
    } else if !state.can_mint {
        Err(SaleError::MintingPaused)
    } else if spec_phase(state, now) is Presale {
        if !whitelist.contains(buyer) {
            Err(SaleError::NotWhitelisted)
        } else if amount != state.private_price {
            Err(SaleError::IncorrectPayment)
        } else if record is Some && record->0.len() >= state.maximum_count {
            Err(SaleError::WalletCapExceeded)
        } else {
            slot_policy(state, token.number->0)
        }
    } else {
        if amount != state.public_price {
            Err(SaleError::IncorrectPayment)
        } else {
            slot_policy(state, token.number->0)
        }
    }
}

/// Executable mirror of the slot claim.
fn check_slot(state: &SaleState, number: u64) -> (r: Result<MintDecision, SaleError>)
    requires
        state.count < state.total_supply,
    ensures
        r == slot_policy(*state, number),
        r matches Ok(d) ==> (d.slot < state.check_minted@.len()
            && state.check_minted@[d.slot as int] == true),
{
    if number == 0 || number - 1 >= state.check_minted.len() as u64 {
        Err(SaleError::InvalidSlot)
    } else {
        let slot = (number - 1) as usize;
        if !state.check_minted[slot] {
            Err(SaleError::TokenAlreadyClaimed)
        } else {
            Ok(MintDecision { new_count: state.count + 1, slot })
        }
    }
}

/// The sale policy engine: decides a mint request without touching any
/// state, exactly as `mint_policy` describes.
pub fn check_mint(
    state: &SaleState,
    whitelist: &Vec<String>,
    record: Option<&Vec<String>>,
    now: u64,
    origin: &String,
    buyer: &String,
    amount: u128,
    token: &TokenMeta,
) -> (r: Result<MintDecision, SaleError>)
    ensures
        r == mint_policy(
            *state,
            whitelist.deep_view(),
            spec_record_view(record),
            now,
            origin@,
            buyer@,
            amount,
            *token,
        ),
        r matches Ok(d) ==> (d.slot < state.check_minted@.len()
            && state.check_minted@[d.slot as int] == true),
{
    if token.token_id.is_none() || token.number.is_none() || token.code_hash.is_none() {
        return Err(SaleError::MalformedMetadata);
    }
    if !string_eq(origin, &state.token_address) {
        return Err(SaleError::WrongPaymentOrigin);
    }
    if now < state.presale_start {
        return Err(SaleError::PresaleNotStarted);
    }
    if state.count >= state.total_supply {
        return Err(SaleError::SupplyExhausted);
    }
    if !state.can_mint {
        return Err(SaleError::MintingPaused);
    }
    let number = *token.number.as_ref().unwrap();
    if now - state.presale_start < state.presale_period {
        assert(spec_phase(*state, now) is Presale);
        if !contains_addr(whitelist, buyer) {
            return Err(SaleError::NotWhitelisted);
        }
        if amount != state.private_price {
            return Err(SaleError::IncorrectPayment);
        }
        match record {
            Some(tokens) => {
                if tokens.len() as u128 >= state.maximum_count {
                    return Err(SaleError::WalletCapExceeded);
                }
            },
            None => {},
        }
        check_slot(state, number)
    } else {
        assert(spec_phase(*state, now) is Public);
        if amount != state.public_price {
            return Err(SaleError::IncorrectPayment);
        }
        check_slot(state, number)
    }
}

/// The record view the policy engine is judged against: the token lists
/// of an existing record, or `None` for a wallet that never minted.
pub open spec fn spec_record_view(record: Option<&Vec<String>>) -> Option<Seq<Seq<char>>> {
    match record {
        Some(tokens) => Some(tokens.deep_view()),
        None => None,
    }
}

} // verus!
