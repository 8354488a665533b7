use vstd::prelude::*;
use crate::errors::SaleError;
use crate::outbound::Instruction;
use crate::policy::MintDecision;
use crate::policy::TokenMeta;
use crate::policy::mint_policy;
use crate::policy::spec_phase;
use crate::sale::Sale;
use crate::sale::mints_ok;
use crate::sale::sale_mint_decision;
use crate::state::SaleState;

verus! {

/// Law: every granted mint steps the counter by exactly one, and the
/// stepped counter never exceeds the total supply.  Over any sequence
/// of successful mints the counter therefore strictly increases.
pub proof fn lemma_mint_monotonic(
    state: SaleState,
    whitelist: Seq<Seq<char>>,
    record: Option<Seq<Seq<char>>>,
    now: u64,
    origin: Seq<char>,
    buyer: Seq<char>,
    amount: u128,
    token: TokenMeta,
)
    requires
        mint_policy(state, whitelist, record, now, origin, buyer, amount, token) is Ok,
    ensures
        ({
            let d = mint_policy(state, whitelist, record, now, origin, buyer, amount, token)->Ok_0;
            d.new_count == state.count + 1 && d.new_count <= state.total_supply
        }),
{
}

/// Law: a numeric slot is claimed at most once.  Once a granted mint
/// has cleared its slot, no later request for the same slot is ever
/// granted; and whenever such a request passes every check that stands
/// before the slot check, it fails with `TokenAlreadyClaimed` exactly.
pub proof fn lemma_slot_claims_once(
    pre: SaleState,
    post: SaleState,
    whitelist: Seq<Seq<char>>,
    record: Option<Seq<Seq<char>>>,
    now: u64,
    origin: Seq<char>,
    buyer: Seq<char>,
    amount: u128,
    token: TokenMeta,
    whitelist2: Seq<Seq<char>>,
    record2: Option<Seq<Seq<char>>>,
    now2: u64,
    origin2: Seq<char>,
    buyer2: Seq<char>,
    amount2: u128,
    token2: TokenMeta,
)
    requires
        mint_policy(pre, whitelist, record, now, origin, buyer, amount, token) is Ok,
        post.check_minted@ == pre.check_minted@.update(
            mint_policy(pre, whitelist, record, now, origin, buyer, amount, token)->Ok_0.slot
                as int,
            false,
        ),
        token2.number == token.number,
    ensures
        mint_policy(post, whitelist2, record2, now2, origin2, buyer2, amount2, token2) is Err,
        ({
            let r2 = mint_policy(post, whitelist2, record2, now2, origin2, buyer2, amount2, token2);
            (r2 != Err::<MintDecision, SaleError>(SaleError::MalformedMetadata) && r2
                != Err::<MintDecision, SaleError>(SaleError::WrongPaymentOrigin) && r2
                != Err::<MintDecision, SaleError>(SaleError::PresaleNotStarted) && r2
                != Err::<MintDecision, SaleError>(SaleError::SupplyExhausted) && r2
                != Err::<MintDecision, SaleError>(SaleError::MintingPaused) && r2
                != Err::<MintDecision, SaleError>(SaleError::NotWhitelisted) && r2
                != Err::<MintDecision, SaleError>(SaleError::IncorrectPayment) && r2
                != Err::<MintDecision, SaleError>(SaleError::WalletCapExceeded)) ==> r2
                == Err::<MintDecision, SaleError>(SaleError::TokenAlreadyClaimed)
        }),
{
    let number = token.number->0;
    let d = mint_policy(pre, whitelist, record, now, origin, buyer, amount, token)->Ok_0;
    assert(pre.check_minted.len() == pre.check_minted@.len());
    assert(number - 1 < pre.check_minted@.len());
    assert(d.slot as int == number - 1);
    assert(post.check_minted@[number - 1] == false);
}

/// Law: once a mint commits, the whole sale refuses every further
/// request for the same numeric slot — whoever asks, whenever, at
/// whatever price.
pub proof fn lemma_sale_slot_claims_once(
    pre: Sale,
    post: Sale,
    now: u64,
    origin: Seq<char>,
    buyer: Seq<char>,
    amount: u128,
    token: TokenMeta,
    instrs: Seq<Instruction>,
    now2: u64,
    origin2: Seq<char>,
    buyer2: Seq<char>,
    amount2: u128,
    token2: TokenMeta,
)
    requires
        sale_mint_decision(pre, now, origin, buyer, amount, token) is Ok,
        mints_ok(pre, post, now, origin, buyer, amount, token, instrs),
        token2.number == token.number,
    ensures
        sale_mint_decision(post, now2, origin2, buyer2, amount2, token2) is Err,
{
    lemma_slot_claims_once(
        pre.state,
        post.state,
        pre.whitelist.deep_view(),
        crate::state::ledger_record(pre.ledger@, buyer),
        now,
        origin,
        buyer,
        amount,
        token,
        post.whitelist.deep_view(),
        crate::state::ledger_record(post.ledger@, buyer2),
        now2,
        origin2,
        buyer2,
        amount2,
        token2,
    );
}

/// Law: a payment that misses the phase's exact price is refused with
/// `IncorrectPayment`, whatever the requested slot or the buyer's mint
/// record, whenever the request reaches the payment check — that is,
/// the origin, window, supply and switch checks pass, and during the
/// presale phase the buyer is whitelisted.
pub proof fn lemma_exact_payment(
    state: SaleState,
    whitelist: Seq<Seq<char>>,
    record: Option<Seq<Seq<char>>>,
    now: u64,
    origin: Seq<char>,
    buyer: Seq<char>,
    amount: u128,
    token: TokenMeta,
)
    requires
        token.token_id is Some && token.number is Some && token.code_hash is Some,
        origin == state.token_address@,
        now >= state.presale_start,
        state.count < state.total_supply,
        state.can_mint,
        spec_phase(state, now) is Presale ==> (whitelist.contains(buyer) && amount
            != state.private_price),
        spec_phase(state, now) is Public ==> amount != state.public_price,
    ensures
        mint_policy(state, whitelist, record, now, origin, buyer, amount, token)
            == Err::<MintDecision, SaleError>(SaleError::IncorrectPayment),
{
}

/// Law: during the presale phase a buyer outside the whitelist is
/// refused with `NotWhitelisted`, even with the correct payment and an
/// unclaimed slot, whenever the origin, window, supply and switch
/// checks pass.
pub proof fn lemma_whitelist_gate(
    state: SaleState,
    whitelist: Seq<Seq<char>>,
    record: Option<Seq<Seq<char>>>,
    now: u64,
    origin: Seq<char>,
    buyer: Seq<char>,
    amount: u128,
    token: TokenMeta,
)
    requires
        token.token_id is Some && token.number is Some && token.code_hash is Some,
        origin == state.token_address@,
        now >= state.presale_start,
        state.count < state.total_supply,
        state.can_mint,
        spec_phase(state, now) is Presale,
        !whitelist.contains(buyer),
    ensures
        mint_policy(state, whitelist, record, now, origin, buyer, amount, token)
            == Err::<MintDecision, SaleError>(SaleError::NotWhitelisted),
{
}

/// Law: during the presale phase a wallet whose mint record has reached
/// `max_per_wallet` is refused with `WalletCapExceeded`, whenever every
/// earlier check passes.
pub proof fn lemma_wallet_cap(
    state: SaleState,
    whitelist: Seq<Seq<char>>,
    record: Seq<Seq<char>>,
    now: u64,
    origin: Seq<char>,
    buyer: Seq<char>,
    amount: u128,
    token: TokenMeta,
)
    requires
        token.token_id is Some && token.number is Some && token.code_hash is Some,
        origin == state.token_address@,
        now >= state.presale_start,
        state.count < state.total_supply,
        state.can_mint,
        spec_phase(state, now) is Presale,
        whitelist.contains(buyer),
        amount == state.private_price,
        record.len() >= state.maximum_count,
    ensures
        mint_policy(state, whitelist, Some(record), now, origin, buyer, amount, token)
            == Err::<MintDecision, SaleError>(SaleError::WalletCapExceeded),
{
}

/// Law: the per-wallet cap does not apply in the public phase — the
/// policy's answer is independent of the buyer's mint record there.
pub proof fn lemma_public_ignores_record(
    state: SaleState,
    whitelist: Seq<Seq<char>>,
    record_a: Option<Seq<Seq<char>>>,
    record_b: Option<Seq<Seq<char>>>,
    now: u64,
    origin: Seq<char>,
    buyer: Seq<char>,
    amount: u128,
    token: TokenMeta,
)
    requires
        spec_phase(state, now) is Public,
    ensures
        mint_policy(state, whitelist, record_a, now, origin, buyer, amount, token) == mint_policy(
            state,
            whitelist,
            record_b,
            now,
            origin,
            buyer,
            amount,
            token,
        ),
{
}

} // verus!
