use vstd::prelude::*;

verus! {

/// Every way an invocation of the sale controller can fail.  Each error is
/// terminal for the current invocation: the host rolls back any tentative
/// state, so no partial mint or partial payout is ever observable.
#[derive(Clone, Copy, Debug, PartialEq, Eq, Structural)]
pub enum SaleError {
    /// The caller of a privileged operation is not the admin.
    Unauthorized,
    /// The current block time is before the start of the presale window.
    PresaleNotStarted,
    /// The payment notification did not come from the payment contract.
    WrongPaymentOrigin,
    /// Every token of the collection has already been minted.
    SupplyExhausted,
    /// The manual kill switch is off.
    MintingPaused,
    /// During presale, the buyer is not on the whitelist.
    NotWhitelisted,
    /// The payment does not equal the phase's price exactly.
    IncorrectPayment,
    /// During presale, the buyer already holds `max_per_wallet` tokens.
    WalletCapExceeded,
    /// The requested numeric slot was already claimed by an earlier mint.
    TokenAlreadyClaimed,
    /// The address is already on the whitelist.
    DuplicateWhitelistEntry,
    /// The payee shares do not sum to exactly one.
    InvalidPayeeShares,
    /// The mint request lacks a token id, a numeric slot or a content hash.
    MalformedMetadata,
    /// The requested numeric slot is zero or beyond the reserved range.
    InvalidSlot,
    /// The host encoder refused an outbound instruction.
    InstructionEncoding,
}

} // verus!
