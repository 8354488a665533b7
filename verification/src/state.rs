use vstd::prelude::*;
use crate::shares::Payee;
use crate::text::str_eq;

verus! {

/// The singleton sale configuration and its mutable counters.
///
/// `count` is the number of tokens minted so far; the mint path keeps
/// `count <= total_supply`.  `check_minted` marks, per numeric slot,
/// whether that pre-numbered token is still unclaimed (`true`) — a slot
/// moves from `true` to `false` at most once.
pub struct SaleState {
    /// Number of tokens minted so far.
    pub count: u128,
    /// Total number of tokens that may ever be minted.
    pub total_supply: u128,
    /// Per-wallet cap, applied only during the presale phase.
    pub maximum_count: u128,
    /// Exact price of a mint during the public phase.
    pub public_price: u128,
    /// Exact price of a mint during the presale phase.
    pub private_price: u128,
    /// Ordered payee table; each successful mint pays every entry its share.
    pub reward_wallet: Vec<Payee>,
    /// Block time at which the presale opens.
    pub presale_start: u64,
    /// Length of the presale window; after it the sale is public.
    pub presale_period: u64,
    /// Manual kill switch, independent of the sale window.
    pub can_mint: bool,
    /// Sole authority for all privileged mutations.
    pub admin: String,
    /// Address of the NFT contract that mint instructions are sent to.
    pub nft_address: String,
    /// Denomination tag of the payment token.
    pub denom: String,
    /// Address of the payment contract; only it may notify a payment.
    pub token_address: String,
    /// Code hash of the payment contract.
    pub token_contract_hash: String,
    /// Unclaimed flag of each pre-numbered token slot.
    pub check_minted: Vec<bool>,
}

/// The durable list of token ids minted by one wallet.
pub struct WalletRecord {
    /// The wallet the record belongs to.
    pub owner: String,
    /// Token ids this wallet minted, in mint order.
    pub tokens: Vec<String>,
}

/// The mint record of `owner` in a ledger: the token list of the first
/// record carrying that owner, or `None` if the wallet never minted.
pub open spec fn ledger_record(ledger: Seq<WalletRecord>, owner: Seq<char>) -> Option<Seq<Seq<char>>>
    decreases ledger.len(),
{
    if ledger.len() == 0 {
        None
    } else if ledger[0].owner@ == owner {
        Some(ledger[0].tokens.deep_view())
    } else {
        ledger_record(ledger.drop_first(), owner)
    }
}

/// A ledger is well formed when no wallet owns two records.
pub open spec fn ledger_wf(ledger: Seq<WalletRecord>) -> bool {
    forall|i: int, j: int|
        0 <= i < j < ledger.len() ==> ledger[i].owner@ != ledger[j].owner@
}

/// Whether `addr` stands in `list`.
pub fn contains_addr(list: &Vec<String>, addr: &String) -> (r: bool)
    ensures
        r == list.deep_view().contains(addr@),
{
    let mut i: usize = 0;
    while i < list.len()
        invariant
            i <= list@.len(),
            forall|j: int| 0 <= j < i ==> list.deep_view()[j] != addr@,
        decreases list@.len() - i,
    {
        if str_eq(list[i].as_str(), addr.as_str()) {
            assert(list.deep_view()[i as int] == addr@);
            return true;
        }
        i += 1;
    }
    assert(forall|j: int| 0 <= j < list.deep_view().len() ==> list.deep_view()[j] != addr@);
    false
}

/// Index of the first record of `owner`, if the wallet ever minted.
pub fn find_record(ledger: &Vec<WalletRecord>, owner: &String) -> (r: Option<usize>)
    ensures
        match r {
            Some(i) => i < ledger@.len() && ledger@[i as int].owner@ == owner@
                && (forall|j: int| 0 <= j < i ==> ledger@[j].owner@ != owner@),
            None => forall|j: int| 0 <= j < ledger@.len() ==> ledger@[j].owner@ != owner@,
        },
{
    let mut i: usize = 0;
    while i < ledger.len()
        invariant
            i <= ledger@.len(),
            forall|j: int| 0 <= j < i ==> ledger@[j].owner@ != owner@,
        decreases ledger@.len() - i,
    {
        if str_eq(ledger[i].owner.as_str(), owner.as_str()) {
            return Some(i);
        }
        i += 1;
    }
    None
}

/// The first matching index determines the ledger record.
pub proof fn lemma_record_at_index(ledger: Seq<WalletRecord>, owner: Seq<char>, i: int)
    requires
        0 <= i < ledger.len(),
        ledger[i].owner@ == owner,
        forall|j: int| 0 <= j < i ==> ledger[j].owner@ != owner,
    ensures
        ledger_record(ledger, owner) == Some(ledger[i].tokens.deep_view()),
    decreases ledger.len(),
{
    if i > 0 {
        assert(forall|j: int| 0 <= j < i - 1 ==> ledger.drop_first()[j].owner@ != owner);
        lemma_record_at_index(ledger.drop_first(), owner, i - 1);
    }
}

/// A ledger without a record of `owner` yields `None` for it.
pub proof fn lemma_record_absent(ledger: Seq<WalletRecord>, owner: Seq<char>)
    requires
        forall|j: int| 0 <= j < ledger.len() ==> ledger[j].owner@ != owner,
    ensures
        ledger_record(ledger, owner) is None,
    decreases ledger.len(),
{
    if ledger.len() > 0 {
        lemma_record_absent(ledger.drop_first(), owner);
    }
}

/// Replacing the record at a matching index updates exactly that
/// owner's record and leaves every other owner's record unchanged.
pub proof fn lemma_record_update(
    ledger: Seq<WalletRecord>,
    i: int,
    rec: WalletRecord,
)
    requires
        0 <= i < ledger.len(),
        forall|j: int| 0 <= j < i ==> ledger[j].owner@ != ledger[i].owner@,
        rec.owner@ == ledger[i].owner@,
    ensures
        ledger_record(ledger.update(i, rec), ledger[i].owner@) == Some(rec.tokens.deep_view()),
        forall|o: Seq<char>| o != ledger[i].owner@ ==>
            #[trigger] ledger_record(ledger.update(i, rec), o) == ledger_record(ledger, o),
    decreases ledger.len(),
{
    if i == 0 {
        assert(ledger.update(0, rec)[0] == rec);
        assert forall|o: Seq<char>| o != ledger[0].owner@ implies
            #[trigger] ledger_record(ledger.update(0, rec), o) == ledger_record(ledger, o) by {
            assert(ledger.update(0, rec).drop_first() =~= ledger.drop_first());
        }
    } else {
        assert(forall|j: int| 0 <= j < i - 1 ==> ledger.drop_first()[j] == ledger[j + 1]);
        assert(ledger.drop_first()[i - 1] == ledger[i]);
        lemma_record_update(ledger.drop_first(), i - 1, rec);
        assert(ledger.update(i, rec)[0] == ledger[0]);
        assert(ledger.update(i, rec).drop_first() =~= ledger.drop_first().update(i - 1, rec));
        assert(ledger[0].owner@ != ledger[i].owner@);
        assert forall|o: Seq<char>| o != ledger[i].owner@ implies
            #[trigger] ledger_record(ledger.update(i, rec), o) == ledger_record(ledger, o) by {
            if ledger[0].owner@ != o {
                assert(ledger_record(ledger.drop_first().update(i - 1, rec), o)
                    == ledger_record(ledger.drop_first(), o));
            }
        }
    }
}

/// Appending a record for a wallet that has none gives that wallet the
/// new record and leaves every other owner's record unchanged.
pub proof fn lemma_record_append(ledger: Seq<WalletRecord>, rec: WalletRecord)
    requires
        forall|j: int| 0 <= j < ledger.len() ==> ledger[j].owner@ != rec.owner@,
    ensures
        ledger_record(ledger.push(rec), rec.owner@) == Some(rec.tokens.deep_view()),
        forall|o: Seq<char>| o != rec.owner@ ==>
            #[trigger] ledger_record(ledger.push(rec), o) == ledger_record(ledger, o),
    decreases ledger.len(),
{
    if ledger.len() == 0 {
        assert(ledger.push(rec)[0] == rec);
        assert forall|o: Seq<char>| o != rec.owner@ implies
            #[trigger] ledger_record(ledger.push(rec), o) == ledger_record(ledger, o) by {
            assert(ledger.push(rec).drop_first() =~= Seq::<WalletRecord>::empty());
            assert(ledger_record(ledger.push(rec), o)
                == ledger_record(ledger.push(rec).drop_first(), o));
        }
    } else {
        lemma_record_append(ledger.drop_first(), rec);
        assert(ledger.push(rec)[0] == ledger[0]);
        assert(ledger.push(rec).drop_first() =~= ledger.drop_first().push(rec));
        assert forall|o: Seq<char>| o != rec.owner@ implies
            #[trigger] ledger_record(ledger.push(rec), o) == ledger_record(ledger, o) by {
            if ledger[0].owner@ != o {
                assert(ledger_record(ledger.drop_first().push(rec), o)
                    == ledger_record(ledger.drop_first(), o));
            }
        }
    }
}

} // verus!
