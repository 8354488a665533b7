use vstd::prelude::*;
use vstd::pervasive::VecAdditionalExecFns;
use crate::errors::SaleError;
use crate::outbound::Instruction;
use crate::outbound::mint_instruction_ok;
use crate::outbound::payout_instructions_ok;
use crate::policy::MintDecision;
use crate::policy::TokenMeta;
use crate::policy::check_mint;
use crate::policy::mint_policy;
use crate::shares::Payee;
use crate::shares::check_shares;
use crate::shares::lemma_share_bounded;
use crate::shares::mul_share;
use crate::shares::valid_shares;
use crate::state::SaleState;
use crate::state::WalletRecord;
use crate::state::contains_addr;
use crate::state::find_record;
use crate::state::ledger_record;
use crate::state::ledger_wf;
use crate::state::lemma_record_absent;
use crate::state::lemma_record_append;
use crate::state::lemma_record_at_index;
use crate::state::lemma_record_update;
use crate::text::clone_string;
use crate::text::clone_strings;
use crate::text::string_eq;

verus! {

/// Everything the contract instantiates: the sale configuration, the
/// whitelist, and the per-wallet mint ledger.
pub struct Sale {
    /// The singleton sale configuration and counters.
    pub state: SaleState,
    /// Addresses allowed to mint during the presale phase.
    pub whitelist: Vec<String>,
    /// One mint record per wallet that ever minted.
    pub ledger: Vec<WalletRecord>,
}

/// The values the contract is instantiated with.
pub struct InitMsg {
    /// Initial whitelist.
    pub white_members: Vec<String>,
    /// The admin address.
    pub admin: String,
    /// Total number of tokens that may ever be minted.
    pub total_supply: u128,
    /// Per-wallet presale cap.
    pub maximum_count: u128,
    /// Public phase price.
    pub public_price: u128,
    /// Presale phase price.
    pub private_price: u128,
    /// Initial payee table.
    pub reward_wallet: Vec<Payee>,
    /// Block time the presale opens at.
    pub presale_start: u64,
    /// Length of the presale window.
    pub presale_period: u64,
    /// Denomination tag of the payment token.
    pub denom: String,
    /// Address of the payment contract.
    pub token_address: String,
    /// Code hash of the payment contract.
    pub token_contract_hash: String,
    /// Initial unclaimed flag of each pre-numbered slot.
    pub check_minted: Vec<bool>,
}

/// Every inbound mutating request, dispatched by `handle`.
pub enum HandleMsg {
    /// A payment notification: the mint path.
    Receive {
        /// The end buyer.
        sender: String,
        /// The account the payment was drawn from.
        from: String,
        /// The payment amount.
        amount: u128,
        /// The decoded metadata blob naming the requested token.
        msg: TokenMeta,
    },
    /// Set the per-wallet presale cap.
    SetMaximumNft {
        /// The new cap.
        amount: u128,
    },
    /// Set the total supply.
    SetTotalSupply {
        /// The new total supply.
        amount: u128,
    },
    /// Transfer the admin role.
    ChangeAdmin {
        /// The new admin.
        address: String,
    },
    /// Replace the payee table.
    SetRewardWallet {
        /// The new payee table.
        wallet: Vec<Payee>,
    },
    /// Set both prices.
    SetPrice {
        /// The new public phase price.
        public_price: u128,
        /// The new presale phase price.
        private_price: u128,
    },
    /// Flip the manual kill switch.
    SetMintFlag {
        /// The new switch value.
        flag: bool,
    },
    /// Move the sale window.
    SetMintTime {
        /// The new presale start.
        presale_start: u64,
        /// The new presale period.
        presale_period: u64,
    },
    /// Replace the whitelist.
    SetWhiteUsers {
        /// The new whitelist.
        members: Vec<String>,
    },
    /// Append one address to the whitelist.
    AddWhiteUser {
        /// The address to add.
        member: String,
    },
    /// Set the NFT contract address.
    SetNftAddress {
        /// The new NFT contract address.
        nft_address: String,
    },
    /// Set the payment contract address and hash.
    SetTokenAddres {
        /// The new payment contract address.
        token_address: String,
        /// The new payment contract code hash.
        token_contract_hash: String,
    },
}

/// Every read-only request, dispatched by `query`.
pub enum QueryMsg {
    /// The whole sale state.
    GetStateInfo,
    /// The whitelist.
    GetWhiteUsers,
    /// One wallet's mint record.
    GetUserInfo {
        /// The wallet asked about.
        address: String,
    },
}

/// The answer to a query.
pub enum QueryAnswer<'a> {
    /// The whole sale state.
    StateInfo(&'a SaleState),
    /// The whitelist.
    WhiteUsers(Vec<String>),
    /// One wallet's mint record; empty if the wallet never minted.
    UserInfo(Vec<String>),
}

/// The commit a granted mint makes to the sale state: the counter
/// stepped to the grant's value, the slot cleared, all else unchanged.
pub open spec fn mint_commit_ok(pre: SaleState, post: SaleState, d: MintDecision) -> bool {
    &&& post.count == d.new_count
    &&& post.check_minted@ == pre.check_minted@.update(d.slot as int, false)
    &&& post.total_supply == pre.total_supply
    &&& post.maximum_count == pre.maximum_count
    &&& post.public_price == pre.public_price
    &&& post.private_price == pre.private_price
    &&& post.reward_wallet == pre.reward_wallet
    &&& post.presale_start == pre.presale_start
    &&& post.presale_period == pre.presale_period
    &&& post.can_mint == pre.can_mint
    &&& post.admin == pre.admin
    &&& post.nft_address == pre.nft_address
    &&& post.denom == pre.denom
    &&& post.token_address == pre.token_address
    &&& post.token_contract_hash == pre.token_contract_hash
}

/// The decision the policy engine reaches for a mint request against a
/// whole `Sale`, reading the buyer's ledger record.
pub open spec fn sale_mint_decision(
    s: Sale,
    now: u64,
    origin: Seq<char>,
    buyer: Seq<char>,
    amount: u128,
    token: TokenMeta,
) -> Result<MintDecision, SaleError> {
    mint_policy(
        s.state,
        s.whitelist.deep_view(),
        ledger_record(s.ledger@, buyer),
        now,
        origin,
        buyer,
        amount,
        token,
    )
}

/// The buyer's record after a successful mint: the old record, or a
/// fresh empty one, with the minted token id appended.
pub open spec fn record_after_mint(
    pre: Seq<WalletRecord>,
    buyer: Seq<char>,
    token_id: Seq<char>,
) -> Seq<Seq<char>> {
    match ledger_record(pre, buyer) {
        Some(ts) => ts.push(token_id),
        None => seq![token_id],
    }
}

/// Everything a successful mint commits and emits, as the mint path's
/// contract states it: the counter stepped by one and still within the
/// supply, the previously unclaimed slot cleared, the buyer's record
/// extended by the minted token id, every other record untouched, and
/// the instruction list — the NFT issuance first, then every payee's
/// exact share in stored order.
pub open spec fn mints_ok(
    pre: Sale,
    post: Sale,
    now: u64,
    origin: Seq<char>,
    buyer: Seq<char>,
    amount: u128,
    token: TokenMeta,
    instrs: Seq<Instruction>,
) -> bool {
    let d = sale_mint_decision(pre, now, origin, buyer, amount, token)->Ok_0;
    &&& mint_commit_ok(pre.state, post.state, d)
    &&& post.state.count == pre.state.count + 1
    &&& post.state.count <= post.state.total_supply
    &&& pre.state.check_minted@[d.slot as int] == true
    &&& post.whitelist == pre.whitelist
    &&& ledger_record(post.ledger@, buyer) == Some(
        record_after_mint(pre.ledger@, buyer, token.token_id->0@),
    )
    &&& forall|o: Seq<char>| o != buyer ==> #[trigger] ledger_record(post.ledger@, o)
        == ledger_record(pre.ledger@, o)
    &&& instrs.len() == 1 + pre.state.reward_wallet@.len()
    &&& mint_instruction_ok(instrs[0], token, buyer, pre.state.nft_address@)
    &&& payout_instructions_ok(
        instrs,
        pre.state.reward_wallet@,
        amount,
        pre.state.token_address@,
        pre.state.token_contract_hash@,
    )
}

/// Contract of the per-wallet-cap setter: admin-gated single-field update.
pub open spec fn sets_maximum_nft(
    pre: Sale,
    post: Sale,
    sender: Seq<char>,
    amount: u128,
    r: Result<(), SaleError>,
) -> bool {
    &&& r is Ok <==> sender == pre.state.admin@
    &&& r matches Err(e) ==> (e == SaleError::Unauthorized && post == pre)
    &&& r is Ok ==> (post.state == (SaleState { maximum_count: amount, ..pre.state })
        && post.whitelist == pre.whitelist && post.ledger == pre.ledger)
}

/// Contract of the total-supply setter: admin-gated single-field update.
pub open spec fn sets_total_supply(
    pre: Sale,
    post: Sale,
    sender: Seq<char>,
    amount: u128,
    r: Result<(), SaleError>,
) -> bool {
    &&& r is Ok <==> sender == pre.state.admin@
    &&& r matches Err(e) ==> (e == SaleError::Unauthorized && post == pre)
    &&& r is Ok ==> (post.state == (SaleState { total_supply: amount, ..pre.state })
        && post.whitelist == pre.whitelist && post.ledger == pre.ledger)
}

/// Contract of the admin transfer: admin-gated single-field update.
pub open spec fn sets_admin(
    pre: Sale,
    post: Sale,
    sender: Seq<char>,
    address: String,
    r: Result<(), SaleError>,
) -> bool {
    &&& r is Ok <==> sender == pre.state.admin@
    &&& r matches Err(e) ==> (e == SaleError::Unauthorized && post == pre)
    &&& r is Ok ==> (post.state == (SaleState { admin: address, ..pre.state })
        && post.whitelist == pre.whitelist && post.ledger == pre.ledger)
}

/// Contract of the NFT-contract-address setter.
pub open spec fn sets_nft_address(
    pre: Sale,
    post: Sale,
    sender: Seq<char>,
    address: String,
    r: Result<(), SaleError>,
) -> bool {
    &&& r is Ok <==> sender == pre.state.admin@
    &&& r matches Err(e) ==> (e == SaleError::Unauthorized && post == pre)
    &&& r is Ok ==> (post.state == (SaleState { nft_address: address, ..pre.state })
        && post.whitelist == pre.whitelist && post.ledger == pre.ledger)
}

/// Contract of the payment-contract setter: address and hash together.
pub open spec fn sets_token_address(
    pre: Sale,
    post: Sale,
    sender: Seq<char>,
    address: String,
    hash: String,
    r: Result<(), SaleError>,
) -> bool {
    &&& r is Ok <==> sender == pre.state.admin@
    &&& r matches Err(e) ==> (e == SaleError::Unauthorized && post == pre)
    &&& r is Ok ==> (post.state == (SaleState {
        token_address: address,
        token_contract_hash: hash,
        ..pre.state
    }) && post.whitelist == pre.whitelist && post.ledger == pre.ledger)
}

/// Contract of the payee-table setter: admin-gated, and the new table's
/// shares must sum to exactly 1.0.
pub open spec fn sets_reward_wallet(
    pre: Sale,
    post: Sale,
    sender: Seq<char>,
    wallet: Seq<Payee>,
    r: Result<(), SaleError>,
) -> bool {
    &&& r is Ok <==> (sender == pre.state.admin@ && valid_shares(wallet))
    &&& sender != pre.state.admin@ ==> r == Err::<(), SaleError>(SaleError::Unauthorized)
    &&& (sender == pre.state.admin@ && !valid_shares(wallet)) ==> r == Err::<(), SaleError>(
        SaleError::InvalidPayeeShares,
    )
    &&& r is Err ==> post == pre
    &&& r is Ok ==> (post.state.reward_wallet@ == wallet && post.state == (SaleState {
        reward_wallet: post.state.reward_wallet,
        ..pre.state
    }) && post.whitelist == pre.whitelist && post.ledger == pre.ledger)
}

/// Contract of the price setter: both prices in one update.
pub open spec fn sets_price(
    pre: Sale,
    post: Sale,
    sender: Seq<char>,
    public_price: u128,
    private_price: u128,
    r: Result<(), SaleError>,
) -> bool {
    &&& r is Ok <==> sender == pre.state.admin@
    &&& r matches Err(e) ==> (e == SaleError::Unauthorized && post == pre)
    &&& r is Ok ==> (post.state == (SaleState { public_price, private_price, ..pre.state })
        && post.whitelist == pre.whitelist && post.ledger == pre.ledger)
}

/// Contract of the kill-switch setter.
pub open spec fn sets_flag(
    pre: Sale,
    post: Sale,
    sender: Seq<char>,
    flag: bool,
    r: Result<(), SaleError>,
) -> bool {
    &&& r is Ok <==> sender == pre.state.admin@
    &&& r matches Err(e) ==> (e == SaleError::Unauthorized && post == pre)
    &&& r is Ok ==> (post.state == (SaleState { can_mint: flag, ..pre.state })
        && post.whitelist == pre.whitelist && post.ledger == pre.ledger)
}

/// Contract of the sale-window setter.
pub open spec fn sets_mint_time(
    pre: Sale,
    post: Sale,
    sender: Seq<char>,
    presale_start: u64,
    presale_period: u64,
    r: Result<(), SaleError>,
) -> bool {
    &&& r is Ok <==> sender == pre.state.admin@
    &&& r matches Err(e) ==> (e == SaleError::Unauthorized && post == pre)
    &&& r is Ok ==> (post.state == (SaleState { presale_start, presale_period, ..pre.state })
        && post.whitelist == pre.whitelist && post.ledger == pre.ledger)
}

/// Contract of the whitelist replacement: unconditional overwrite,
/// admin-gated.
pub open spec fn sets_white_members(
    pre: Sale,
    post: Sale,
    sender: Seq<char>,
    members: Seq<String>,
    r: Result<(), SaleError>,
) -> bool {
    &&& r is Ok <==> sender == pre.state.admin@
    &&& r matches Err(e) ==> (e == SaleError::Unauthorized && post == pre)
    &&& r is Ok ==> (post.whitelist@ == members && post.state == pre.state && post.ledger
        == pre.ledger)
}

/// Contract of the single whitelist append: admin-gated, duplicates
/// rejected, insertion order kept.
pub open spec fn adds_white_user(
    pre: Sale,
    post: Sale,
    sender: Seq<char>,
    member: String,
    r: Result<(), SaleError>,
) -> bool {
    &&& r is Ok <==> (sender == pre.state.admin@ && !pre.whitelist.deep_view().contains(member@))
    &&& sender != pre.state.admin@ ==> r == Err::<(), SaleError>(SaleError::Unauthorized)
    &&& (sender == pre.state.admin@ && pre.whitelist.deep_view().contains(member@)) ==> r
        == Err::<(), SaleError>(SaleError::DuplicateWhitelistEntry)
    &&& r is Err ==> post == pre
    &&& r is Ok ==> (post.whitelist@ == pre.whitelist@.push(member) && post.state == pre.state
        && post.ledger == pre.ledger)
}

impl Sale {
    /// A sale is well formed when no wallet owns two ledger records.
    pub open spec fn wf(self) -> bool {
        ledger_wf(self.ledger@)
    }

    /// Instantiates the contract.  Counters start at zero, minting is
    /// enabled, and the NFT contract address starts as a placeholder
    /// until the admin sets it.  The payee table is stored as given,
    /// unvalidated; only `set_reward_wallet` checks the share sum.
    pub fn init(msg: InitMsg) -> (s: Sale)
        ensures
            s.state.count == 0,
            s.state.total_supply == msg.total_supply,
            s.state.maximum_count == msg.maximum_count,
            s.state.public_price == msg.public_price,
            s.state.private_price == msg.private_price,
            s.state.reward_wallet == msg.reward_wallet,
            s.state.presale_start == msg.presale_start,
            s.state.presale_period == msg.presale_period,
            s.state.can_mint == true,
            s.state.admin == msg.admin,
            s.state.nft_address@ == "nft_address"@,
            s.state.denom == msg.denom,
            s.state.token_address == msg.token_address,
            s.state.token_contract_hash == msg.token_contract_hash,
            s.state.check_minted == msg.check_minted,
            s.whitelist == msg.white_members,
            s.ledger@.len() == 0,
            s.wf(),
    {
        let state = SaleState {
            count: 0,
            total_supply: msg.total_supply,
            maximum_count: msg.maximum_count,
            public_price: msg.public_price,
            private_price: msg.private_price,
            reward_wallet: msg.reward_wallet,
            presale_start: msg.presale_start,
            presale_period: msg.presale_period,
            can_mint: true,
            admin: msg.admin,
            nft_address: crate::text::str_to_string("nft_address"),
            denom: msg.denom,
            token_address: msg.token_address,
            token_contract_hash: msg.token_contract_hash,
            check_minted: msg.check_minted,
        };
        Sale { state, whitelist: msg.white_members, ledger: Vec::new() }
    }

    /// The mint path.  Judges the payment notification by the sale
    /// policy; on failure returns the policy's error with nothing
    /// changed, and on success commits the counter, the claimed slot
    /// and the buyer's ledger record, and returns the outbound
    /// instruction list: the NFT issuance first, then one payment per
    /// payee in stored order.
    pub fn mint_nft(
        &mut self,
        now: u64,
        origin: &String,
        sender: String,
        from: String,
        amount: u128,
        token: TokenMeta,
    ) -> (r: Result<Vec<Instruction>, SaleError>)
        requires
            old(self).wf(),
            valid_shares(old(self).state.reward_wallet@),
        ensures
            r is Ok <==> sale_mint_decision(*old(self), now, origin@, sender@, amount, token) is Ok,
            r matches Err(e) ==> (e == sale_mint_decision(
                *old(self),
                now,
                origin@,
                sender@,
                amount,
                token,
            )->Err_0 && *final(self) == *old(self)),
            r matches Ok(instrs) ==> mints_ok(
                *old(self),
                *final(self),
                now,
                origin@,
                sender@,
                amount,
                token,
                instrs@,
            ),
            final(self).wf(),
    {
        let rec_idx = find_record(&self.ledger, &sender);
        proof {
            match rec_idx {
                Some(i) => lemma_record_at_index(self.ledger@, sender@, i as int),
                None => lemma_record_absent(self.ledger@, sender@),
            }
        }
        let decision = match rec_idx {
            Some(i) => check_mint(
                &self.state,
                &self.whitelist,
                Some(&self.ledger[i].tokens),
                now,
                origin,
                &sender,
                amount,
                &token,
            ),
            None => check_mint(
                &self.state,
                &self.whitelist,
                None,
                now,
                origin,
                &sender,
                amount,
                &token,
            ),
        };
        let d = match decision {
            Ok(d) => d,
            Err(e) => {
                return Err(e);
            },
        };
        self.state.count = d.new_count;
        self.state.check_minted.set(d.slot, false);
        let TokenMeta {
            token_id,
            number: _,
            code_hash,
            name,
            description,
            image,
            attributes,
            protected_attributes: _,
        } = token;
        let tid = token_id.unwrap();
        let ch = code_hash.unwrap();
        let tid_for_ledger = clone_string(&tid);
        match rec_idx {
            Some(i) => {
                let mut rec = self.ledger.remove(i);
                rec.tokens.push(tid_for_ledger);
                self.ledger.insert(i, rec);
                proof {
                    assert(self.ledger@ =~= old(self).ledger@.update(i as int, self.ledger@[i as int]));
                    lemma_record_update(old(self).ledger@, i as int, self.ledger@[i as int]);
                    assert(self.ledger@[i as int].tokens.deep_view() =~= record_after_mint(
                        old(self).ledger@,
                        sender@,
                        tid@,
                    ));
                }
            },
            None => {
                let owner = clone_string(&sender);
                let mut tokens: Vec<String> = Vec::new();
                tokens.push(tid_for_ledger);
                let rec = WalletRecord { owner, tokens };
                self.ledger.push(rec);
                proof {
                    lemma_record_append(old(self).ledger@, self.ledger@.last());
                    assert(self.ledger@.last().tokens.deep_view() =~= record_after_mint(
                        old(self).ledger@,
                        sender@,
                        tid@,
                    ));
                }
            },
        }
        let nft_contract = clone_string(&self.state.nft_address);
        let mut instrs: Vec<Instruction> = Vec::new();
        instrs.push(
            Instruction::MintNft {
                token_id: tid,
                recipient: sender,
                code_hash: ch,
                name,
                description,
                image,
                attributes,
                nft_contract,
            },
        );
        let ghost first_instr = instrs@[0];
        let mut k: usize = 0;
        while k < self.state.reward_wallet.len()
            invariant
                k <= self.state.reward_wallet@.len(),
                valid_shares(self.state.reward_wallet@),
                instrs@.len() == 1 + k,
                instrs@[0] == first_instr,
                forall|j: int| 0 <= j < k ==> (#[trigger] instrs@[j + 1] matches
                    Instruction::PayShare { recipient, amount: a, token_hash: th, token_contract: tc }
                    && recipient@ == self.state.reward_wallet@[j].address@
                    && a as int == crate::shares::share_amount(
                        amount,
                        self.state.reward_wallet@[j].share,
                    ) && th@ == self.state.token_contract_hash@
                    && tc@ == self.state.token_address@),
            decreases self.state.reward_wallet@.len() - k,
        {
            proof {
                lemma_share_bounded(self.state.reward_wallet@, k as int);
            }
            let recipient = clone_string(&self.state.reward_wallet[k].address);
            let pay = mul_share(amount, self.state.reward_wallet[k].share);
            let token_hash = clone_string(&self.state.token_contract_hash);
            let token_contract = clone_string(&self.state.token_address);
            instrs.push(
                Instruction::PayShare { recipient, amount: pay, token_hash, token_contract },
            );
            k += 1;
        }
        Ok(instrs)
    }

    /// Sets the per-wallet presale cap.  Admin only.
    pub fn set_maximum_nft(&mut self, sender: &String, amount: u128) -> (r: Result<(), SaleError>)
        ensures
            sets_maximum_nft(*old(self), *final(self), sender@, amount, r),
    {
        if !string_eq(sender, &self.state.admin) {
            return Err(SaleError::Unauthorized);
        }
        self.state.maximum_count = amount;
        Ok(())
    }

    /// Sets the total supply.  Admin only.
    pub fn set_total_supply(&mut self, sender: &String, amount: u128) -> (r: Result<(), SaleError>)
        ensures
            sets_total_supply(*old(self), *final(self), sender@, amount, r),
    {
        if !string_eq(sender, &self.state.admin) {
            return Err(SaleError::Unauthorized);
        }
        self.state.total_supply = amount;
        Ok(())
    }

    /// Transfers the admin role.  Admin only.
    pub fn set_admin(&mut self, sender: &String, address: String) -> (r: Result<(), SaleError>)
        ensures
            sets_admin(*old(self), *final(self), sender@, address, r),
    {
        if !string_eq(sender, &self.state.admin) {
            return Err(SaleError::Unauthorized);
        }
        self.state.admin = address;
        Ok(())
    }

    /// Sets the NFT contract address.  Admin only.
    pub fn set_nft_address(&mut self, sender: &String, address: String) -> (r: Result<
        (),
        SaleError,
    >)
        ensures
            sets_nft_address(*old(self), *final(self), sender@, address, r),
    {
        if !string_eq(sender, &self.state.admin) {
            return Err(SaleError::Unauthorized);
        }
        self.state.nft_address = address;
        Ok(())
    }

    /// Sets the payment contract address and code hash.  Admin only.
    pub fn set_token_address(
        &mut self,
        sender: &String,
        address: String,
        token_contract_hash: String,
    ) -> (r: Result<(), SaleError>)
        ensures
            sets_token_address(
                *old(self),
                *final(self),
                sender@,
                address,
                token_contract_hash,
                r,
            ),
    {
        if !string_eq(sender, &self.state.admin) {
            return Err(SaleError::Unauthorized);
        }
        self.state.token_address = address;
        self.state.token_contract_hash = token_contract_hash;
        Ok(())
    }

    /// Replaces the payee table.  Admin only, and the new shares must
    /// sum to exactly 1.0.
    pub fn set_reward_wallet(&mut self, sender: &String, wallet: Vec<Payee>) -> (r: Result<
        (),
        SaleError,
    >)
        ensures
            sets_reward_wallet(*old(self), *final(self), sender@, wallet@, r),
    {
        if !string_eq(sender, &self.state.admin) {
            return Err(SaleError::Unauthorized);
        }
        if !check_shares(&wallet) {
            return Err(SaleError::InvalidPayeeShares);
        }
        self.state.reward_wallet = wallet;
        Ok(())
    }

    /// Sets both prices.  Admin only.
    pub fn set_price(
        &mut self,
        sender: &String,
        public_price: u128,
        private_price: u128,
    ) -> (r: Result<(), SaleError>)
        ensures
            sets_price(*old(self), *final(self), sender@, public_price, private_price, r),
    {
        if !string_eq(sender, &self.state.admin) {
            return Err(SaleError::Unauthorized);
        }
        self.state.public_price = public_price;
        self.state.private_price = private_price;
        Ok(())
    }

    /// Flips the manual kill switch.  Admin only.
    pub fn set_flag(&mut self, sender: &String, flag: bool) -> (r: Result<(), SaleError>)
        ensures
            sets_flag(*old(self), *final(self), sender@, flag, r),
    {
        if !string_eq(sender, &self.state.admin) {
            return Err(SaleError::Unauthorized);
        }
        self.state.can_mint = flag;
        Ok(())
    }

    /// Moves the sale window.  Admin only.
    pub fn set_mint_time(
        &mut self,
        sender: &String,
        presale_start: u64,
        presale_period: u64,
    ) -> (r: Result<(), SaleError>)
        ensures
            sets_mint_time(*old(self), *final(self), sender@, presale_start, presale_period, r),
    {
        if !string_eq(sender, &self.state.admin) {
            return Err(SaleError::Unauthorized);
        }
        self.state.presale_start = presale_start;
        self.state.presale_period = presale_period;
        Ok(())
    }

    /// Replaces the whitelist.  Admin only.
    pub fn set_white_members(&mut self, sender: &String, members: Vec<String>) -> (r: Result<
        (),
        SaleError,
    >)
        ensures
            sets_white_members(*old(self), *final(self), sender@, members@, r),
    {
        if !string_eq(sender, &self.state.admin) {
            return Err(SaleError::Unauthorized);
        }
        self.whitelist = members;
        Ok(())
    }

    /// Appends one address to the whitelist, rejecting duplicates.
    /// Admin only.
    pub fn add_white_user(&mut self, sender: &String, member: String) -> (r: Result<
        (),
        SaleError,
    >)
        ensures
            adds_white_user(*old(self), *final(self), sender@, member, r),
    {
        if !string_eq(sender, &self.state.admin) {
            return Err(SaleError::Unauthorized);
        }
        if contains_addr(&self.whitelist, &member) {
            return Err(SaleError::DuplicateWhitelistEntry);
        }
        self.whitelist.push(member);
        Ok(())
    }

    /// The whole sale state.
    pub fn query_count(&self) -> (r: &SaleState)
        ensures
            *r == self.state,
    {
        &self.state
    }

    /// The whitelist, as stored.
    pub fn query_white_users(&self) -> (r: Vec<String>)
        ensures
            r.deep_view() == self.whitelist.deep_view(),
    {
        clone_strings(&self.whitelist)
    }

    /// One wallet's mint record: its token ids in mint order, or the
    /// empty list if the wallet never minted.  Never an error, and —
    /// the sale unread otherwise — the same answer on every call.
    pub fn query_user_info(&self, address: &String) -> (r: Vec<String>)
        ensures
            r.deep_view() == match ledger_record(self.ledger@, address@) {
                Some(ts) => ts,
                None => Seq::<Seq<char>>::empty(),
            },
    {
        match find_record(&self.ledger, address) {
            Some(i) => {
                proof {
                    lemma_record_at_index(self.ledger@, address@, i as int);
                }
                clone_strings(&self.ledger[i].tokens)
            },
            None => {
                proof {
                    lemma_record_absent(self.ledger@, address@);
                }
                let r: Vec<String> = Vec::new();
                assert(r.deep_view() =~= Seq::<Seq<char>>::empty());
                r
            },
        }
    }

    /// Dispatches a read-only request.
    pub fn query<'a>(&'a self, msg: &QueryMsg) -> (r: QueryAnswer<'a>)
        ensures
            match *msg {
                QueryMsg::GetStateInfo => r matches QueryAnswer::StateInfo(s) && *s == self.state,
                QueryMsg::GetWhiteUsers => r matches QueryAnswer::WhiteUsers(v) && v.deep_view()
                    == self.whitelist.deep_view(),
                QueryMsg::GetUserInfo { ref address } => r matches QueryAnswer::UserInfo(v)
                    && v.deep_view() == match ledger_record(self.ledger@, address@) {
                    Some(ts) => ts,
                    None => Seq::<Seq<char>>::empty(),
                },
            },
    {
        match msg {
            QueryMsg::GetStateInfo => QueryAnswer::StateInfo(self.query_count()),
            QueryMsg::GetWhiteUsers => QueryAnswer::WhiteUsers(self.query_white_users()),
            QueryMsg::GetUserInfo { address } => QueryAnswer::UserInfo(
                self.query_user_info(address),
            ),
        }
    }

    /// Dispatches one inbound mutating request: the mint path for a
    /// payment notification, the guarded single-update setters for
    /// everything else.  Setters answer with an empty instruction list;
    /// every failure leaves the sale exactly as it was.
    pub fn handle(&mut self, now: u64, sender: &String, msg: HandleMsg) -> (r: Result<
        Vec<Instruction>,
        SaleError,
    >)
        requires
            old(self).wf(),
            msg matches HandleMsg::Receive { .. } ==> valid_shares(
                old(self).state.reward_wallet@,
            ),
        ensures
            final(self).wf(),
            r is Err ==> *final(self) == *old(self),
            match msg {
                HandleMsg::Receive { sender: buyer, from, amount, msg: token } => {
                    &&& r is Ok <==> sale_mint_decision(
                        *old(self),
                        now,
                        sender@,
                        buyer@,
                        amount,
                        token,
                    ) is Ok
                    &&& r matches Err(e) ==> e == sale_mint_decision(
                        *old(self),
                        now,
                        sender@,
                        buyer@,
                        amount,
                        token,
                    )->Err_0
                    &&& r matches Ok(instrs) ==> mints_ok(
                        *old(self),
                        *final(self),
                        now,
                        sender@,
                        buyer@,
                        amount,
                        token,
                        instrs@,
                    )
                },
                HandleMsg::SetMaximumNft { amount } => sets_maximum_nft(
                    *old(self),
                    *final(self),
                    sender@,
                    amount,
                    unit_result(r),
                ) && emits_nothing(r),
                HandleMsg::SetTotalSupply { amount } => sets_total_supply(
                    *old(self),
                    *final(self),
                    sender@,
                    amount,
                    unit_result(r),
                ) && emits_nothing(r),
                HandleMsg::ChangeAdmin { address } => sets_admin(
                    *old(self),
                    *final(self),
                    sender@,
                    address,
                    unit_result(r),
                ) && emits_nothing(r),
                HandleMsg::SetRewardWallet { wallet } => sets_reward_wallet(
                    *old(self),
                    *final(self),
                    sender@,
                    wallet@,
                    unit_result(r),
                ) && emits_nothing(r),
                HandleMsg::SetPrice { public_price, private_price } => sets_price(
                    *old(self),
                    *final(self),
                    sender@,
                    public_price,
                    private_price,
                    unit_result(r),
                ) && emits_nothing(r),
                HandleMsg::SetMintFlag { flag } => sets_flag(
                    *old(self),
                    *final(self),
                    sender@,
                    flag,
                    unit_result(r),
                ) && emits_nothing(r),
                HandleMsg::SetMintTime { presale_start, presale_period } => sets_mint_time(
                    *old(self),
                    *final(self),
                    sender@,
                    presale_start,
                    presale_period,
                    unit_result(r),
                ) && emits_nothing(r),
                HandleMsg::SetWhiteUsers { members } => sets_white_members(
                    *old(self),
                    *final(self),
                    sender@,
                    members@,
                    unit_result(r),
                ) && emits_nothing(r),
                HandleMsg::AddWhiteUser { member } => adds_white_user(
                    *old(self),
                    *final(self),
                    sender@,
                    member,
                    unit_result(r),
                ) && emits_nothing(r),
                HandleMsg::SetNftAddress { nft_address } => sets_nft_address(
                    *old(self),
                    *final(self),
                    sender@,
                    nft_address,
                    unit_result(r),
                ) && emits_nothing(r),
                HandleMsg::SetTokenAddres { token_address, token_contract_hash } =>
                    sets_token_address(
                    *old(self),
                    *final(self),
                    sender@,
                    token_address,
                    token_contract_hash,
                    unit_result(r),
                ) && emits_nothing(r),
            },
    {
        match msg {
            HandleMsg::Receive { sender: buyer, from, amount, msg: token } => self.mint_nft(
                now,
                sender,
                buyer,
                from,
                amount,
                token,
            ),
            HandleMsg::SetMaximumNft { amount } => empty_ok(self.set_maximum_nft(sender, amount)),
            HandleMsg::SetTotalSupply { amount } => empty_ok(self.set_total_supply(sender, amount)),
            HandleMsg::ChangeAdmin { address } => empty_ok(self.set_admin(sender, address)),
            HandleMsg::SetRewardWallet { wallet } => empty_ok(self.set_reward_wallet(sender, wallet)),
            HandleMsg::SetPrice { public_price, private_price } => empty_ok(
                self.set_price(sender, public_price, private_price),
            ),
            HandleMsg::SetMintFlag { flag } => empty_ok(self.set_flag(sender, flag)),
            HandleMsg::SetMintTime { presale_start, presale_period } => empty_ok(
                self.set_mint_time(sender, presale_start, presale_period),
            ),
            HandleMsg::SetWhiteUsers { members } => empty_ok(
                self.set_white_members(sender, members),
            ),
            HandleMsg::AddWhiteUser { member } => empty_ok(self.add_white_user(sender, member)),
            HandleMsg::SetNftAddress { nft_address } => empty_ok(
                self.set_nft_address(sender, nft_address),
            ),
            HandleMsg::SetTokenAddres { token_address, token_contract_hash } => empty_ok(
                self.set_token_address(sender, token_address, token_contract_hash),
            ),
        }
    }
}

/// The unit-valued shape of a dispatch result, for judging a setter's
/// outcome through `handle`.
pub open spec fn unit_result(r: Result<Vec<Instruction>, SaleError>) -> Result<(), SaleError> {
    match r {
        Ok(_) => Ok(()),
        Err(e) => Err(e),
    }
}

/// A successful setter emits no outbound instruction.
pub open spec fn emits_nothing(r: Result<Vec<Instruction>, SaleError>) -> bool {
    r matches Ok(instrs) ==> instrs@.len() == 0
}

/// Lifts a setter's empty success into an empty instruction list.
fn empty_ok(r: Result<(), SaleError>) -> (res: Result<Vec<Instruction>, SaleError>)
    ensures
        res is Ok <==> r is Ok,
        res matches Err(e) ==> r == Err::<(), SaleError>(e),
        r matches Err(e) ==> res == Err::<Vec<Instruction>, SaleError>(e),
        emits_nothing(res),
{
    match r {
        Ok(_) => Ok(Vec::new()),
        Err(e) => Err(e),
    }
}

} // verus!
