use vstd::prelude::*;

use crate::buyer_confirm::BuyerConfirm;
use crate::create::Create;
use crate::create::CreateParams;
use crate::create::lemma_created_escrow_wf;
use crate::error::LedgerError;
use crate::fund::Fund;
use crate::mark_shipped::MarkShipped;
use crate::state::Address;
use crate::state::Escrow;
use crate::state::EscrowState;
use crate::withdraw::Withdraw;

verus! {

/// One stored agreement together with the vault bound exclusively to it:
/// `vault` is the vault's balance while the vault exists, and `None` when no
/// vault has been created or it has been closed.
#[derive(Clone, Copy, Debug)]
pub struct LedgerEntry {
    pub escrow: Escrow,
    pub vault: Option<u64>,
}

/// The durable keyed store the five operations run against: at most one
/// agreement per (seller, id) key, each with its vault. It stands for the
/// external ledger's account storage; the order of entries carries no
/// meaning.
pub struct EscrowLedger {
    pub entries: Vec<LedgerEntry>,
}

impl EscrowLedger {
    /// The composite key an entry is addressed by.
    pub open spec fn key_of(e: LedgerEntry) -> (Address, u64) {
        (e.escrow.seller, e.escrow.id)
    }

    /// The index in a sequence that position `j` came from after the element
    /// at index `i` was removed.
    spec fn shifted(j: int, i: int) -> int {
        if j < i {
            j
        } else {
            j + 1
        }
    }

    /// Whether an entry is stored under the given key.
    pub open spec fn entry_has_key(e: LedgerEntry, seller: Address, id: u64) -> bool {
        Self::key_of(e) == (seller, id)
    }

    /// Custody invariant of one entry: the record is well formed, the vault
    /// exists exactly from funding until release, and while it exists it
    /// holds exactly the agreed amount.
    pub open spec fn entry_wf(e: LedgerEntry) -> bool {
        &&& e.escrow.wf()
        &&& (e.vault is Some <==> (e.escrow.state is Funded || e.escrow.state is MarkedAsShipped
            || e.escrow.state is BuyerConfirmed))
        &&& (e.vault is Some ==> e.vault->0 == e.escrow.amount)
    }

    /// Well-formedness of the whole store: every entry satisfies the custody
    /// invariant and no two entries share a key.
    pub open spec fn wf(self) -> bool {
        &&& (forall|i: int|
            0 <= i < self.entries@.len() ==> Self::entry_wf(#[trigger] self.entries@[i]))
        &&& (forall|i: int, j: int|
            0 <= i < self.entries@.len() && 0 <= j < self.entries@.len() && i != j ==> Self::key_of(
                #[trigger] self.entries@[i],
            ) != Self::key_of(#[trigger] self.entries@[j]))
    }

    /// Whether an agreement is stored under the key.
    pub open spec fn has_agreement(self, seller: Address, id: u64) -> bool {
        exists|i: int|
            0 <= i < self.entries@.len() && Self::entry_has_key(self.entries@[i], seller, id)
    }

    /// The index of the entry stored under the key.
    pub open spec fn index_of(self, seller: Address, id: u64) -> int {
        choose|i: int|
            0 <= i < self.entries@.len() && Self::entry_has_key(self.entries@[i], seller, id)
    }

    /// The entry stored under the key, when there is one.
    pub open spec fn lookup(self, seller: Address, id: u64) -> Option<LedgerEntry> {
        if self.has_agreement(seller, id) {
            Some(self.entries@[self.index_of(seller, id)])
        } else {
            None
        }
    }

    /// The agreement stored under the key.
    pub open spec fn agreement(self, seller: Address, id: u64) -> Escrow {
        self.lookup(seller, id)->0.escrow
    }

    /// The balance of the vault bound to the agreement under the key, or
    /// `None` while no vault exists.
    pub open spec fn vault_balance(self, seller: Address, id: u64) -> Option<u64> {
        self.lookup(seller, id)->0.vault
    }

    /// The balance the ledger reports for an entry's vault: zero when no
    /// vault exists.
    pub open spec fn entry_vault_balance(e: LedgerEntry) -> u64 {
        match e.vault {
            Some(b) => b,
            None => 0,
        }
    }

    /// An entry stored at index `i` is the one the key resolves to.
    pub proof fn lemma_key_at(self, i: int, seller: Address, id: u64)
        requires
            self.wf(),
            0 <= i < self.entries@.len(),
            Self::entry_has_key(self.entries@[i], seller, id),
        ensures
            self.has_agreement(seller, id),
            self.index_of(seller, id) == i,
            self.lookup(seller, id) == Some(self.entries@[i]),
    {
        assert(self.has_agreement(seller, id));
        let j = self.index_of(seller, id);
        assert(0 <= j < self.entries@.len() && Self::entry_has_key(self.entries@[j], seller, id));
        if j != i {
            assert(Self::key_of(self.entries@[i]) != Self::key_of(self.entries@[j]));
        }
    }

    /// Replacing the entry at index `i` by one under the same key keeps the
    /// store well formed, resolves that key to the new entry, and leaves
    /// every other key untouched.
    proof fn lemma_lookup_update(pre: Self, post: Self, i: int, e: LedgerEntry)
        requires
            pre.wf(),
            0 <= i < pre.entries@.len(),
            Self::key_of(e) == Self::key_of(pre.entries@[i]),
            Self::entry_wf(e),
            post.entries@ == pre.entries@.update(i, e),
        ensures
            post.wf(),
            post.lookup(e.escrow.seller, e.escrow.id) == Some(e),
            forall|s2: Address, i2: u64|
                !(s2 == e.escrow.seller && i2 == e.escrow.id) ==> post.lookup(s2, i2)
                    == pre.lookup(s2, i2),
    {
        let seller = e.escrow.seller;
        let id = e.escrow.id;
        assert(post.entries@.len() == pre.entries@.len());
        assert forall|j: int| 0 <= j < post.entries@.len() implies Self::entry_wf(
            #[trigger] post.entries@[j],
        ) by {
            if j != i {
                assert(post.entries@[j] == pre.entries@[j]);
            }
        }
        assert forall|j: int, k: int|
            0 <= j < post.entries@.len() && 0 <= k < post.entries@.len() && j != k implies Self::key_of(
            #[trigger] post.entries@[j],
        ) != Self::key_of(#[trigger] post.entries@[k]) by {
            assert(Self::key_of(post.entries@[j]) == Self::key_of(pre.entries@[j]));
            assert(Self::key_of(post.entries@[k]) == Self::key_of(pre.entries@[k]));
        }
        post.lemma_key_at(i, seller, id);
        assert forall|s2: Address, i2: u64| !(s2 == seller && i2 == id) implies post.lookup(s2, i2)
            == pre.lookup(s2, i2) by {
            if pre.has_agreement(s2, i2) {
                let j = pre.index_of(s2, i2);
                assert(0 <= j < pre.entries@.len() && Self::entry_has_key(
                    pre.entries@[j],
                    s2,
                    i2,
                ));
                assert(j != i);
                assert(post.entries@[j] == pre.entries@[j]);
                pre.lemma_key_at(j, s2, i2);
                post.lemma_key_at(j, s2, i2);
            } else {
                if post.has_agreement(s2, i2) {
                    let j = post.index_of(s2, i2);
                    assert(0 <= j < post.entries@.len() && Self::entry_has_key(
                        post.entries@[j],
                        s2,
                        i2,
                    ));
                    assert(j != i);
                    assert(Self::entry_has_key(pre.entries@[j], s2, i2));
                }
            }
        }
    }

    /// Appending an entry under a fresh key keeps the store well formed,
    /// resolves that key to the new entry, and leaves every other key
    /// untouched.
    proof fn lemma_lookup_push(pre: Self, post: Self, e: LedgerEntry)
        requires
            pre.wf(),
            !pre.has_agreement(e.escrow.seller, e.escrow.id),
            Self::entry_wf(e),
            post.entries@ == pre.entries@.push(e),
        ensures
            post.wf(),
            post.lookup(e.escrow.seller, e.escrow.id) == Some(e),
            forall|s2: Address, i2: u64|
                !(s2 == e.escrow.seller && i2 == e.escrow.id) ==> post.lookup(s2, i2)
                    == pre.lookup(s2, i2),
    {
        let seller = e.escrow.seller;
        let id = e.escrow.id;
        let n = pre.entries@.len() as int;
        assert(post.entries@.len() == n + 1);
        assert(post.entries@[n] == e);
        assert forall|j: int| 0 <= j < post.entries@.len() implies Self::entry_wf(
            #[trigger] post.entries@[j],
        ) by {
            if j < n {
                assert(post.entries@[j] == pre.entries@[j]);
            }
        }
        assert forall|j: int, k: int|
            0 <= j < post.entries@.len() && 0 <= k < post.entries@.len() && j != k implies Self::key_of(
            #[trigger] post.entries@[j],
        ) != Self::key_of(#[trigger] post.entries@[k]) by {
            if j < n && k < n {
                assert(post.entries@[j] == pre.entries@[j]);
                assert(post.entries@[k] == pre.entries@[k]);
            } else if j < n {
                assert(post.entries@[k] == e);
                if Self::key_of(pre.entries@[j]) == Self::key_of(e) {
                    assert(Self::entry_has_key(pre.entries@[j], seller, id));
                }
            } else {
                assert(post.entries@[j] == e);
                if Self::key_of(pre.entries@[k]) == Self::key_of(e) {
                    assert(Self::entry_has_key(pre.entries@[k], seller, id));
                }
            }
        }
        post.lemma_key_at(n, seller, id);
        assert forall|s2: Address, i2: u64| !(s2 == seller && i2 == id) implies post.lookup(s2, i2)
            == pre.lookup(s2, i2) by {
            if pre.has_agreement(s2, i2) {
                let j = pre.index_of(s2, i2);
                assert(0 <= j < pre.entries@.len() && Self::entry_has_key(
                    pre.entries@[j],
                    s2,
                    i2,
                ));
                assert(post.entries@[j] == pre.entries@[j]);
                pre.lemma_key_at(j, s2, i2);
                post.lemma_key_at(j, s2, i2);
            } else {
                if post.has_agreement(s2, i2) {
                    let j = post.index_of(s2, i2);
                    assert(0 <= j < post.entries@.len() && Self::entry_has_key(
                        post.entries@[j],
                        s2,
                        i2,
                    ));
                    if j < n {
                        assert(Self::entry_has_key(pre.entries@[j], s2, i2));
                    } else {
                        assert(post.entries@[j] == e);
                    }
                }
            }
        }
    }

    /// Removing the entry at index `i` keeps the store well formed, makes
    /// its key unresolved, and leaves every other key untouched.
    proof fn lemma_lookup_remove(pre: Self, post: Self, i: int)
        requires
            pre.wf(),
            0 <= i < pre.entries@.len(),
            post.entries@ == pre.entries@.remove(i),
        ensures
            post.wf(),
            post.lookup(pre.entries@[i].escrow.seller, pre.entries@[i].escrow.id) is None,
            forall|s2: Address, i2: u64|
                !(s2 == pre.entries@[i].escrow.seller && i2 == pre.entries@[i].escrow.id)
                    ==> post.lookup(s2, i2) == pre.lookup(s2, i2),
    {
        let seller = pre.entries@[i].escrow.seller;
        let id = pre.entries@[i].escrow.id;
        pre.entries@.remove_ensures(i);
        let n = post.entries@.len() as int;
        assert(n == pre.entries@.len() - 1);
        assert forall|j: int| 0 <= j < n implies post.entries@[j] == pre.entries@[
            Self::shifted(j, i)
        ] by {
            if j < i {
                assert(pre.entries@.remove(i)[j] == pre.entries@[j]);
            } else {
                assert(pre.entries@.remove(i)[j] == pre.entries@[j + 1]);
            }
        }
        assert forall|j: int| 0 <= j < n implies Self::entry_wf(#[trigger] post.entries@[j]) by {
            assert(post.entries@[j] == pre.entries@[Self::shifted(j, i)]);
        }
        assert forall|j: int, k: int| 0 <= j < n && 0 <= k < n && j != k implies Self::key_of(
            #[trigger] post.entries@[j],
        ) != Self::key_of(#[trigger] post.entries@[k]) by {
            let j0 = Self::shifted(j, i);
            let k0 = Self::shifted(k, i);
            assert(post.entries@[j] == pre.entries@[j0]);
            assert(post.entries@[k] == pre.entries@[k0]);
            assert(j0 != k0);
        }
        if post.has_agreement(seller, id) {
            let j = post.index_of(seller, id);
            assert(0 <= j < n && Self::entry_has_key(post.entries@[j], seller, id));
            let j0 = if j < i { j } else { j + 1 };
            assert(post.entries@[j] == pre.entries@[j0]);
            assert(j0 != i);
            assert(Self::key_of(pre.entries@[j0]) != Self::key_of(pre.entries@[i]));
        }
        assert forall|s2: Address, i2: u64| !(s2 == seller && i2 == id) implies post.lookup(s2, i2)
            == pre.lookup(s2, i2) by {
            if pre.has_agreement(s2, i2) {
                let j0 = pre.index_of(s2, i2);
                assert(0 <= j0 < pre.entries@.len() && Self::entry_has_key(
                    pre.entries@[j0],
                    s2,
                    i2,
                ));
                pre.lemma_key_at(j0, s2, i2);
                assert(j0 != i);
                let j = if j0 < i { j0 } else { j0 - 1 };
                assert(post.entries@[j] == pre.entries@[j0]);
                post.lemma_key_at(j, s2, i2);
            } else {
                if post.has_agreement(s2, i2) {
                    let j = post.index_of(s2, i2);
                    assert(0 <= j < n && Self::entry_has_key(post.entries@[j], s2, i2));
                    let j0 = if j < i { j } else { j + 1 };
                    assert(Self::entry_has_key(pre.entries@[j0], s2, i2));
                }
            }
        }
    }

    /// An empty store.
    pub fn new() -> (r: EscrowLedger)
        ensures
            r.wf(),
            forall|s2: Address, i2: u64| !r.has_agreement(s2, i2),
            r.entries@.len() == 0,
    {
        EscrowLedger { entries: Vec::new() }
    }

    /// Resolves a key to the index of its entry.
    fn find(&self, seller: Address, id: u64) -> (r: Option<usize>)
        ensures
            match r {
                Some(i) => i < self.entries@.len() && Self::entry_has_key(
                    self.entries@[i as int],
                    seller,
                    id,
                ) && self.has_agreement(seller, id),
                None => !self.has_agreement(seller, id),
            },
    {
        let mut k: usize = 0;
        while k < self.entries.len()
            invariant
                k <= self.entries@.len(),
                forall|j: int|
                    0 <= j < k ==> !Self::entry_has_key(#[trigger] self.entries@[j], seller, id),
            decreases self.entries@.len() - k,
        {
            let e = &self.entries[k];
            if e.escrow.seller == seller && e.escrow.id == id {
                return Some(k);
            }
            k = k + 1;
        }
        None
    }

    /// Why creation is refused at the store, or `None` when it succeeds:
    /// the key must be free and the submitted terms valid.
    pub open spec fn create_err(self, seller: Address, id: u64, params: CreateParams) -> Option<
        LedgerError,
    > {
        if self.has_agreement(seller, id) {
            Some(LedgerError::AgreementAlreadyExists)
        } else {
            match (Create { seller }).create_error(params) {
                Some(code) => Some(LedgerError::Rejected(code)),
                None => None,
            }
        }
    }

    /// Creates a new agreement under (`seller`, `id`) with the submitted
    /// terms, fingerprinted with `now_slot`, the external ledger's current
    /// slot. An occupied key is never overwritten.
    pub fn create(&mut self, seller: Address, id: u64, params: &CreateParams, now_slot: u64) -> (r:
        Result<(), LedgerError>)
        requires
            old(self).wf(),
        ensures
            final(self).wf(),
            match old(self).create_err(seller, id, *params) {
                Some(err) => r == Err::<(), LedgerError>(err) && *final(self) == *old(self),
                None => {
                    &&& r == Ok::<(), LedgerError>(())
                    &&& final(self).has_agreement(seller, id)
                    &&& final(self).agreement(seller, id) == (Create { seller }).created_escrow(
                        id,
                        *params,
                        now_slot,
                    )
                    &&& final(self).vault_balance(seller, id) is None
                    &&& forall|s2: Address, i2: u64|
                        !(s2 == seller && i2 == id) ==> final(self).lookup(s2, i2) == old(
                            self,
                        ).lookup(s2, i2)
                },
            },
    {
        if let Some(_) = self.find(seller, id) {
            return Err(LedgerError::AgreementAlreadyExists);
        }
        let ctx = Create { seller };
        let escrow = match ctx.create_escrow(id, params, now_slot) {
            Err(code) => {
                return Err(LedgerError::Rejected(code));
            },
            Ok(e) => e,
        };
        let entry = LedgerEntry { escrow, vault: None };
        proof {
            lemma_created_escrow_wf(ctx, id, *params, now_slot);
        }
        self.entries.push(entry);
        proof {
            Self::lemma_lookup_push(*old(self), *self, entry);
        }
        Ok(())
    }

    /// Why funding is refused, or `None` when it succeeds: the key must
    /// resolve and every funding guard must pass on the stored agreement.
    pub open spec fn fund_err(
        self,
        buyer: Address,
        seller: Address,
        id: u64,
        token_mint: Address,
        buyer_token_balance: u64,
        terms_update_slot: u64,
    ) -> Option<LedgerError> {
        if !self.has_agreement(seller, id) {
            Some(LedgerError::AgreementNotFound)
        } else {
            match (Fund { buyer, token_mint, buyer_token_balance }).fund_error(
                self.agreement(seller, id),
                terms_update_slot,
            ) {
                Some(code) => Some(LedgerError::Rejected(code)),
                None => None,
            }
        }
    }

    /// Funds the agreement under (`seller`, `id`): on success the agreement
    /// moves to `Funded` and its vault is created holding exactly the agreed
    /// amount, taken from the buyer by the enclosing transaction.
    pub fn fund(
        &mut self,
        buyer: Address,
        seller: Address,
        id: u64,
        token_mint: Address,
        buyer_token_balance: u64,
        terms_update_slot: u64,
    ) -> (r: Result<(), LedgerError>)
        requires
            old(self).wf(),
        ensures
            final(self).wf(),
            match old(self).fund_err(
                buyer,
                seller,
                id,
                token_mint,
                buyer_token_balance,
                terms_update_slot,
            ) {
                Some(err) => r == Err::<(), LedgerError>(err) && *final(self) == *old(self),
                None => {
                    &&& r == Ok::<(), LedgerError>(())
                    &&& final(self).has_agreement(seller, id)
                    &&& final(self).agreement(seller, id) == (Escrow {
                        state: EscrowState::Funded,
                        ..old(self).agreement(seller, id)
                    })
                    &&& final(self).vault_balance(seller, id) == Some(
                        old(self).agreement(seller, id).amount,
                    )
                    &&& forall|s2: Address, i2: u64|
                        !(s2 == seller && i2 == id) ==> final(self).lookup(s2, i2) == old(
                            self,
                        ).lookup(s2, i2)
                },
            },
    {
        let idx = match self.find(seller, id) {
            None => {
                return Err(LedgerError::AgreementNotFound);
            },
            Some(i) => i,
        };
        proof {
            old(self).lemma_key_at(idx as int, seller, id);
        }
        let mut entry = self.entries[idx];
        let ctx = Fund { buyer, token_mint, buyer_token_balance };
        match ctx.fund_escrow(&mut entry.escrow, terms_update_slot) {
            Err(code) => Err(LedgerError::Rejected(code)),
            Ok(_) => {
                entry.vault = Some(entry.escrow.amount);
                self.entries[idx] = entry;
                proof {
                    Self::lemma_lookup_update(*old(self), *self, idx as int, entry);
                }
                Ok(())
            },
        }
    }

    /// Why the shipment mark is refused, or `None` when it succeeds.
    pub open spec fn mark_shipped_err(self, caller: Address, seller: Address, id: u64) -> Option<
        LedgerError,
    > {
        if !self.has_agreement(seller, id) {
            Some(LedgerError::AgreementNotFound)
        } else {
            match (MarkShipped { seller: caller }).mark_shipped_error(self.agreement(seller, id)) {
                Some(code) => Some(LedgerError::Rejected(code)),
                None => None,
            }
        }
    }

    /// Marks the agreement under (`seller`, `id`) shipped at `now`, the
    /// external clock's current time; the vault is untouched.
    pub fn mark_shipped(&mut self, caller: Address, seller: Address, id: u64, now: i64) -> (r:
        Result<(), LedgerError>)
        requires
            old(self).wf(),
        ensures
            final(self).wf(),
            match old(self).mark_shipped_err(caller, seller, id) {
                Some(err) => r == Err::<(), LedgerError>(err) && *final(self) == *old(self),
                None => {
                    &&& r == Ok::<(), LedgerError>(())
                    &&& final(self).has_agreement(seller, id)
                    &&& final(self).agreement(seller, id) == (Escrow {
                        state: EscrowState::MarkedAsShipped,
                        marked_shipped_at: Some(now),
                        ..old(self).agreement(seller, id)
                    })
                    &&& final(self).vault_balance(seller, id) == old(self).vault_balance(
                        seller,
                        id,
                    )
                    &&& forall|s2: Address, i2: u64|
                        !(s2 == seller && i2 == id) ==> final(self).lookup(s2, i2) == old(
                            self,
                        ).lookup(s2, i2)
                },
            },
    {
        let idx = match self.find(seller, id) {
            None => {
                return Err(LedgerError::AgreementNotFound);
            },
            Some(i) => i,
        };
        proof {
            old(self).lemma_key_at(idx as int, seller, id);
        }
        let mut entry = self.entries[idx];
        let ctx = MarkShipped { seller: caller };
        match ctx.mark_escrow_shipped(&mut entry.escrow, now) {
            Err(code) => Err(LedgerError::Rejected(code)),
            Ok(_) => {
                self.entries[idx] = entry;
                proof {
                    Self::lemma_lookup_update(*old(self), *self, idx as int, entry);
                }
                Ok(())
            },
        }
    }

    /// Why the confirmation is refused, or `None` when it succeeds.
    pub open spec fn buyer_confirm_err(self, caller: Address, seller: Address, id: u64) -> Option<
        LedgerError,
    > {
        if !self.has_agreement(seller, id) {
            Some(LedgerError::AgreementNotFound)
        } else {
            match (BuyerConfirm { buyer: caller }).buyer_confirm_error(
                self.agreement(seller, id),
            ) {
                Some(code) => Some(LedgerError::Rejected(code)),
                None => None,
            }
        }
    }

    /// Confirms receipt for the agreement under (`seller`, `id`); the vault
    /// is untouched.
    pub fn buyer_confirm(&mut self, caller: Address, seller: Address, id: u64) -> (r: Result<
        (),
        LedgerError,
    >)
        requires
            old(self).wf(),
        ensures
            final(self).wf(),
            match old(self).buyer_confirm_err(caller, seller, id) {
                Some(err) => r == Err::<(), LedgerError>(err) && *final(self) == *old(self),
                None => {
                    &&& r == Ok::<(), LedgerError>(())
                    &&& final(self).has_agreement(seller, id)
                    &&& final(self).agreement(seller, id) == (Escrow {
                        state: EscrowState::BuyerConfirmed,
                        ..old(self).agreement(seller, id)
                    })
                    &&& final(self).vault_balance(seller, id) == old(self).vault_balance(
                        seller,
                        id,
                    )
                    &&& forall|s2: Address, i2: u64|
                        !(s2 == seller && i2 == id) ==> final(self).lookup(s2, i2) == old(
                            self,
                        ).lookup(s2, i2)
                },
            },
    {
        let idx = match self.find(seller, id) {
            None => {
                return Err(LedgerError::AgreementNotFound);
            },
            Some(i) => i,
        };
        proof {
            old(self).lemma_key_at(idx as int, seller, id);
        }
        let mut entry = self.entries[idx];
        let ctx = BuyerConfirm { buyer: caller };
        match ctx.confirm_receipt(&mut entry.escrow) {
            Err(code) => Err(LedgerError::Rejected(code)),
            Ok(_) => {
                self.entries[idx] = entry;
                proof {
                    Self::lemma_lookup_update(*old(self), *self, idx as int, entry);
                }
                Ok(())
            },
        }
    }

    /// Why the withdrawal is refused, or `None` when it succeeds: the key
    /// must resolve and every withdrawal guard must pass on the stored
    /// agreement and its vault's reported balance.
    pub open spec fn withdraw_err(
        self,
        caller: Address,
        seller: Address,
        id: u64,
        token_mint: Address,
        now: i64,
    ) -> Option<LedgerError> {
        if !self.has_agreement(seller, id) {
            Some(LedgerError::AgreementNotFound)
        } else {
            let entry = self.lookup(seller, id)->0;
            match (Withdraw {
                seller: caller,
                token_mint,
                vault_balance: Self::entry_vault_balance(entry),
            }).withdraw_error(entry.escrow, now) {
                Some(code) => Some(LedgerError::Rejected(code)),
                None => None,
            }
        }
    }

    /// Releases the funds of the agreement under (`seller`, `id`) to the
    /// seller at time `now` and retires the record: on success the returned
    /// amount is transferred out by the enclosing transaction, the vault is
    /// closed and reclaimed, and the key no longer resolves.
    pub fn withdraw(
        &mut self,
        caller: Address,
        seller: Address,
        id: u64,
        token_mint: Address,
        now: i64,
    ) -> (r: Result<u64, LedgerError>)
        requires
            old(self).wf(),
        ensures
            final(self).wf(),
            match old(self).withdraw_err(caller, seller, id, token_mint, now) {
                Some(err) => r == Err::<u64, LedgerError>(err) && *final(self) == *old(self),
                None => {
                    &&& r == Ok::<u64, LedgerError>(old(self).agreement(seller, id).amount)
                    &&& !final(self).has_agreement(seller, id)
                    &&& forall|s2: Address, i2: u64|
                        !(s2 == seller && i2 == id) ==> final(self).lookup(s2, i2) == old(
                            self,
                        ).lookup(s2, i2)
                },
            },
    {
        let idx = match self.find(seller, id) {
            None => {
                return Err(LedgerError::AgreementNotFound);
            },
            Some(i) => i,
        };
        proof {
            old(self).lemma_key_at(idx as int, seller, id);
        }
        let mut entry = self.entries[idx];
        let vault_balance = match entry.vault {
            Some(b) => b,
            None => 0,
        };
        let ctx = Withdraw { seller: caller, token_mint, vault_balance };
        match ctx.withdraw_from_escrow(&mut entry.escrow, now) {
            Err(code) => Err(LedgerError::Rejected(code)),
            Ok(_) => {
                let amount = entry.escrow.amount;
                let _removed = self.entries.remove(idx);
                proof {
                    Self::lemma_lookup_remove(*old(self), *self, idx as int);
                }
                Ok(amount)
            },
        }
    }

    /// The agreement stored under a key, if any: a read-only view for
    /// callers and auditors.
    pub fn get_agreement(&self, seller: Address, id: u64) -> (r: Option<Escrow>)
        requires
            self.wf(),
        ensures
            r == if self.has_agreement(seller, id) {
                Some(self.agreement(seller, id))
            } else {
                None::<Escrow>
            },
    {
        match self.find(seller, id) {
            Some(i) => {
                proof {
                    self.lemma_key_at(i as int, seller, id);
                }
                Some(self.entries[i].escrow)
            },
            None => None,
        }
    }

    /// The balance of the vault bound to an agreement, or `None` while no
    /// vault exists (before funding, after release, or for an unknown key).
    pub fn get_vault_balance(&self, seller: Address, id: u64) -> (r: Option<u64>)
        requires
            self.wf(),
        ensures
            r == if self.has_agreement(seller, id) {
                self.vault_balance(seller, id)
            } else {
                None::<u64>
            },
    {
        match self.find(seller, id) {
            Some(i) => {
                proof {
                    self.lemma_key_at(i as int, seller, id);
                }
                self.entries[i].vault
            },
            None => None,
        }
    }
}

} // verus!
