use vstd::prelude::*;

use crate::addressing::{
    bytes_eq, find_pda, pda_of, state_seed, state_seed_bytes, vault_seed, vault_seed_bytes,
};
use crate::errors::VaultError;
use crate::state::VaultState;

verus! {

/// One controller's vault together with the slice of the ledger it touches:
/// the controller's own balance, the holding address's balance, and the
/// storage balance held by the state record. The four lifecycle operations
/// are the only ways the slice changes, and each is all-or-nothing: on any
/// error the value is left exactly as it was.
pub struct Vault {
    /// The controlling identity, a 32-byte key; the only party whose
    /// co-signature any operation accepts.
    pub controller: Vec<u8>,
    /// The 32-byte namespace (program id) under which both addresses are
    /// derived.
    pub namespace: Vec<u8>,
    /// The controller's balance in the external ledger.
    pub controller_balance: u64,
    /// The balance of the derived holding address.
    pub holding_balance: u64,
    /// The storage balance held by the state record while it exists: paid by
    /// the controller at initialization, refunded at close.
    pub record_balance: u64,
    /// The one-time storage cost of the state record.
    pub rent: u64,
    /// The persisted state record, absent until initialization and after
    /// close.
    pub record: Option<VaultState>,
}

impl Vault {
    /// The sum of all balances in the slice; every operation preserves it.
    pub open spec fn total(self) -> int {
        self.controller_balance + self.holding_balance + self.record_balance
    }

    /// Well-formedness: 32-byte keys, a total that fits the balance type,
    /// and a record that holds exactly the storage cost while it exists.
    pub open spec fn wf(self) -> bool {
        &&& self.controller@.len() == 32
        &&& self.namespace@.len() == 32
        &&& self.total() <= u64::MAX
        &&& (self.record is Some ==> self.record_balance == self.rent)
        &&& (self.record is None ==> self.record_balance == 0)
    }

    /// The canonical derivation of the state record's address from the seed
    /// list `["state", controller]`.
    pub open spec fn state_pda(self) -> Option<(Seq<u8>, u8)> {
        pda_of(state_seed(), self.controller@, self.namespace@)
    }

    /// The canonical derivation of the holding address from the seed list
    /// `["vault", state record address]`: the second hop of the chain.
    pub open spec fn vault_pda(self) -> Option<(Seq<u8>, u8)> {
        match self.state_pda() {
            Some(sp) => pda_of(vault_seed(), sp.0, self.namespace@),
            None => None,
        }
    }

    /// Both hops of the derivation chain succeed.
    pub open spec fn derivable(self) -> bool {
        self.state_pda() is Some && self.vault_pda() is Some
    }

    /// The stored bumps equal the canonical bumps recomputed from the
    /// record's own seeds. False whenever no record exists or a hop of the
    /// derivation fails.
    pub open spec fn bumps_match(self) -> bool {
        match (self.record, self.state_pda(), self.vault_pda()) {
            (Some(rec), Some(sp), Some(vp)) => rec.state_bump == sp.1 && rec.vault_bump == vp.1,
            _ => false,
        }
    }

    /// The exact outcome of `initialize`: the checks in order, then success.
    pub open spec fn initialize_result(self, signer: Seq<u8>) -> Result<(), VaultError> {
        if signer != self.controller@ {
            Err(VaultError::Unauthorized)
        } else if self.state_pda() is None {
            Err(VaultError::DerivationExhausted)
        } else if self.record is Some {
            Err(VaultError::AlreadyInitialized)
        } else if self.controller_balance < self.rent {
            Err(VaultError::InsufficientFunds)
        } else if self.vault_pda() is None {
            Err(VaultError::DerivationExhausted)
        } else {
            Ok(())
        }
    }

    /// The state after `initialize`: on success the controller funds the
    /// record's storage and both canonical bumps are persisted; on any error
    /// nothing changes.
    pub open spec fn initialize_step(self, signer: Seq<u8>) -> Vault {
        if self.initialize_result(signer) is Ok {
            Vault {
                controller: self.controller,
                namespace: self.namespace,
                controller_balance: (self.controller_balance - self.rent) as u64,
                holding_balance: self.holding_balance,
                record_balance: self.rent,
                rent: self.rent,
                record: Some(
                    VaultState {
                        state_bump: self.state_pda().unwrap().1,
                        vault_bump: self.vault_pda().unwrap().1,
                    },
                ),
            }
        } else {
            self
        }
    }

    /// The exact outcome of `deposit`.
    pub open spec fn deposit_result(self, signer: Seq<u8>, amount: u64) -> Result<(), VaultError> {
        if signer != self.controller@ {
            Err(VaultError::Unauthorized)
        } else if self.record is None {
            Err(VaultError::VaultNotFound)
        } else if !self.derivable() {
            Err(VaultError::DerivationExhausted)
        } else if !self.bumps_match() {
            Err(VaultError::CorruptState)
        } else if amount == 0 {
            Err(VaultError::InvalidAmount)
        } else if self.controller_balance < amount {
            Err(VaultError::InsufficientFunds)
        } else {
            Ok(())
        }
    }

    /// The state after `deposit`: on success exactly `amount` moves from the
    /// controller's balance to the holding address; on any error nothing
    /// changes.
    pub open spec fn deposit_step(self, signer: Seq<u8>, amount: u64) -> Vault {
        if self.deposit_result(signer, amount) is Ok {
            Vault {
                controller: self.controller,
                namespace: self.namespace,
                controller_balance: (self.controller_balance - amount) as u64,
                holding_balance: (self.holding_balance + amount) as u64,
                record_balance: self.record_balance,
                rent: self.rent,
                record: self.record,
            }
        } else {
            self
        }
    }

    /// The exact outcome of `withdraw`.
    pub open spec fn withdraw_result(self, signer: Seq<u8>, amount: u64) -> Result<(), VaultError> {
        if signer != self.controller@ {
            Err(VaultError::Unauthorized)
        } else if self.record is None {
            Err(VaultError::VaultNotFound)
        } else if !self.derivable() {
            Err(VaultError::DerivationExhausted)
        } else if !self.bumps_match() {
            Err(VaultError::CorruptState)
        } else if amount == 0 {
            Err(VaultError::InvalidAmount)
        } else if self.holding_balance < amount {
            Err(VaultError::InsufficientVaultBalance)
        } else {
            Ok(())
        }
    }

    /// The state after `withdraw`: on success exactly `amount` moves from
    /// the holding address back to the controller; on any error nothing
    /// changes.
    pub open spec fn withdraw_step(self, signer: Seq<u8>, amount: u64) -> Vault {
        if self.withdraw_result(signer, amount) is Ok {
            Vault {
                controller: self.controller,
                namespace: self.namespace,
                controller_balance: (self.controller_balance + amount) as u64,
                holding_balance: (self.holding_balance - amount) as u64,
                record_balance: self.record_balance,
                rent: self.rent,
                record: self.record,
            }
        } else {
            self
        }
    }

    /// The exact outcome of `close`.
    pub open spec fn close_result(self, signer: Seq<u8>) -> Result<(), VaultError> {
        if signer != self.controller@ {
            Err(VaultError::Unauthorized)
        } else if self.record is None {
            Err(VaultError::VaultNotFound)
        } else if !self.derivable() {
            Err(VaultError::DerivationExhausted)
        } else if !self.bumps_match() {
            Err(VaultError::CorruptState)
        } else {
            Ok(())
        }
    }

    /// The state after `close`: on success the holding balance is swept to
    /// the controller, the storage balance is refunded, and the record is
    /// destroyed, leaving both addresses as if never created; on any error
    /// nothing changes.
    pub open spec fn close_step(self, signer: Seq<u8>) -> Vault {
        if self.close_result(signer) is Ok {
            Vault {
                controller: self.controller,
                namespace: self.namespace,
                controller_balance: (self.controller_balance + self.holding_balance
                    + self.record_balance) as u64,
                holding_balance: 0u64,
                record_balance: 0u64,
                rent: self.rent,
                record: None,
            }
        } else {
            self
        }
    }

    /// A fresh vault slice: no record, nothing held, the controller's
    /// starting balance in place.
    pub fn new(controller: Vec<u8>, namespace: Vec<u8>, initial_balance: u64, rent: u64) -> (v:
        Vault)
        requires
            controller@.len() == 32,
            namespace@.len() == 32,
        ensures
            v.wf(),
            v.controller@ == controller@,
            v.namespace@ == namespace@,
            v.controller_balance == initial_balance,
            v.holding_balance == 0,
            v.record_balance == 0,
            v.rent == rent,
            v.record is None,
    {
        Vault {
            controller,
            namespace,
            controller_balance: initial_balance,
            holding_balance: 0,
            record_balance: 0,
            rent,
            record: None,
        }
    }

    /// Creates the vault: derives both addresses of the chain, rejects a
    /// request that is not the controller's or a state address already
    /// occupied, moves the storage cost from the controller to the new
    /// record, and persists the two canonical bumps.
    pub fn initialize(&mut self, signer: &Vec<u8>) -> (r: Result<(), VaultError>)
        requires
            old(self).wf(),
        ensures
            final(self).wf(),
            r == old(self).initialize_result(signer@),
            *final(self) == old(self).initialize_step(signer@),
            final(self).total() == old(self).total(),
    {
        if !bytes_eq(signer, &self.controller) {
            return Err(VaultError::Unauthorized);
        }
        let tag_state = state_seed_bytes();
        let sp = match find_pda(&tag_state, &self.controller, &self.namespace) {
            Some(p) => p,
            None => {
                return Err(VaultError::DerivationExhausted);
            },
        };
        if self.record.is_some() {
            return Err(VaultError::AlreadyInitialized);
        }
        if self.controller_balance < self.rent {
            return Err(VaultError::InsufficientFunds);
        }
        let tag_vault = vault_seed_bytes();
        let vp = match find_pda(&tag_vault, &sp.0, &self.namespace) {
            Some(p) => p,
            None => {
                return Err(VaultError::DerivationExhausted);
            },
        };
        self.controller_balance = self.controller_balance - self.rent;
        self.record_balance = self.rent;
        self.record = Some(VaultState { state_bump: sp.1, vault_bump: vp.1 });
        Ok(())
    }

    /// Recomputes the derivation chain and checks the stored bumps against
    /// it, then moves `amount` from the controller to the holding address.
    /// A record whose bumps disagree with its own seeds is rejected as
    /// corrupt at every operation, never repaired.
    pub fn deposit(&mut self, signer: &Vec<u8>, amount: u64) -> (r: Result<(), VaultError>)
        requires
            old(self).wf(),
        ensures
            final(self).wf(),
            r == old(self).deposit_result(signer@, amount),
            *final(self) == old(self).deposit_step(signer@, amount),
            final(self).total() == old(self).total(),
    {
        if !bytes_eq(signer, &self.controller) {
            return Err(VaultError::Unauthorized);
        }
        let rec = match self.record {
            Some(rec) => rec,
            None => {
                return Err(VaultError::VaultNotFound);
            },
        };
        let tag_state = state_seed_bytes();
        let sp = match find_pda(&tag_state, &self.controller, &self.namespace) {
            Some(p) => p,
            None => {
                return Err(VaultError::DerivationExhausted);
            },
        };
        let tag_vault = vault_seed_bytes();
        let vp = match find_pda(&tag_vault, &sp.0, &self.namespace) {
            Some(p) => p,
            None => {
                return Err(VaultError::DerivationExhausted);
            },
        };
        if rec.state_bump != sp.1 || rec.vault_bump != vp.1 {
            return Err(VaultError::CorruptState);
        }
        if amount == 0 {
            return Err(VaultError::InvalidAmount);
        }
        if self.controller_balance < amount {
            return Err(VaultError::InsufficientFunds);
        }
        self.controller_balance = self.controller_balance - amount;
        self.holding_balance = self.holding_balance + amount;
        Ok(())
    }

    /// Recomputes the derivation chain and checks the stored bumps against
    /// it — the seed-plus-bump proof that authorizes spending from the
    /// holding address — then moves `amount` from the holding address back
    /// to the controller.
    pub fn withdraw(&mut self, signer: &Vec<u8>, amount: u64) -> (r: Result<(), VaultError>)
        requires
            old(self).wf(),
        ensures
            final(self).wf(),
            r == old(self).withdraw_result(signer@, amount),
            *final(self) == old(self).withdraw_step(signer@, amount),
            final(self).total() == old(self).total(),
    {
        if !bytes_eq(signer, &self.controller) {
            return Err(VaultError::Unauthorized);
        }
        let rec = match self.record {
            Some(rec) => rec,
            None => {
                return Err(VaultError::VaultNotFound);
            },
        };
        let tag_state = state_seed_bytes();
        let sp = match find_pda(&tag_state, &self.controller, &self.namespace) {
            Some(p) => p,
            None => {
                return Err(VaultError::DerivationExhausted);
            },
        };
        let tag_vault = vault_seed_bytes();
        let vp = match find_pda(&tag_vault, &sp.0, &self.namespace) {
            Some(p) => p,
            None => {
                return Err(VaultError::DerivationExhausted);
            },
        };
        if rec.state_bump != sp.1 || rec.vault_bump != vp.1 {
            return Err(VaultError::CorruptState);
        }
        if amount == 0 {
            return Err(VaultError::InvalidAmount);
        }
        if self.holding_balance < amount {
            return Err(VaultError::InsufficientVaultBalance);
        }
        self.holding_balance = self.holding_balance - amount;
        self.controller_balance = self.controller_balance + amount;
        Ok(())
    }

    /// Destroys the vault: sweeps any remaining holding balance to the
    /// controller under the same seed-plus-bump authorization as withdraw,
    /// refunds the record's storage balance, and removes the record, so a
    /// later initialization can recreate the same addresses afresh.
    pub fn close(&mut self, signer: &Vec<u8>) -> (r: Result<(), VaultError>)
        requires
            old(self).wf(),
        ensures
            final(self).wf(),
            r == old(self).close_result(signer@),
            *final(self) == old(self).close_step(signer@),
            final(self).total() == old(self).total(),
    {
        if !bytes_eq(signer, &self.controller) {
            return Err(VaultError::Unauthorized);
        }
        let rec = match self.record {
            Some(rec) => rec,
            None => {
                return Err(VaultError::VaultNotFound);
            },
        };
        let tag_state = state_seed_bytes();
        let sp = match find_pda(&tag_state, &self.controller, &self.namespace) {
            Some(p) => p,
            None => {
                return Err(VaultError::DerivationExhausted);
            },
        };
        let tag_vault = vault_seed_bytes();
        let vp = match find_pda(&tag_vault, &sp.0, &self.namespace) {
            Some(p) => p,
            None => {
                return Err(VaultError::DerivationExhausted);
            },
        };
        if rec.state_bump != sp.1 || rec.vault_bump != vp.1 {
            return Err(VaultError::CorruptState);
        }
        self.controller_balance = self.controller_balance + self.holding_balance
            + self.record_balance;
        self.holding_balance = 0;
        self.record_balance = 0;
        self.record = None;
        Ok(())
    }
}

} // verus!
