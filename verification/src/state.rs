use vstd::prelude::*;

verus! {

/// The record persisted for one vault: the two canonical bumps produced when
/// its addresses were derived. Both are written once, at creation, and must
/// equal the bumps recomputed from the same seeds at every later operation.
#[derive(Clone, Copy, Debug, PartialEq, Eq, Structural)]
pub struct VaultState {
    /// The canonical bump of the record's own address, derived from the seed
    /// list `["state", controller]`.
    pub state_bump: u8,
    /// The canonical bump of the paired holding address, derived from the
    /// seed list `["vault", state record address]`.
    pub vault_bump: u8,
}

impl VaultState {
    /// The fixed two-byte payload under which the record persists: the state
    /// bump followed by the vault bump.
    pub open spec fn payload(self) -> Seq<u8> {
        seq![self.state_bump, self.vault_bump]
    }

    /// Serializes the record to its two-byte payload.
    pub fn to_bytes(&self) -> (r: Vec<u8>)
        ensures
            r@ == self.payload(),
    {
        let mut v: Vec<u8> = Vec::new();
        v.push(self.state_bump);
        v.push(self.vault_bump);
        proof {
            assert(v@ =~= self.payload());
        }
        v
    }

    /// Reads a record back from its payload; exactly the two-byte strings
    /// are accepted.
    pub fn from_bytes(bytes: &Vec<u8>) -> (r: Option<VaultState>)
        ensures
            (match r {
                Some(v) => bytes@.len() == 2 && v.payload() == bytes@,
                None => bytes@.len() != 2,
            }),
    {
        if bytes.len() == 2 {
            let v = VaultState { state_bump: bytes[0], vault_bump: bytes[1] };
            proof {
                assert(v.payload() =~= bytes@);
            }
            Some(v)
        } else {
            None
        }
    }
}

} // verus!
