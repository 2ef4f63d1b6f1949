use vstd::prelude::*;

use crate::errors::VaultError;

verus! {

/// The canonical program-derived address and bump for the two-element seed
/// list `[tag, key]` under `namespace` (a 32-byte program id), or `None` when
/// no bump in the searchable range takes the derived address off the curve.
/// The derivation is a fixed hash-based search, so its outcome is a function
/// of the three inputs alone; this name stands for that outcome.
pub uninterp spec fn pda_of(tag: Seq<u8>, key: Seq<u8>, namespace: Seq<u8>) -> Option<(Seq<u8>, u8)>;

/// The view of an executable derivation result.
pub open spec fn pda_view(r: Option<(Vec<u8>, u8)>) -> Option<(Seq<u8>, u8)> {
    match r {
        Some(p) => Some((p.0@, p.1)),
        None => None,
    }
}

/// The seed tag under which a controller's state record address is derived.
pub open spec fn state_seed() -> Seq<u8> {
    seq![115u8, 116u8, 97u8, 116u8, 101u8]
}

/// The seed tag under which a state record's holding address is derived.
pub open spec fn vault_seed() -> Seq<u8> {
    seq![118u8, 97u8, 117u8, 108u8, 116u8]
}

/// The state seed tag as bytes.
pub fn state_seed_bytes() -> (r: Vec<u8>)
    ensures
        r@ == state_seed(),
{
    let mut v: Vec<u8> = Vec::new();
    v.push(115u8);
    v.push(116u8);
    v.push(97u8);
    v.push(116u8);
    v.push(101u8);
    proof {
        assert(v@ =~= state_seed());
    }
    v
}

/// The vault seed tag as bytes.
pub fn vault_seed_bytes() -> (r: Vec<u8>)
    ensures
        r@ == vault_seed(),
{
    let mut v: Vec<u8> = Vec::new();
    v.push(118u8);
    v.push(97u8);
    v.push(117u8);
    v.push(108u8);
    v.push(116u8);
    proof {
        assert(v@ =~= vault_seed());
    }
    v
}

/// Relies on `Pubkey::try_find_program_address` (re-exported by
/// `anchor_lang`): it searches, from bump 255 downward, for the first bump
/// that derives an off-curve address from the seed list `[tag, key]` and the
/// program id `namespace`, returning `None` when the search is exhausted.
/// The search is a pure hash computation, so its outcome depends on the
/// arguments alone; `pda_of` names it. A returned address is 32 bytes.
#[verifier::external_body]
pub(crate) fn find_pda(tag: &Vec<u8>, key: &Vec<u8>, namespace: &Vec<u8>) -> (r: Option<(Vec<u8>, u8)>)
    requires
        namespace@.len() == 32,
    ensures
        pda_view(r) == pda_of(tag@, key@, namespace@),
        (r matches Some(p) ==> p.0@.len() == 32),
{
    let mut id_bytes = [0u8; 32];
    id_bytes.copy_from_slice(namespace.as_slice());
    let program_id = anchor_lang::prelude::Pubkey::new_from_array(id_bytes);
    anchor_lang::prelude::Pubkey::try_find_program_address(
        &[tag.as_slice(), key.as_slice()],
        &program_id,
    )
        .map(|(addr, bump)| (addr.to_bytes().to_vec(), bump))
}

/// Derives the canonical `(address, bump)` pair for the seed list
/// `[seed_tag, seed_key]` under `namespace`. The result is a function of the
/// inputs alone, so identical inputs always yield the identical pair.
pub fn derive_address(seed_tag: &Vec<u8>, seed_key: &Vec<u8>, namespace: &Vec<u8>) -> (r: Result<
    (Vec<u8>, u8),
    VaultError,
>)
    requires
        namespace@.len() == 32,
    ensures
        (match r {
            Ok(p) => pda_of(seed_tag@, seed_key@, namespace@) == Some((p.0@, p.1)) && p.0@.len()
                == 32,
            Err(e) => e == VaultError::DerivationExhausted && pda_of(
                seed_tag@,
                seed_key@,
                namespace@,
            ) is None,
        }),
{
    match find_pda(seed_tag, seed_key, namespace) {
        Some(p) => Ok(p),
        None => Err(VaultError::DerivationExhausted),
    }
}

/// Decides equality of two byte strings.
pub fn bytes_eq(a: &Vec<u8>, b: &Vec<u8>) -> (r: bool)
    ensures
        r == (a@ == b@),
{
    if a.len() != b.len() {
        return false;
    }
    let mut i: usize = 0;
    while i < a.len()
        invariant
            i <= a@.len(),
            a@.len() == b@.len(),
            forall|j: int| 0 <= j < i ==> a@[j] == b@[j],
        decreases a@.len() - i,
    {
        if a[i] != b[i] {
            return false;
        }
        i += 1;
    }
    proof {
        assert(a@ =~= b@);
    }
    true
}

} // verus!
