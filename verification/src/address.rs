//! Address derivation: every account lives at a storage slot derived
//! deterministically from a static namespace tag, for per-owner slots the
//! owner's key, and the program's own identity. The two account kinds use
//! distinct tags, so a global-counter slot can never collide with a
//! user-counter slot, even for the same raw key bytes.

use vstd::prelude::*;
use crate::keys::Pubkey;

verus! {

/// What the host's derivation returns for a namespace tag, an optional
/// owner key and a program identity: the derived slot address and its
/// discriminator (bump) byte, or nothing in the statistically improbable
/// event that no discriminator byte yields a usable slot. The derivation is
/// a pure function of these inputs, so two calls with equal inputs always
/// agree.
pub uninterp spec fn pda_of(tag: Seq<char>, owner: Option<Pubkey>, program_id: Pubkey) -> Option<(Pubkey, u8)>;

/// Relies on solana's `Pubkey::try_find_program_address` (reached through
/// `anchor_lang`): a deterministic derivation, from the seed slices and the
/// program id alone, of a program address and its bump byte; it returns
/// `None` instead of panicking when no bump byte works.
#[verifier::external_body]
fn find_pda(tag: &str, owner: Option<&Pubkey>, program_id: &Pubkey) -> (r: Option<(Pubkey, u8)>)
    ensures
        r == pda_of(
            tag@,
            (match owner {
                Some(o) => Some(*o),
                None => None,
            }),
            *program_id,
        ),
{
    let pid = anchor_lang::prelude::Pubkey::new_from_array(
        program_id.to_bytes().try_into().unwrap(),
    );
    let found = match owner {
        Some(o) => anchor_lang::prelude::Pubkey::try_find_program_address(
            &[tag.as_bytes(), o.to_bytes().as_slice()],
            &pid,
        ),
        None => anchor_lang::prelude::Pubkey::try_find_program_address(&[tag.as_bytes()], &pid),
    };
    found.map(|(addr, bump)| (Pubkey::from_bytes(&addr.to_bytes()), bump))
}

/// The canonical storage slot of the global counter under `program_id`,
/// with its discriminator byte.
pub fn global_counter_address(program_id: &Pubkey) -> (r: Option<(Pubkey, u8)>)
    ensures
        r == pda_of("global_counter"@, None, *program_id),
{
    find_pda("global_counter", None, program_id)
}

/// The canonical storage slot of `owner`'s user counter under `program_id`,
/// with its discriminator byte.
pub fn user_counter_address(owner: &Pubkey, program_id: &Pubkey) -> (r: Option<(Pubkey, u8)>)
    ensures
        r == pda_of("user_counter"@, Some(*owner), *program_id),
{
    find_pda("user_counter", Some(owner), program_id)
}

} // verus!
