use vstd::prelude::*;

use crate::state::AccountId;

verus! {

/// The 32-byte SHA-256 digest of the UTF-8 encoding of a string; the
/// digest is determined by the characters alone.
pub uninterp spec fn sha256_of(s: Seq<char>) -> Seq<u8>;

/// The 32 bytes a base58 address text decodes to, or `None` when the
/// text is not a well-formed 32-byte base58 address; determined by the
/// characters alone.
pub uninterp spec fn base58_decoded(s: Seq<char>) -> Option<Seq<u8>>;

/// Relies on sha2::Sha256 (via sha2::Digest::digest) for the SHA-256
/// digest of the UTF-8 bytes of `s`: a 32-byte digest that depends on
/// the input alone.
#[verifier::external_body]
fn sha256_utf8(s: &str) -> (r: Vec<u8>)
    ensures
        r@ == sha256_of(s@),
        r@.len() == 32,
{
    <sha2::Sha256 as sha2::Digest>::digest(s.as_bytes()).to_vec()
}

/// Relies on solana_sdk::pubkey::Pubkey::from_str for base58 decoding:
/// it returns the decoded 32 bytes exactly when the text is a
/// well-formed 32-byte base58 address, and an error otherwise.
#[verifier::external_body]
fn parse_base58_address(s: &str) -> (r: Option<AccountId>)
    ensures
        match r {
            Some(id) => base58_decoded(s@) == Some(id.bytes@),
            None => base58_decoded(s@) is None,
        },
{
    match <solana_sdk::pubkey::Pubkey as core::str::FromStr>::from_str(s) {
        Ok(p) => Some(AccountId { bytes: p.to_bytes() }),
        Err(_) => None,
    }
}

/// One account reference of a call: the referenced address and whether
/// the account must sign and may be written.
pub struct RelayAccount {
    pub pubkey: AccountId,
    pub is_signer: bool,
    pub is_writable: bool,
}

/// A call the relay emits to its execution environment: the target
/// program, the referenced accounts, and the opaque byte payload.
pub struct RelayInstruction {
    pub program_id: AccountId,
    pub accounts: Vec<RelayAccount>,
    pub data: Vec<u8>,
}

/// The canonical name of the reward operation, as the ledger's dispatch
/// expects it: the `verify_and_reward` operation under the global
/// namespace.
pub fn reward_operation_name() -> (s: &'static str)
    ensures
        s@ == "global:verify_and_reward"@,
{
    "global:verify_and_reward"
}

/// The selector of the reward operation: the first 8 bytes of the
/// digest of its canonical name.
pub open spec fn reward_discriminator() -> Seq<u8> {
    sha256_of("global:verify_and_reward"@).take(8)
}

/// The operation selector for a canonical operation name: the first 8
/// bytes of the SHA-256 digest of the name's UTF-8 encoding.
pub fn get_anchor_discriminator(preimage: &str) -> (r: Vec<u8>)
    ensures
        r@ == sha256_of(preimage@).take(8),
        r@.len() == 8,
{
    let digest = sha256_utf8(preimage);
    let mut selector: Vec<u8> = Vec::new();
    let mut i: usize = 0;
    while i < 8
        invariant
            digest@ == sha256_of(preimage@),
            digest@.len() == 32,
            i <= 8,
            selector@ =~= digest@.take(i as int),
        decreases 8 - i,
    {
        selector.push(digest[i]);
        i = i + 1;
    }
    proof {
        assert(selector@ =~= sha256_of(preimage@).take(8));
    }
    selector
}

/// Build the call that triggers the reward operation: the target program
/// decoded from its base58 address text, the relay's own signing
/// identity as the single (writable, signing) account reference, and the
/// operation selector as the whole payload.
///
/// Returns `None` exactly when the program address text does not decode.
pub fn build_reward_instruction(program_id_text: &str, oracle_signer: AccountId) -> (r: Option<
    RelayInstruction,
>)
    ensures
        match r {
            Some(ix) => base58_decoded(program_id_text@) == Some(ix.program_id.bytes@)
                && ix.accounts@.len() == 1 && ix.accounts@[0].pubkey.bytes@ == oracle_signer.bytes@
                && ix.accounts@[0].is_signer && ix.accounts@[0].is_writable && ix.data@
                == reward_discriminator() && ix.data@.len() == 8,
            None => base58_decoded(program_id_text@) is None,
        },
{
    let program_id = match parse_base58_address(program_id_text) {
        Some(p) => p,
        None => {
            return None;
        },
    };
    let data = get_anchor_discriminator(reward_operation_name());
    let mut accounts: Vec<RelayAccount> = Vec::new();
    accounts.push(RelayAccount { pubkey: oracle_signer, is_signer: true, is_writable: true });
    Some(RelayInstruction { program_id, accounts, data })
}

} // verus!
