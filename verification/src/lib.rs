//! Core logic of the `bubbblegum` on-chain program: the `validate_mint`
//! instruction. The instruction accepts a tree-configuration account, a
//! merkle-tree account and a fee-payer signer, reports the identities of the
//! tree-configuration account and the payer, and succeeds unconditionally.
//!
//! Accounts are modelled by their 32-byte addresses, so the instruction's
//! behaviour can be stated and proved over plain values. The hosting
//! runtime's account handling and the actual log emission live outside the
//! library: the instruction here returns the exact lines to be logged.

use vstd::prelude::*;
use vstd::string::StringExecFns;

verus! {

/// The base58 text of a 32-byte account address, as the host framework
/// prints it.
pub uninterp spec fn base58_of(key: Seq<u8>) -> Seq<char>;

/// A 32-byte account address, held as plain bytes.
#[derive(Clone, Copy, PartialEq, Eq, Debug)]
pub struct AccountKey {
    bytes: [u8; 32],
}

impl View for AccountKey {
    type V = Seq<u8>;

    closed spec fn view(&self) -> Seq<u8> {
        self.bytes@
    }
}

impl AccountKey {
    pub fn new(bytes: [u8; 32]) -> (r: AccountKey)
        ensures
            r@ == bytes@,
    {
        AccountKey { bytes }
    }

    pub fn to_bytes(&self) -> (r: [u8; 32])
        ensures
            r@ == self@,
    {
        self.bytes
    }
}

/// Relies on anchor_lang's `Pubkey`: `new_from_array` wraps the 32 bytes
/// unchanged, and the `Display` impl writes their base58 encoding, a
/// function of the bytes alone.
#[verifier::external_body]
fn key_to_base58(key: &AccountKey) -> (r: String)
    ensures
        r@ == base58_of(key@),
{
    anchor_lang::prelude::Pubkey::new_from_array(key.bytes).to_string()
}

/// The accounts that the `validate_mint` instruction receives: a
/// tree-configuration account, a merkle-tree account, the fee payer that
/// signed the transaction, and the system program.
pub struct ValidateMint {
    pub tree_config: AccountKey,
    pub merkle_tree: AccountKey,
    pub payer: AccountKey,
    pub system_program: AccountKey,
}

/// The error the program declares. No path of `validate_mint` raises it.
#[derive(Clone, Copy, PartialEq, Eq, Debug)]
pub enum ErrorCode {
    Unauthorized,
}

impl ErrorCode {
    /// The text attached to the error variant.
    pub fn message(&self) -> (r: String)
        ensures
            r@ == "Unauthorized: Only the tree authority can mint"@,
    {
        String::from_str("Unauthorized: Only the tree authority can mint")
    }
}

/// Accepts the given accounts unconditionally and returns the log lines
/// reporting the decision: the fixed success line, then the identities of
/// the tree-configuration account and of the payer.
pub fn validate_mint(accounts: &ValidateMint) -> (r: Result<Vec<String>, ErrorCode>)
    ensures
        r is Ok,
        r->Ok_0@.len() == 3,
        r->Ok_0@[0]@ == "Mint validation passed"@,
        r->Ok_0@[1]@ == "Tree Config: "@ + base58_of(accounts.tree_config@),
        r->Ok_0@[2]@ == "Payer: "@ + base58_of(accounts.payer@),
{
    let tree_config = &accounts.tree_config;
    let payer = &accounts.payer;

    let mut lines: Vec<String> = Vec::new();
    lines.push(String::from_str("Mint validation passed"));
    let tree_config_text = key_to_base58(tree_config);
    lines.push(String::from_str("Tree Config: ").concat(tree_config_text.as_str()));
    let payer_text = key_to_base58(payer);
    lines.push(String::from_str("Payer: ").concat(payer_text.as_str()));
    Ok(lines)
}

} // verus!
