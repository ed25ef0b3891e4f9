use vstd::prelude::*;

verus! {

/// Why a call was refused. A refused call changes no account.
#[derive(Clone, Copy, Debug, PartialEq, Eq, Structural)]
pub enum StakeError {
    /// A derived address or its verifier byte does not recompute to the
    /// canonical value.
    AuthorityMismatch,
    /// The source account holds less than the amount asked for.
    InsufficientBalance,
    /// The vault holds less collateral than a withdrawal asks for.
    InsufficientVaultBalance,
    /// The vault already exists.
    AlreadyInitialized,
    /// An account belongs to another asset than the one expected.
    AssetMismatch,
    /// The signer is not the authority of the account or mint it acts on.
    OwnerMismatch,
    /// One account was passed in two places that must differ.
    DuplicateAccount,
    /// A balance or a supply would leave the range of `u64`.
    Overflow,
}

} // verus!
