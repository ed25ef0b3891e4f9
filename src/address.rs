use vstd::prelude::*;

verus! {

/// A 32-byte account address.
#[derive(Clone, Copy)]
pub struct Address {
    pub bytes: [u8; 32],
}

impl View for Address {
    type V = Seq<u8>;

    open spec fn view(&self) -> Seq<u8> {
        self.bytes@
    }
}

impl PartialEq for Address {
    fn eq(&self, o: &Address) -> (r: bool) {
        let mut i: usize = 0;
        while i < 32
            invariant
                0 <= i <= 32,
                self@.len() == 32,
                o@.len() == 32,
                forall|j: int| 0 <= j < i ==> self@[j] == o@[j],
            decreases 32 - i,
        {
            if self.bytes[i] != o.bytes[i] {
                return false;
            }
            i = i + 1;
        }
        assert(self@ =~= o@);
        true
    }
}

impl vstd::std_specs::cmp::PartialEqSpecImpl for Address {
    open spec fn obeys_eq_spec() -> bool {
        true
    }

    open spec fn eq_spec(&self, o: &Address) -> bool {
        self@ == o@
    }
}

/// The address that a base58 text names, or `None` where the text names none.
pub uninterp spec fn base58_address(s: Seq<char>) -> Option<Seq<u8>>;

/// Relies on `Pubkey`'s `FromStr`: it decodes base58 text into 32 bytes, and
/// its result depends on the text alone.
#[verifier::external_body]
fn parse_pubkey(s: &str) -> (r: Option<Address>)
    ensures
        match r {
            Some(a) => base58_address(s@) == Some(a@),
            None => base58_address(s@) is None,
        },
{
    match <anchor_lang::prelude::Pubkey as std::str::FromStr>::from_str(s) {
        Ok(a) => Some(Address { bytes: a.to_bytes() }),
        Err(_) => None,
    }
}

/// Reads an address written in base58.
pub fn parse_address(s: &str) -> (r: Option<Address>)
    ensures
        match r {
            Some(a) => base58_address(s@) == Some(a@),
            None => base58_address(s@) is None,
        },
{
    parse_pubkey(s)
}

/// The address that the ledger derives from a program identifier, one seed
/// and a verifier byte, or `None` where those inputs name no derived address
/// (the hash falls on the signing curve).
pub uninterp spec fn program_address(program_id: Seq<u8>, seed: Seq<u8>, bump: u8) -> Option<Seq<u8>>;

/// `bump` is the canonical verifier byte for `(program_id, seed)` and `addr` is
/// the address it derives: the largest byte from 1 up that derives an address.
pub open spec fn is_canonical(program_id: Seq<u8>, seed: Seq<u8>, bump: u8, addr: Seq<u8>) -> bool {
    &&& 1 <= bump
    &&& program_address(program_id, seed, bump) == Some(addr)
    &&& forall|b: u8| bump < b ==> (#[trigger] program_address(program_id, seed, b)) is None
}

/// Some verifier byte from 1 up derives an address for `(program_id, seed)`.
pub open spec fn has_canonical(program_id: Seq<u8>, seed: Seq<u8>) -> bool {
    exists|b: u8, a: Seq<u8>| is_canonical(program_id, seed, b, a)
}

/// Relies on `Pubkey::create_program_address` with the seeds `[seed, [bump]]`:
/// its result depends on the three inputs alone.
#[verifier::external_body]
fn create_program_address(program_id: &Address, seed: &Address, bump: u8) -> (r: Option<Address>)
    ensures
        match r {
            Some(a) => program_address(program_id@, seed@, bump) == Some(a@),
            None => program_address(program_id@, seed@, bump) is None,
        },
{
    let program = anchor_lang::prelude::Pubkey::new_from_array(program_id.bytes);
    let bump_seed = [bump];
    match anchor_lang::prelude::Pubkey::create_program_address(&[&seed.bytes, &bump_seed], &program) {
        Ok(a) => Some(Address { bytes: a.to_bytes() }),
        Err(_) => None,
    }
}

/// Relies on `Pubkey::try_find_program_address` with the seeds `[seed]`: it
/// tries the verifier bytes from 255 down to 1 with `create_program_address`
/// and returns the first that derives an address, or `None` if none does.
#[verifier::external_body]
fn try_find_program_address(program_id: &Address, seed: &Address) -> (r: Option<(Address, u8)>)
    ensures
        match r {
            Some((a, b)) => is_canonical(program_id@, seed@, b, a@),
            None => forall|b: u8| 1 <= b ==> (#[trigger] program_address(program_id@, seed@, b)) is None,
        },
{
    let program = anchor_lang::prelude::Pubkey::new_from_array(program_id.bytes);
    match anchor_lang::prelude::Pubkey::try_find_program_address(&[&seed.bytes], &program) {
        Some((a, b)) => Some((Address { bytes: a.to_bytes() }, b)),
        None => None,
    }
}

/// The canonical verifier byte of `(program_id, seed)` is unique.
pub proof fn lemma_canonical_unique(program_id: Seq<u8>, seed: Seq<u8>, b1: u8, a1: Seq<u8>, b2: u8, a2: Seq<u8>)
    requires
        is_canonical(program_id, seed, b1, a1),
        is_canonical(program_id, seed, b2, a2),
    ensures
        b1 == b2,
        a1 == a2,
{
    if b1 < b2 {
        assert(program_address(program_id, seed, b2) is None);
    } else if b2 < b1 {
        assert(program_address(program_id, seed, b1) is None);
    }
}

/// Derives the address named by `(program_id, seed, bump)`.
pub fn derive_address(program_id: &Address, seed: &Address, bump: u8) -> (r: Option<Address>)
    ensures
        match r {
            Some(a) => program_address(program_id@, seed@, bump) == Some(a@),
            None => program_address(program_id@, seed@, bump) is None,
        },
{
    create_program_address(program_id, seed, bump)
}

/// Finds the canonical derived address of `(program_id, seed)` and its
/// verifier byte.
pub fn find_derived_address(program_id: &Address, seed: &Address) -> (r: Option<(Address, u8)>)
    ensures
        match r {
            Some((a, b)) => is_canonical(program_id@, seed@, b, a@),
            None => !has_canonical(program_id@, seed@),
        },
{
    let r = try_find_program_address(program_id, seed);
    proof {
        if r is None {
            assert forall|b: u8, a: Seq<u8>| !is_canonical(program_id@, seed@, b, a) by {
                if 1 <= b {
                    assert(program_address(program_id@, seed@, b) is None);
                }
            }
        }
    }
    r
}

/// Recomputes the canonical derived address of `(program_id, seed)` and
/// accepts the caller's verifier byte and address only if both agree with it.
pub fn verify_derived_address(program_id: &Address, seed: &Address, bump: u8, claimed: &Address) -> (r: bool)
    ensures
        r == is_canonical(program_id@, seed@, bump, claimed@),
{
    match find_derived_address(program_id, seed) {
        Some((a, b)) => {
            proof {
                if is_canonical(program_id@, seed@, bump, claimed@) {
                    lemma_canonical_unique(program_id@, seed@, bump, claimed@, b, a@);
                }
            }
            b == bump && a == *claimed
        },
        None => false,
    }
}

} // verus!
