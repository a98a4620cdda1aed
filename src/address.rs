use vstd::prelude::*;

verus! {

/// A 32-byte ledger address (a public key or a program-derived address).
#[derive(Clone, Copy, Debug)]
pub struct Address {
    pub bytes: [u8; 32],
}

impl View for Address {
    type V = Seq<u8>;

    open spec fn view(&self) -> Seq<u8> {
        self.bytes@
    }
}

impl Address {
    pub fn new(bytes: [u8; 32]) -> (r: Address)
        ensures
            r@ == bytes@,
    {
        Address { bytes }
    }

    /// Byte-wise equality of two addresses.
    pub fn same_as(&self, other: &Address) -> (r: bool)
        ensures
            r == (self@ == other@),
    {
        let mut i: usize = 0;
        while i < 32
            invariant
                i <= 32,
                self@.len() == 32,
                other@.len() == 32,
                forall|j: int| 0 <= j < i ==> self@[j] == other@[j],
            decreases 32 - i,
        {
            if self.bytes[i] != other.bytes[i] {
                assert(self@[i as int] != other@[i as int]);
                return false;
            }
            i = i + 1;
        }
        assert(self@ =~= other@);
        true
    }
}

} // verus!

verus! {

/// Address of the SPL token program, `TokenkegQfeZyiNwAJbNbGKPFXCWuBvf9Ss623VQ5DA`.
pub open spec fn token_program_key() -> Seq<u8> {
    seq![
        6u8, 221, 246, 225, 215, 101, 161, 147, 217, 203, 225, 70, 206, 235, 121, 172,
        28, 180, 133, 237, 95, 91, 55, 145, 58, 140, 245, 133, 126, 255, 0, 169,
    ]
}

/// Address of the associated-token-account program,
/// `ATokenGPvbdGVxr1b2hvZbsiqW5xWH25efTNsLJA8knL`.
pub open spec fn associated_token_program_key() -> Seq<u8> {
    seq![
        140u8, 151, 37, 143, 78, 36, 137, 241, 187, 61, 16, 41, 20, 142, 13, 131,
        11, 90, 19, 153, 218, 255, 16, 132, 4, 142, 123, 216, 219, 233, 248, 89,
    ]
}

/// Address of the system program: 32 zero bytes.
pub open spec fn system_program_key() -> Seq<u8> {
    Seq::new(32, |i: int| 0u8)
}

/// The program-derived address for the seeds `[tag, [disambiguator]]` under
/// `namespace`, or `None` where no such address exists.
pub uninterp spec fn program_address(tag: Seq<u8>, disambiguator: u8, namespace: Seq<u8>) -> Option<
    Seq<u8>,
>;

/// The associated token account of `wallet` for `mint` under `token_program`.
pub uninterp spec fn associated_token_address(
    wallet: Seq<u8>,
    mint: Seq<u8>,
    token_program: Seq<u8>,
) -> Seq<u8>;

/// Relies on `spl_token::id`: the token program's address.
#[verifier::external_body]
pub(crate) fn token_program_id() -> (r: Address)
    ensures
        r@ == token_program_key(),
{
    Address { bytes: spl_token::id().to_bytes() }
}

/// Relies on `Pubkey::create_program_address` with the seeds
/// `[tag, [disambiguator]]`: its result depends on the seeds and the program
/// alone, and it fails where the seeds are too long or the hash is a curve point.
#[verifier::external_body]
pub(crate) fn create_program_address(tag: &Vec<u8>, disambiguator: u8, namespace: &Address) -> (r:
    Option<Address>)
    ensures
        match r {
            Some(a) => program_address(tag@, disambiguator, namespace@) == Some(a@),
            None => program_address(tag@, disambiguator, namespace@) is None,
        },
{
    let program = solana_program::pubkey::Pubkey::new_from_array(namespace.bytes);
    let seeds: [&[u8]; 2] = [tag.as_slice(), &[disambiguator]];
    solana_program::pubkey::Pubkey::create_program_address(&seeds, &program).ok().map(
        |a| Address { bytes: a.to_bytes() },
    )
}

/// Relies on `spl_associated_token_account::get_associated_token_address_with_program_id`:
/// the holder-account address depends on the wallet, the mint and the token
/// program alone. That function panics only where none of the 256 bump seeds
/// yields an off-curve address, which the derivation scheme makes negligible.
#[verifier::external_body]
#[allow(deprecated)]
pub(crate) fn get_associated_token_address(
    wallet: &Address,
    mint: &Address,
    token_program: &Address,
) -> (r: Address)
    ensures
        r@ == associated_token_address(wallet@, mint@, token_program@),
{
    let w = solana_program::pubkey::Pubkey::new_from_array(wallet.bytes);
    let m = solana_program::pubkey::Pubkey::new_from_array(mint.bytes);
    let t = solana_program::pubkey::Pubkey::new_from_array(token_program.bytes);
    Address {
        bytes: spl_associated_token_account::get_associated_token_address_with_program_id(
            &w,
            &m,
            &t,
        ).to_bytes(),
    }
}

} // verus!
