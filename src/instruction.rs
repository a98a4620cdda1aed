use vstd::prelude::*;

use crate::address::Address;
use crate::call::le_u64;
use crate::error::ProcessError;

verus! {

/// An instruction of this program, as decoded from its payload.
#[derive(Clone, Copy, Debug)]
pub enum Ix {
    /// Accounts: `[payer (signer, writable), mint (writable), system program,
    /// token program]`.
    CreateAndInitMint { mint_authority: Address, decimals: u8, bump: u8 },
    /// Accounts: `[payer (signer), owner, holder account (writable), mint,
    /// token program, system program]`.
    CreateAtaFor,
    /// Burns `amount_ui` whole tokens (not base units).
    /// Accounts: `[mint, owner (signer), holder account (writable), token program]`.
    BurnUserTokens { amount_ui: u64 },
}

/// The payload of an instruction: a one-byte opcode, then its fields in
/// order, integers little-endian.
pub open spec fn ix_bytes(ix: Ix) -> Seq<u8> {
    match ix {
        Ix::CreateAndInitMint { mint_authority, decimals, bump } => seq![0u8] + mint_authority@
            + seq![decimals, bump],
        Ix::CreateAtaFor => seq![1u8],
        Ix::BurnUserTokens { amount_ui } => seq![2u8] + le_u64(amount_ui),
    }
}

/// `input` is the payload of no instruction.
pub open spec fn undecodable(input: Seq<u8>) -> bool {
    forall|ix: Ix| #[trigger] ix_bytes(ix) != input
}

/// The error for a payload that is no instruction's: an unknown opcode, or a
/// known one with the wrong length.
pub open spec fn decode_error(input: Seq<u8>) -> ProcessError {
    if input.len() > 0 && input[0] > 2 {
        ProcessError::UnrecognizedOpcode
    } else {
        ProcessError::MalformedPayload
    }
}

/// Two instructions with the same payload have the same fields.
pub open spec fn same_fields(a: Ix, b: Ix) -> bool {
    match (a, b) {
        (
            Ix::CreateAndInitMint { mint_authority: m1, decimals: d1, bump: b1 },
            Ix::CreateAndInitMint { mint_authority: m2, decimals: d2, bump: b2 },
        ) => m1@ == m2@ && d1 == d2 && b1 == b2,
        (Ix::CreateAtaFor, Ix::CreateAtaFor) => true,
        (Ix::BurnUserTokens { amount_ui: a1 }, Ix::BurnUserTokens { amount_ui: a2 }) => a1 == a2,
        _ => false,
    }
}

proof fn lemma_le_u64_injective(x: u64, y: u64)
    requires
        le_u64(x) == le_u64(y),
    ensures
        x == y,
{
    assert(le_u64(x)[0] == le_u64(y)[0]);
    assert(le_u64(x)[1] == le_u64(y)[1]);
    assert(le_u64(x)[2] == le_u64(y)[2]);
    assert(le_u64(x)[3] == le_u64(y)[3]);
    assert(le_u64(x)[4] == le_u64(y)[4]);
    assert(le_u64(x)[5] == le_u64(y)[5]);
    assert(le_u64(x)[6] == le_u64(y)[6]);
    assert(le_u64(x)[7] == le_u64(y)[7]);
    assert(x == y) by (bit_vector)
        requires
            (x & 0xff) as u8 == (y & 0xff) as u8,
            ((x >> 8u64) & 0xff) as u8 == ((y >> 8u64) & 0xff) as u8,
            ((x >> 16u64) & 0xff) as u8 == ((y >> 16u64) & 0xff) as u8,
            ((x >> 24u64) & 0xff) as u8 == ((y >> 24u64) & 0xff) as u8,
            ((x >> 32u64) & 0xff) as u8 == ((y >> 32u64) & 0xff) as u8,
            ((x >> 40u64) & 0xff) as u8 == ((y >> 40u64) & 0xff) as u8,
            ((x >> 48u64) & 0xff) as u8 == ((y >> 48u64) & 0xff) as u8,
            ((x >> 56u64) & 0xff) as u8 == ((y >> 56u64) & 0xff) as u8,
    ;
}

proof fn lemma_opcode(ix: Ix)
    ensures
        ix_bytes(ix).len() >= 1,
        ix_bytes(ix)[0] == match ix {
            Ix::CreateAndInitMint { .. } => 0u8,
            Ix::CreateAtaFor => 1u8,
            Ix::BurnUserTokens { .. } => 2u8,
        },
{
    match ix {
        Ix::CreateAndInitMint { mint_authority, decimals, bump } => {
            assert(ix_bytes(ix)[0] == 0u8);
        },
        Ix::CreateAtaFor => {},
        Ix::BurnUserTokens { amount_ui } => {
            assert(ix_bytes(ix)[0] == 2u8);
        },
    }
}

/// Distinct payloads are decoded from distinct instructions: equal payloads
/// carry equal fields.
pub proof fn lemma_ix_bytes_injective(a: Ix, b: Ix)
    requires
        ix_bytes(a) == ix_bytes(b),
    ensures
        same_fields(a, b),
{
    lemma_opcode(a);
    lemma_opcode(b);
    match (a, b) {
        (
            Ix::CreateAndInitMint { mint_authority: m1, decimals: d1, bump: b1 },
            Ix::CreateAndInitMint { mint_authority: m2, decimals: d2, bump: b2 },
        ) => {
            assert(m1@ =~= ix_bytes(a).subrange(1, 33));
            assert(m2@ =~= ix_bytes(b).subrange(1, 33));
            assert(ix_bytes(a)[33] == d1);
            assert(ix_bytes(a)[34] == b1);
        },
        (Ix::BurnUserTokens { amount_ui: a1 }, Ix::BurnUserTokens { amount_ui: a2 }) => {
            assert(le_u64(a1) =~= ix_bytes(a).subrange(1, 9));
            assert(le_u64(a2) =~= ix_bytes(b).subrange(1, 9));
            lemma_le_u64_injective(a1, a2);
        },
        _ => {},
    }
}

fn read_u64_le(input: &[u8], at: usize) -> (r: u64)
    requires
        at + 8 <= input@.len(),
    ensures
        le_u64(r) == input@.subrange(at as int, at + 8),
{
    let b0 = input[at];
    let b1 = input[at + 1];
    let b2 = input[at + 2];
    let b3 = input[at + 3];
    let b4 = input[at + 4];
    let b5 = input[at + 5];
    let b6 = input[at + 6];
    let b7 = input[at + 7];
    let r: u64 = (b0 as u64) | ((b1 as u64) << 8u64) | ((b2 as u64) << 16u64) | ((b3 as u64)
        << 24u64) | ((b4 as u64) << 32u64) | ((b5 as u64) << 40u64) | ((b6 as u64) << 48u64) | ((
    b7 as u64) << 56u64);
    assert(((r & 0xff) as u8 == b0 && ((r >> 8u64) & 0xff) as u8 == b1 && ((r >> 16u64) & 0xff) as u8
        == b2 && ((r >> 24u64) & 0xff) as u8 == b3 && ((r >> 32u64) & 0xff) as u8 == b4 && ((r
        >> 40u64) & 0xff) as u8 == b5 && ((r >> 48u64) & 0xff) as u8 == b6 && ((r >> 56u64)
        & 0xff) as u8 == b7)) by (bit_vector)
        requires
            r == (b0 as u64) | ((b1 as u64) << 8u64) | ((b2 as u64) << 16u64) | ((b3 as u64)
                << 24u64) | ((b4 as u64) << 32u64) | ((b5 as u64) << 40u64) | ((b6 as u64)
                << 48u64) | ((b7 as u64) << 56u64),
    ;
    assert(le_u64(r) =~= input@.subrange(at as int, at + 8));
    r
}

fn push_u64_le(out: &mut Vec<u8>, x: u64)
    ensures
        final(out)@ == old(out)@ + le_u64(x),
{
    let ghost start = out@;
    out.push(#[verifier::truncate] ((x & 0xff) as u8));
    out.push(#[verifier::truncate] (((x >> 8u64) & 0xff) as u8));
    out.push(#[verifier::truncate] (((x >> 16u64) & 0xff) as u8));
    out.push(#[verifier::truncate] (((x >> 24u64) & 0xff) as u8));
    out.push(#[verifier::truncate] (((x >> 32u64) & 0xff) as u8));
    out.push(#[verifier::truncate] (((x >> 40u64) & 0xff) as u8));
    out.push(#[verifier::truncate] (((x >> 48u64) & 0xff) as u8));
    out.push(#[verifier::truncate] (((x >> 56u64) & 0xff) as u8));
    assert(out@ =~= start + le_u64(x));
}

impl Ix {
    /// Decodes a payload. The whole input must be one instruction's payload:
    /// an unknown opcode gives `UnrecognizedOpcode`; an empty input, a short
    /// one or trailing bytes give `MalformedPayload`.
    pub fn unpack(input: &[u8]) -> (r: Result<Ix, ProcessError>)
        ensures
            r matches Ok(ix) ==> ix_bytes(ix) == input@,
            r is Err <==> undecodable(input@),
            r matches Err(e) ==> e == decode_error(input@),
    {
        if input.len() == 0 {
            assert forall|ix: Ix| #[trigger] ix_bytes(ix) != input@ by {
                assert(ix_bytes(ix).len() > 0);
            }
            return Err(ProcessError::MalformedPayload);
        }
        let opcode = input[0];
        let expected_len: usize = if opcode == 0 {
            35
        } else if opcode == 1 {
            1
        } else if opcode == 2 {
            9
        } else {
            assert forall|ix: Ix| #[trigger] ix_bytes(ix) != input@ by {
                assert(ix_bytes(ix)[0] <= 2);
            }
            return Err(ProcessError::UnrecognizedOpcode);
        };
        if input.len() != expected_len {
            assert forall|ix: Ix| #[trigger] ix_bytes(ix) != input@ by {
                if ix_bytes(ix) == input@ {
                    assert(ix_bytes(ix)[0] == opcode);
                }
            }
            return Err(ProcessError::MalformedPayload);
        }
        if opcode == 0 {
            let bytes: [u8; 32] = [input[1], input[2], input[3], input[4], input[5], input[6], input[7], input[8], input[9], input[10], input[11], input[12], input[13], input[14], input[15], input[16], input[17], input[18], input[19], input[20], input[21], input[22], input[23], input[24], input[25], input[26], input[27], input[28], input[29], input[30], input[31], input[32]];
            let mint_authority = Address { bytes };
            assert(mint_authority@ =~= input@.subrange(1, 33));
            let ix = Ix::CreateAndInitMint { mint_authority, decimals: input[33], bump: input[34] };
            assert(ix_bytes(ix) =~= input@);
            Ok(ix)
        } else if opcode == 1 {
            assert(ix_bytes(Ix::CreateAtaFor) =~= input@);
            Ok(Ix::CreateAtaFor)
        } else {
            let amount_ui = read_u64_le(input, 1);
            assert(ix_bytes(Ix::BurnUserTokens { amount_ui }) =~= input@);
            Ok(Ix::BurnUserTokens { amount_ui })
        }
    }

    /// Encodes the instruction as its payload.
    pub fn pack(&self) -> (r: Vec<u8>)
        ensures
            r@ == ix_bytes(*self),
    {
        let mut out: Vec<u8> = Vec::new();
        match self {
            Ix::CreateAndInitMint { mint_authority, decimals, bump } => {
                out.push(0u8);
                let mut i: usize = 0;
                while i < 32
                    invariant
                        i <= 32,
                        mint_authority@.len() == 32,
                        out@ == seq![0u8] + mint_authority@.subrange(0, i as int),
                    decreases 32 - i,
                {
                    out.push(mint_authority.bytes[i]);
                    i = i + 1;
                    assert(out@ =~= seq![0u8] + mint_authority@.subrange(0, i as int));
                }
                out.push(*decimals);
                out.push(*bump);
                assert(out@ =~= ix_bytes(*self));
            },
            Ix::CreateAtaFor => {
                out.push(1u8);
                assert(out@ =~= ix_bytes(*self));
            },
            Ix::BurnUserTokens { amount_ui } => {
                out.push(2u8);
                push_u64_le(&mut out, *amount_ui);
                assert(out@ =~= ix_bytes(*self));
            },
        }
        out
    }
}

} // verus!
