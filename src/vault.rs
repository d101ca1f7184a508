use vstd::prelude::*;
use crate::codec::AccountData;
use crate::orphan::Orphan;

verus! {

/// The discriminator that opens a serialized `Vault`.
pub const VAULT_DISCRIMINATOR: [u8; 8] = [211, 8, 232, 43, 2, 152, 117, 119];

/// An account that holds a balance.
#[derive(Debug, Clone, Copy, PartialEq, Eq, Structural)]
pub struct Vault {
    pub balance: u64,
}

/// The eight little-endian bytes of `v`.
pub open spec fn u64_le_bytes(v: u64) -> Seq<u8> {
    seq![
        v as u8,
        (v >> 8u64) as u8,
        (v >> 16u64) as u8,
        (v >> 24u64) as u8,
        (v >> 32u64) as u8,
        (v >> 40u64) as u8,
        (v >> 48u64) as u8,
        (v >> 56u64) as u8,
    ]
}

/// The number whose little-endian bytes open `b`.
pub open spec fn u64_from_le(b: Seq<u8>) -> u64
    recommends
        b.len() >= 8,
{
    (b[0] as u64) | ((b[1] as u64) << 8u64) | ((b[2] as u64) << 16u64) | ((b[3] as u64) << 24u64)
        | ((b[4] as u64) << 32u64) | ((b[5] as u64) << 40u64) | ((b[6] as u64) << 48u64) | ((
    b[7] as u64) << 56u64)
}

proof fn lemma_u64_le(v: u64)
    ensures
        u64_from_le(u64_le_bytes(v)) == v,
{
    let b = u64_le_bytes(v);
    let (b0, b1, b2, b3, b4, b5, b6, b7) = (b[0], b[1], b[2], b[3], b[4], b[5], b[6], b[7]);
    assert(b0 == v as u8 && b1 == (v >> 8u64) as u8 && b2 == (v >> 16u64) as u8 && b3 == (v
        >> 24u64) as u8 && b4 == (v >> 32u64) as u8 && b5 == (v >> 40u64) as u8 && b6 == (v
        >> 48u64) as u8 && b7 == (v >> 56u64) as u8);
    assert((v as u8) as u64 | (((v >> 8u64) as u8) as u64) << 8u64 | (((v >> 16u64) as u8) as u64)
        << 16u64 | (((v >> 24u64) as u8) as u64) << 24u64 | (((v >> 32u64) as u8) as u64) << 32u64
        | (((v >> 40u64) as u8) as u64) << 40u64 | (((v >> 48u64) as u8) as u64) << 48u64 | (((v
        >> 56u64) as u8) as u64) << 56u64 == v) by (bit_vector);
}

impl Orphan for Vault {}

impl AccountData for Vault {
    open spec fn discriminator_spec() -> Seq<u8> {
        VAULT_DISCRIMINATOR@
    }

    open spec fn fields_spec(&self) -> Seq<u8> {
        u64_le_bytes(self.balance)
    }

    open spec fn parse_fields_spec(bytes: Seq<u8>) -> Option<Vault> {
        if bytes.len() < 8 {
            None
        } else {
            Some(Vault { balance: u64_from_le(bytes) })
        }
    }

    proof fn lemma_parse_fields(v: Vault, rest: Seq<u8>) {
        let b = u64_le_bytes(v.balance) + rest;
        assert(b.subrange(0, 8) =~= u64_le_bytes(v.balance));
        lemma_u64_le(v.balance);
        assert(u64_from_le(b) == u64_from_le(u64_le_bytes(v.balance)));
    }

    fn discriminator() -> (r: Vec<u8>) {
        let d = VAULT_DISCRIMINATOR;
        let mut r: Vec<u8> = Vec::new();
        let mut i: usize = 0;
        while i < 8
            invariant
                i <= 8,
                d@ == VAULT_DISCRIMINATOR@,
                r@ == d@.subrange(0, i as int),
            decreases 8 - i,
        {
            r.push(d[i]);
            i = i + 1;
            assert(r@ =~= d@.subrange(0, i as int));
        }
        assert(r@ =~= d@);
        r
    }

    fn serialize_fields(&self) -> (r: Vec<u8>) {
        let v = self.balance;
        let r = vec![
            v as u8,
            (v >> 8u64) as u8,
            (v >> 16u64) as u8,
            (v >> 24u64) as u8,
            (v >> 32u64) as u8,
            (v >> 40u64) as u8,
            (v >> 48u64) as u8,
            (v >> 56u64) as u8,
        ];
        assert(r@ =~= u64_le_bytes(v));
        r
    }

    fn parse_fields(bytes: &[u8]) -> (r: Option<Vault>) {
        if bytes.len() < 8 {
            return None;
        }
        let balance = (bytes[0] as u64) | ((bytes[1] as u64) << 8u64) | ((bytes[2] as u64)
            << 16u64) | ((bytes[3] as u64) << 24u64) | ((bytes[4] as u64) << 32u64) | ((
        bytes[5] as u64) << 40u64) | ((bytes[6] as u64) << 48u64) | ((bytes[7] as u64) << 56u64);
        Some(Vault { balance })
    }
}

} // verus!
