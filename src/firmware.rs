//! Firmware blobs: header validation and the byte-order transform that the
//! upload needs.
//!
//! A blob is a 16-byte header followed by the body. The header holds, little
//! endian: the signature `0x652A` at offset 0, the ROM version at 2, the
//! expected CRC at 4 (32 bits), and the body length at 12.

use vstd::prelude::*;

use crate::bytes::{read_u16, read_u32, u16_le, u32_le};

verus! {

pub const HEADER_LEN: usize = 16;

pub const SIGNATURE: u16 = 0x652A;

/// Whether `b` is a well-formed blob: a full header, the right signature, and
/// a body length field that agrees with the length of `b`.
pub open spec fn is_valid_firmware(b: Seq<u8>) -> bool {
    &&& b.len() >= 16
    &&& u16_le(b.subrange(0, 2)) == SIGNATURE
    &&& u16_le(b.subrange(12, 14)) + 16 == b.len()
}

/// The body as the upload wants it: cut into 4-byte groups, each group with its
/// bytes reversed, group order kept. Bytes after the last whole group are dropped.
pub open spec fn swap_words(body: Seq<u8>) -> Seq<u8> {
    Seq::new((body.len() - body.len() % 4) as nat, |i: int| body[i + 3 - 2 * (i % 4)])
}

/// Each 4-byte group `[a, b, c, d]` of the body comes out as `[d, c, b, a]`, at
/// the same place.
pub proof fn swap_words_reverses_groups(body: Seq<u8>, g: int)
    requires
        0 <= g < body.len() / 4,
    ensures
        swap_words(body).subrange(4 * g, 4 * g + 4) == seq![
            body[4 * g + 3],
            body[4 * g + 2],
            body[4 * g + 1],
            body[4 * g],
        ],
{
    let s = swap_words(body);
    assert(4 * g + 4 <= body.len() - body.len() % 4);
    assert((4 * g) % 4 == 0 && (4 * g + 1) % 4 == 1 && (4 * g + 2) % 4 == 2 && (4 * g + 3) % 4
        == 3);
    assert(s.subrange(4 * g, 4 * g + 4) =~= seq![
        body[4 * g + 3],
        body[4 * g + 2],
        body[4 * g + 1],
        body[4 * g],
    ]);
}

/// A validated firmware blob.
pub struct Firmware {
    data: Vec<u8>,
}

impl View for Firmware {
    type V = Seq<u8>;

    closed spec fn view(&self) -> Seq<u8> {
        self.data@
    }
}

impl Firmware {
    #[verifier::type_invariant]
    spec fn inv(&self) -> bool {
        is_valid_firmware(self.data@)
    }

    /// Validates a blob. Returns `None` when it is shorter than the header, has
    /// the wrong signature, or its body length field disagrees with its length.
    pub fn new(inner: Vec<u8>) -> (r: Option<Firmware>)
        ensures
            r is Some <==> is_valid_firmware(inner@),
            r matches Some(f) ==> f@ == inner@,
    {
        if inner.len() < HEADER_LEN {
            return None;
        }
        let signature = read_u16(&inner.as_slice()[0..2]);
        if signature != SIGNATURE {
            return None;
        }
        let data_len = read_u16(&inner.as_slice()[12..14]) as usize;
        if data_len + 16 != inner.len() {
            return None;
        }
        Some(Firmware { data: inner })
    }

    /// The signature; `0x652A` for every validated blob.
    pub fn signature(&self) -> (r: u16)
        ensures
            r == u16_le(self@.subrange(0, 2)),
            r == SIGNATURE,
    {
        proof {
            use_type_invariant(self);
        }
        read_u16(&self.data.as_slice()[0..2])
    }

    /// The ROM version the firmware was built for.
    pub fn rom_version(&self) -> (r: u16)
        ensures
            r == u16_le(self@.subrange(2, 4)),
    {
        proof {
            use_type_invariant(self);
        }
        read_u16(&self.data.as_slice()[2..4])
    }

    /// The CRC that the hub should report after a successful upload.
    pub fn crc(&self) -> (r: u32)
        ensures
            r == u32_le(self@.subrange(4, 8)),
    {
        proof {
            use_type_invariant(self);
        }
        read_u32(&self.data.as_slice()[4..8])
    }

    /// The length of the body.
    pub fn data_len(&self) -> (r: usize)
        ensures
            r == u16_le(self@.subrange(12, 14)),
            r + HEADER_LEN == self@.len(),
    {
        proof {
            use_type_invariant(self);
        }
        read_u16(&self.data.as_slice()[12..14]) as usize
    }

    /// The body, transformed for upload: each 4-byte group with its bytes
    /// reversed.
    pub fn body(&self) -> (r: Vec<u8>)
        ensures
            r@ == swap_words(self@.skip(16)),
    {
        proof {
            use_type_invariant(self);
        }
        let ghost body = self@.skip(16);
        let n = self.data.len();
        let groups = (n - HEADER_LEN) / 4;
        let mut out: Vec<u8> = Vec::new();
        let mut g: usize = 0;
        while g < groups
            invariant
                n == self.data@.len(),
                n >= 16,
                body == self.data@.skip(16),
                groups == (n - 16) / 4,
                g <= groups,
                out@.len() == 4 * g,
                forall|i: int| 0 <= i < out@.len() ==> out@[i] == body[i + 3 - 2 * (i % 4)],
            decreases groups - g,
        {
            let base = HEADER_LEN + 4 * g;
            proof {
                assert((4 * g + 0) % 4 == 0 && (4 * g + 1) % 4 == 1 && (4 * g + 2) % 4 == 2
                    && (4 * g + 3) % 4 == 3) by (nonlinear_arith);
            }
            out.push(self.data[base + 3]);
            out.push(self.data[base + 2]);
            out.push(self.data[base + 1]);
            out.push(self.data[base]);
            g = g + 1;
        }
        assert(out@ =~= swap_words(body));
        out
    }
}

} // verus!
