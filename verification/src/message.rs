//! Concrete message types with a verified wire codec.
//!
//! `Ping` is a one-field message — a single unsigned identifier on field
//! number one — serialized as a tag byte followed by a base-128 varint in
//! little-endian groups of seven bits, each group minimal (a continuation
//! byte always carries a nonzero remainder above it). `Unencodable` is a
//! message whose serialization always fails; it drives the encode-failure
//! path of the call lifecycle.
use vstd::arithmetic::div_mod::{lemma_div_is_strictly_smaller, lemma_fundamental_div_mod};
use vstd::prelude::*;

use crate::codec::Message;
use crate::error::{DecodeFault, EncodeFault};

verus! {

/// The wire tag of `Ping`'s only field: field number one, varint wire type.
pub const PING_TAG: u8 = 8;

/// The base-128 little-endian encoding of `n`: seven value bits per byte,
/// the high bit marking that more bytes follow.
pub open spec fn varint_enc(n: nat) -> Seq<u8>
    decreases n,
{
    if n < 128 {
        seq![n as u8]
    } else {
        seq![(128 + (n % 128)) as u8] + varint_enc(n / 128)
    }
}

/// Reads one minimal base-128 varint off the front of `buf`, yielding its
/// value and the remaining bytes. Fails on an empty buffer, a buffer that
/// ends inside the varint, and a non-minimal encoding (a continuation byte
/// below a zero remainder).
pub open spec fn varint_parse(buf: Seq<u8>) -> Option<(nat, Seq<u8>)>
    decreases buf.len(),
{
    if buf.len() == 0 {
        None
    } else if buf[0] < 128 {
        Some((buf[0] as nat, buf.skip(1)))
    } else {
        match varint_parse(buf.skip(1)) {
            Some((v, rest)) => if v > 0 {
                Some(((buf[0] - 128) as nat + 128 * v, rest))
            } else {
                None
            },
            None => None,
        }
    }
}

/// The varint codec is self-consistent: an encoding, followed by anything,
/// parses back to its value with exactly that remainder.
pub proof fn lemma_varint_round_trip(n: nat, rest: Seq<u8>)
    ensures
        varint_parse(varint_enc(n) + rest) == Some((n, rest)),
    decreases n,
{
    if n < 128 {
        assert((varint_enc(n) + rest).skip(1) =~= rest);
    } else {
        lemma_fundamental_div_mod(n as int, 128);
        lemma_div_is_strictly_smaller(n as int, 128);
        lemma_varint_round_trip(n / 128, rest);
        assert((varint_enc(n) + rest).skip(1) =~= varint_enc(n / 128) + rest);
        assert(n / 128 > 0);
        assert(((varint_enc(n) + rest)[0] - 128) as nat + 128 * (n / 128) == n);
    }
}

/// A message carrying a single unsigned identifier.
#[derive(Clone, Copy, Debug, PartialEq, Eq, Structural)]
pub struct Ping {
    /// The identifier carried by the message.
    pub id: u64,
}

/// Reads one minimal varint from `buf` starting at `i`, yielding the value
/// and the index just past it; rejects what `varint_parse` rejects, and
/// also a value that does not fit the identifier's width.
fn read_varint(buf: &[u8], i: usize) -> (r: Option<(u64, usize)>)
    requires
        i <= buf.len(),
    ensures
        match varint_parse(buf@.skip(i as int)) {
            Some((v, rest)) => if v <= u64::MAX {
                r matches Some(p) && p.0 == v && i < p.1 <= buf.len() && rest == buf@.skip(
                    p.1 as int,
                )
            } else {
                r is None
            },
            None => r is None,
        },
    decreases buf.len() - i,
{
    if i == buf.len() {
        return None;
    }
    let b = buf[i];
    if b < 128 {
        proof {
            assert(buf@.skip(i as int)[0] == b);
            assert(buf@.skip(i as int).skip(1) =~= buf@.skip(i as int + 1));
        }
        return Some((b as u64, i + 1));
    }
    proof {
        assert(buf@.skip(i as int)[0] == b);
        assert(buf@.skip(i as int).skip(1) =~= buf@.skip(i as int + 1));
    }
    match read_varint(buf, i + 1) {
        None => None,
        Some((v, j)) => {
            if v == 0 {
                None
            } else {
                let low = (b - 128) as u64;
                if v <= (u64::MAX - low as u64) / 128 {
                    proof {
                        lemma_fundamental_div_mod((u64::MAX - low) as int, 128);
                    }
                    Some((low + v * 128, j))
                } else {
                    proof {
                        lemma_fundamental_div_mod((u64::MAX - low) as int, 128);
                    }
                    None
                }
            }
        },
    }
}

impl Message for Ping {
    /// The field tag, then the identifier as a minimal varint.
    open spec fn encoding(&self) -> Seq<u8> {
        seq![PING_TAG] + varint_enc(self.id as nat)
    }

    /// Every identifier serializes.
    open spec fn encodable(&self) -> bool {
        true
    }

    /// Exactly the buffers of the form tag-then-varint, with nothing after
    /// the varint and a value within the identifier's width.
    open spec fn parse(buf: Seq<u8>) -> Option<Self> {
        if buf.len() >= 1 && buf[0] == PING_TAG {
            match varint_parse(buf.skip(1)) {
                Some((v, rest)) => if rest.len() == 0 && v <= u64::MAX {
                    Some(Ping { id: v as u64 })
                } else {
                    None
                },
                None => None,
            }
        } else {
            None
        }
    }

    proof fn lemma_parse_encoding(&self) {
        lemma_varint_round_trip(self.id as nat, Seq::<u8>::empty());
        assert(varint_enc(self.id as nat) + Seq::<u8>::empty() =~= varint_enc(self.id as nat));
        assert(self.encoding().skip(1) =~= varint_enc(self.id as nat));
    }

    fn encoded_len(&self) -> (n: usize) {
        let mut len: usize = 1;
        let mut n: u64 = self.id;
        while n >= 128
            invariant
                1 <= len,
                len + varint_enc(n as nat).len() == 1 + varint_enc(self.id as nat).len(),
            decreases n,
        {
            proof {
                lemma_div_is_strictly_smaller(n as int, 128);
                lemma_varint_enc_len_bound(self.id as nat);
            }
            len = len + 1;
            n = n / 128;
        }
        proof {
            lemma_varint_enc_len_bound(self.id as nat);
        }
        len + 1
    }

    fn encode(&self) -> (r: Result<Vec<u8>, EncodeFault>) {
        let mut buf: Vec<u8> = Vec::with_capacity(self.encoded_len());
        buf.push(PING_TAG);
        let mut n: u64 = self.id;
        proof {
            assert(self.encoding() =~= buf@ + varint_enc(n as nat));
        }
        while n >= 128
            invariant
                self.encoding() == buf@ + varint_enc(n as nat),
            decreases n,
        {
            proof {
                lemma_div_is_strictly_smaller(n as int, 128);
            }
            let byte: u8 = 128 + (n % 128) as u8;
            let ghost prev = buf@;
            buf.push(byte);
            n = n / 128;
            proof {
                assert(prev + (seq![byte] + varint_enc(n as nat)) =~= buf@ + varint_enc(n as nat));
            }
        }
        let ghost prev = buf@;
        buf.push(n as u8);
        proof {
            assert(prev + varint_enc(n as nat) =~= buf@);
        }
        Ok(buf)
    }

    fn decode(buf: &[u8]) -> (r: Result<Self, DecodeFault>) {
        if buf.len() == 0 {
            return Err(DecodeFault { detail: "empty buffer".to_owned() });
        }
        if buf[0] != PING_TAG {
            return Err(DecodeFault { detail: "unexpected field tag".to_owned() });
        }
        match read_varint(buf, 1) {
            Some((v, j)) => if j == buf.len() {
                Ok(Ping { id: v })
            } else {
                Err(DecodeFault { detail: "trailing bytes after field".to_owned() })
            },
            None => Err(DecodeFault { detail: "malformed varint".to_owned() }),
        }
    }
}

/// A varint of an identifier's width never takes more than ten bytes.
proof fn lemma_varint_enc_len_bound(n: nat)
    requires
        n <= u64::MAX,
    ensures
        varint_enc(n).len() <= 10,
{
    assert(pow128(10) == 0x400000000000000000) by {
        reveal_with_fuel(pow128, 11);
    }
    lemma_varint_enc_len_pow(n, 10);
}

/// 128 raised to `k`.
spec fn pow128(k: nat) -> nat
    decreases k,
{
    if k == 0 {
        1
    } else {
        128 * pow128((k - 1) as nat)
    }
}

/// A value below the `k`-th power of 128 encodes in at most `k` bytes.
proof fn lemma_varint_enc_len_pow(n: nat, k: nat)
    requires
        1 <= k,
        n < pow128(k),
    ensures
        varint_enc(n).len() <= k,
    decreases k,
{
    if n >= 128 {
        assert(pow128(1) == 128 * pow128(0));
        assert(k >= 2) by {
            if k == 1 {
                assert(pow128(1) == 128);
            }
        }
        assert(n / 128 < pow128((k - 1) as nat)) by (nonlinear_arith)
            requires
                n < pow128(k),
                pow128(k) == 128 * pow128((k - 1) as nat),
        ;
        lemma_varint_enc_len_pow(n / 128, (k - 1) as nat);
    }
}

/// A message whose serialization always fails; it never reaches a handler
/// and drives the encode-failure path of the call lifecycle.
#[derive(Clone, Copy, Debug, PartialEq, Eq, Structural)]
pub struct Unencodable {
}

impl Message for Unencodable {
    /// The nominal serialized form: empty, and never actually produced.
    open spec fn encoding(&self) -> Seq<u8> {
        Seq::empty()
    }

    open spec fn encodable(&self) -> bool {
        false
    }

    /// Only the empty buffer deserializes.
    open spec fn parse(buf: Seq<u8>) -> Option<Self> {
        if buf.len() == 0 {
            Some(Unencodable {  })
        } else {
            None
        }
    }

    proof fn lemma_parse_encoding(&self) {
    }

    fn encoded_len(&self) -> (n: usize) {
        0
    }

    fn encode(&self) -> (r: Result<Vec<u8>, EncodeFault>) {
        Err(EncodeFault { detail: "message refuses serialization".to_owned() })
    }

    fn decode(buf: &[u8]) -> (r: Result<Self, DecodeFault>) {
        if buf.len() == 0 {
            Ok(Unencodable {  })
        } else {
            Err(DecodeFault { detail: "expected an empty buffer".to_owned() })
        }
    }
}

} // verus!
