//! Opaque 128-bit correlation identifiers.
//!
//! A correlation id groups causally related work within one tree. A new root
//! span draws a fresh random id; nested spans inherit their parent's id
//! unless one is supplied explicitly.
use vstd::prelude::*;

verus! {

/// An opaque 128-bit identifier, stored as sixteen big-endian bytes.
#[derive(Debug, Clone, Copy, PartialEq, Eq, Hash)]
pub struct Uuid {
    /// The sixteen bytes of the identifier, most significant first.
    pub bytes: [u8; 16],
}

/// The most significant eight bytes of an identifier, read big-endian.
pub open spec fn spec_pair_msb(b: Seq<u8>) -> u64 {
    ((b[0] as u64) << 56) | ((b[1] as u64) << 48) | ((b[2] as u64) << 40) | ((b[3] as u64) << 32)
        | ((b[4] as u64) << 24) | ((b[5] as u64) << 16) | ((b[6] as u64) << 8) | (b[7] as u64)
}

/// The least significant eight bytes of an identifier, read big-endian.
pub open spec fn spec_pair_lsb(b: Seq<u8>) -> u64 {
    ((b[8] as u64) << 56) | ((b[9] as u64) << 48) | ((b[10] as u64) << 40) | ((b[11] as u64)
        << 32) | ((b[12] as u64) << 24) | ((b[13] as u64) << 16) | ((b[14] as u64) << 8) | (
    b[15] as u64)
}

/// The sixteen big-endian bytes of a `(msb, lsb)` pair.
pub open spec fn spec_pair_bytes(msb: u64, lsb: u64) -> Seq<u8> {
    seq![
        (msb >> 56) as u8,
        (msb >> 48) as u8,
        (msb >> 40) as u8,
        (msb >> 32) as u8,
        (msb >> 24) as u8,
        (msb >> 16) as u8,
        (msb >> 8) as u8,
        msb as u8,
        (lsb >> 56) as u8,
        (lsb >> 48) as u8,
        (lsb >> 40) as u8,
        (lsb >> 32) as u8,
        (lsb >> 24) as u8,
        (lsb >> 16) as u8,
        (lsb >> 8) as u8,
        lsb as u8,
    ]
}

/// Splits an identifier into its most and least significant 64-bit halves.
pub fn into_u64_pair(id: &Uuid) -> (r: (u64, u64))
    ensures
        r.0 == spec_pair_msb(id.bytes@),
        r.1 == spec_pair_lsb(id.bytes@),
{
    let b = &id.bytes;
    let msb: u64 = ((b[0] as u64) << 56) | ((b[1] as u64) << 48) | ((b[2] as u64) << 40) | ((
    b[3] as u64) << 32) | ((b[4] as u64) << 24) | ((b[5] as u64) << 16) | ((b[6] as u64) << 8) | (
    b[7] as u64);
    let lsb: u64 = ((b[8] as u64) << 56) | ((b[9] as u64) << 48) | ((b[10] as u64) << 40) | ((
    b[11] as u64) << 32) | ((b[12] as u64) << 24) | ((b[13] as u64) << 16) | ((b[14] as u64) << 8)
        | (b[15] as u64);
    (msb, lsb)
}

/// Rebuilds an identifier from its most and least significant 64-bit halves.
pub fn from_u64_pair(msb: u64, lsb: u64) -> (r: Uuid)
    ensures
        r.bytes@ == spec_pair_bytes(msb, lsb),
{
    let bytes: [u8; 16] = [
        (msb >> 56) as u8,
        (msb >> 48) as u8,
        (msb >> 40) as u8,
        (msb >> 32) as u8,
        (msb >> 24) as u8,
        (msb >> 16) as u8,
        (msb >> 8) as u8,
        msb as u8,
        (lsb >> 56) as u8,
        (lsb >> 48) as u8,
        (lsb >> 40) as u8,
        (lsb >> 32) as u8,
        (lsb >> 24) as u8,
        (lsb >> 16) as u8,
        (lsb >> 8) as u8,
        lsb as u8,
    ];
    proof {
        assert(bytes@ =~= spec_pair_bytes(msb, lsb));
    }
    Uuid { bytes }
}

/// Splitting an identifier into halves and rebuilding it gives the identifier
/// back, and rebuilding from any halves then splitting gives the halves back.
pub proof fn lemma_u64_pair_round_trip(msb: u64, lsb: u64)
    ensures
        spec_pair_msb(spec_pair_bytes(msb, lsb)) == msb,
        spec_pair_lsb(spec_pair_bytes(msb, lsb)) == lsb,
{
    assert(((((msb >> 56) as u8) as u64) << 56) | ((((msb >> 48) as u8) as u64) << 48) | ((((msb
        >> 40) as u8) as u64) << 40) | ((((msb >> 32) as u8) as u64) << 32) | ((((msb
        >> 24) as u8) as u64) << 24) | ((((msb >> 16) as u8) as u64) << 16) | ((((msb
        >> 8) as u8) as u64) << 8) | ((msb as u8) as u64) == msb) by (bit_vector);
    assert(((((lsb >> 56) as u8) as u64) << 56) | ((((lsb >> 48) as u8) as u64) << 48) | ((((lsb
        >> 40) as u8) as u64) << 40) | ((((lsb >> 32) as u8) as u64) << 32) | ((((lsb
        >> 24) as u8) as u64) << 24) | ((((lsb >> 16) as u8) as u64) << 16) | ((((lsb
        >> 8) as u8) as u64) << 8) | ((lsb as u8) as u64) == lsb) by (bit_vector);
}

/// The lower-case hex digit of a value below sixteen.
pub open spec fn spec_hex_digit(n: int) -> char {
    if n == 0 {
        '0'
    } else if n == 1 {
        '1'
    } else if n == 2 {
        '2'
    } else if n == 3 {
        '3'
    } else if n == 4 {
        '4'
    } else if n == 5 {
        '5'
    } else if n == 6 {
        '6'
    } else if n == 7 {
        '7'
    } else if n == 8 {
        '8'
    } else if n == 9 {
        '9'
    } else if n == 10 {
        'a'
    } else if n == 11 {
        'b'
    } else if n == 12 {
        'c'
    } else if n == 13 {
        'd'
    } else if n == 14 {
        'e'
    } else {
        'f'
    }
}

/// The two lower-case hex digits of a byte.
pub open spec fn spec_byte_hex(b: u8) -> Seq<char> {
    seq![spec_hex_digit((b >> 4) as int), spec_hex_digit((b & 0x0f) as int)]
}

/// The hyphenated lower-case hex form of an identifier, thirty-six
/// characters: groups of 8, 4, 4, 4, and 12 digits separated by dashes.
pub open spec fn spec_uuid_display(b: Seq<u8>) -> Seq<char> {
    spec_byte_hex(b[0]) + spec_byte_hex(b[1]) + spec_byte_hex(b[2]) + spec_byte_hex(b[3]) + "-"@
        + spec_byte_hex(b[4]) + spec_byte_hex(b[5]) + "-"@ + spec_byte_hex(b[6]) + spec_byte_hex(
        b[7],
    ) + "-"@ + spec_byte_hex(b[8]) + spec_byte_hex(b[9]) + "-"@ + spec_byte_hex(b[10])
        + spec_byte_hex(b[11]) + spec_byte_hex(b[12]) + spec_byte_hex(b[13]) + spec_byte_hex(b[14])
        + spec_byte_hex(b[15])
}

fn hex_digit(n: u8) -> (c: char)
    requires
        n < 16,
    ensures
        c == spec_hex_digit(n as int),
{
    if n == 0 {
        '0'
    } else if n == 1 {
        '1'
    } else if n == 2 {
        '2'
    } else if n == 3 {
        '3'
    } else if n == 4 {
        '4'
    } else if n == 5 {
        '5'
    } else if n == 6 {
        '6'
    } else if n == 7 {
        '7'
    } else if n == 8 {
        '8'
    } else if n == 9 {
        '9'
    } else if n == 10 {
        'a'
    } else if n == 11 {
        'b'
    } else if n == 12 {
        'c'
    } else if n == 13 {
        'd'
    } else if n == 14 {
        'e'
    } else {
        'f'
    }
}

fn push_byte_hex(out: &mut String, b: u8)
    ensures
        final(out)@ == old(out)@ + spec_byte_hex(b),
{
    let hi: u8 = b >> 4;
    let lo: u8 = b & 0x0f;
    proof {
        assert(b >> 4 < 16 && b & 0x0f < 16) by (bit_vector);
    }
    out.push(hex_digit(hi));
    out.push(hex_digit(lo));
    proof {
        assert(old(out)@.push(spec_hex_digit(hi as int)).push(spec_hex_digit(lo as int)) =~= old(
            out,
        )@ + spec_byte_hex(b));
    }
}

impl Uuid {
    /// Returns the identifier whose sixteen bytes are the given array.
    pub fn from_bytes(bytes: [u8; 16]) -> (r: Uuid)
        ensures
            r.bytes@ == bytes@,
    {
        Uuid { bytes }
    }

    /// Returns the all-zero identifier, used for events that were recorded
    /// outside of any span.
    pub fn nil() -> (r: Uuid)
        ensures
            r.bytes@.len() == 16,
            forall|i: int| 0 <= i < 16 ==> r.bytes@[i] == 0u8,
    {
        Uuid { bytes: [0u8;16] }
    }

    /// Returns the hyphenated lower-case hex form of the identifier.
    pub fn display_string(&self) -> (r: String)
        ensures
            r@ == spec_uuid_display(self.bytes@),
    {
        let mut out = String::new();
        push_byte_hex(&mut out, self.bytes[0]);
        push_byte_hex(&mut out, self.bytes[1]);
        push_byte_hex(&mut out, self.bytes[2]);
        push_byte_hex(&mut out, self.bytes[3]);
        out.append("-");
        push_byte_hex(&mut out, self.bytes[4]);
        push_byte_hex(&mut out, self.bytes[5]);
        out.append("-");
        push_byte_hex(&mut out, self.bytes[6]);
        push_byte_hex(&mut out, self.bytes[7]);
        out.append("-");
        push_byte_hex(&mut out, self.bytes[8]);
        push_byte_hex(&mut out, self.bytes[9]);
        out.append("-");
        push_byte_hex(&mut out, self.bytes[10]);
        push_byte_hex(&mut out, self.bytes[11]);
        push_byte_hex(&mut out, self.bytes[12]);
        push_byte_hex(&mut out, self.bytes[13]);
        push_byte_hex(&mut out, self.bytes[14]);
        push_byte_hex(&mut out, self.bytes[15]);
        proof {
            assert(out@ =~= spec_uuid_display(self.bytes@));
        }
        out
    }

    /// Returns a freshly generated random identifier.
    ///
    /// Relies on `uuid::Uuid::new_v4` for the random bytes; nothing is
    /// assumed of the value drawn.
    #[verifier::external_body]
    pub fn fresh() -> (r: Uuid)
    {
        Uuid { bytes: ::uuid::Uuid::new_v4().into_bytes() }
    }
}

} // verus!
