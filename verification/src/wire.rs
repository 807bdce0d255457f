//! The byte layouts that the client reads and writes itself.

use vstd::prelude::*;

verus! {

/// Why a packet could not be read.
#[derive(Debug)]
pub enum ReadingError {
    /// The payload ends before the value does.
    Incomplete,
    /// A variable-length integer goes on past its five bytes.
    TooLarge,
    /// Any other reason, in words.
    Message(String),
}

/// A packet as it comes off the connection: its id and what follows the id.
#[derive(Debug)]
pub struct RawPacket {
    pub id: i32,
    pub payload: Vec<u8>,
}

/// The most bytes a variable-length integer has.
pub const VAR_INT_BYTES: usize = 5;

/// The signed number with the 32 bits of `n`.
pub open spec fn signed32(n: int) -> int {
    if n < 0x8000_0000 {
        n
    } else {
        n - 0x1_0000_0000
    }
}

/// The 32 bits of a signed number, as a natural number.
pub open spec fn unsigned32(v: int) -> int {
    if v < 0 {
        v + 0x1_0000_0000
    } else {
        v
    }
}

/// The number whose digits to the base 128 are the low seven bits of `s`, the
/// least significant first.
pub open spec fn base128(s: Seq<u8>) -> int
    decreases s.len(),
{
    if s.len() == 0 {
        0
    } else {
        s[0] % 128 + 128 * base128(s.drop_first())
    }
}

/// How many bytes at the start of `s` make up a variable-length integer of at
/// most `most` bytes: those up to the first one below 128.
pub open spec fn groups(s: Seq<u8>, most: nat) -> Result<int, ReadingError>
    decreases most,
{
    if most == 0 {
        Err(ReadingError::TooLarge)
    } else if s.len() == 0 {
        Err(ReadingError::Incomplete)
    } else if s[0] < 128 {
        Ok(1)
    } else {
        match groups(s.drop_first(), (most - 1) as nat) {
            Ok(n) => Ok(n + 1),
            Err(e) => Err(e),
        }
    }
}

/// The variable-length integer at the start of `s`, and its length in bytes.
pub open spec fn var_int_at(s: Seq<u8>) -> Result<(i32, int), ReadingError> {
    match groups(s, VAR_INT_BYTES as nat) {
        Ok(n) => Ok((signed32(base128(s.take(n)) % 0x1_0000_0000) as i32, n)),
        Err(e) => Err(e),
    }
}

/// The bytes of `n` to the base 128, least significant first, all but the
/// last with their top bit set.
pub open spec fn base128_bytes(n: nat) -> Seq<u8>
    decreases n,
{
    if n < 128 {
        seq![n as u8]
    } else {
        seq![(n % 128 + 128) as u8] + base128_bytes(n / 128)
    }
}

/// The bytes of a variable-length integer.
pub open spec fn var_int_bytes(v: i32) -> Seq<u8> {
    base128_bytes(unsigned32(v as int) as nat)
}

/// The number with the big-endian bytes `s`.
pub open spec fn big_endian(s: Seq<u8>) -> nat
    decreases s.len(),
{
    if s.len() == 0 {
        0
    } else {
        big_endian(s.drop_last()) * 256 + s.last() as nat
    }
}

/// The big-endian signed 32-bit integer at the start of `s`.
pub open spec fn int_at(s: Seq<u8>) -> Result<i32, ReadingError> {
    if s.len() < 4 {
        Err(ReadingError::Incomplete)
    } else {
        Ok(signed32(big_endian(s.take(4)) as int) as i32)
    }
}

/// The bits of the big-endian single precision number at the start of `s`.
pub open spec fn single_at(s: Seq<u8>) -> Result<u32, ReadingError> {
    if s.len() < 4 {
        Err(ReadingError::Incomplete)
    } else {
        Ok(big_endian(s.take(4)) as u32)
    }
}

/// The signed byte at position `i` of `s`.
pub open spec fn byte_at(s: Seq<u8>, i: int) -> Result<i8, ReadingError> {
    if s.len() <= i {
        Err(ReadingError::Incomplete)
    } else {
        Ok((if s[i] < 128 { s[i] as int } else { s[i] - 256 }) as i8)
    }
}

/// `128` to the power `n`.
spec fn weight(n: nat) -> int
    decreases n,
{
    if n == 0 {
        1
    } else {
        128 * weight((n - 1) as nat)
    }
}

/// One more byte adds its seven bits times the weight of its place.
proof fn lemma_base128_push(s: Seq<u8>, b: u8)
    ensures
        base128(s.push(b)) == base128(s) + (b % 128) * weight(s.len()),
    decreases s.len(),
{
    let t = s.push(b);
    if s.len() == 0 {
        assert(t.drop_first() =~= Seq::<u8>::empty());
        assert(base128(t.drop_first()) == 0);
    } else {
        assert(t.drop_first() =~= s.drop_first().push(b));
        lemma_base128_push(s.drop_first(), b);
        let w = weight((s.len() - 1) as nat);
        assert(128 * ((b % 128) * w) == (b % 128) * (128 * w)) by (nonlinear_arith);
    }
}

proof fn lemma_base128_bytes_nonempty(n: nat)
    ensures
        base128_bytes(n).len() >= 1,
    decreases n,
{
    if n >= 128 {
        lemma_base128_bytes_nonempty(n / 128);
    }
}

/// What `base128_bytes` wrote is found and read back, whatever follows it.
proof fn lemma_base128_round_trip(n: nat, most: nat, rest: Seq<u8>)
    requires
        most >= 1,
        n < weight(most),
    ensures
        groups(base128_bytes(n) + rest, most) == Ok::<int, ReadingError>(base128_bytes(n).len() as int),
        base128(base128_bytes(n)) == n,
    decreases most,
{
    let s = base128_bytes(n);
    if n < 128 {
        assert(s.drop_first() =~= Seq::<u8>::empty());
        assert(base128(s.drop_first()) == 0);
        assert((s + rest)[0] == n);
    } else {
        let tail = base128_bytes(n / 128);
        if most == 1 {
            reveal_with_fuel(weight, 2);
            assert(false);
        }
        lemma_base128_round_trip(n / 128, (most - 1) as nat, rest);
        assert(s.drop_first() =~= tail);
        assert((s + rest).drop_first() =~= tail + rest);
        assert((s + rest)[0] == (n % 128 + 128) as u8);
        assert(s[0] % 128 == n % 128);
    }
}

/// A variable-length integer reads back as what was written, with exactly the
/// bytes that were written, whatever comes after it.
pub proof fn law_var_int_round_trip(v: i32, rest: Seq<u8>)
    ensures
        var_int_at(var_int_bytes(v) + rest) == Ok::<(i32, int), ReadingError>(
            (v, var_int_bytes(v).len() as int),
        ),
        1 <= var_int_bytes(v).len() <= VAR_INT_BYTES,
{
    let n = unsigned32(v as int) as nat;
    reveal_with_fuel(weight, 6);
    lemma_base128_round_trip(n, 5, rest);
    lemma_base128_bytes_nonempty(n);
    let s = var_int_bytes(v);
    assert((s + rest).take(s.len() as int) =~= s);
    lemma_groups_bound(s + rest, 5);
}

proof fn lemma_groups_bound(s: Seq<u8>, most: nat)
    ensures
        groups(s, most) matches Ok(n) ==> 1 <= n <= most && n <= s.len(),
    decreases most,
{
    if most > 0 && s.len() > 0 && s[0] >= 128 {
        lemma_groups_bound(s.drop_first(), (most - 1) as nat);
    }
}

/// The bytes that a variable-length integer takes lie within the payload.
pub proof fn law_var_int_within(s: Seq<u8>)
    ensures
        var_int_at(s) matches Ok((_, n)) ==> 1 <= n <= VAR_INT_BYTES && n <= s.len(),
{
    lemma_groups_bound(s, 5);
}

/// The signed integer with the bits of `n`.
fn to_signed(n: u32) -> (r: i32)
    ensures
        r == signed32(n as int),
{
    if n < 0x8000_0000 {
        n as i32
    } else {
        (n - 0x8000_0000) as i32 + i32::MIN
    }
}

/// The bits of a signed integer.
fn to_unsigned(v: i32) -> (r: u32)
    ensures
        r == unsigned32(v as int),
{
    if v < 0 {
        (v - i32::MIN) as u32 + 0x8000_0000
    } else {
        v as u32
    }
}

/// Reads the variable-length integer at the start of `s`.
pub fn read_var_int(s: &[u8]) -> (r: Result<(i32, usize), ReadingError>)
    ensures
        match r {
            Ok((v, n)) => var_int_at(s@) == Ok::<(i32, int), ReadingError>((v, n as int)),
            Err(e) => var_int_at(s@) == Err::<(i32, int), ReadingError>(e),
        },
{
    let mut i: usize = 0;
    let mut value: u64 = 0;
    let mut place: u64 = 1;
    assert(s@.skip(0) =~= s@);
    assert(s@.take(0) =~= Seq::<u8>::empty());
    while i < VAR_INT_BYTES
        invariant
            i <= VAR_INT_BYTES,
            i <= s@.len(),
            value == base128(s@.take(i as int)),
            value < place,
            place == weight(i as nat),
            place <= 0x8_0000_0000,
            groups(s@, 5) == (match groups(s@.skip(i as int), (5 - i) as nat) {
                Ok(n) => Ok::<int, ReadingError>(n + i),
                Err(e) => Err(e),
            }),
        decreases VAR_INT_BYTES - i,
    {
        if i >= s.len() {
            assert(s@.skip(i as int).len() == 0);
            return Err(ReadingError::Incomplete);
        }
        let b: u8 = s[i];
        proof {
            assert(s@.take(i as int).push(b) =~= s@.take(i + 1));
            lemma_base128_push(s@.take(i as int), b);
            assert(s@.skip(i as int)[0] == b);
            assert(s@.skip(i as int).drop_first() =~= s@.skip(i + 1));
            reveal_with_fuel(weight, 6);
        }
        let low: u64 = (b % 128) as u64;
        assert(low * place <= 127 * place) by (nonlinear_arith)
            requires
                low <= 127,
        ;
        assert(place <= 0x1000_0000);
        value = value + low * place;
        i = i + 1;
        if b < 128 {
            proof {
                assert(groups(s@, 5) == Ok::<int, ReadingError>(i as int));
            }
            return Ok((to_signed((value % 0x1_0000_0000) as u32), i));
        }
        place = place * 128;
    }
    Err(ReadingError::TooLarge)
}

/// The number with the four big-endian bytes at the start of `s`.
fn read_word(s: &[u8]) -> (r: u32)
    requires
        s@.len() >= 4,
    ensures
        r == big_endian(s@.take(4)),
{
    proof {
        reveal_with_fuel(big_endian, 5);
        let t = s@.take(4);
        assert(t.drop_last() =~= s@.take(3));
        assert(s@.take(3).drop_last() =~= s@.take(2));
        assert(s@.take(2).drop_last() =~= s@.take(1));
        assert(s@.take(1).drop_last() =~= s@.take(0));
    }
    ((s[0] as u32 * 256 + s[1] as u32) * 256 + s[2] as u32) * 256 + s[3] as u32
}

/// Reads the big-endian integer at the start of `s`.
pub fn read_int(s: &[u8]) -> (r: Result<i32, ReadingError>)
    ensures
        r == int_at(s@),
{
    if s.len() < 4 {
        Err(ReadingError::Incomplete)
    } else {
        Ok(to_signed(read_word(s)))
    }
}

/// Reads the bits of the big-endian single precision number at the start of `s`.
pub fn read_single(s: &[u8]) -> (r: Result<u32, ReadingError>)
    ensures
        r == single_at(s@),
{
    if s.len() < 4 {
        Err(ReadingError::Incomplete)
    } else {
        Ok(read_word(s))
    }
}

/// Reads the signed byte at position `i` of `s`.
pub fn read_byte(s: &[u8], i: usize) -> (r: Result<i8, ReadingError>)
    ensures
        r == byte_at(s@, i as int),
{
    if s.len() <= i {
        Err(ReadingError::Incomplete)
    } else {
        let b: u8 = s[i];
        if b < 128 {
            Ok(b as i8)
        } else {
            Ok((b - 128) as i8 + i8::MIN)
        }
    }
}

/// Appends a variable-length integer to `out`.
pub fn write_var_int(v: i32, out: &mut Vec<u8>)
    ensures
        final(out)@ == old(out)@ + var_int_bytes(v),
{
    let mut n: u32 = to_unsigned(v);
    let ghost start = out@;
    while n >= 128
        invariant
            start + var_int_bytes(v) == out@ + base128_bytes(n as nat),
        decreases n,
    {
        let ghost before = out@;
        out.push((n % 128 + 128) as u8);
        proof {
            let m = n as nat;
            assert(base128_bytes(m) == seq![(m % 128 + 128) as u8] + base128_bytes(m / 128));
            assert(out@ + base128_bytes(m / 128) =~= before + base128_bytes(m));
        }
        n = n / 128;
    }
    let ghost before = out@;
    out.push(n as u8);
    assert(out@ =~= before + base128_bytes(n as nat));
}

/// The bytes of a packet: its id, then its data.
pub open spec fn packet_bytes(id: i32, data: Seq<u8>) -> Seq<u8> {
    var_int_bytes(id) + data
}

/// Whoever reads the id off the front of a written packet finds the id that
/// was written, and is left with exactly the packet's data.
pub proof fn law_packet_round_trip(id: i32, data: Seq<u8>)
    ensures
        var_int_at(packet_bytes(id, data)) matches Ok((read, n)) && read == id && packet_bytes(
            id,
            data,
        ).skip(n) == data,
{
    law_var_int_round_trip(id, data);
    let n = var_int_bytes(id).len() as int;
    assert(packet_bytes(id, data).skip(n) =~= data);
}

} // verus!
