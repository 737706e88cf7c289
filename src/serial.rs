//! Serial numbers as big-endian byte strings, and the salt they carry.
use crate::error::AuthError;
use vstd::prelude::*;

verus! {

/// Length in bytes of the salt that doubles as a certificate's serial number.
pub const SIGNING_SALT_LENGTH: usize = 64;

/// Least number of significant bits a serial number must have.
pub const MIN_SERIAL_BITS: usize = 64;

/// A big-endian magnitude with its leading zero bytes dropped.
pub open spec fn significant_bytes(s: Seq<u8>) -> Seq<u8>
    decreases s.len(),
{
    if s.len() > 0 && s[0] == 0 {
        significant_bytes(s.drop_first())
    } else {
        s
    }
}

/// Number of bits needed to write a byte value.
pub open spec fn byte_bit_length(b: u8) -> nat
    decreases b,
{
    if b == 0 {
        0
    } else {
        1 + byte_bit_length(b / 2)
    }
}

/// Number of bytes of the integer that a big-endian byte string denotes.
pub open spec fn serial_byte_length(s: Seq<u8>) -> nat {
    significant_bytes(s).len()
}

/// Number of bits of the integer that a big-endian byte string denotes.
pub open spec fn serial_bit_length(s: Seq<u8>) -> nat {
    let m = significant_bytes(s);
    if m.len() == 0 {
        0
    } else {
        8 * (m.len() - 1) as nat + byte_bit_length(m[0])
    }
}

/// A serial number fits a salt: at most 64 bytes and at least 64 bits.
pub open spec fn serial_size_valid(s: Seq<u8>) -> bool {
    serial_byte_length(s) <= SIGNING_SALT_LENGTH && serial_bit_length(s) >= MIN_SERIAL_BITS
}

/// The salt a serial number stands for: its significant bytes, padded on the
/// left with zeros to the salt length.
pub open spec fn salt_of_serial(s: Seq<u8>) -> Seq<u8> {
    let m = significant_bytes(s);
    Seq::new((SIGNING_SALT_LENGTH - m.len()) as nat, |i: int| 0u8) + m
}

/// What reading a serial number back as a salt gives.
pub open spec fn serial_salt_result(s: Seq<u8>) -> Result<Seq<u8>, AuthError> {
    if serial_size_valid(s) {
        Ok(salt_of_serial(s))
    } else {
        Err(AuthError::SerialNumberSizeInvalid)
    }
}

/// Two to the power `k`.
pub open spec fn two_pow(k: nat) -> nat
    decreases k,
{
    if k == 0 {
        1
    } else {
        2 * two_pow((k - 1) as nat)
    }
}

/// A byte below `2^k` needs at most `k` bits.
pub proof fn lemma_byte_bit_length_below(b: u8, k: nat)
    requires
        b < two_pow(k),
    ensures
        byte_bit_length(b) <= k,
    decreases k,
{
    if b != 0 {
        assert(k > 0);
        lemma_byte_bit_length_below(b / 2, (k - 1) as nat);
    }
}

/// A byte needs at most 8 bits.
pub proof fn lemma_byte_bit_length_le_8(b: u8)
    ensures
        byte_bit_length(b) <= 8,
{
    reveal_with_fuel(two_pow, 9);
    assert(two_pow(8) == 256);
    lemma_byte_bit_length_below(b, 8);
}

/// The significant bytes of a byte string are a suffix of it, preceded only
/// by zeros, and start with a non-zero byte.
pub proof fn lemma_significant_suffix(s: Seq<u8>)
    ensures
        significant_bytes(s).len() <= s.len(),
        significant_bytes(s) == s.subrange(s.len() - significant_bytes(s).len(), s.len() as int),
        forall|i: int| 0 <= i < s.len() - significant_bytes(s).len() ==> s[i] == 0,
        significant_bytes(s).len() > 0 ==> significant_bytes(s)[0] != 0,
    decreases s.len(),
{
    if s.len() > 0 && s[0] == 0 {
        let t = s.drop_first();
        lemma_significant_suffix(t);
        let m = significant_bytes(t);
        assert(t.subrange(t.len() - m.len(), t.len() as int) =~= s.subrange(
            s.len() - m.len(),
            s.len() as int,
        ));
        assert forall|i: int| 0 <= i < s.len() - m.len() implies s[i] == 0 by {
            if i > 0 {
                assert(s[i] == t[i - 1]);
            }
        }
    } else {
        assert(s.subrange(0, s.len() as int) =~= s);
    }
}

/// A serial number of valid size holds between 8 and 64 significant bytes.
pub proof fn lemma_valid_serial_byte_length(s: Seq<u8>)
    requires
        serial_size_valid(s),
    ensures
        8 <= serial_byte_length(s) <= SIGNING_SALT_LENGTH,
{
    let m = significant_bytes(s);
    if m.len() > 0 {
        lemma_byte_bit_length_le_8(m[0]);
    }
}

/// A 64-byte salt read back from its own serial number is the salt itself.
pub proof fn lemma_salt_round_trip(salt: Seq<u8>)
    requires
        salt.len() == SIGNING_SALT_LENGTH,
    ensures
        salt_of_serial(salt) == salt,
{
    lemma_significant_suffix(salt);
    assert(salt_of_serial(salt) =~= salt);
}

/// Bit length of a single byte, computed.
pub fn bit_length_of_byte(b: u8) -> (r: usize)
    ensures
        r == byte_bit_length(b),
        r <= 8,
{
    proof {
        lemma_byte_bit_length_le_8(b);
    }
    let mut v: u8 = b;
    let mut n: usize = 0;
    while v > 0
        invariant
            n + byte_bit_length(v) == byte_bit_length(b),
            byte_bit_length(b) <= 8,
        decreases v,
    {
        v = v / 2;
        n = n + 1;
    }
    n
}

/// Number of leading zero bytes of a big-endian magnitude: its significant
/// bytes are what follows them.
pub fn leading_zero_count(s: &[u8]) -> (k: usize)
    ensures
        k <= s@.len(),
        significant_bytes(s@) == s@.subrange(k as int, s@.len() as int),
{
    let n = s.len();
    let mut k: usize = 0;
    assert(s@.subrange(0, n as int) =~= s@);
    while k < n && s[k] == 0
        invariant
            k <= n,
            n == s@.len(),
            significant_bytes(s@) == significant_bytes(s@.subrange(k as int, n as int)),
        decreases n - k,
    {
        assert(s@.subrange(k as int, n as int).drop_first() =~= s@.subrange(k + 1, n as int));
        k = k + 1;
    }
    let ghost m = s@.subrange(k as int, n as int);
    assert(significant_bytes(m) == m);
    k
}

/// Whether two big-endian byte strings denote the same magnitude.
pub fn same_magnitude(a: &[u8], b: &[u8]) -> (r: bool)
    ensures
        r == (significant_bytes(a@) == significant_bytes(b@)),
{
    let ka = leading_zero_count(a);
    let kb = leading_zero_count(b);
    let ghost sa = significant_bytes(a@);
    let ghost sb = significant_bytes(b@);
    let alen = a.len();
    let blen = b.len();
    let len = alen - ka;
    if blen - kb != len {
        assert(sa.len() != sb.len());
        return false;
    }
    let mut i: usize = 0;
    while i < len
        invariant
            i <= len,
            len == a@.len() - ka,
            len == b@.len() - kb,
            ka <= a@.len(),
            kb <= b@.len(),
            alen == a@.len(),
            blen == b@.len(),
            sa == significant_bytes(a@),
            sb == significant_bytes(b@),
            sa == a@.subrange(ka as int, a@.len() as int),
            sb == b@.subrange(kb as int, b@.len() as int),
            forall|j: int| 0 <= j < i ==> sa[j] == sb[j],
        decreases len - i,
    {
        assert(sa[i as int] == a@[ka + i]);
        assert(sb[i as int] == b@[kb + i]);
        if a[ka + i] != b[kb + i] {
            assert(sa[i as int] != sb[i as int]);
            return false;
        }
        i = i + 1;
    }
    assert(sa =~= sb);
    true
}

/// Checks that a serial number is between 64 bits and 64 bytes in size and
/// turns it into the 64-byte salt it carries.
pub fn salt_from_serial(serial: &[u8]) -> (r: Result<Vec<u8>, AuthError>)
    ensures
        match r {
            Ok(salt) => serial_salt_result(serial@) == Ok::<Seq<u8>, AuthError>(salt@),
            Err(e) => serial_salt_result(serial@) == Err::<Seq<u8>, AuthError>(e),
        },
{
    let n = serial.len();
    let k = leading_zero_count(serial);
    let len = n - k;
    if len > SIGNING_SALT_LENGTH {
        return Err(AuthError::SerialNumberSizeInvalid);
    }
    if len == 0 {
        return Err(AuthError::SerialNumberSizeInvalid);
    }
    let top = bit_length_of_byte(serial[k]);
    let bits = 8 * (len - 1) + top;
    if bits < MIN_SERIAL_BITS {
        return Err(AuthError::SerialNumberSizeInvalid);
    }
    let mut salt: Vec<u8> = Vec::new();
    let pad = SIGNING_SALT_LENGTH - len;
    while salt.len() < pad
        invariant
            salt.len() <= pad,
            forall|i: int| 0 <= i < salt.len() ==> salt@[i] == 0,
        decreases pad - salt.len(),
    {
        salt.push(0);
    }
    let mut j: usize = k;
    while j < n
        invariant
            k <= j <= n,
            n == serial@.len(),
            salt@.len() == pad + (j - k),
            forall|i: int| 0 <= i < pad ==> salt@[i] == 0,
            forall|i: int| pad <= i < salt@.len() ==> salt@[i] == serial@[k + i - pad],
        decreases n - j,
    {
        salt.push(serial[j]);
        j = j + 1;
    }
    assert(salt@ =~= salt_of_serial(serial@));
    Ok(salt)
}

} // verus!
