//! Validation of Windows product keys.
//!
//! The entry point is [`validate`], which picks a format by the length of the
//! key and reports either a recognized [`Key`] or a [`WKVError`] naming the
//! first rule the key broke. The only fully implemented format is the
//! eleven-byte Windows 95 retail layout, handled by [`validate_windows95`];
//! the digit-sum rule it rests on is exposed as [`mod7`] so that further
//! formats of the same family can reuse it.
//!
//! The rules are deliberately those of the original installer, quirks
//! included: the three leading characters are only held against seven
//! forbidden triples, and the fourth character is never inspected at all, so
//! keys such as `YOLO1111111` are accepted.

use vstd::prelude::*;

verus! {

use vstd::arithmetic::div_mod::lemma_add_mod_noop_right;
use vstd::slice::slice_subrange;
use vstd::string::StringSliceAdditionalSpecFns;
use vstd::utf8::is_char_boundary;
use vstd::utf8::is_leading_byte_width_1;
use vstd::utf8::length_of_first_scalar;
use vstd::utf8::pop_first_scalar;
use vstd::utf8::valid_first_scalar;
use vstd::utf8::valid_utf8;

/// Reason a key failed to validate.
#[derive(Clone, Debug, PartialEq, Eq, Structural)]
pub enum WKVError {
    /// No known product key format is as short as the given key.
    TooShort,
    /// No known product key format is as long as the given key.
    TooLong,
    /// The sum of the checked digits is not divisible by 7.
    /// Only raised by formats using the "mod 7" scheme.
    BadMod7,
    /// Expected a digit, encountered some other character.
    ExpectedDigit,
    /// A digit stands at a place the format forbids it to.
    InvalidDigitPosition,
    /// An internal byte-range access would have fallen outside the key.
    BadAccess,
}

/// A validated key.
#[derive(Clone, Debug, PartialEq, Eq, Structural)]
pub struct Key {
    /// The Windows release that this key is used for.
    pub release: KeyType,
}

/// Every Windows release whose keys this library knows of.
///
/// Only [`KeyType::Windows95`] has a validator so far; the other variants are
/// placeholders that no successful validation produces.
#[derive(Clone, Copy, Debug, PartialEq, Eq, Structural)]
pub enum KeyType {
    Windows95,
    Windows95OEM,
    Windows98,
    Unknown,
}

/// True of a byte that encodes an ASCII decimal digit.
pub open spec fn is_digit_byte(b: u8) -> bool {
    48 <= b <= 57
}

/// Numeric value of an ASCII digit byte.
pub open spec fn digit_value(b: u8) -> int
    recommends
        is_digit_byte(b),
{
    b - 48
}

/// True when every byte of `s` encodes an ASCII decimal digit.
pub open spec fn all_digit_bytes(s: Seq<u8>) -> bool {
    forall|i: int| 0 <= i < s.len() ==> is_digit_byte(#[trigger] s[i])
}

/// Sum of the numeric values of the digit bytes of `s`.
pub open spec fn digit_sum(s: Seq<u8>) -> int
    recommends
        all_digit_bytes(s),
    decreases s.len(),
{
    if s.len() == 0 {
        0
    } else {
        digit_sum(s.drop_last()) + digit_value(s.last())
    }
}

/// What [`mod7`] returns for the bytes `s`: whether the digit sum is
/// divisible by 7, or `ExpectedDigit` when some byte is not a digit.
pub open spec fn spec_mod7(s: Seq<u8>) -> Result<bool, WKVError> {
    if all_digit_bytes(s) {
        Ok(digit_sum(s) % 7 == 0)
    } else {
        Err(WKVError::ExpectedDigit)
    }
}

/// Microsoft's "mod 7" checksum over a run of digits.
///
/// Every byte of `key` must be an ASCII decimal digit; the first byte that is
/// not fails the whole run with [`WKVError::ExpectedDigit`]. Otherwise the
/// digits are summed and the result tells whether 7 divides the sum — turning
/// a `false` into an error is left to the caller. The run may have any
/// length, so other formats of the same checksum family can share this
/// primitive.
pub fn mod7(key: &[u8]) -> (r: Result<bool, WKVError>)
    ensures
        r == spec_mod7(key@),
{
    let mut rem: u32 = 0;
    let mut i: usize = 0;
    while i < key.len()
        invariant
            i <= key@.len(),
            forall|j: int| 0 <= j < i ==> is_digit_byte(#[trigger] key@[j]),
            rem == digit_sum(key@.take(i as int)) % 7,
        decreases key@.len() - i,
    {
        let b = key[i];
        if b < 48 || b > 57 {
            assert(!all_digit_bytes(key@)) by {
                assert(!is_digit_byte(key@[i as int]));
            }
            return Err(WKVError::ExpectedDigit);
        }
        proof {
            let taken = key@.take(i as int + 1);
            assert(taken.drop_last() =~= key@.take(i as int));
            assert(taken.last() == key@[i as int]);
            lemma_add_mod_noop_right(
                digit_value(key@[i as int]),
                digit_sum(key@.take(i as int)),
                7,
            );
        }
        rem = (rem + (b - 48) as u32) % 7;
        i = i + 1;
    }
    proof {
        assert(key@.take(key@.len() as int) =~= key@);
        assert(all_digit_bytes(key@));
    }
    Ok(rem == 0)
}

/// True of the first three bytes of a key that the Windows 95 format
/// forbids: the triples `333`, `444`, `555`, `666`, `777`, `888` and `999` —
/// three copies of one digit between 3 and 9.
pub open spec fn forbidden_prefix(s: Seq<u8>) -> bool
    recommends
        s.len() >= 3,
{
    s[0] == s[1] && s[1] == s[2] && 51 <= s[0] <= 57
}

/// What [`validate_windows95`] returns for a key whose UTF-8 bytes are `s`.
///
/// The rules apply in a fixed order, and the first one broken names the
/// error. Reading the three leading bytes as a substring demands a character
/// boundary after them, so a key whose fourth byte continues a multi-byte
/// character fails with `BadAccess`, as does any key too short to slice.
/// The prefix must then avoid the seven forbidden triples — no other rule
/// touches it, so letters and symbols pass. Everything from the fifth byte on
/// feeds the mod-7 checksum; the fourth byte itself is never inspected.
pub open spec fn spec_validate_windows95(s: Seq<u8>) -> Result<Key, WKVError> {
    if s.len() < 3 || !is_char_boundary(s, 3) {
        Err(WKVError::BadAccess)
    } else if forbidden_prefix(s) {
        Err(WKVError::InvalidDigitPosition)
    } else if s.len() < 4 {
        Err(WKVError::BadAccess)
    } else {
        match spec_mod7(s.skip(4)) {
            Ok(passes) => if passes {
                Ok(Key { release: KeyType::Windows95 })
            } else {
                Err(WKVError::BadMod7)
            },
            Err(e) => Err(e),
        }
    }
}

/// Validates a key against the Windows 95 retail layout, conceptually
/// `DDD-DDDDDDD`.
///
/// Callers that skip [`validate`] owe it a key of the expected length, but
/// the function guards every slice itself and answers [`WKVError::BadAccess`]
/// rather than read out of bounds. The layout is the one the original
/// installer enforces: the prefix may be anything but the seven forbidden
/// digit triples, the separator position is ignored outright, and the
/// remaining bytes must be digits whose sum 7 divides.
pub fn validate_windows95(key: &str) -> (r: Result<Key, WKVError>)
    ensures
        r == spec_validate_windows95(key.spec_bytes()),
{
    let bytes: &[u8] = key.as_bytes();
    if bytes.len() < 3 || !key.is_char_boundary(3) {
        return Err(WKVError::BadAccess);
    }
    let b0 = bytes[0];
    if b0 == bytes[1] && bytes[1] == bytes[2] && 51 <= b0 && b0 <= 57 {
        return Err(WKVError::InvalidDigitPosition);
    }
    if bytes.len() < 4 {
        return Err(WKVError::BadAccess);
    }
    let tail = slice_subrange(bytes, 4, bytes.len());
    proof {
        assert(tail@ =~= key.spec_bytes().skip(4));
    }
    match mod7(tail) {
        Ok(passes) => if passes {
            Ok(Key { release: KeyType::Windows95 })
        } else {
            Err(WKVError::BadMod7)
        },
        Err(e) => Err(e),
    }
}

/// What [`validate`] returns for a key whose UTF-8 bytes are `s`: keys of
/// exactly eleven bytes go to the Windows 95 validator, all others are
/// rejected by length alone.
pub open spec fn spec_validate(s: Seq<u8>) -> Result<Key, WKVError> {
    if s.len() <= 10 {
        Err(WKVError::TooShort)
    } else if s.len() == 11 {
        spec_validate_windows95(s)
    } else {
        Err(WKVError::TooLong)
    }
}

/// Validates a key, picking the format by length.
///
/// Length is measured in bytes, the unit every format's layout is written
/// in. Keys of eleven bytes are handed to [`validate_windows95`]; shorter
/// keys fail with [`WKVError::TooShort`], longer ones with
/// [`WKVError::TooLong`], before any content is read.
pub fn validate(key: &str) -> (r: Result<Key, WKVError>)
    ensures
        r == spec_validate(key.spec_bytes()),
{
    let n = key.as_bytes().len();
    if n <= 10 {
        Err(WKVError::TooShort)
    } else if n == 11 {
        validate_windows95(key)
    } else {
        Err(WKVError::TooLong)
    }
}

/// In valid UTF-8, three one-byte characters at the front put a character
/// boundary after them: a key whose first three bytes are ASCII can always
/// have its prefix sliced off.
pub proof fn lemma_boundary_after_three_ascii(s: Seq<u8>)
    requires
        valid_utf8(s),
        s.len() >= 3,
        s[0] < 128,
        s[1] < 128,
        s[2] < 128,
    ensures
        is_char_boundary(s, 3),
{
    let s1 = pop_first_scalar(s);
    assert(valid_first_scalar(s));
    assert(is_leading_byte_width_1(s[0]));
    assert(length_of_first_scalar(s) == 1);
    assert(s1 =~= s.subrange(1, s.len() as int));
    assert(valid_utf8(s1));
    let s2 = pop_first_scalar(s1);
    assert(is_leading_byte_width_1(s1[0]));
    assert(length_of_first_scalar(s1) == 1);
    assert(s2 =~= s1.subrange(1, s1.len() as int));
    assert(valid_utf8(s2));
    let s3 = pop_first_scalar(s2);
    assert(is_leading_byte_width_1(s2[0]));
    assert(length_of_first_scalar(s2) == 1);
    assert(valid_utf8(s3));
    assert(is_char_boundary(s3, 0));
    assert(is_char_boundary(s2, 1));
    assert(is_char_boundary(s1, 2));
    assert(is_char_boundary(s, 3));
}

/// Any key of at most ten bytes is rejected as too short, whatever it holds.
pub proof fn lemma_short_key_rejected(s: Seq<u8>)
    requires
        s.len() <= 10,
    ensures
        spec_validate(s) == Err::<Key, WKVError>(WKVError::TooShort),
{
}

/// Any key of more than eleven bytes is rejected as too long, whatever it
/// holds.
pub proof fn lemma_long_key_rejected(s: Seq<u8>)
    requires
        s.len() > 11,
    ensures
        spec_validate(s) == Err::<Key, WKVError>(WKVError::TooLong),
{
}

/// An eleven-byte key that opens with one of the seven forbidden triples is
/// rejected for that prefix alone, regardless of every later byte.
pub proof fn lemma_forbidden_prefix_rejected(s: Seq<u8>)
    requires
        valid_utf8(s),
        s.len() == 11,
        forbidden_prefix(s),
    ensures
        spec_validate(s) == Err::<Key, WKVError>(WKVError::InvalidDigitPosition),
{
    lemma_boundary_after_three_ascii(s);
}

/// An eleven-byte key that clears the prefix and boundary rules, and whose
/// checksum region holds only digits, is rejected exactly when 7 does not
/// divide their sum.
pub proof fn lemma_checksum_mismatch_rejected(s: Seq<u8>)
    requires
        s.len() == 11,
        is_char_boundary(s, 3),
        !forbidden_prefix(s),
        all_digit_bytes(s.skip(4)),
        digit_sum(s.skip(4)) % 7 != 0,
    ensures
        spec_validate(s) == Err::<Key, WKVError>(WKVError::BadMod7),
{
}

/// An eleven-byte key that clears the prefix and boundary rules, whose
/// checksum region holds only digits, and whose digit sum 7 divides, is
/// accepted as a Windows 95 key.
pub proof fn lemma_valid_key_accepted(s: Seq<u8>)
    requires
        s.len() == 11,
        is_char_boundary(s, 3),
        !forbidden_prefix(s),
        all_digit_bytes(s.skip(4)),
        digit_sum(s.skip(4)) % 7 == 0,
    ensures
        spec_validate(s) == Ok::<Key, WKVError>(Key { release: KeyType::Windows95 }),
{
}

/// An eleven-byte key that clears the prefix and boundary rules but carries a
/// non-digit anywhere in its checksum region is rejected for that character.
pub proof fn lemma_non_digit_rejected(s: Seq<u8>)
    requires
        s.len() == 11,
        is_char_boundary(s, 3),
        !forbidden_prefix(s),
        !all_digit_bytes(s.skip(4)),
    ensures
        spec_validate(s) == Err::<Key, WKVError>(WKVError::ExpectedDigit),
{
}

/// The fourth byte of a key is never inspected: two keys of equal length
/// that agree everywhere but there, each with a character standing at that
/// position, validate to the very same outcome.
pub proof fn lemma_separator_never_inspected(s: Seq<u8>, t: Seq<u8>)
    requires
        s.len() == t.len(),
        forall|i: int| 0 <= i < s.len() && i != 3 ==> s[i] == t[i],
        is_char_boundary(s, 3),
        is_char_boundary(t, 3),
    ensures
        spec_validate(s) == spec_validate(t),
{
    if s.len() == 11 {
        assert(s[0] == t[0]);
        assert(s[1] == t[1]);
        assert(s[2] == t[2]);
        assert(s.skip(4) =~= t.skip(4));
    }
}

/// A successful validation only ever names a release whose rules are fully
/// implemented: today, Windows 95. The placeholder releases are never
/// produced.
pub proof fn lemma_success_is_windows95(s: Seq<u8>, k: Key)
    requires
        spec_validate(s) == Ok::<Key, WKVError>(k),
    ensures
        k.release == KeyType::Windows95,
{
}

} // verus!
