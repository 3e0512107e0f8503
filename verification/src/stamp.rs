//! Timestamps and random identifiers: the two values that the browser takes
//! from the clock and from the random number generator.

use vstd::prelude::*;

verus! {

/// An ASCII lower-case hexadecimal digit.
pub open spec fn is_lower_hex(c: char) -> bool {
    ('0' <= c <= '9') || ('a' <= c <= 'f')
}

/// The hyphenated lower-case text of a version-4 UUID, e.g.
/// `67e55044-10b1-426f-9247-bb680e5fe0c8`: 36 characters, hyphens at
/// positions 8, 13, 18 and 23, the version digit `4` at position 14, a
/// variant digit `8`..`b` at position 19, lower-case hex digits elsewhere.
pub open spec fn is_uuid_v4_text(s: Seq<char>) -> bool {
    &&& s.len() == 36
    &&& forall|i: int|
        0 <= i < 36 ==> if i == 8 || i == 13 || i == 18 || i == 23 {
            s[i] == '-'
        } else {
            is_lower_hex(#[trigger] s[i])
        }
    &&& s[14] == '4'
    &&& (s[19] == '8' || s[19] == '9' || s[19] == 'a' || s[19] == 'b')
}

/// An RFC 3339 timestamp in UTC as `chrono` writes it, e.g.
/// `2024-05-01T12:00:00.123456+00:00`: at least 25 characters, ending in the
/// offset `+00:00`.
pub open spec fn is_rfc3339_utc_text(s: Seq<char>) -> bool {
    &&& s.len() >= 25
    &&& s.subrange(s.len() - 6, s.len() as int) == seq!['+', '0', '0', ':', '0', '0']
}

/// The current time as an RFC 3339 string
/// (`chrono::DateTime::<Utc>::from(SystemTime::now()).to_rfc3339()`).
///
/// The contract claims only the shape of the text that `to_rfc3339` writes
/// for a UTC time: the date and time, the fraction of a second when it is
/// not zero, and the offset `+00:00`. Which time it is, is not stated. The
/// conversion from `SystemTime` handles clocks before 1970; it fails only for
/// times more than 262,000 years from 1970, which a system clock (kept in
/// 64-bit nanoseconds by the kernel) cannot read.
#[verifier::external_body]
pub(crate) fn now_rfc3339() -> (res: String)
    ensures
        is_rfc3339_utc_text(res@),
{
    chrono::DateTime::<chrono::Utc>::from(std::time::SystemTime::now()).to_rfc3339()
}

/// Sixteen bytes from the system's random number source
/// (`getrandom::fill`); `None` when the source cannot supply them.
///
/// Nothing is claimed of the bytes: they are chance.
#[verifier::external_body]
pub(crate) fn random_bytes() -> (res: Option<[u8; 16]>) {
    let mut bytes = [0u8; 16];
    match getrandom::fill(&mut bytes) {
        Ok(()) => Some(bytes),
        Err(_) => None,
    }
}

/// The lower-case hexadecimal digit for `d < 16`.
pub open spec fn lower_hex_digit(d: nat) -> char {
    if d < 10 {
        (('0' as u32) + d) as char
    } else {
        (('a' as u32) + d - 10) as char
    }
}

/// The bytes of the version-4 UUID made of `bytes`: the high half of byte 6
/// becomes the version `4`, the two high bits of byte 8 the variant `10`.
pub open spec fn uuid_v4_bytes(bytes: Seq<u8>) -> Seq<u8> {
    bytes.update(6, (bytes[6] & 0x0f) | 0x40).update(8, (bytes[8] & 0x3f) | 0x80)
}

/// Two lower-case hexadecimal digits per byte, high half first.
pub open spec fn lower_hex_text(bytes: Seq<u8>) -> Seq<char> {
    Seq::new(
        2 * bytes.len(),
        |i: int|
            if i % 2 == 0 {
                lower_hex_digit((bytes[i / 2] / 16) as nat)
            } else {
                lower_hex_digit((bytes[i / 2] % 16) as nat)
            },
    )
}

/// The 32 digits `d` of a UUID in groups of 8, 4, 4, 4 and 12, joined by
/// hyphens.
pub open spec fn hyphenated(d: Seq<char>) -> Seq<char> {
    d.subrange(0, 8) + seq!['-'] + d.subrange(8, 12) + seq!['-'] + d.subrange(12, 16) + seq!['-']
        + d.subrange(16, 20) + seq!['-'] + d.subrange(20, 32)
}

/// The text of the version-4 UUID made of sixteen `bytes`.
pub open spec fn uuid_v4_text_spec(bytes: Seq<u8>) -> Seq<char> {
    hyphenated(lower_hex_text(uuid_v4_bytes(bytes)))
}

/// The version-4 UUID made of `bytes`, as text
/// (`uuid::Builder::from_random_bytes(bytes).into_uuid().to_string()`).
///
/// The contract states what the `uuid` source does: `from_random_bytes`
/// sets byte 6 to `(b & 0x0f) | 0x40` and byte 8 to `(b & 0x3f) | 0x80`,
/// and `Display` writes the sixteen bytes as lower-case hexadecimal digits,
/// high half first, hyphenated after digits 8, 12, 16 and 20.
#[verifier::external_body]
pub(crate) fn uuid_v4_text(bytes: [u8; 16]) -> (res: String)
    ensures
        res@ == uuid_v4_text_spec(bytes@),
{
    uuid::Builder::from_random_bytes(bytes).into_uuid().to_string()
}

/// The text of every version-4 UUID has the version-4 shape.
pub proof fn law_uuid_v4_text_shape(bytes: Seq<u8>)
    requires
        bytes.len() == 16,
    ensures
        is_uuid_v4_text(uuid_v4_text_spec(bytes)),
{
    let u = uuid_v4_bytes(bytes);
    let d = lower_hex_text(u);
    let t = hyphenated(d);
    assert(d.len() == 32);
    assert forall|i: int| 0 <= i < 32 implies is_lower_hex(#[trigger] d[i]) by {
        let b = u[i / 2];
        assert(b / 16 < 16 && b % 16 < 16);
    }
    assert(t.len() == 36);
    assert forall|i: int| 0 <= i < 36 implies (if i == 8 || i == 13 || i == 18 || i == 23 {
        t[i] == '-'
    } else {
        is_lower_hex(#[trigger] t[i])
    }) by {
        if i < 8 {
            assert(t[i] == d[i]);
        } else if i == 8 || i == 13 || i == 18 || i == 23 {
        } else if i < 13 {
            assert(t[i] == d[i - 1]);
        } else if i < 18 {
            assert(t[i] == d[i - 2]);
        } else if i < 23 {
            assert(t[i] == d[i - 3]);
        } else {
            assert(t[i] == d[i - 4]);
        }
    }
    let b6 = bytes[6];
    let b8 = bytes[8];
    assert(((b6 & 0x0f) | 0x40) / 16 == 4) by (bit_vector);
    assert(8 <= ((b8 & 0x3f) | 0x80) / 16 <= 11) by (bit_vector);
    assert(t[14] == d[12]);
    assert(d[12] == lower_hex_digit((u[6] / 16) as nat));
    assert(t[19] == d[16]);
    assert(d[16] == lower_hex_digit((u[8] / 16) as nat));
}

/// A fresh random identifier: a version-4 UUID built from sixteen random
/// bytes; `None` when the random source fails.
pub fn new_uuid_v4() -> (res: Option<String>)
    ensures
        res matches Some(s) ==> is_uuid_v4_text(s@) && exists|bytes: Seq<u8>|
            bytes.len() == 16 && s@ == uuid_v4_text_spec(bytes),
{
    match random_bytes() {
        Some(bytes) => {
            proof {
                law_uuid_v4_text_shape(bytes@);
                assert(bytes@.len() == 16);
            }
            Some(uuid_v4_text(bytes))
        },
        None => None,
    }
}

} // verus!
