//! Product branding: build-date badge and start-up animation timing.
//!
//! The raw build metadata comes from the build environment; callers hand it in.
use vstd::prelude::*;
use vstd::utf8::*;
use vstd::string::*;
use std::time::Duration;

verus! {

pub const BRAND_NAME: &'static str = "trekr";

pub const BRAND_SITE: &'static str = "domj.net";

/// Hash shown when the build environment supplies none.
pub const DEV_BUILD_HASH: &'static str = "dev";

/// ASCII lower-casing of one byte.
pub open spec fn ascii_lower(b: u8) -> u8 {
    if 65 <= b <= 90 {
        (b + 32) as u8
    } else {
        b
    }
}

/// The bytes of the word `unknown`.
pub open spec fn unknown_bytes() -> Seq<u8> {
    seq![117u8, 110u8, 107u8, 110u8, 111u8, 119u8, 110u8]
}

/// `bytes` spell `unknown`, ignoring ASCII case.
pub open spec fn is_unknown_marker(bytes: Seq<u8>) -> bool {
    &&& bytes.len() == 7
    &&& forall|i: int| 0 <= i < 7 ==> ascii_lower(#[trigger] bytes[i]) == unknown_bytes()[i]
}

/// The first ten bytes of a date stamp, or all of it when it is shorter.
pub open spec fn compact_date_bytes(bytes: Seq<u8>) -> Seq<u8> {
    if bytes.len() >= 10 {
        bytes.take(10)
    } else {
        bytes
    }
}

/// The characters of an optional string.
pub open spec fn opt_chars(raw: Option<&str>) -> Option<Seq<char>> {
    match raw {
        Some(v) => Some(v@),
        None => None,
    }
}

/// The build date shown for a raw build-date value: empty values and `unknown` are dropped,
/// the rest is cut to its date part.
pub open spec fn build_date_chars(raw: Option<Seq<char>>) -> Option<Seq<char>> {
    match raw {
        None => None,
        Some(chars) => {
            let bytes = encode_utf8(chars);
            if bytes.len() == 0 || is_unknown_marker(bytes) {
                None
            } else {
                Some(decode_utf8(compact_date_bytes(bytes)))
            }
        },
    }
}

/// A raw build date can be cut after its tenth byte without splitting a character.
pub open spec fn date_cut_is_valid(raw: Option<&str>) -> bool {
    match raw {
        None => true,
        Some(value) => value.spec_bytes().len() >= 10 ==> is_char_boundary(value.spec_bytes(), 10),
    }
}

fn lower_byte(b: u8) -> (r: u8)
    ensures
        r == ascii_lower(b),
{
    if b >= 65 && b <= 90 {
        b + 32
    } else {
        b
    }
}

fn is_unknown(value: &str) -> (r: bool)
    ensures
        r == is_unknown_marker(value.spec_bytes()),
{
    let bytes = value.as_bytes();
    if bytes.len() != 7 {
        return false;
    }
    let expected: [u8; 7] = [117u8, 110u8, 107u8, 110u8, 111u8, 119u8, 110u8];
    assert(expected@ =~= unknown_bytes());
    let mut i: usize = 0;
    while i < 7
        invariant
            bytes@ == value.spec_bytes(),
            bytes@.len() == 7,
            expected@ == unknown_bytes(),
            i <= 7,
            forall|j: int| 0 <= j < i ==> ascii_lower(#[trigger] bytes@[j]) == unknown_bytes()[j],
        decreases 7 - i,
    {
        if lower_byte(bytes[i]) != expected[i] {
            return false;
        }
        i = i + 1;
    }
    true
}

/// The date part of a build stamp: its first ten bytes when it is that long.
fn compact_build_date(value: &str) -> (r: &str)
    requires
        value.spec_bytes().len() >= 10 ==> is_char_boundary(value.spec_bytes(), 10),
    ensures
        r.spec_bytes() == compact_date_bytes(value.spec_bytes()),
{
    if value.as_bytes().len() >= 10 {
        let (head, _) = value.split_at(10);
        assert(head.spec_bytes() =~= value.spec_bytes().take(10));
        head
    } else {
        value
    }
}

/// The build date to show, if the build recorded a meaningful one.
pub fn brand_build_date(raw: Option<&str>) -> (r: Option<&str>)
    requires
        date_cut_is_valid(raw),
    ensures
        r matches Some(d) ==> build_date_chars(opt_chars(raw)) == Some(d@),
        r is None ==> build_date_chars(opt_chars(raw)) is None,
{
    match raw {
        None => None,
        Some(value) => {
            if value.is_empty() || is_unknown(value) {
                proof {
                    if value@.len() == 0 {
                        assert(encode_utf8(value@).len() == 0);
                    }
                }
                None
            } else {
                let d = compact_build_date(value);
                proof {
                    encode_utf8_decode_utf8(d@);
                    if encode_utf8(value@).len() == 0 {
                        encode_utf8_decode_utf8(value@);
                        assert(value@ =~= Seq::<char>::empty());
                    }
                }
                Some(d)
            }
        },
    }
}

/// The badge text: the build date and hash, or the hash alone.
pub open spec fn badge_chars(raw: Option<Seq<char>>, hash: Seq<char>) -> Seq<char> {
    match build_date_chars(raw) {
        Some(date) => date + seq![' '] + hash,
        None => hash,
    }
}

/// Fallback badge text built from the raw build date and build hash.
pub fn brand_fallback_badge(raw_date: Option<&str>, hash: &str) -> (r: String)
    requires
        date_cut_is_valid(raw_date),
    ensures
        r@ == badge_chars(opt_chars(raw_date), hash@),
{
    match brand_build_date(raw_date) {
        Some(date) => {
            let mut s = String::from_str(date);
            s.append(" ");
            s.append(hash);
            proof {
                reveal_strlit(" ");
            }
            assert(s@ =~= date@ + seq![' '] + hash@);
            s
        },
        None => String::from_str(hash),
    }
}

/// Length of the start-up logo animation in milliseconds: lead-in, overlapping trail,
/// gap, centre-out reveal of the three rings and the final hold.
pub fn startup_logo_animation_millis() -> (r: u64)
    ensures
        r == 640 + 180 * 4 + 420 + 100 + 220 * 2 + 300 + 320,
{
    640 + (180 * 4) + 420 + 100 + (220 * 2) + 300 + 320
}

/// The duration `Duration::from_millis` builds from `millis` milliseconds.
pub uninterp spec fn millis_duration(millis: u64) -> Duration;

/// Calls `std::time::Duration::from_millis`, which builds the duration of `millis`
/// milliseconds and depends on nothing else; its value is opaque here and only named.
#[verifier::external_body]
fn duration_from_millis(millis: u64) -> (r: Duration)
    ensures
        r == millis_duration(millis),
{
    Duration::from_millis(millis)
}

/// Length of the start-up logo animation.
pub fn startup_logo_animation_duration() -> (r: Duration)
    ensures
        r == millis_duration((640 + 180 * 4 + 420 + 100 + 220 * 2 + 300 + 320) as u64),
{
    duration_from_millis(startup_logo_animation_millis())
}

/// Reveal order of the five logo letters: the centre first, then the inner pair,
/// then the outer pair.
pub fn startup_logo_reveal_step(index: usize) -> (r: u64)
    ensures
        index == 2 ==> r == 0,
        (index == 1 || index == 3) ==> r == 1,
        !(index == 1 || index == 2 || index == 3) ==> r == 2,
{
    match index {
        2 => 0,
        1 | 3 => 1,
        _ => 2,
    }
}

} // verus!
