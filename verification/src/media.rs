//! Media identifiers: `spotify:<kind>:<id>`, where the id is 22 base-62
//! digits that spell a 128-bit number. The session library reads them; what
//! is checked here first is that the number fits, which it takes for
//! granted.

use vstd::prelude::*;
use vstd::string::StrSliceExecFns;
use crate::failure::Failure;

verus! {

/// What kind of item an identifier names.
#[derive(Clone, Copy, Debug, PartialEq, Eq, Structural)]
pub enum MediaKind {
    Track,
    Podcast,
    NonPlayable,
}

/// A validated media identifier.
#[derive(Clone, Copy, Debug, PartialEq, Eq, Structural)]
pub struct MediaId {
    pub kind: MediaKind,
    pub id: u128,
}

/// The value of a base-62 digit: `0-9`, then `a-z`, then `A-Z`.
pub open spec fn digit_value(c: char) -> Option<u8> {
    let v = c as u32;
    if 48 <= v <= 57 {
        Some((v - 48) as u8)
    } else if 97 <= v <= 122 {
        Some((v - 97 + 10) as u8)
    } else if 65 <= v <= 90 {
        Some((v - 65 + 36) as u8)
    } else {
        None
    }
}

/// Whether every character is a base-62 digit.
pub open spec fn all_base62(digits: Seq<char>) -> bool {
    forall|i: int| 0 <= i < digits.len() ==> (#[trigger] digit_value(digits[i])) is Some
}

/// The number that base-62 digits spell, most significant digit first.
pub open spec fn base62_value(digits: Seq<char>) -> nat
    decreases digits.len(),
{
    if digits.len() == 0 {
        0
    } else {
        let last = match digit_value(digits.last()) {
            Some(d) => d as nat,
            None => 0,
        };
        base62_value(digits.drop_last()) * 62 + last
    }
}

/// The number that the text spells in base 62, where every character is a
/// digit and the number fits in 128 bits.
pub open spec fn base62_of(digits: Seq<char>) -> Option<u128> {
    if all_base62(digits) && base62_value(digits) <= u128::MAX {
        Some(base62_value(digits) as u128)
    } else {
        None
    }
}

/// The kind that the middle part of an identifier names.
pub open spec fn kind_named(name: Seq<char>) -> MediaKind {
    if name == "track"@ {
        MediaKind::Track
    } else if name == "episode"@ {
        MediaKind::Podcast
    } else {
        MediaKind::NonPlayable
    }
}

/// The identifier that a text spells: the prefix `spotify:`, a kind, a
/// colon, and 22 base-62 digits whose number fits in 128 bits.
pub open spec fn media_of(uri: Seq<char>) -> Option<MediaId> {
    let n = uri.len() as int;
    if n >= 31 && uri.take(8) == "spotify:"@ && uri[n - 23] == ':' {
        match base62_of(uri.skip(n - 22)) {
            Some(id) => Some(MediaId { kind: kind_named(uri.subrange(8, n - 23)), id }),
            None => None,
        }
    } else {
        None
    }
}

/// A longer digit string never spells a smaller number than its prefix.
proof fn lemma_value_grows(digits: Seq<char>, k: int)
    requires
        0 <= k <= digits.len(),
    ensures
        base62_value(digits.take(k)) <= base62_value(digits),
    decreases digits.len() - k,
{
    if k == digits.len() {
        assert(digits.take(k) =~= digits);
    } else {
        lemma_value_grows(digits, k + 1);
        assert(digits.take(k + 1).drop_last() =~= digits.take(k));
        assert(base62_value(digits.take(k)) * 62 >= base62_value(digits.take(k)));
    }
}

/// Reads one base-62 digit.
pub fn digit_of(c: char) -> (out: Option<u8>)
    ensures
        out == digit_value(c),
{
    let v: u32 = c as u32;
    if 48 <= v && v <= 57 {
        Some((v - 48) as u8)
    } else if 97 <= v && v <= 122 {
        Some((v - 97 + 10) as u8)
    } else if 65 <= v && v <= 90 {
        Some((v - 65 + 36) as u8)
    } else {
        None
    }
}

/// Reads a base-62 number of any length that fits in 128 bits.
pub fn parse_base62(digits: &str) -> (out: Option<u128>)
    ensures
        out == base62_of(digits@),
{
    let n = digits.unicode_len();
    let mut acc: u128 = 0;
    let mut i: usize = 0;
    while i < n
        invariant
            n == digits@.len(),
            i <= n,
            all_base62(digits@.take(i as int)),
            acc == base62_value(digits@.take(i as int)),
        decreases n - i,
    {
        proof {
            assert(digits@.take(i + 1).drop_last() =~= digits@.take(i as int));
            assert(digits@.take(i + 1).last() == digits@[i as int]);
        }
        let d: u8 = match digit_of(digits.get_char(i)) {
            Some(d) => d,
            None => {
                proof {
                    assert(digits@[i as int] == digits@[i as int]);
                }
                return None;
            },
        };
        let digit: u128 = d as u128;
        if acc > (u128::MAX - digit) / 62 {
            proof {
                lemma_value_grows(digits@, i + 1);
            }
            return None;
        }
        acc = acc * 62 + digit;
        proof {
            let t = digits@.take(i + 1);
            assert forall|j: int| 0 <= j < t.len() implies (#[trigger] digit_value(t[j])) is Some by {
                if j < i {
                    assert(t[j] == digits@.take(i as int)[j]);
                }
            }
        }
        i += 1;
    }
    proof {
        assert(digits@.take(n as int) =~= digits@);
    }
    Some(acc)
}

/// Whether every character of the text is a base-62 digit.
pub fn is_base62(digits: &str) -> (out: bool)
    ensures
        out == all_base62(digits@),
{
    let n = digits.unicode_len();
    let mut i: usize = 0;
    while i < n
        invariant
            n == digits@.len(),
            i <= n,
            forall|j: int| 0 <= j < i ==> (#[trigger] digit_value(digits@[j])) is Some,
        decreases n - i,
    {
        if digit_of(digits.get_char(i)).is_none() {
            return false;
        }
        i += 1;
    }
    true
}

/// Whether the text ends in 22 base-62 digits that spell a number too
/// large for 128 bits.
pub open spec fn ends_too_large(uri: Seq<char>) -> bool {
    let tail = uri.skip(uri.len() - 22);
    uri.len() >= 22 && all_base62(tail) && base62_value(tail) > u128::MAX
}

/// Whether the text ends in an id that is too large for 128 bits.
pub fn id_too_large(uri: &str) -> (out: bool)
    ensures
        out == ends_too_large(uri@),
{
    let n = uri.unicode_len();
    if n < 22 {
        return false;
    }
    proof {
        assert(uri@.skip(n - 22) =~= uri@.subrange(n - 22, n as int));
    }
    let tail = uri.substring_char(n - 22, n);
    is_base62(tail) && parse_base62(tail).is_none()
}

/// Calls `SpotifyId::from_uri` of `librespot_core` and hands out the id's
/// number and kind. Trusted: it accepts exactly the texts made of the
/// prefix `spotify:`, a kind of any length, a colon and 22 base-62 digits,
/// reads the digits most significant first, and names the kind `track` a
/// track, `episode` a podcast and every other kind not playable. Its
/// arithmetic is unchecked, so a number beyond 128 bits is left out.
#[verifier::external_body]
fn spotify_id_from_uri(uri: &str) -> (out: Option<MediaId>)
    requires
        !ends_too_large(uri@),
    ensures
        out == media_of(uri@),
{
    match librespot::core::spotify_id::SpotifyId::from_uri(uri) {
        Ok(found) => Some(MediaId {
            kind: match found.audio_type {
                librespot::core::spotify_id::SpotifyAudioType::Track => MediaKind::Track,
                librespot::core::spotify_id::SpotifyAudioType::Podcast => MediaKind::Podcast,
                librespot::core::spotify_id::SpotifyAudioType::NonPlayable => MediaKind::NonPlayable,
            },
            id: found.id,
        }),
        Err(_) => None,
    }
}

/// Validates a media identifier. A text that does not spell one is
/// rejected as a whole, and so is one whose id does not fit in 128 bits.
pub fn parse_media(uri: &str) -> (out: Result<MediaId, Failure>)
    ensures
        match out {
            Ok(media) => media_of(uri@) == Some(media),
            Err(e) => e == Failure::InvalidIdentifier && media_of(uri@) is None,
        },
{
    if id_too_large(uri) {
        return Err(Failure::InvalidIdentifier);
    }
    match spotify_id_from_uri(uri) {
        Some(media) => Ok(media),
        None => Err(Failure::InvalidIdentifier),
    }
}

} // verus!
