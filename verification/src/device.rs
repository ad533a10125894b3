//! The identity under which this client announces itself to discovery.

use vstd::prelude::*;
use vstd::string::StringSliceAdditionalSpecFns;

verus! {

/// The class of device announced to peers on the local network.
#[derive(Clone, Copy, Debug, PartialEq, Eq, Structural)]
pub enum DeviceClass {
    Computer,
    Speaker,
}

/// The SHA-1 digest of a byte string.
pub uninterp spec fn sha1_of(data: Seq<u8>) -> Seq<u8>;

/// The sixteen lower-case hexadecimal digits, by value.
pub open spec fn hex_digits() -> Seq<char> {
    seq!['0', '1', '2', '3', '4', '5', '6', '7', '8', '9', 'a', 'b', 'c', 'd', 'e', 'f']
}

/// Lower-case hexadecimal text of a byte string: two digits per byte, the
/// high half first.
pub open spec fn hex_text(data: Seq<u8>) -> Seq<char> {
    Seq::new(
        2 * data.len(),
        |i: int|
            if i % 2 == 0 {
                hex_digits()[data[i / 2] as int / 16]
            } else {
                hex_digits()[data[i / 2] as int % 16]
            },
    )
}

/// The identity derived from a device name: the hexadecimal text of the
/// SHA-1 digest of the name's UTF-8 bytes.
pub open spec fn identity_of(name: &str) -> Seq<char> {
    hex_text(sha1_of(name.spec_bytes()))
}

/// Calls `sha1::Sha1::digest` (the `digest::Digest` one-shot entry). Trusted:
/// the result is the SHA-1 digest of `data`, which is always 20 bytes long.
#[verifier::external_body]
fn sha1_digest(data: &[u8]) -> (out: Vec<u8>)
    ensures
        out@ == sha1_of(data@),
        out@.len() == 20,
{
    <sha1::Sha1 as sha1::Digest>::digest(data).to_vec()
}

/// Calls `hex::encode`. Trusted: the result holds, for each byte in order,
/// its high and then its low half as a lower-case hexadecimal digit.
#[verifier::external_body]
fn hex_encode(data: &Vec<u8>) -> (out: String)
    ensures
        out@ == hex_text(data@),
{
    hex::encode(data)
}

/// Derives the device identity for a device name.
pub fn device_identity(name: &str) -> (id: String)
    ensures
        id@ == identity_of(name),
        id@.len() == 40,
{
    let digest = sha1_digest(name.as_bytes());
    hex_encode(&digest)
}

/// The name under which this client is announced.
pub open spec fn announced_name() -> &'static str {
    "ConnectExample"
}

/// The name under which this client is announced.
pub fn device_name() -> (name: &'static str)
    ensures
        name == announced_name(),
{
    "ConnectExample"
}

} // verus!
