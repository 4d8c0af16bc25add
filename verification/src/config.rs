//! Building an engine configuration from a caller-supplied interface name.
//!
//! The caller hands the boundary the raw bytes of an interface name.  Bytes
//! that are not valid text fail the call with the invalid-string status and
//! no handle; valid bytes always yield a configuration handle.

use vstd::prelude::*;
use vstd::utf8::{decode_utf8, valid_utf8};

use crate::status::Outcome;

verus! {

/// Declares the engine's configuration type; values of it are opaque here
/// and only handed outward as the constructed handle.
#[verifier::external_type_specification]
#[verifier::external_body]
pub struct ExDhcpV4Config(mozim::DhcpV4Config);

/// Relies on `String::from_utf8`: it answers `Ok` exactly on valid UTF-8
/// input, and the string it builds decodes those bytes.
#[verifier::external_body]
fn utf8_string(bytes: Vec<u8>) -> (r: Option<String>)
    ensures
        r is Some <==> valid_utf8(bytes@),
        r matches Some(s) ==> s@ == decode_utf8(bytes@),
{
    String::from_utf8(bytes).ok()
}

/// Relies on `DhcpV4Config::new`, which records the interface name in a
/// fresh configuration and touches nothing else.
#[verifier::external_body]
fn iface_config(name: &str) -> mozim::DhcpV4Config {
    mozim::DhcpV4Config::new(name)
}

/// An interface name of plain ASCII bytes is always valid text: for such a
/// name the config construction owes the caller a Pass and a handle.
pub proof fn lemma_ascii_name_is_valid_text(bytes: Seq<u8>)
    requires
        forall|i: int| 0 <= i < bytes.len() ==> bytes[i] <= 0x7f,
    ensures
        valid_utf8(bytes),
{
    assert(bytes.subrange(0, 0) =~= Seq::<u8>::empty());
    assert(vstd::utf8::partial_valid_utf8(bytes, 0));
    assert forall|i: int|
        0 <= 0 <= i < bytes.len() <= bytes.len() implies #[trigger] vstd::utf8::is_leading_byte_width_1(
        bytes[i],
    ) by {
        assert(bytes[i] <= 0x7f);
    }
    vstd::utf8::partial_valid_utf8_extend_ascii_block(bytes, 0, bytes.len() as int);
    assert(bytes.subrange(0, bytes.len() as int) =~= bytes);
}

/// The config construction operation: decodes the interface name's bytes
/// and builds the engine configuration.  Valid text passes and yields a
/// handle; anything else is the caller's invalid string, and no handle.
pub fn config_new_checked(name_bytes: Vec<u8>) -> (r: (Outcome, Option<mozim::DhcpV4Config>))
    ensures
        r.0 is Pass <==> valid_utf8(name_bytes@),
        r.1 is Some <==> valid_utf8(name_bytes@),
        !valid_utf8(name_bytes@) ==> r.0 is FailInvalidString,
{
    match utf8_string(name_bytes) {
        Some(name) => (Outcome::Pass, Some(iface_config(name.as_str()))),
        None => (Outcome::FailInvalidString, None),
    }
}

} // verus!
