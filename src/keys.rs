use vstd::prelude::*;

verus! {

/// The actor id that the outer key of an owner-indexed table decodes to, if any.
pub uninterp spec fn actor_id_of_key(key: Seq<u8>) -> Option<u64>;

/// The protocol number of the address whose bytes form a verifier key, if they form one.
pub uninterp spec fn address_protocol_of(key: Seq<u8>) -> Option<u8>;

/// Protocol number of an address that is a bare actor id.
pub const ID_PROTOCOL: u8 = 0;

/// Relies on frc46_token's `decode_actor_id`, which reads the key as an unsigned
/// varint: an empty key gives nothing, and a first byte below 128 is the whole value.
#[verifier::external_body]
pub(crate) fn decode_owner_key(key: &Vec<u8>) -> (r: Option<u64>)
    ensures
        r == actor_id_of_key(key@),
        key@.len() == 0 ==> r is None,
        key@.len() >= 1 && key@[0] < 128 ==> r == Some(key@[0] as u64),
{
    frc46_token::token::state::decode_actor_id(&fvm_ipld_hamt::BytesKey(key.clone()))
}

/// Relies on fvm_shared's `Address::from_bytes` and `Address::protocol`: fewer than two
/// bytes, or a first byte above 4, is no address; a zero byte followed by one byte below
/// 128 is an id address.
#[verifier::external_body]
pub(crate) fn key_address_protocol(key: &Vec<u8>) -> (r: Option<u8>)
    ensures
        r == address_protocol_of(key@),
        key@.len() < 2 ==> r is None,
        key@.len() >= 2 && key@[0] > 4 ==> r is None,
        key@.len() == 2 && key@[0] == 0 && key@[1] < 128 ==> r == Some(ID_PROTOCOL),
{
    fvm_shared::address::Address::from_bytes(key.as_slice()).ok().map(|a| a.protocol() as u8)
}

} // verus!
