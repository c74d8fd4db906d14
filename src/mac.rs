use vstd::prelude::*;
use hmac::Mac;

verus! {

/// An HMAC-SHA256 accumulator: a key and the bytes absorbed so far.
#[verifier::external_body]
pub struct KeyedHash {
    inner: hmac::Hmac<sha2::Sha256>,
}

/// The key a keyed-hash accumulator was made with.
pub uninterp spec fn mac_key(m: KeyedHash) -> Seq<u8>;

/// The bytes a keyed-hash accumulator has absorbed since it was made.
pub uninterp spec fn mac_absorbed(m: KeyedHash) -> Seq<u8>;

/// HMAC-SHA256 of a message under a key.
pub uninterp spec fn hmac_sha256(key: Seq<u8>, msg: Seq<u8>) -> Seq<u8>;

/// Relies on hmac's `Mac::new_from_slice`, which accepts a key of any length.
#[verifier::external_body]
pub(crate) fn mac_new(key: &[u8]) -> (r: KeyedHash)
    ensures
        mac_key(r) == key@,
        mac_absorbed(r) == Seq::<u8>::empty(),
{
    KeyedHash { inner: <hmac::Hmac<sha2::Sha256> as Mac>::new_from_slice(key).expect("any key length") }
}

impl Clone for KeyedHash {
    /// Relies on `Clone` of hmac's `Hmac<Sha256>`: the copy holds the same key and
    /// absorbed bytes, and is updated independently of the original.
    #[verifier::external_body]
    fn clone(&self) -> (r: KeyedHash)
        ensures
            mac_key(r) == mac_key(*self),
            mac_absorbed(r) == mac_absorbed(*self),
    {
        KeyedHash { inner: self.inner.clone() }
    }
}

/// Relies on hmac's `Mac::update`: the bytes are appended to what was absorbed.
#[verifier::external_body]
pub(crate) fn mac_update(m: &mut KeyedHash, data: &[u8])
    ensures
        mac_key(*final(m)) == mac_key(*old(m)),
        mac_absorbed(*final(m)) == mac_absorbed(*old(m)) + data@,
{
    m.inner.update(data)
}

/// Relies on hmac's `Mac::verify_slice`, which succeeds exactly when the tag equals the
/// HMAC-SHA256 of the absorbed bytes under the key, and compares in constant time.
#[verifier::external_body]
pub(crate) fn mac_verify(m: KeyedHash, tag: &[u8]) -> (r: bool)
    ensures
        r == (tag@ == hmac_sha256(mac_key(m), mac_absorbed(m))),
{
    m.inner.verify_slice(tag).is_ok()
}

} // verus!
