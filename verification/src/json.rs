use vstd::prelude::*;

use crate::number::FloatBits;

verus! {

/// The member `key` of the JSON document `body`, read as a binary64 number.
///
/// It is what `serde_json::from_slice::<serde_json::Value>` on `body`,
/// followed by `Value::get(key)` and `Value::as_f64`, gives: `None` where
/// `body` is no JSON text, is not an object, has no member `key`, or that
/// member is not a number.
pub uninterp spec fn json_number_member(body: Seq<u8>, key: Seq<char>) -> Option<FloatBits>;

/// Parses `body` with `serde_json::from_slice` into a `serde_json::Value`
/// and reads its member `key` with `Value::get` and `Value::as_f64`.
///
/// Trusted: the result is claimed to be `json_number_member(body, key)`, a
/// function of the bytes and the key alone; nothing more is claimed of what
/// serde_json accepts as JSON.
#[verifier::external_body]
pub(crate) fn number_member(body: &[u8], key: &str) -> (number: Option<FloatBits>)
    ensures
        number == json_number_member(body@, key@),
{
    serde_json::from_slice::<serde_json::Value>(body)
        .ok()
        .and_then(|value| value.get(key).and_then(serde_json::Value::as_f64))
        .map(|n| FloatBits(n.to_bits()))
}

} // verus!
