//! Encoding text in GBK, the code page of simplified Chinese Windows.

use encoding::all::GBK;
use encoding::EncoderTrap;
use encoding::Encoding;
use vstd::prelude::*;

verus! {

/// What the GBK encoder says of a text that it cannot encode.
pub const GBK_COMPLAINT: &'static str = "gbk doesn't support gb18030 extensions";

/// The GBK encoding of `text`; `None` where `text` holds a character that
/// GBK has no place for.
pub uninterp spec fn gbk_encoded(text: Seq<char>) -> Option<Seq<u8>>;

/// Calls `encoding::Encoding::encode` on `encoding::all::GBK` with
/// `EncoderTrap::Strict`. The outcome is trusted to depend on the text
/// alone: the bytes of its GBK encoding, or, where the text cannot be
/// encoded, the one complaint that the GBK encoder has, `GBK_COMPLAINT`.
#[verifier::external_body]
pub(crate) fn utf8_to_gbk(b: &str) -> (r: Result<Vec<u8>, String>)
    ensures
        match r {
            Ok(bytes) => gbk_encoded(b@) == Some(bytes@),
            Err(said) => gbk_encoded(b@) is None && said@ == GBK_COMPLAINT@,
        },
{
    match GBK.encode(b, EncoderTrap::Strict) {
        Ok(bytes) => Ok(bytes),
        Err(cause) => Err(cause.into_owned()),
    }
}

} // verus!
