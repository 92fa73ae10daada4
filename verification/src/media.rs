//! The window in which a piece of media is shown.

use vstd::prelude::*;

verus! {

/// What `base64` makes of the bytes of a text, in UTF-8, with its standard
/// alphabet and without padding.
pub uninterp spec fn base64_no_pad(text: Seq<char>) -> Seq<char>;

/// Encodes the bytes of the text with
/// `base64::engine::general_purpose::STANDARD_NO_PAD`. Nothing is claimed of
/// the result but that it is the one that `base64_no_pad` names.
#[verifier::external_body]
fn encode_no_pad(input: &str) -> (encoded: String)
    ensures
        encoded@ == base64_no_pad(input@),
{
    base64::Engine::encode(&base64::engine::general_purpose::STANDARD_NO_PAD, input)
}

/// The label of the window that shows the media at this address: the
/// address in base64, so that each address has a window of its own and the
/// label holds no character that a label may not hold.
pub fn media_window_label(media_url: &str) -> (label: String)
    ensures
        label@ == base64_no_pad(media_url@),
{
    encode_no_pad(media_url)
}

} // verus!
