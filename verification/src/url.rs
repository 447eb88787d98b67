//! Percent-decoding of query-string values.

use vstd::prelude::*;

verus! {

/// The text `text` stands for once its `%XX` escapes are decoded, as
/// `url_escape::decode_to_string` appends it: every `%` followed by two hexadecimal
/// digits becomes the byte they spell, and byte sequences that are not UTF-8 become
/// U+FFFD.
pub uninterp spec fn percent_decoded(text: Seq<char>) -> Seq<char>;

/// Appends the percent-decoded form of `text` to `output`, through
/// `url_escape::decode_to_string`. The result depends on `text` alone; a text with no
/// `%` in it decodes to itself, since the decoder then copies every byte unchanged.
#[verifier::external_body]
pub(crate) fn decode_to_string(text: &str, output: &mut String)
    ensures
        final(output)@ == old(output)@ + percent_decoded(text@),
        !text@.contains('%') ==> final(output)@ == old(output)@ + text@,
{
    url_escape::decode_to_string(text, output);
}

} // verus!
