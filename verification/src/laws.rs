use vstd::prelude::*;
use vstd::utf8::*;

use crate::c_text::{c_compatible, c_string_bytes, lemma_encode_concat, lemma_encode_nul_free, nul_free};
use crate::size_hint::SizeHint;
use crate::webview::{html_data_url, html_url_prefix};

verus! {

/// A text that holds no NUL travels as a C string whose only NUL is the last
/// byte, and the native side, reading up to that NUL, gets the text back.
pub proof fn c_string_round_trip(text: Seq<char>)
    requires
        c_compatible(text),
    ensures
        c_string_bytes(text).last() == 0u8,
        nul_free(c_string_bytes(text).drop_last()),
        valid_utf8(c_string_bytes(text).drop_last()),
        decode_utf8(c_string_bytes(text).drop_last()) == text,
{
    lemma_encode_nul_free(text);
    assert(c_string_bytes(text).drop_last() =~= encode_utf8(text));
    encode_utf8_valid_utf8(text);
    encode_utf8_decode_utf8(text);
}

/// The page given to `set_html` reaches the native side byte for byte, after
/// the ASCII header of the data URL and before the terminating NUL.
pub proof fn html_passed_verbatim(html: Seq<char>)
    ensures
        c_string_bytes(html_data_url(html)) == (encode_utf8(html_url_prefix()) + encode_utf8(
            html,
        )).push(0u8),
        encode_utf8(html_url_prefix()).len() == html_url_prefix().len(),
{
    lemma_encode_concat(html_url_prefix(), html);
    reveal_strlit("data:text/html;charset=utf-8,");
    assert(is_ascii_chars(html_url_prefix()));
    is_ascii_chars_encode_utf8(html_url_prefix());
}

/// The identifier that `binding_args` reads from a binding call, handed to
/// `return_`, goes back to the native side as the very bytes it came in as:
/// the reply reaches the call it answers.
pub proof fn reply_carries_received_id(id: Seq<u8>)
    requires
        nul_free(id),
        valid_utf8(id),
    ensures
        c_compatible(decode_utf8(id)),
        c_string_bytes(decode_utf8(id)) == id.push(0u8),
{
    decode_utf8_encode_utf8(id);
    lemma_encode_nul_free(decode_utf8(id));
}

/// Distinct size hints reach the native library as distinct integers, all
/// among 0, 1, 2 and 3.
pub proof fn size_hint_codes_distinct(a: SizeHint, b: SizeHint)
    ensures
        0 <= a.spec_code() <= 3,
        a.spec_code() == b.spec_code() <==> a == b,
{
}

} // verus!
