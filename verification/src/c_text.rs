use vstd::prelude::*;
use vstd::utf8::*;
use vstd::string::*;

verus! {

/// True when no byte of `bytes` is 0.
pub open spec fn nul_free(bytes: Seq<u8>) -> bool {
    forall|i: int| 0 <= i < bytes.len() ==> #[trigger] bytes[i] != 0u8
}

/// True when `text` can travel as a C string: it holds no NUL character.
pub open spec fn c_compatible(text: Seq<char>) -> bool {
    !text.contains('\0')
}

/// The bytes of the C string that carries `text`: its UTF-8 encoding,
/// then the terminating NUL.
pub open spec fn c_string_bytes(text: Seq<char>) -> Seq<u8> {
    encode_utf8(text).push(0u8)
}

/// The UTF-8 encoding of one character holds a 0 byte only for NUL itself.
proof fn lemma_encode_scalar_nul_free(c: char)
    ensures
        nul_free(encode_scalar(c as u32)) <==> c != '\0',
{
    let s = c as u32;
    char_is_scalar(c);
    char_u32_cast(c, s);
    if has_width_1_encoding(s) {
        assert((s & 0x7F) as u8 == 0 <==> s == 0) by (bit_vector)
            requires
                s <= 0x7F,
        ;
        let e = encode_scalar(s);
        assert(e =~= seq![leading_byte_width_1(s)]);
        if c == '\0' {
            assert(s == 0);
            assert(e[0] == 0u8);
        } else {
            assert(s != 0);
            assert(e[0] != 0u8);
        }
    } else if has_width_2_encoding(s) {
        assert(leading_byte_width_2(s) != 0 && last_continuation_byte(s) != 0) by (bit_vector);
        assert(encode_scalar(s) =~= seq![leading_byte_width_2(s), last_continuation_byte(s)]);
    } else if has_width_3_encoding(s) {
        assert(leading_byte_width_3(s) != 0 && second_last_continuation_byte(s) != 0
            && last_continuation_byte(s) != 0) by (bit_vector);
        assert(encode_scalar(s) =~= seq![
            leading_byte_width_3(s),
            second_last_continuation_byte(s),
            last_continuation_byte(s),
        ]);
    } else {
        assert(leading_byte_width_4(s) != 0 && third_last_continuation_byte(s) != 0
            && second_last_continuation_byte(s) != 0 && last_continuation_byte(s) != 0)
            by (bit_vector);
        assert(encode_scalar(s) =~= seq![
            leading_byte_width_4(s),
            third_last_continuation_byte(s),
            second_last_continuation_byte(s),
            last_continuation_byte(s),
        ]);
    }
}

/// The UTF-8 encoding of a text is free of 0 bytes exactly when the text
/// holds no NUL character.
pub proof fn lemma_encode_nul_free(text: Seq<char>)
    ensures
        nul_free(encode_utf8(text)) <==> c_compatible(text),
    decreases text.len(),
{
    if text.len() > 0 {
        let head = encode_scalar(text[0] as u32);
        let rest = text.drop_first();
        lemma_encode_nul_free(rest);
        lemma_encode_scalar_nul_free(text[0]);
        let all = encode_utf8(text);
        assert(all =~= head + encode_utf8(rest));
        if nul_free(all) {
            assert forall|i: int| 0 <= i < head.len() implies #[trigger] head[i] != 0u8 by {
                assert(all[i] == head[i]);
            }
            assert forall|i: int| 0 <= i < encode_utf8(rest).len() implies #[trigger] encode_utf8(
                rest,
            )[i] != 0u8 by {
                assert(all[head.len() + i] == encode_utf8(rest)[i]);
            }
            assert forall|k: int| 0 <= k < text.len() implies #[trigger] text[k] != '\0' by {
                if k > 0 {
                    assert(text[k] == rest[k - 1]);
                }
            }
        } else {
            let i = choose|i: int| 0 <= i < all.len() && #[trigger] all[i] == 0u8;
            if i < head.len() {
                assert(head[i] == 0u8);
                assert(text[0] == '\0');
            } else {
                assert(encode_utf8(rest)[i - head.len()] == 0u8);
                let k = choose|k: int| 0 <= k < rest.len() && rest[k] == '\0';
                assert(text[k + 1] == '\0');
            }
        }
    } else {
        assert(encode_utf8(text) =~= Seq::<u8>::empty());
    }
}

/// The UTF-8 encoding of a concatenation is the concatenation of the encodings.
pub proof fn lemma_encode_concat(a: Seq<char>, b: Seq<char>)
    ensures
        encode_utf8(a + b) == encode_utf8(a) + encode_utf8(b),
    decreases a.len(),
{
    if a.len() == 0 {
        assert(a + b =~= b);
        assert(encode_utf8(a) =~= Seq::<u8>::empty());
        assert(encode_utf8(a) + encode_utf8(b) =~= encode_utf8(b));
    } else {
        lemma_encode_concat(a.drop_first(), b);
        assert((a + b).drop_first() =~= a.drop_first() + b);
        assert((a + b)[0] == a[0]);
        assert(encode_utf8(a + b) =~= encode_scalar(a[0] as u32) + (encode_utf8(a.drop_first())
            + encode_utf8(b)));
    }
}

/// Text encoded as a C string: UTF-8 bytes with exactly one NUL, at the end.
pub struct CText {
    bytes: Vec<u8>,
}

impl View for CText {
    type V = Seq<u8>;

    /// All bytes of the C string, terminating NUL included.
    closed spec fn view(&self) -> Seq<u8> {
        self.bytes@
    }
}

impl CText {
    #[verifier::type_invariant]
    spec fn well_formed(self) -> bool {
        &&& self.bytes@.len() > 0
        &&& self.bytes@.last() == 0u8
        &&& nul_free(self.bytes@.drop_last())
    }

    /// Encodes `text` as a C string, or returns `None` when `text` holds a
    /// NUL character, which a C string cannot carry.
    pub fn new(text: &str) -> (r: Option<CText>)
        ensures
            r is Some <==> c_compatible(text@),
            r matches Some(c) ==> c@ == c_string_bytes(text@),
    {
        let src = text.as_bytes();
        let n = src.len();
        let mut bytes: Vec<u8> = Vec::new();
        proof {
            lemma_encode_nul_free(text@);
        }
        let mut i: usize = 0;
        while i < n
            invariant
                n == src@.len(),
                src@ == encode_utf8(text@),
                nul_free(src@) <==> c_compatible(text@),
                i <= n,
                bytes@ =~= src@.subrange(0, i as int),
                nul_free(bytes@),
            decreases n - i,
        {
            let b = src[i];
            if b == 0 {
                assert(!nul_free(src@)) by {
                    assert(src@[i as int] == 0u8);
                }
                return None;
            }
            bytes.push(b);
            i = i + 1;
        }
        assert(bytes@ =~= src@);
        let ghost body = bytes@;
        bytes.push(0u8);
        assert(bytes@.drop_last() =~= body);
        Some(CText { bytes })
    }

    /// All bytes of the C string, terminating NUL included.
    pub fn as_bytes_with_nul(&self) -> (b: &[u8])
        ensures
            b@ == self@,
            b@.len() > 0,
            b@.last() == 0u8,
            nul_free(b@.drop_last()),
    {
        proof {
            use_type_invariant(self);
        }
        self.bytes.as_slice()
    }
}

/// Reads `bytes` as UTF-8 text, through `std::str::from_utf8`.
/// Claimed of it: it succeeds exactly on valid UTF-8 (as vstd's `valid_utf8`
/// defines it), and then the text holds the characters that the bytes encode.
#[verifier::external_body]
fn utf8_text<'a>(bytes: &'a [u8]) -> (r: Option<&'a str>)
    ensures
        r is Some <==> valid_utf8(bytes@),
        r matches Some(t) ==> t@ == decode_utf8(bytes@),
{
    std::str::from_utf8(bytes).ok()
}

/// Which argument of a binding call was not valid UTF-8.
#[derive(Debug, Copy, Clone, PartialEq, Eq, Structural)]
pub enum BindArgError {
    /// The request identifier.
    Id,
    /// The request, the JSON array of the call's arguments.
    Req,
}

/// Reads the two C-string arguments of a binding call, each given as its bytes
/// before the terminating NUL: the request identifier, then the request.
/// Fails on the first of them, in that order, that is not valid UTF-8.
pub fn binding_args<'a>(seq: &'a [u8], req: &'a [u8]) -> (r: Result<(&'a str, &'a str), BindArgError>)
    ensures
        match r {
            Ok((s, q)) => valid_utf8(seq@) && valid_utf8(req@) && s@ == decode_utf8(seq@)
                && q@ == decode_utf8(req@),
            Err(BindArgError::Id) => !valid_utf8(seq@),
            Err(BindArgError::Req) => valid_utf8(seq@) && !valid_utf8(req@),
        },
{
    let s = match utf8_text(seq) {
        Some(s) => s,
        None => return Err(BindArgError::Id),
    };
    let q = match utf8_text(req) {
        Some(q) => q,
        None => return Err(BindArgError::Req),
    };
    Ok((s, q))
}

} // verus!
