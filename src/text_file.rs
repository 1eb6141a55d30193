use vstd::prelude::*;

use vstd::utf8::{decode_utf8, valid_utf8};

verus! {

/// What GBK decoding, with byte-order-mark sniffing and replacement of malformed sequences,
/// makes of some bytes.
pub uninterp spec fn gbk_text(bytes: Seq<u8>) -> Seq<char>;

/// Relies on `String::from_utf8`: the text when the bytes are valid UTF-8, else nothing.
#[verifier::external_body]
fn utf8_string(bytes: Vec<u8>) -> (r: Option<String>)
    ensures
        r is Some <==> valid_utf8(bytes@),
        r matches Some(s) ==> s@ == decode_utf8(bytes@),
{
    String::from_utf8(bytes).ok()
}

/// Relies on `encoding_rs::GBK.decode`, which never fails: malformed sequences become the
/// replacement character. It panics only when the output size overflows, which the bound on
/// the input rules out.
#[verifier::external_body]
fn gbk_decode(bytes: &Vec<u8>) -> (r: String)
    requires
        bytes@.len() <= usize::MAX / 4,
    ensures
        r@ == gbk_text(bytes@),
{
    encoding_rs::GBK.decode(bytes.as_slice()).0.into_owned()
}

/// Whether the bytes open with the UTF-8 byte-order mark.
pub open spec fn has_bom(b: Seq<u8>) -> bool {
    b.len() >= 3 && b[0] == 0xEF && b[1] == 0xBB && b[2] == 0xBF
}

/// The bytes without a leading byte-order mark.
pub open spec fn without_bom(b: Seq<u8>) -> Seq<u8> {
    if has_bom(b) {
        b.skip(3)
    } else {
        b
    }
}

/// The text of a file's bytes: UTF-8 (after any byte-order mark) when they are valid UTF-8,
/// else GBK.
pub open spec fn file_text(b: Seq<u8>) -> Seq<char> {
    if valid_utf8(without_bom(b)) {
        decode_utf8(without_bom(b))
    } else {
        gbk_text(b)
    }
}

/// Decodes the bytes of a text file, guessing between UTF-8 and GBK.
pub fn load_text_file_with_guess_encoding(bytes: &Vec<u8>) -> (r: String)
    requires
        bytes@.len() <= usize::MAX / 4,
    ensures
        r@ == file_text(bytes@),
{
    let n = bytes.len();
    let bom = n >= 3 && bytes[0] == 0xEF && bytes[1] == 0xBB && bytes[2] == 0xBF;
    let start: usize = if bom {
        3
    } else {
        0
    };
    let mut body: Vec<u8> = Vec::new();
    let mut i: usize = start;
    while i < n
        invariant
            start <= i <= n,
            n == bytes@.len(),
            body@ == bytes@.subrange(start as int, i as int),
        decreases n - i,
    {
        body.push(bytes[i]);
        assert(body@ =~= bytes@.subrange(start as int, i + 1));
        i += 1;
    }
    assert(body@ =~= without_bom(bytes@));
    match utf8_string(body) {
        Some(s) => s,
        None => gbk_decode(bytes),
    }
}

} // verus!
