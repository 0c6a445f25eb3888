//! Decoding of engine parameters handed over by the native host.
//!
//! The host's parameter table yields either nothing (a null pointer on the
//! native side) or a NUL-terminated byte string.  The text of a parameter is
//! the bytes before the first NUL, decoded as UTF-8; a buffer without a NUL
//! or with bytes that are not valid UTF-8 yields no text at all, never a
//! partial or garbled value.

use vstd::prelude::*;

verus! {

/// The text that a byte sequence decodes to under UTF-8, if it is valid.
pub uninterp spec fn utf8_text(bytes: Seq<u8>) -> Option<Seq<char>>;

/// Relies on `String::from_utf8`: it succeeds exactly on valid UTF-8 input,
/// and the resulting text is a function of the bytes alone.
#[verifier::external_body]
fn decode_utf8(bytes: Vec<u8>) -> (r: Option<String>)
    ensures
        r is Some <==> utf8_text(bytes@) is Some,
        r matches Some(s) ==> utf8_text(bytes@) == Some(s@),
{
    String::from_utf8(bytes).ok()
}

/// The bytes of a NUL-terminated string: everything before the first NUL,
/// or nothing if no NUL terminator is present.
pub open spec fn c_bytes(bytes: Seq<u8>) -> Option<Seq<u8>>
    decreases bytes.len(),
{
    if bytes.len() == 0 {
        None
    } else if bytes[0] == 0u8 {
        Some(Seq::empty())
    } else {
        match c_bytes(bytes.drop_first()) {
            Some(p) => Some(seq![bytes[0]] + p),
            None => None,
        }
    }
}

/// The byte-level value of a lookup result: `None` stands for a null result
/// of the native lookup, `Some` for the buffer that was read.
pub open spec fn param_view(param: Option<Vec<u8>>) -> Option<Seq<u8>> {
    match param {
        Some(b) => Some(b@),
        None => None,
    }
}

/// The text of a parameter lookup: nothing when the lookup failed, when the
/// buffer has no NUL terminator, or when the bytes are not valid UTF-8.
pub open spec fn spec_engine_param(param: Option<Seq<u8>>) -> Option<Seq<char>> {
    match param {
        None => None,
        Some(bytes) => match c_bytes(bytes) {
            Some(text_bytes) => utf8_text(text_bytes),
            None => None,
        },
    }
}

/// The filename an engine stores: the parameter's text, or empty if absent.
pub open spec fn spec_filename(param: Option<Seq<u8>>) -> Seq<char> {
    match spec_engine_param(param) {
        Some(t) => t,
        None => Seq::empty(),
    }
}

proof fn lemma_c_bytes_no_nul(bytes: Seq<u8>)
    requires
        forall|j: int| 0 <= j < bytes.len() ==> bytes[j] != 0u8,
    ensures
        c_bytes(bytes) is None,
    decreases bytes.len(),
{
    if bytes.len() > 0 {
        lemma_c_bytes_no_nul(bytes.drop_first());
    }
}

proof fn lemma_c_bytes_first_nul(bytes: Seq<u8>, k: int)
    requires
        0 <= k < bytes.len(),
        bytes[k] == 0u8,
        forall|j: int| 0 <= j < k ==> bytes[j] != 0u8,
    ensures
        c_bytes(bytes) == Some(bytes.take(k)),
    decreases k,
{
    if k == 0 {
        assert(bytes.take(0) =~= Seq::<u8>::empty());
    } else {
        lemma_c_bytes_first_nul(bytes.drop_first(), k - 1);
        assert(bytes.take(k) =~= seq![bytes[0]] + bytes.drop_first().take(k - 1));
    }
}

/// Looks a parameter's text out of the raw bytes the host returned: `None`
/// stands for a null result of the native lookup.
pub fn engine_param(param: Option<Vec<u8>>) -> (r: Option<String>)
    ensures
        r is Some <==> spec_engine_param(param_view(param)) is Some,
        r matches Some(s) ==> spec_engine_param(param_view(param)) == Some(s@),
{
    match param {
        None => None,
        Some(mut bytes) => {
            let mut k: usize = 0;
            while k < bytes.len() && bytes[k] != 0u8
                invariant
                    k <= bytes@.len(),
                    forall|j: int| 0 <= j < k ==> bytes@[j] != 0u8,
                decreases bytes@.len() - k,
            {
                k = k + 1;
            }
            if k == bytes.len() {
                proof {
                    lemma_c_bytes_no_nul(bytes@);
                }
                None
            } else {
                proof {
                    lemma_c_bytes_first_nul(bytes@, k as int);
                }
                bytes.truncate(k);
                decode_utf8(bytes)
            }
        },
    }
}

/// A lookup that returned nothing yields the empty filename.
pub proof fn lemma_filename_of_missing_param()
    ensures
        spec_filename(None) == Seq::<char>::empty(),
{
}

/// A NUL-terminated parameter holding valid text yields exactly that text.
pub proof fn lemma_filename_of_valid_param(bytes: Seq<u8>, text: Seq<char>)
    requires
        c_bytes(bytes) matches Some(p) && utf8_text(p) == Some(text),
    ensures
        spec_filename(Some(bytes)) == text,
{
}

/// A parameter whose bytes are not valid text yields the empty filename,
/// never a partial or garbled one.
pub proof fn lemma_filename_of_invalid_text(bytes: Seq<u8>)
    requires
        c_bytes(bytes) matches Some(p) ==> utf8_text(p) is None,
    ensures
        spec_filename(Some(bytes)) == Seq::<char>::empty(),
{
}

} // verus!
