//! Text on its way into the runtime.
//!
//! The runtime reads text as bytes up to the first zero byte, so text that
//! holds a zero byte cannot be handed over, and every buffer that is handed
//! over ends in one.

use crate::finder::FindSource;
use vstd::prelude::*;
use vstd::string::StringSliceAdditionalSpecFns;
use vstd::utf8::encode_utf8;

verus! {

/// Text that cannot be handed to the runtime: it holds a zero byte, the first
/// one at `position`.
#[derive(Clone, Copy, Debug, PartialEq, Eq, Structural)]
pub struct NulError {
    pub position: usize,
}

/// Some byte of `bytes` is zero.
pub open spec fn has_nul(bytes: Seq<u8>) -> bool {
    exists|i: int| 0 <= i < bytes.len() && bytes[i] == 0u8
}

/// The first zero byte of `bytes` is at `position`.
pub open spec fn first_nul_at(bytes: Seq<u8>, position: int) -> bool {
    &&& 0 <= position < bytes.len()
    &&& bytes[position] == 0u8
    &&& forall|i: int| 0 <= i < position ==> bytes[i] != 0u8
}

/// `buffer` is what the runtime is given for `text`: its bytes, none of them
/// zero, and a zero byte after them.
pub open spec fn is_c_string_of(buffer: Seq<u8>, text: Seq<char>) -> bool {
    &&& !has_nul(encode_utf8(text))
    &&& buffer == encode_utf8(text).push(0u8)
}

/// `buffer`, if there is one, is what the runtime is given for `text`; there is
/// none exactly when there is no text.
pub open spec fn is_optional_c_string_of(buffer: Option<Vec<u8>>, text: Option<String>) -> bool {
    match text {
        None => buffer is None,
        Some(t) => buffer matches Some(b) && is_c_string_of(b@, t@),
    }
}

/// Copies `text` into a buffer of its own that ends in a zero byte. Fails, and
/// says where, exactly when `text` holds a zero byte.
pub fn to_c_string(text: &str) -> (r: Result<Vec<u8>, NulError>)
    ensures
        match r {
            Ok(buffer) => is_c_string_of(buffer@, text@),
            Err(e) => first_nul_at(encode_utf8(text@), e.position as int),
        },
{
    let bytes = text.as_bytes();
    let mut buffer: Vec<u8> = Vec::new();
    let mut i: usize = 0;
    while i < bytes.len()
        invariant
            i <= bytes.len(),
            bytes@ == encode_utf8(text@),
            buffer@ == bytes@.take(i as int),
            forall|j: int| 0 <= j < i ==> bytes@[j] != 0u8,
        decreases bytes.len() - i,
    {
        let b: u8 = bytes[i];
        if b == 0 {
            return Err(NulError { position: i });
        }
        buffer.push(b);
        assert(bytes@.take(i + 1) =~= bytes@.take(i as int).push(b));
        i = i + 1;
    }
    assert(bytes@.take(i as int) =~= bytes@);
    buffer.push(0);
    Ok(buffer)
}

/// Marshals a source for the runtime: the name and, where there is one, the
/// address, each in a buffer of its own that ends in a zero byte. The source
/// itself is left as it is.
///
/// Fails exactly when the name or the address holds a zero byte; the error is
/// that of the name if the name is at fault, else that of the address.
pub fn to_ndi_source(source: &FindSource) -> (r: Result<(Vec<u8>, Option<Vec<u8>>), NulError>)
    ensures
        match r {
            Ok((name, url)) => {
                &&& is_c_string_of(name@, source.name@)
                &&& is_optional_c_string_of(url, source.url)
            },
            Err(e) => if has_nul(encode_utf8(source.name@)) {
                first_nul_at(encode_utf8(source.name@), e.position as int)
            } else {
                source.url matches Some(u) && first_nul_at(encode_utf8(u@), e.position as int)
            },
        },
{
    let source_name = match to_c_string(source.name.as_str()) {
        Ok(buffer) => buffer,
        Err(e) => {
            return Err(e);
        },
    };
    let source_url = match &source.url {
        None => None,
        Some(url) => match to_c_string(url.as_str()) {
            Ok(buffer) => Some(buffer),
            Err(e) => {
                return Err(e);
            },
        },
    };
    Ok((source_name, source_url))
}

} // verus!
