//! Strings and bytes: comparison, joining of paths, and the byte-order mark.

use vstd::prelude::*;
use vstd::string::*;
use vstd::utf8::*;

verus! {

/// The three bytes of a UTF-8 byte-order mark.
pub open spec fn bom() -> Seq<u8> {
    seq![0xEFu8, 0xBBu8, 0xBFu8]
}

/// Whether `bytes` begins with a UTF-8 byte-order mark.
pub open spec fn has_bom(bytes: Seq<u8>) -> bool {
    bytes.len() >= 3 && bytes[0] == 0xEFu8 && bytes[1] == 0xBBu8 && bytes[2] == 0xBFu8
}

/// `bytes` without the byte-order mark that it may begin with. One mark is
/// taken off, never two.
pub open spec fn without_bom(bytes: Seq<u8>) -> Seq<u8> {
    if has_bom(bytes) {
        bytes.skip(3)
    } else {
        bytes
    }
}

/// A directory and a name below it, as one path.
pub open spec fn join(dir: Seq<char>, name: Seq<char>) -> Seq<char> {
    dir + seq!['/'] + name
}

/// `core::str::Utf8Error`, of which nothing is known but that it is an
/// error.
#[verifier::external_type_specification]
#[verifier::external_body]
pub struct ExUtf8Error(core::str::Utf8Error);

/// `core::str::from_utf8`: a string over the very bytes it was given where
/// they are valid UTF-8, an error where they are not.
pub assume_specification<'a>[ core::str::from_utf8 ](v: &'a [u8]) -> (text: Result<
    &'a str,
    core::str::Utf8Error,
>)
    ensures
        match text {
            Ok(text) => valid_utf8(v@) && text.spec_bytes() == v@,
            Err(_) => !valid_utf8(v@),
        },
;

/// The text that `bytes` encode, where they are valid UTF-8.
pub open spec fn utf8_text(bytes: Seq<u8>) -> Option<Seq<char>> {
    if valid_utf8(bytes) {
        Some(decode_utf8(bytes))
    } else {
        None
    }
}

/// Decodes `bytes` as UTF-8.
pub fn decode_text(bytes: &[u8]) -> (text: Option<&str>)
    ensures
        match text {
            Some(text) => utf8_text(bytes@) == Some(text@),
            None => utf8_text(bytes@) is None,
        },
{
    match core::str::from_utf8(bytes) {
        Ok(text) => {
            proof {
                encode_utf8_decode_utf8(text@);
            }
            Some(text)
        },
        Err(_) => None,
    }
}

/// Takes a leading UTF-8 byte-order mark off `bytes`.
pub fn strip_bom(bytes: &[u8]) -> (rest: &[u8])
    ensures
        rest@ == without_bom(bytes@),
{
    if bytes.len() >= 3 && bytes[0] == 0xEF && bytes[1] == 0xBB && bytes[2] == 0xBF {
        let rest = vstd::slice::slice_subrange(bytes, 3, bytes.len());
        assert(rest@ =~= bytes@.skip(3));
        rest
    } else {
        bytes
    }
}

/// Whether two strings hold the same characters.
pub fn str_eq(left: &str, right: &str) -> (same: bool)
    ensures
        same == (left@ == right@),
{
    let a = left.as_bytes();
    let b = right.as_bytes();
    proof {
        encode_utf8_decode_utf8(left@);
        encode_utf8_decode_utf8(right@);
    }
    if a.len() != b.len() {
        return false;
    }
    let mut i: usize = 0;
    while i < a.len()
        invariant
            i <= a.len(),
            a.len() == b.len(),
            a@ == encode_utf8(left@),
            b@ == encode_utf8(right@),
            forall|k: int| 0 <= k < i ==> a@[k] == b@[k],
        decreases a.len() - i,
    {
        if a[i] != b[i] {
            return false;
        }
        i += 1;
    }
    assert(a@ =~= b@);
    true
}

/// Appends `name` to the directory `dir`, with one separator between them.
pub fn join_path(dir: &str, name: &str) -> (path: String)
    ensures
        path@ == join(dir@, name@),
{
    let mut path = dir.to_owned();
    path.append("/");
    path.append(name);
    proof {
        reveal_strlit("/");
        assert("/"@ =~= seq!['/']);
    }
    path
}

} // verus!
