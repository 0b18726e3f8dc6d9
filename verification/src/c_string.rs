//! Strings as libuv takes them: NUL-terminated byte strings. A string that holds a NUL byte
//! cannot be handed over, since libuv would read only up to that byte.
use vstd::prelude::*;
use vstd::string::StringSliceAdditionalSpecFns;

verus! {

/// The error returned when a string that is to be handed to libuv holds a NUL byte.
#[derive(Clone, Copy, Debug, PartialEq, Eq, Structural)]
pub struct NulError {
    /// The position of the first NUL byte.
    pub position: usize,
}

/// Whether the bytes hold a NUL byte.
pub open spec fn has_nul(bytes: Seq<u8>) -> bool {
    exists|i: int| 0 <= i < bytes.len() && bytes[i] == 0
}

/// `position` is the position of the first NUL byte of `bytes`.
pub open spec fn first_nul(bytes: Seq<u8>, position: int) -> bool {
    &&& 0 <= position < bytes.len()
    &&& bytes[position] == 0
    &&& forall|i: int| 0 <= i < position ==> bytes[i] != 0
}

/// The NUL-terminated form of the bytes of `s`, or the error naming the first NUL byte in them.
pub fn c_string(s: &str) -> (r: Result<Vec<u8>, NulError>)
    ensures
        r is Ok <==> !has_nul(s.spec_bytes()),
        r matches Ok(v) ==> v@ == s.spec_bytes().push(0),
        r matches Err(e) ==> first_nul(s.spec_bytes(), e.position as int),
{
    let bytes = s.as_bytes();
    let mut out: Vec<u8> = Vec::new();
    let mut i: usize = 0;
    while i < bytes.len()
        invariant
            bytes@ == s.spec_bytes(),
            0 <= i <= bytes@.len(),
            out@ == bytes@.subrange(0, i as int),
            forall|j: int| 0 <= j < i ==> bytes@[j] != 0,
        decreases bytes@.len() - i,
    {
        if bytes[i] == 0 {
            return Err(NulError { position: i });
        }
        out.push(bytes[i]);
        i = i + 1;
    }
    out.push(0);
    assert(out@ =~= bytes@.push(0));
    Ok(out)
}

/// The NUL-terminated forms of the strings `items`, in order, or the error of the first string
/// that holds a NUL byte.
pub fn c_string_array(items: &[&str]) -> (r: Result<Vec<Vec<u8>>, NulError>)
    ensures
        r is Ok <==> forall|k: int| 0 <= k < items@.len() ==> !has_nul(#[trigger] items@[k].spec_bytes()),
        r matches Ok(v) ==> v@.len() == items@.len() && forall|k: int|
            0 <= k < items@.len() ==> #[trigger] v@[k]@ == items@[k].spec_bytes().push(0),
        r matches Err(e) ==> exists|k: int|
            0 <= k < items@.len() && first_nul(#[trigger] items@[k].spec_bytes(), e.position as int)
                && forall|j: int| 0 <= j < k ==> !has_nul(#[trigger] items@[j].spec_bytes()),
{
    let mut out: Vec<Vec<u8>> = Vec::new();
    let mut k: usize = 0;
    while k < items.len()
        invariant
            0 <= k <= items@.len(),
            out@.len() == k,
            forall|j: int| 0 <= j < k ==> #[trigger] out@[j]@ == items@[j].spec_bytes().push(0),
            forall|j: int| 0 <= j < k ==> !has_nul(#[trigger] items@[j].spec_bytes()),
        decreases items@.len() - k,
    {
        match c_string(items[k]) {
            Ok(v) => {
                out.push(v);
            },
            Err(e) => {
                return Err(e);
            },
        }
        k = k + 1;
    }
    Ok(out)
}

} // verus!
