//! Checks that a deployment artifact is a WebAssembly binary module.

use crate::error::Error;
use vstd::prelude::*;
use vstd::string::StringExecFns;

verus! {

/// The four bytes that open every WebAssembly binary module.
pub open spec fn wasm_magic() -> Seq<u8> {
    seq![0x00u8, 0x61u8, 0x73u8, 0x6du8]
}

/// `bytes` begins with the WebAssembly magic number.
pub open spec fn has_wasm_magic(bytes: Seq<u8>) -> bool {
    bytes.len() >= 4 && bytes.subrange(0, 4) == wasm_magic()
}

/// Whether `bytes` begins with the WebAssembly magic number.
pub fn starts_with_wasm_magic(bytes: &[u8]) -> (r: bool)
    ensures
        r == has_wasm_magic(bytes@),
{
    if bytes.len() < 4 {
        return false;
    }
    let ok = bytes[0] == 0x00u8 && bytes[1] == 0x61u8 && bytes[2] == 0x73u8 && bytes[3] == 0x6du8;
    assert(ok == (bytes@.subrange(0, 4) =~= wasm_magic()));
    ok
}

/// Checks an artifact read from `path`: `contents` is `None` when no file
/// is there. A missing file is a deployment error, a file without the magic
/// number a validation error; otherwise the bytes come back unchanged.
pub fn validate_wasm_file(path: &str, contents: Option<Vec<u8>>) -> (r: Result<Vec<u8>, Error>)
    ensures
        contents is None ==> r matches Err(Error::Deployment(_)),
        contents is Some && !has_wasm_magic(contents->0@) ==> r matches Err(Error::Validation(_)),
        contents is Some && has_wasm_magic(contents->0@) ==> r == Ok::<Vec<u8>, Error>(
            contents->0,
        ),
{
    match contents {
        None => Err(Error::Deployment(String::from_str("WASM file not found: ").concat(path))),
        Some(bytes) => {
            if starts_with_wasm_magic(bytes.as_slice()) {
                Ok(bytes)
            } else {
                Err(Error::Validation(String::from_str("Invalid WASM file: missing magic number")))
            }
        },
    }
}

} // verus!
