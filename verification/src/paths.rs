//! Unix paths as byte strings: `/` is both the root and the separator.
use vstd::prelude::*;

verus! {

/// The byte of `/`.
pub const SEPARATOR: u8 = 0x2f;

/// The path starts at the root.
pub open spec fn is_absolute(path: Seq<u8>) -> bool {
    path.len() > 0 && path[0] == SEPARATOR
}

/// `path` below `base`, with a separator between them where `base` does not end in one.
pub open spec fn joined(base: Seq<u8>, path: Seq<u8>) -> Seq<u8> {
    if base.len() == 0 || base.last() == SEPARATOR {
        base + path
    } else {
        base.push(SEPARATOR) + path
    }
}

/// What `path` means in the directory `cwd`.
pub open spec fn resolved(path: Seq<u8>, cwd: Seq<u8>) -> Seq<u8> {
    if is_absolute(path) {
        path
    } else {
        joined(cwd, path)
    }
}

/// What `path` means in the directory `cwd`: an absolute path means itself, any other lies below
/// `cwd`.
pub fn resolve_abs_with_cwd(path: String, cwd: &[u8]) -> (abs: Vec<u8>)
    ensures
        abs@ == resolved(vstd::utf8::encode_utf8(path@), cwd@),
{
    let text = path.as_str().as_bytes();
    let mut abs: Vec<u8> = Vec::new();
    if text.len() == 0 || text[0] != SEPARATOR {
        abs.extend_from_slice(cwd);
        if cwd.len() > 0 && cwd[cwd.len() - 1] != SEPARATOR {
            abs.push(SEPARATOR);
        }
    }
    abs.extend_from_slice(text);
    abs
}

/// In an absolute directory every path comes out absolute.
pub proof fn law_resolved_paths_are_absolute(path: Seq<u8>, cwd: Seq<u8>)
    requires
        is_absolute(cwd),
    ensures
        is_absolute(resolved(path, cwd)),
{
}

/// Once resolved in an absolute directory, a path means the same in every directory.
pub proof fn law_resolved_paths_stay(path: Seq<u8>, cwd: Seq<u8>, elsewhere: Seq<u8>)
    requires
        is_absolute(cwd),
    ensures
        resolved(resolved(path, cwd), elsewhere) == resolved(path, cwd),
{
    law_resolved_paths_are_absolute(path, cwd);
}

} // verus!
