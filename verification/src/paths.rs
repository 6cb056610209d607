//! Translation of a native (backslash-separated) path onto a resolved
//! filesystem root.
//!
//! The native path is first rewritten with the local separator
//! convention, then any leading separators are stripped so the path is
//! treated as relative, and the result is joined onto the root.  No
//! existence check happens here.

use vstd::prelude::*;
use vstd::string::*;

verus! {

/// The native backslash-separated path rebuilt with forward-slash
/// separators, named but not stated: the outside path library is relied
/// on for the exact rebuilding.
pub uninterp spec fn unix_of(path: Seq<char>) -> Seq<char>;

/// Relies on typed_path::Utf8WindowsPath::with_encoding with the unix
/// encoding, and Utf8PathBuf::into_string: the path is rebuilt
/// component by component with forward-slash separators, a function of
/// the path's characters alone.
#[verifier::external_body]
fn windows_to_unix(path: &str) -> (r: String)
    ensures
        r@ == unix_of(path@),
{
    typed_path::Utf8WindowsPath::new(path)
        .with_encoding::<typed_path::Utf8UnixEncoding>()
        .into_string()
}

/// The sequence with every leading separator removed.
pub open spec fn spec_strip_root(s: Seq<char>) -> Seq<char>
    decreases s.len(),
{
    if s.len() > 0 && s[0] == '/' {
        spec_strip_root(s.skip(1))
    } else {
        s
    }
}

/// The root and a relative path joined with exactly one separator
/// between them.
pub open spec fn spec_join(root: Seq<char>, rel: Seq<char>) -> Seq<char> {
    if root.len() > 0 && root.last() == '/' {
        root + rel
    } else {
        root + seq!['/'] + rel
    }
}

/// The full candidate path: the native path converted to the local
/// separator convention, made relative, and anchored at the root.
pub open spec fn spec_translate(native: Seq<char>, root: Seq<char>) -> Seq<char> {
    spec_join(root, spec_strip_root(unix_of(native)))
}

/// Convert a native path and join it onto the resolved root.
pub fn translate_path(native: &str, root: &String) -> (r: String)
    ensures
        r@ == spec_translate(native@, root@),
{
    let u = windows_to_unix(native);
    let n = u.as_str().unicode_len();
    let mut i: usize = 0;
    proof {
        assert(u@.skip(0) =~= u@);
    }
    while i < n && u.as_str().get_char(i) == '/'
        invariant
            i <= n,
            n == u@.len(),
            u@ == unix_of(native@),
            spec_strip_root(u@) == spec_strip_root(u@.skip(i as int)),
        decreases n - i,
    {
        proof {
            assert(u@.skip(i as int)[0] == u@[i as int]);
            assert(u@.skip(i as int).skip(1) =~= u@.skip(i + 1));
        }
        i = i + 1;
    }
    proof {
        if i < n {
            assert(u@.skip(i as int)[0] == u@[i as int]);
        }
        assert(spec_strip_root(u@.skip(i as int)) == u@.skip(i as int));
        assert(u@.subrange(i as int, n as int) =~= u@.skip(i as int));
    }
    let rel = u.as_str().substring_char(i, n);
    let rlen = root.as_str().unicode_len();
    if rlen > 0 && root.as_str().get_char(rlen - 1) == '/' {
        root.clone().concat(rel)
    } else {
        proof {
            reveal_strlit("/");
            assert("/"@ =~= seq!['/']);
        }
        root.clone().concat("/").concat(rel)
    }
}

} // verus!
