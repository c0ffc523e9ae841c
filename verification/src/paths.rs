//! File-system paths as text: joining, the parent and the final component,
//! and the fixed locations that the bridge uses.

use vstd::prelude::*;
use crate::text::{chars_of, string_of};

verus! {

/// Where host applications are installed.
pub const APPLICATIONS: &'static str = "/Applications";

/// Where the FSKit extension sits inside its host application.
pub const FSKIT_APPEX_RELATIVE_PATH: &'static str = "Contents/Extensions/FSKitExt.appex";

/// Where a bundle keeps its `Info.plist`.
pub const INFO_PLIST_RELATIVE_PATH: &'static str = "Contents/Info.plist";

/// `base` joined with `rel`, as `Path::join` does on Unix: an absolute `rel`
/// replaces `base`; otherwise a `'/'` separates the two unless `base` is empty
/// or already ends with one.
pub open spec fn joined(base: Seq<char>, rel: Seq<char>) -> Seq<char> {
    if rel.len() > 0 && rel[0] == '/' {
        rel
    } else if base.len() == 0 || base.last() == '/' {
        base + rel
    } else {
        base + seq!['/'] + rel
    }
}

/// Joins `rel` onto `base`.
pub fn join_path(base: &str, rel: &str) -> (r: String)
    ensures
        r@ == joined(base@, rel@),
{
    let b = chars_of(base);
    let r = chars_of(rel);
    if r.len() > 0 && r[0] == '/' {
        return string_of(r.as_slice());
    }
    let mut out = b;
    if out.len() > 0 && out[out.len() - 1] != '/' {
        out.push('/');
    }
    let ghost prefix = out@;
    let mut k: usize = 0;
    while k < r.len()
        invariant
            0 <= k <= r@.len(),
            out@ == prefix + r@.take(k as int),
        decreases r@.len() - k,
    {
        out.push(r[k]);
        k = k + 1;
        assert(out@ =~= prefix + r@.take(k as int));
    }
    assert(r@.take(r@.len() as int) =~= r@);
    proof {
        if b@.len() > 0 && b@.last() != '/' {
            assert(prefix =~= base@ + seq!['/']);
            assert(out@ =~= base@ + seq!['/'] + rel@);
        } else {
            assert(out@ =~= base@ + rel@);
        }
    }
    string_of(out.as_slice())
}

/// The installation directory of the host application `app_name`.
pub open spec fn app_dir(app_name: Seq<char>) -> Seq<char> {
    joined(APPLICATIONS@, app_name)
}

/// The FSKit extension bundle inside the host application at `app`.
pub open spec fn appex_dir(app: Seq<char>) -> Seq<char> {
    joined(app, FSKIT_APPEX_RELATIVE_PATH@)
}

/// The `Info.plist` of the bundle at `bundle`.
pub open spec fn info_plist(bundle: Seq<char>) -> Seq<char> {
    joined(bundle, INFO_PLIST_RELATIVE_PATH@)
}

/// `/Applications/<app_name>`.
pub fn application_path(app_name: &str) -> (r: String)
    ensures
        r@ == app_dir(app_name@),
{
    join_path(APPLICATIONS, app_name)
}

/// `<app>/Contents/Extensions/FSKitExt.appex`.
pub fn appex_path(app: &str) -> (r: String)
    ensures
        r@ == appex_dir(app@),
{
    join_path(app, FSKIT_APPEX_RELATIVE_PATH)
}

/// `<bundle>/Contents/Info.plist`.
pub fn info_plist_path(bundle: &str) -> (r: String)
    ensures
        r@ == info_plist(bundle@),
{
    join_path(bundle, INFO_PLIST_RELATIVE_PATH)
}

/// What `Path::parent` gives for the path `p` (as text).
pub uninterp spec fn path_parent(p: Seq<char>) -> Option<Seq<char>>;

/// What `Path::file_name` gives for the path `p` (as text).
pub uninterp spec fn path_file_name(p: Seq<char>) -> Option<Seq<char>>;

/// The text of an optional string.
pub open spec fn opt_view(o: Option<String>) -> Option<Seq<char>> {
    match o {
        Some(s) => Some(s@),
        None => None,
    }
}

/// `Path::parent`: the path without its final component. The contract names
/// the result; beside that it states only what the documentation says, that
/// the empty path and the root have no parent. Which components count (how
/// `.`, repeated and trailing separators are treated) is left unsaid.
#[verifier::external_body]
pub fn parent_path(p: &str) -> (r: Option<String>)
    ensures
        opt_view(r) == path_parent(p@),
        p@.len() == 0 ==> r is None,
        p@ == seq!['/'] ==> r is None,
{
    std::path::Path::new(p).parent().map(|q| q.to_string_lossy().into_owned())
}

/// `Path::file_name`: the final component of the path, if it is a normal one.
/// The contract names the result; beside that it states only what the
/// documentation shows, that the root and a path ending in `..` have none.
/// Which components count is left unsaid.
#[verifier::external_body]
pub fn file_name(p: &str) -> (r: Option<String>)
    ensures
        opt_view(r) == path_file_name(p@),
        p@ == seq!['/'] ==> r is None,
        p@ == seq!['.', '.'] ==> r is None,
        (p@.len() >= 3 && p@.subrange(p@.len() - 3, p@.len() as int) == seq!['/', '.', '.']) ==> r is None,
{
    std::path::Path::new(p).file_name().map(|q| q.to_string_lossy().into_owned())
}

} // verus!
