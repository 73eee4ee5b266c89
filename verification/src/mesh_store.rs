//! Where the mesh of a description is found on disk.

use vstd::prelude::*;
use vstd::string::{StrSliceExecFns, StringExecFns};
use crate::envelope::starts_with;

verus! {

/// What marks a resource of a package.
pub const PACKAGE_SCHEME: &'static str = "pkg://";

/// The directory that holds the packages' resources.
pub const ASSET_DIR: &'static str = "assets/";

/// The path of a resource. What follows `pkg://` is looked up below the
/// asset directory, unless it is an absolute path, which stands for
/// itself; every other name is a path already.
pub open spec fn resolve_spec(uri: Seq<char>) -> Seq<char> {
    if PACKAGE_SCHEME@.is_prefix_of(uri) {
        let rest = uri.subrange(PACKAGE_SCHEME@.len() as int, uri.len() as int);
        if rest.len() > 0 && rest[0] == '/' {
            rest
        } else {
            ASSET_DIR@ + rest
        }
    } else {
        uri
    }
}

/// The path of a resource.
pub fn resolve(uri: &str) -> (path: String)
    ensures
        path@ == resolve_spec(uri@),
{
    if starts_with(uri, PACKAGE_SCHEME) {
        let rest = uri.substring_char(PACKAGE_SCHEME.unicode_len(), uri.unicode_len());
        if rest.unicode_len() > 0 && rest.get_char(0) == '/' {
            String::from_str(rest)
        } else {
            String::from_str(ASSET_DIR).concat(rest)
        }
    } else {
        String::from_str(uri)
    }
}

} // verus!
