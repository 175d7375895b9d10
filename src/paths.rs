//! The files a signing run writes beside the module.
use vstd::prelude::*;

verus! {

/// Suffix of the detached signature file.
pub const DETACHED_SUFFIX: &'static str = ".p7s";

/// Suffix of the file the signed module is staged in before it replaces the
/// module.
pub const STAGING_SUFFIX: &'static str = ".~signed~";

/// Where the detached signature of the module at `module` goes.
pub open spec fn detached_path_of(module: Seq<char>) -> Seq<char> {
    module + DETACHED_SUFFIX@
}

/// Where the signed module is staged before the rename.
pub open spec fn staging_path_of(module: Seq<char>) -> Seq<char> {
    module + STAGING_SUFFIX@
}

/// `<module>.p7s`
pub fn detached_path(module: &str) -> (r: String)
    ensures
        r@ == detached_path_of(module@),
{
    String::from_str(module).concat(DETACHED_SUFFIX)
}

/// `<module>.~signed~`
pub fn staging_path(module: &str) -> (r: String)
    ensures
        r@ == staging_path_of(module@),
{
    String::from_str(module).concat(STAGING_SUFFIX)
}

/// The module, its detached signature and its staging file are three
/// different paths.
pub proof fn lemma_paths_distinct(module: Seq<char>)
    ensures
        detached_path_of(module) != module,
        staging_path_of(module) != module,
        detached_path_of(module) != staging_path_of(module),
{
    reveal_strlit(".p7s");
    reveal_strlit(".~signed~");
    assert(detached_path_of(module).len() == module.len() + 4);
    assert(staging_path_of(module).len() == module.len() + 9);
}

} // verus!
