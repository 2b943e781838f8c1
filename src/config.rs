//! The root path that configuration detection starts from.
use vstd::prelude::*;

verus! {

/// The root path used during configuration detection.
#[derive(Debug, Clone, PartialEq, Eq, Hash, PartialOrd, Ord)]
pub struct RootPath(pub String);

impl RootPath {
    pub fn new(path: String) -> (r: RootPath)
        ensures
            r.0@ == path@,
    {
        RootPath(path)
    }
}

impl Default for RootPath {
    /// The current directory, ".".
    fn default() -> (r: RootPath)
        ensures
            r.0@ == seq!['.'],
    {
        let p = ".".to_owned();
        proof {
            reveal_strlit(".");
            assert(p@ =~= seq!['.']);
        }
        RootPath(p)
    }
}

} // verus!
