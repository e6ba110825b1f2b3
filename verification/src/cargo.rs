//! A cargo project written for a build.
use vstd::prelude::*;

verus! {

/// Where a cargo project was written, and its package name.
#[derive(Debug)]
pub struct CargoProject {
    pub build_dir: String,
    pub name: String,
}

} // verus!
