//! The description of a project: where its sources lie and which sites it
//! is made of.

use std::path::PathBuf;
use vstd::prelude::*;

verus! {

/// `std::path::PathBuf`: a path of the file system, carried through as it is.
#[verifier::external_type_specification]
#[verifier::external_body]
pub struct ExPathBuf(PathBuf);

/// What kind of site a project part is.
#[derive(Clone, Copy, Debug, PartialEq, Eq, Structural)]
pub enum SiteType {
    /// Files that are served as they are.
    Static,
    /// A service that answers requests.
    Api,
}

/// One site of a project.
#[derive(Debug)]
pub struct ProjectSite {
    pub name: String,
    /// Where the site's sources lie.
    pub source: PathBuf,
    pub site_type: SiteType,
}

/// The metadata of a project, as its project file gives them.
#[derive(Debug)]
pub struct Metadata {
    /// The directory that the sites' sources are relative to, if it is not
    /// the project file's own.
    pub source_dir: Option<PathBuf>,
    pub sites: Vec<ProjectSite>,
}

/// The project file among the candidates that a search of the file system
/// came up with. There must be exactly one: a search that found none, or
/// more than one, has no project to name.
pub fn discover_single(candidates: Vec<PathBuf>) -> (found: PathBuf)
    requires
        candidates@.len() == 1,
    ensures
        found == candidates@[0],
{
    let mut candidates = candidates;
    let found = candidates.pop();
    found.unwrap()
}

} // verus!
