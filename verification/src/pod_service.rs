use vstd::prelude::*;
use std::path::PathBuf;

verus! {

/// `std::path::PathBuf`, a path of the filesystem, carried as it is.
#[verifier::external_type_specification]
#[verifier::external_body]
pub struct ExPathBuf(std::path::PathBuf);

/// `PathBuf::clone` of std gives a path equal to the one it was called on.
pub assume_specification[ <std::path::PathBuf as Clone>::clone ](path: &std::path::PathBuf) -> (copy:
    std::path::PathBuf)
    ensures
        copy == *path,
;

/// The service that allocates pods, rooted at one directory of the
/// filesystem under which it keeps what it builds.
#[derive(Debug, Clone)]
pub struct PodService {
    root_path: PathBuf,
}

impl PodService {
    /// The directory that this service is rooted at.
    pub closed spec fn spec_root_path(&self) -> PathBuf {
        self.root_path
    }

    /// A service rooted at `root_path`.
    pub fn new(root_path: PathBuf) -> (service: Self)
        ensures
            service.spec_root_path() == root_path,
    {
        PodService { root_path }
    }

    /// The directory that this service is rooted at.
    pub fn root_path(&self) -> (path: &PathBuf)
        ensures
            *path == self.spec_root_path(),
    {
        &self.root_path
    }
}

} // verus!
