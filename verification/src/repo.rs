//! Repository descriptors: the identity and location record for one
//! remote repository, as extracted from the hosting API's listing.

use vstd::prelude::*;

verus! {

/// One repository to back up: its name (used verbatim as the local
/// directory name) and its HTTPS clone URL.
#[derive(Debug)]
pub struct Repo {
    pub name: String,
    pub clone_url: String,
}

/// The mathematical image of a descriptor: both fields as character
/// sequences.
pub struct RepoModel {
    pub name: Seq<char>,
    pub clone_url: Seq<char>,
}

impl View for Repo {
    type V = RepoModel;

    open spec fn view(&self) -> RepoModel {
        RepoModel { name: self.name@, clone_url: self.clone_url@ }
    }
}

} // verus!
