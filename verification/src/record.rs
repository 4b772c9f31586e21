//! The package metadata record returned by the remote repository API.

use vstd::prelude::*;

verus! {

/// One package's metadata as the remote API reports it: the package's name,
/// the name of the recipe repository it is built from, and an optional
/// human-readable description. Identity is the `name`; records are produced
/// fresh per query and never cached.
pub struct PackageRecord {
    pub name: String,
    pub build_base: String,
    pub description: Option<String>,
}

impl PackageRecord {
    pub fn new(name: String, build_base: String, description: Option<String>) -> (r: PackageRecord)
        ensures
            r.name == name,
            r.build_base == build_base,
            r.description == description,
    {
        PackageRecord { name, build_base, description }
    }
}

impl Clone for PackageRecord {
    fn clone(&self) -> (r: Self)
        ensures
            r == *self,
    {
        let description = match &self.description {
            Some(d) => Some(d.clone()),
            None => None,
        };
        PackageRecord { name: self.name.clone(), build_base: self.build_base.clone(), description }
    }
}

} // verus!
