//! The remote endpoints the helper talks to: the metadata/search RPC of the
//! community repository and the recipe repository clone URLs.

use vstd::prelude::*;
use vstd::string::StringExecFns;

verus! {

/// The metadata query for one package:
/// `https://aur.archlinux.org/rpc/?v=5&type=info&arg[]=<name>`.
pub open spec fn info_url_spec(name: Seq<char>) -> Seq<char> {
    "https://aur.archlinux.org/rpc/?v=5&type=info&arg[]="@ + name
}

/// The search query: `https://aur.archlinux.org/rpc/?v=5&type=search&arg=<query>`.
pub open spec fn search_url_spec(query: Seq<char>) -> Seq<char> {
    "https://aur.archlinux.org/rpc/?v=5&type=search&arg="@ + query
}

/// The recipe repository for a recipe base:
/// `https://aur.archlinux.org/<base>.git`.
pub open spec fn clone_url_spec(build_base: Seq<char>) -> Seq<char> {
    "https://aur.archlinux.org/"@ + build_base + ".git"@
}

/// Builds the exact-info query URL for a package name.
pub fn info_url(name: &str) -> (u: String)
    ensures
        u@ == info_url_spec(name@),
{
    let mut u = "https://aur.archlinux.org/rpc/?v=5&type=info&arg[]=".to_owned();
    u.append(name);
    u
}

/// Builds the search query URL for a query string.
pub fn search_url(query: &str) -> (u: String)
    ensures
        u@ == search_url_spec(query@),
{
    let mut u = "https://aur.archlinux.org/rpc/?v=5&type=search&arg=".to_owned();
    u.append(query);
    u
}

/// Builds the clone URL for a recipe base.
pub fn clone_url(build_base: &str) -> (u: String)
    ensures
        u@ == clone_url_spec(build_base@),
{
    let mut u = "https://aur.archlinux.org/".to_owned();
    u.append(build_base);
    u.append(".git");
    u
}

} // verus!
