//! What the tools report about themselves.
use vstd::prelude::*;
use vstd::string::*;
use crate::text::{decimal, decimal_string, push_char};

verus! {

/// The name, version and package details of the tools.
#[derive(Debug, PartialEq, Eq)]
pub struct AppInfo {
    pub name: String,
    pub version: String,
    pub authors: &'static str,
    pub description: &'static str,
    pub crate_name: &'static str,
}

/// A version written as `major.minor.patch` in decimal.
pub open spec fn version_text(major: nat, minor: nat, patch: nat) -> Seq<char> {
    decimal(major) + seq!['.'] + decimal(minor) + seq!['.'] + decimal(patch)
}

/// The version `major.minor.patch`.
pub fn version_string(major: u64, minor: u64, patch: u64) -> (r: String)
    ensures
        r@ == version_text(major as nat, minor as nat, patch as nat),
{
    let mut s = decimal_string(major);
    push_char(&mut s, '.');
    s.append(decimal_string(minor).as_str());
    push_char(&mut s, '.');
    s.append(decimal_string(patch).as_str());
    assert(s@ =~= version_text(major as nat, minor as nat, patch as nat));
    s
}

impl AppInfo {
    /// The report for a package with the given name, version numbers and
    /// details.
    pub fn new(
        name: String,
        major: u64,
        minor: u64,
        patch: u64,
        authors: &'static str,
        description: &'static str,
        crate_name: &'static str,
    ) -> (r: AppInfo)
        ensures
            r.name == name,
            r.version@ == version_text(major as nat, minor as nat, patch as nat),
            r.authors == authors,
            r.description == description,
            r.crate_name == crate_name,
    {
        AppInfo {
            name,
            version: version_string(major, minor, patch),
            authors,
            description,
            crate_name,
        }
    }
}

} // verus!
