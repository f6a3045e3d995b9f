//! The identifiers that the watcher keeps and hands on: which build runs,
//! and on which release channel newer builds are looked for.

use vstd::prelude::*;

verus! {

/// The package that holds the supervisor's own builds: what the installer is
/// asked for.
pub const SUP_PKG_IDENT: &'static str = "core/hab-sup";

/// The identifier of a package or of one build of it, by its parts. Which of
/// two identifiers is the newer is not decided here.
#[derive(Debug)]
pub struct PackageIdent {
    pub origin: String,
    pub name: String,
    pub version: Option<String>,
    pub release: Option<String>,
}

impl Clone for PackageIdent {
    fn clone(&self) -> (copy: PackageIdent)
        ensures
            copy == *self,
    {
        let version = match &self.version {
            Some(version) => Some(version.clone()),
            None => None,
        };
        let release = match &self.release {
            Some(release) => Some(release.clone()),
            None => None,
        };
        PackageIdent { origin: self.origin.clone(), name: self.name.clone(), version, release }
    }
}

/// The name of a release channel.
#[derive(Debug)]
pub struct ChannelIdent(pub String);

impl Clone for ChannelIdent {
    fn clone(&self) -> (copy: ChannelIdent)
        ensures
            copy == *self,
    {
        ChannelIdent(self.0.clone())
    }
}

} // verus!
