//! Config records and loader resolution.
//!
//! A config names a profile and sets a game-version string for exactly one
//! loader; which field is set determines the loader in effect.

use vstd::prelude::*;

use crate::error::Error;

verus! {

/// The mod-loading runtime a profile targets.
#[derive(Clone, Copy, PartialEq, Eq, Structural, Debug)]
pub enum Loader {
    Fabric,
    Forge,
    Quilt,
}

/// Per-loader game-version selectors of a config record. A well-formed
/// config sets exactly one of the three.
pub struct ConfigVersions {
    pub fabric: Option<String>,
    pub forge: Option<String>,
    pub quilt: Option<String>,
}

/// The declarative profile descriptor: a human-readable name plus the
/// per-loader version selectors.
pub struct Config {
    pub name: String,
    pub versions: ConfigVersions,
}

/// Mathematical image of an optional string.
pub open spec fn opt_view(o: Option<String>) -> Option<Seq<char>> {
    match o {
        Option::None => None,
        Option::Some(s) => Some(s@),
    }
}

/// Mathematical image of `ConfigVersions`.
pub ghost struct VersionsView {
    pub fabric: Option<Seq<char>>,
    pub forge: Option<Seq<char>>,
    pub quilt: Option<Seq<char>>,
}

/// Mathematical image of `Config`.
pub ghost struct ConfigView {
    pub name: Seq<char>,
    pub versions: VersionsView,
}

impl View for ConfigVersions {
    type V = VersionsView;

    open spec fn view(&self) -> VersionsView {
        VersionsView {
            fabric: opt_view(self.fabric),
            forge: opt_view(self.forge),
            quilt: opt_view(self.quilt),
        }
    }
}

impl View for Config {
    type V = ConfigView;

    open spec fn view(&self) -> ConfigView {
        ConfigView { name: self.name@, versions: self.versions@ }
    }
}

/// The loader named by the first set version field, in the priority order
/// fabric, forge, quilt; nothing when no field is set.
pub open spec fn determined_loader(v: VersionsView) -> Option<Loader> {
    if v.fabric is Some {
        Some(Loader::Fabric)
    } else if v.forge is Some {
        Some(Loader::Forge)
    } else if v.quilt is Some {
        Some(Loader::Quilt)
    } else {
        None
    }
}

/// How many version fields a config sets.
pub open spec fn version_count(v: VersionsView) -> int {
    (if v.fabric is Some {
        1int
    } else {
        0int
    }) + (if v.forge is Some {
        1int
    } else {
        0int
    }) + (if v.quilt is Some {
        1int
    } else {
        0int
    })
}

/// The single loader a config derives: `NoLoader` when no version field is
/// set, `AmbiguousLoader` when more than one is.
pub open spec fn resolved_loader(v: VersionsView) -> Result<Loader, Error> {
    if version_count(v) == 0 {
        Err(Error::NoLoader)
    } else if version_count(v) > 1 {
        Err(Error::AmbiguousLoader)
    } else {
        match determined_loader(v) {
            Some(l) => Ok(l),
            None => Err(Error::NoLoader),
        }
    }
}

/// The loader named by the first set version field, fabric before forge
/// before quilt; `None` when no field is set.
pub fn determine_loader(versions: &ConfigVersions) -> (r: Option<Loader>)
    ensures
        r == determined_loader(versions@),
{
    if versions.fabric.is_some() {
        Some(Loader::Fabric)
    } else if versions.forge.is_some() {
        Some(Loader::Forge)
    } else if versions.quilt.is_some() {
        Some(Loader::Quilt)
    } else {
        None
    }
}

/// Resolve the single loader a config derives, rejecting a config that sets
/// zero or several version fields.
pub fn resolve_loader(versions: &ConfigVersions) -> (r: Result<Loader, Error>)
    ensures
        r == resolved_loader(versions@),
{
    let mut count: u32 = 0;
    if versions.fabric.is_some() {
        count = count + 1;
    }
    if versions.forge.is_some() {
        count = count + 1;
    }
    if versions.quilt.is_some() {
        count = count + 1;
    }
    if count == 0 {
        Err(Error::NoLoader)
    } else if count > 1 {
        Err(Error::AmbiguousLoader)
    } else {
        match determine_loader(versions) {
            Some(l) => Ok(l),
            None => Err(Error::NoLoader),
        }
    }
}

/// Duplicate an optional string, preserving the value exactly.
pub fn clone_opt_string(o: &Option<String>) -> (r: Option<String>)
    ensures
        r == *o,
{
    match o {
        Option::None => None,
        Option::Some(s) => Some(s.clone()),
    }
}

impl Clone for ConfigVersions {
    /// Duplicate the selectors, preserving every field exactly.
    fn clone(&self) -> (r: Self)
        ensures
            r == *self,
    {
        ConfigVersions {
            fabric: clone_opt_string(&self.fabric),
            forge: clone_opt_string(&self.forge),
            quilt: clone_opt_string(&self.quilt),
        }
    }
}

impl Clone for Config {
    /// Duplicate the config, preserving every field exactly.
    fn clone(&self) -> (r: Self)
        ensures
            r == *self,
    {
        Config { name: self.name.clone(), versions: self.versions.clone() }
    }
}

} // verus!
