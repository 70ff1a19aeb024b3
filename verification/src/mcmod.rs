//! Mod records: the persisted metadata of a single mod inside a profile.

use vstd::prelude::*;

use crate::loader::Loader;

verus! {

/// How a mod relates to one of its dependencies.
#[derive(Clone, Copy, PartialEq, Eq, Structural, Debug)]
pub enum DependencyType {
    Required,
    Optional,
    Incompatible,
    Embedded,
}

/// A single mod's persisted metadata. Within a profile a mod is identified
/// by its `slug`; its record is stored as `mods/<slug>.mm.toml`.
pub struct Mod {
    /// The name of the mod.
    pub name: String,
    /// The mod's filename (the artifact it downloads to).
    pub filename: String,
    /// The identifier of the mod within a profile.
    pub slug: String,
    /// A URL to download the mod.
    pub url: String,
    /// Dependencies of the mod, each the kind of dependency and the
    /// dependency's slug, in order.
    pub dependencies: Vec<(DependencyType, String)>,
    /// The loader the mod is for.
    pub loader: Loader,
    /// The version of the game the mod is for.
    pub minecraft_version: String,
}

/// Mathematical image of `Mod`.
pub ghost struct ModView {
    pub name: Seq<char>,
    pub filename: Seq<char>,
    pub slug: Seq<char>,
    pub url: Seq<char>,
    pub dependencies: Seq<(DependencyType, Seq<char>)>,
    pub loader: Loader,
    pub minecraft_version: Seq<char>,
}

impl View for Mod {
    type V = ModView;

    open spec fn view(&self) -> ModView {
        ModView {
            name: self.name@,
            filename: self.filename@,
            slug: self.slug@,
            url: self.url@,
            dependencies: self.dependencies@.map_values(
                |p: (DependencyType, String)| (p.0, p.1@),
            ),
            loader: self.loader,
            minecraft_version: self.minecraft_version@,
        }
    }
}

/// Duplicate a dependency list, preserving every pair exactly.
fn clone_dependencies(deps: &Vec<(DependencyType, String)>) -> (r: Vec<
    (DependencyType, String),
>)
    ensures
        r@ == deps@,
{
    let mut r: Vec<(DependencyType, String)> = Vec::new();
    let mut i: usize = 0;
    while i < deps.len()
        invariant
            i <= deps.len(),
            r@ =~= deps@.subrange(0, i as int),
        decreases deps.len() - i,
    {
        let p = &deps[i];
        r.push((p.0, p.1.clone()));
        proof {
            assert(r@ =~= deps@.subrange(0, i as int + 1));
        }
        i = i + 1;
    }
    proof {
        assert(r@ =~= deps@);
    }
    r
}

impl Clone for Mod {
    /// Duplicate the record; the copy has the same image.
    fn clone(&self) -> (r: Self)
        ensures
            r@ == self@,
            r.slug@ == self.slug@,
    {
        Mod {
            name: self.name.clone(),
            filename: self.filename.clone(),
            slug: self.slug.clone(),
            url: self.url.clone(),
            dependencies: clone_dependencies(&self.dependencies),
            loader: self.loader,
            minecraft_version: self.minecraft_version.clone(),
        }
    }
}

} // verus!
