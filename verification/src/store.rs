//! The profile store: an in-memory image of the on-disk profile layout and
//! the verified lifecycle operations over it.
//!
//! The image mirrors `<base>/profiles` exactly: one `DirEntry` per
//! subdirectory (holding what its config file and `mods/` files decode to)
//! plus the selection marker. The surrounding binary reads the filesystem
//! into a `ProfileStore`, calls the operations here, and writes the changed
//! image back; no atomicity across the marker file or directory tree is
//! claimed beyond what the filesystem gives a single write or rename.

use vstd::prelude::*;

use crate::error::Error;
use crate::loader::clone_opt_string;
use crate::loader::opt_view;
use crate::loader::resolve_loader;
use crate::loader::resolved_loader;
use crate::loader::Config;
use crate::loader::ConfigView;
use crate::loader::Loader;
use crate::mcmod::Mod;
use crate::mcmod::ModView;
use crate::slug::slug_of;
use crate::slug::slugify;

verus! {

/// Marker for a version-control repository backing a profile directory.
/// The surrounding binary owns the real repository handle; here only its
/// presence matters, and it is purely additive: no operation's success
/// depends on it.
#[derive(Clone, Copy, PartialEq, Eq, Structural, Debug)]
pub struct VcsHandle {}

/// What the profile's config file decodes to: a well-formed record, an
/// unreadable one, or no file at all.
pub enum ConfigFile {
    Valid(Config),
    Malformed,
    Missing,
}

/// What one file in a profile's `mods/` directory decodes to.
pub enum ModFile {
    Valid(Mod),
    Malformed,
}

/// One file inside a profile's `mods/` directory.
pub struct ModEntry {
    pub filename: String,
    pub file: ModFile,
}

/// One subdirectory of the profiles root.
pub struct DirEntry {
    /// The directory's name: the profile's identifier.
    pub slug: String,
    /// What the directory's config file holds.
    pub config: ConfigFile,
    /// The files of the `mods/` subdirectory, in directory order.
    pub mods: Vec<ModEntry>,
    /// Whether a version-control repository backs the directory.
    pub has_repo: bool,
}

/// The in-memory image of the profiles root and the selection marker.
pub struct ProfileStore {
    /// The subdirectories of the profiles root, in directory order.
    pub dirs: Vec<DirEntry>,
    /// The selection marker's contents; `None` when the marker is absent,
    /// which is the valid "nothing selected" state.
    pub selected: Option<String>,
}

/// A loaded profile: its config, its identifier, the loader derived from
/// the config, and the optional version-control capability.
pub struct Profile {
    pub config: Config,
    pub slug: String,
    pub loader: Loader,
    pub repo: Option<VcsHandle>,
}

/// Mathematical image of `ConfigFile`.
pub ghost enum ConfigFileView {
    Valid(ConfigView),
    Malformed,
    Missing,
}

/// Mathematical image of `ModFile`.
pub ghost enum ModFileView {
    Valid(ModView),
    Malformed,
}

/// Mathematical image of `ModEntry`.
pub ghost struct ModEntryView {
    pub filename: Seq<char>,
    pub file: ModFileView,
}

/// Mathematical image of `DirEntry`.
pub ghost struct DirView {
    pub slug: Seq<char>,
    pub config: ConfigFileView,
    pub mods: Seq<ModEntryView>,
    pub has_repo: bool,
}

/// Mathematical image of `ProfileStore`.
pub ghost struct StoreView {
    pub dirs: Seq<DirView>,
    pub selected: Option<Seq<char>>,
}

/// Mathematical image of `Profile`.
pub ghost struct ProfileView {
    pub config: ConfigView,
    pub slug: Seq<char>,
    pub loader: Loader,
    pub has_repo: bool,
}

impl View for ConfigFile {
    type V = ConfigFileView;

    open spec fn view(&self) -> ConfigFileView {
        match self {
            ConfigFile::Valid(c) => ConfigFileView::Valid(c@),
            ConfigFile::Malformed => ConfigFileView::Malformed,
            ConfigFile::Missing => ConfigFileView::Missing,
        }
    }
}

impl View for ModFile {
    type V = ModFileView;

    open spec fn view(&self) -> ModFileView {
        match self {
            ModFile::Valid(m) => ModFileView::Valid(m@),
            ModFile::Malformed => ModFileView::Malformed,
        }
    }
}

impl View for ModEntry {
    type V = ModEntryView;

    open spec fn view(&self) -> ModEntryView {
        ModEntryView { filename: self.filename@, file: self.file@ }
    }
}

impl View for DirEntry {
    type V = DirView;

    open spec fn view(&self) -> DirView {
        DirView {
            slug: self.slug@,
            config: self.config@,
            mods: self.mods@.map_values(|m: ModEntry| m@),
            has_repo: self.has_repo,
        }
    }
}

impl View for ProfileStore {
    type V = StoreView;

    open spec fn view(&self) -> StoreView {
        StoreView {
            dirs: self.dirs@.map_values(|d: DirEntry| d@),
            selected: opt_view(self.selected),
        }
    }
}

impl View for Profile {
    type V = ProfileView;

    open spec fn view(&self) -> ProfileView {
        ProfileView {
            config: self.config@,
            slug: self.slug@,
            loader: self.loader,
            has_repo: self.repo is Some,
        }
    }
}

impl PartialEq for Profile {
    /// Profiles compare by name: the name determines the slug, and the slug
    /// is the profile's identity.
    fn eq(&self, other: &Self) -> (r: bool)
        ensures
            r == (self.config.name@ == other.config.name@),
    {
        self.config.name == other.config.name
    }
}

impl vstd::std_specs::cmp::PartialEqSpecImpl for Profile {
    open spec fn obeys_eq_spec() -> bool {
        true
    }

    open spec fn eq_spec(&self, other: &Profile) -> bool {
        self.config.name@ == other.config.name@
    }
}

/// Whether the store has a profile directory named `slug`.
pub open spec fn has_dir(s: StoreView, slug: Seq<char>) -> bool {
    exists|i: int| 0 <= i < s.dirs.len() && (#[trigger] s.dirs[i]).slug == slug
}

/// The index of the profile directory named `slug` (meaningful only under
/// `has_dir` and well-formedness).
pub open spec fn dir_index(s: StoreView, slug: Seq<char>) -> int {
    choose|i: int| 0 <= i < s.dirs.len() && (#[trigger] s.dirs[i]).slug == slug
}

/// The profile directory named `slug`.
pub open spec fn dir_at(s: StoreView, slug: Seq<char>) -> DirView {
    s.dirs[dir_index(s, slug)]
}

/// Filenames inside one `mods/` directory never repeat, and a well-formed
/// record sits under its own slug's filename — the sole join key between "a
/// mod is recorded" and "a file exists".
pub open spec fn mods_wf(mods: Seq<ModEntryView>) -> bool {
    (forall|i: int, j: int|
        0 <= i < j < mods.len() ==> (#[trigger] mods[i]).filename != (
        #[trigger] mods[j]).filename) && (forall|i: int|
        0 <= i < mods.len() ==> match (#[trigger] mods[i]).file {
            ModFileView::Valid(m) => mods[i].filename == mod_filename(m.slug),
            ModFileView::Malformed => true,
        })
}

/// Whether a `mods/` file holds a well-formed record with the given slug.
pub open spec fn record_slug_is(f: ModFileView, g: Seq<char>) -> bool {
    match f {
        ModFileView::Valid(m) => m.slug == g,
        ModFileView::Malformed => false,
    }
}

impl StoreView {
    /// Directory names never repeat, and no `mods/` directory repeats a
    /// filename: exactly what one filesystem tree guarantees.
    pub open spec fn wf(self) -> bool {
        (forall|i: int, j: int|
            0 <= i < j < self.dirs.len() ==> (#[trigger] self.dirs[i]).slug != (
            #[trigger] self.dirs[j]).slug) && (forall|i: int|
            0 <= i < self.dirs.len() ==> mods_wf((#[trigger] self.dirs[i]).mods))
    }
}

impl ProfileView {
    /// The data-model tie that creation establishes: the profile's slug is
    /// derived from its config's name.
    pub open spec fn wf(self) -> bool {
        self.slug == slug_of(self.config.name)
    }
}

/// The profile a single directory loads to: its decoded config with the
/// loader the config derives, or the per-entry error.
pub open spec fn entry_profile(d: DirView) -> Result<ProfileView, Error> {
    match d.config {
        ConfigFileView::Missing => Err(Error::NotFound),
        ConfigFileView::Malformed => Err(Error::Malformed),
        ConfigFileView::Valid(c) => match resolved_loader(c.versions) {
            Err(e) => Err(e),
            Ok(l) => Ok(
                ProfileView { config: c, slug: d.slug, loader: l, has_repo: d.has_repo },
            ),
        },
    }
}

/// The identifiers `used_ids` returns: the names of exactly those
/// directories that hold a readable, well-formed config with a derivable
/// loader — the valid profiles — in directory order.
pub open spec fn used_ids_of(dirs: Seq<DirView>) -> Seq<Seq<char>>
    decreases dirs.len(),
{
    if dirs.len() == 0 {
        Seq::<Seq<char>>::empty()
    } else if entry_profile(dirs.last()) is Ok {
        used_ids_of(dirs.drop_last()).push(dirs.last().slug)
    } else {
        used_ids_of(dirs.drop_last())
    }
}

/// What loading the profile named `slug` returns.
pub open spec fn load_result(s: StoreView, slug: Seq<char>) -> Result<ProfileView, Error> {
    if has_dir(s, slug) {
        entry_profile(dir_at(s, slug))
    } else {
        Err(Error::NotFound)
    }
}

/// What creating a profile from config `c` returns: the loader is resolved
/// before anything else, and an existing directory with the same slug is
/// never overwritten.
pub open spec fn create_result(s: StoreView, c: ConfigView, vcs: bool) -> Result<
    ProfileView,
    Error,
> {
    match resolved_loader(c.versions) {
        Err(e) => Err(e),
        Ok(l) => if has_dir(s, slug_of(c.name)) {
            Err(Error::AlreadyExists)
        } else {
            Ok(
                ProfileView {
                    config: c,
                    slug: slug_of(c.name),
                    loader: l,
                    has_repo: vcs,
                },
            )
        },
    }
}

/// How creating a profile changes the store: on success one new directory
/// holding the config and an empty `mods/`; on any failure no change at all.
pub open spec fn create_transition(s: StoreView, c: ConfigView, vcs: bool) -> StoreView {
    if create_result(s, c, vcs) is Ok {
        StoreView {
            dirs: s.dirs.push(
                DirView {
                    slug: slug_of(c.name),
                    config: ConfigFileView::Valid(c),
                    mods: Seq::<ModEntryView>::empty(),
                    has_repo: vcs,
                },
            ),
            selected: s.selected,
        }
    } else {
        s
    }
}

/// How selecting the profile named `slug` changes the store.
pub open spec fn select_transition(s: StoreView, slug: Seq<char>) -> StoreView {
    StoreView { dirs: s.dirs, selected: Some(slug) }
}

/// Whether the selection marker names `slug`.
pub open spec fn selected_is(s: StoreView, slug: Seq<char>) -> bool {
    s.selected == Some(slug)
}

/// What loading the selected profile returns. A profile exists only where a
/// directory holds a readable config: nothing selected, a selection naming
/// no directory, and one naming a directory whose config is missing or
/// cannot be decoded are all `SelectedProfileMissing`, never a raw
/// not-found. A config that decodes but derives no single loader keeps its
/// own error.
pub open spec fn load_selected_result(s: StoreView) -> Result<ProfileView, Error> {
    match s.selected {
        None => Err(Error::SelectedProfileMissing),
        Some(g) => match load_result(s, g) {
            Err(Error::NotFound) => Err(Error::SelectedProfileMissing),
            Err(Error::Malformed) => Err(Error::SelectedProfileMissing),
            r => r,
        },
    }
}

/// The filename a mod record is persisted under: its slug joined with the
/// record extension.
pub open spec fn mod_filename(slug: Seq<char>) -> Seq<char> {
    slug + ".mm.toml"@
}

/// Whether a `mods/` directory holds a file named `f`.
pub open spec fn has_mod_file(mods: Seq<ModEntryView>, f: Seq<char>) -> bool {
    exists|k: int| 0 <= k < mods.len() && (#[trigger] mods[k]).filename == f
}

/// The index of the file named `f` (meaningful only under `has_mod_file`).
pub open spec fn mod_file_index(mods: Seq<ModEntryView>, f: Seq<char>) -> int {
    choose|k: int| 0 <= k < mods.len() && (#[trigger] mods[k]).filename == f
}

/// How writing the record of mod `m` changes a `mods/` directory: the file
/// for `m`'s slug is overwritten if it exists and appended otherwise.
pub open spec fn put_mod(mods: Seq<ModEntryView>, m: ModView) -> Seq<ModEntryView> {
    let e = ModEntryView { filename: mod_filename(m.slug), file: ModFileView::Valid(m) };
    if has_mod_file(mods, e.filename) {
        mods.update(mod_file_index(mods, e.filename), e)
    } else {
        mods.push(e)
    }
}

/// Whether attaching a mod to the profile named `slug` succeeds.
pub open spec fn add_mod_result(s: StoreView, slug: Seq<char>) -> Result<(), Error> {
    if has_dir(s, slug) {
        Ok(())
    } else {
        Err(Error::NotFound)
    }
}

/// How attaching mod `m` to the profile named `slug` changes the store.
pub open spec fn add_mod_transition(s: StoreView, slug: Seq<char>, m: ModView) -> StoreView {
    if has_dir(s, slug) {
        let i = dir_index(s, slug);
        let d = s.dirs[i];
        StoreView {
            dirs: s.dirs.update(
                i,
                DirView {
                    slug: d.slug,
                    config: d.config,
                    mods: put_mod(d.mods, m),
                    has_repo: d.has_repo,
                },
            ),
            selected: s.selected,
        }
    } else {
        s
    }
}

/// The per-file results of reading a `mods/` directory: each well-formed
/// record as it is, each malformed file as its own error.
pub open spec fn mod_results(mods: Seq<ModEntryView>) -> Seq<Result<ModView, Error>> {
    mods.map_values(
        |e: ModEntryView|
            match e.file {
                ModFileView::Valid(m) => Ok(m),
                ModFileView::Malformed => Err(Error::Malformed),
            },
    )
}

/// Whether deleting the profile named `slug` succeeds.
pub open spec fn delete_result(s: StoreView, slug: Seq<char>) -> Result<(), Error> {
    if has_dir(s, slug) {
        Ok(())
    } else {
        Err(Error::NotFound)
    }
}

/// How deleting the profile named `slug` changes the store: its directory
/// goes away, and a selection naming it is cleared rather than left
/// dangling.
pub open spec fn delete_transition(s: StoreView, slug: Seq<char>) -> StoreView {
    if has_dir(s, slug) {
        StoreView {
            dirs: s.dirs.remove(dir_index(s, slug)),
            selected: if s.selected == Some(slug) {
                None
            } else {
                s.selected
            },
        }
    } else {
        s
    }
}

/// A `Result` of loading, seen at the mathematical level.
pub open spec fn profile_result_view(r: Result<Profile, Error>) -> Result<ProfileView, Error> {
    match r {
        Ok(p) => Ok(p@),
        Err(e) => Err(e),
    }
}

/// A per-file `Result` of reading a mod record, seen at the mathematical
/// level.
pub open spec fn mod_result_view(r: Result<Mod, Error>) -> Result<ModView, Error> {
    match r {
        Ok(m) => Ok(m@),
        Err(e) => Err(e),
    }
}

/// Writing a mod record keeps a `mods/` directory well-formed, leaves a file
/// for the record's slug, and leaves no other file under that name.
pub proof fn lemma_put_mod(mods: Seq<ModEntryView>, m: ModView)
    requires
        mods_wf(mods),
    ensures
        mods_wf(put_mod(mods, m)),
        has_mod_file(put_mod(mods, m), mod_filename(m.slug)),
        forall|k: int|
            0 <= k < put_mod(mods, m).len() && (#[trigger] put_mod(mods, m)[k]).filename
                == mod_filename(m.slug) ==> put_mod(mods, m)[k] == (ModEntryView {
                filename: mod_filename(m.slug),
                file: ModFileView::Valid(m),
            }),
        put_mod(mods, m).len() == if has_mod_file(mods, mod_filename(m.slug)) {
            mods.len()
        } else {
            mods.len() + 1
        },
{
    let f = mod_filename(m.slug);
    let e = ModEntryView { filename: f, file: ModFileView::Valid(m) };
    let put = put_mod(mods, m);
    assert forall|k: int|
        0 <= k < put.len() implies match (#[trigger] put[k]).file {
        ModFileView::Valid(mm) => put[k].filename == mod_filename(mm.slug),
        ModFileView::Malformed => true,
    } by {
        if has_mod_file(mods, f) {
            if k != mod_file_index(mods, f) {
                assert(put[k] == mods[k]);
            }
        } else {
            if k < mods.len() {
                assert(put[k] == mods[k]);
            }
        }
    }
    if has_mod_file(mods, f) {
        let k0 = mod_file_index(mods, f);
        assert(0 <= k0 < mods.len() && mods[k0].filename == f);
        assert(put == mods.update(k0, e));
        assert(put[k0] == e);
        assert(has_mod_file(put, f));
        assert forall|k: int| 0 <= k < put.len() implies (#[trigger] put[k]).filename
            == mods[k].filename by {
            if k == k0 {
            } else {
            }
        }
        assert forall|k: int|
            0 <= k < put.len() && (#[trigger] put[k]).filename == f implies put[k] == e by {
            if k != k0 {
                if k < k0 {
                    assert(mods[k].filename != mods[k0].filename);
                } else {
                    assert(mods[k0].filename != mods[k].filename);
                }
            }
        }
    } else {
        assert(put == mods.push(e));
        assert(put[mods.len() as int] == e);
        assert(has_mod_file(put, f));
        assert forall|k: int|
            0 <= k < put.len() && (#[trigger] put[k]).filename == f implies put[k] == e by {
            if k < mods.len() {
                assert(mods[k].filename == f);
                assert(has_mod_file(mods, f));
            }
        }
        assert forall|i: int, j: int| 0 <= i < j < put.len() implies (#[trigger] put[i]).filename
            != (#[trigger] put[j]).filename by {
            if j < mods.len() {
            } else {
                assert(put[i] == mods[i]);
                if put[i].filename == f {
                    assert(has_mod_file(mods, f));
                }
            }
        }
    }
}

/// In a well-formed `mods/` directory the file index of any held filename is
/// the one place that filename occurs.
pub proof fn lemma_mod_file_index(mods: Seq<ModEntryView>, k: int)
    requires
        mods_wf(mods),
        0 <= k < mods.len(),
    ensures
        has_mod_file(mods, mods[k].filename),
        mod_file_index(mods, mods[k].filename) == k,
{
    assert(has_mod_file(mods, mods[k].filename));
    let j = mod_file_index(mods, mods[k].filename);
    if j < k {
        assert(mods[j].filename != mods[k].filename);
    } else if j > k {
        assert(mods[k].filename != mods[j].filename);
    }
}

/// In a well-formed store the directory index of any held slug is the one
/// place that slug occurs.
pub proof fn lemma_dir_index(s: StoreView, i: int)
    requires
        s.wf(),
        0 <= i < s.dirs.len(),
    ensures
        has_dir(s, s.dirs[i].slug),
        dir_index(s, s.dirs[i].slug) == i,
        dir_at(s, s.dirs[i].slug) == s.dirs[i],
{
    let g = s.dirs[i].slug;
    assert(has_dir(s, g));
    let j = dir_index(s, g);
    if j < i {
        assert(s.dirs[j].slug != s.dirs[i].slug);
    } else if j > i {
        assert(s.dirs[i].slug != s.dirs[j].slug);
    }
}

/// Find the index of the `mods/` file named `f`, if any.
fn find_mod_file(mods: &Vec<ModEntry>, f: &String) -> (r: Option<usize>)
    ensures
        match r {
            Some(k) => k < mods@.len() && mods@.map_values(|me: ModEntry| me@)[k as int].filename
                == f@,
            None => !has_mod_file(mods@.map_values(|me: ModEntry| me@), f@),
        },
{
    let ghost mv = mods@.map_values(|me: ModEntry| me@);
    let mut k: usize = 0;
    while k < mods.len()
        invariant
            k <= mods.len(),
            mv == mods@.map_values(|me: ModEntry| me@),
            forall|j: int| 0 <= j < k ==> (#[trigger] mv[j]).filename != f@,
        decreases mods.len() - k,
    {
        let me = &mods[k];
        if me.filename == *f {
            return Some(k);
        }
        k = k + 1;
    }
    None
}

/// Find the index of the directory named `slug`, if any.
fn find_dir(store: &ProfileStore, slug: &String) -> (r: Option<usize>)
    ensures
        match r {
            Some(i) => i < store@.dirs.len() && store@.dirs[i as int].slug == slug@,
            None => !has_dir(store@, slug@),
        },
{
    let mut i: usize = 0;
    while i < store.dirs.len()
        invariant
            i <= store.dirs.len(),
            forall|j: int| 0 <= j < i ==> (#[trigger] store@.dirs[j]).slug != slug@,
        decreases store.dirs.len() - i,
    {
        let d = &store.dirs[i];
        if d.slug == *slug {
            return Some(i);
        }
        i = i + 1;
    }
    None
}

impl ProfileStore {
    /// The image of a base directory with no profiles and no marker.
    pub fn empty() -> (r: ProfileStore)
        ensures
            r@ == (StoreView { dirs: Seq::<DirView>::empty(), selected: None }),
            r@.wf(),
    {
        let r = ProfileStore { dirs: Vec::new(), selected: None };
        proof {
            assert(r@.dirs =~= Seq::<DirView>::empty());
        }
        r
    }

    /// The selection marker's contents: the selected slug, or nothing. A
    /// missing marker is the valid "nothing selected" state, not an error.
    pub fn current(&self) -> (r: Option<String>)
        ensures
            opt_view(r) == self@.selected,
    {
        clone_opt_string(&self.selected)
    }
}

/// Mathematical image of an optional borrowed name.
pub open spec fn opt_str_view(o: Option<&str>) -> Option<Seq<char>> {
    match o {
        Option::None => None,
        Option::Some(s) => Some(s@),
    }
}

/// The path `directory` returns: the profiles root, or one profile's
/// directory under it.
pub open spec fn directory_of(id: Option<Seq<char>>) -> Seq<char> {
    match id {
        None => "profiles"@,
        Some(g) => "profiles/"@ + g,
    }
}

/// Load one directory entry as a profile: decode outcome of its config,
/// loader resolution, and reopened version-control capability.
fn load_entry(d: &DirEntry) -> (r: Result<Profile, Error>)
    ensures
        profile_result_view(r) == entry_profile(d@),
{
    match &d.config {
        ConfigFile::Missing => Err(Error::NotFound),
        ConfigFile::Malformed => Err(Error::Malformed),
        ConfigFile::Valid(c) => match resolve_loader(&c.versions) {
            Err(e) => Err(e),
            Ok(l) => Ok(
                Profile {
                    config: c.clone(),
                    slug: d.slug.clone(),
                    loader: l,
                    repo: if d.has_repo {
                        Some(VcsHandle {})
                    } else {
                        None
                    },
                },
            ),
        },
    }
}

impl Profile {
    /// The path of the profiles root, or of one profile's directory,
    /// relative to the application's base directory.
    pub fn directory(id: Option<&str>) -> (r: String)
        ensures
            r@ == directory_of(opt_str_view(id)),
    {
        proof {
            reveal_strlit("profiles");
            reveal_strlit("profiles/");
        }
        let mut r = String::from_str("profiles");
        match id {
            None => r,
            Some(g) => {
                r.push('/');
                r.append(g);
                proof {
                    assert(r@ =~= "profiles/"@ + g@);
                }
                r
            },
        }
    }

    /// The identifiers of the valid profiles: the names of exactly those
    /// directories holding a readable config with a derivable loader, in
    /// directory order.
    pub fn used_ids(store: &ProfileStore) -> (r: Vec<String>)
        ensures
            r@.map_values(|x: String| x@) == used_ids_of(store@.dirs),
    {
        let mut r: Vec<String> = Vec::new();
        let mut i: usize = 0;
        proof {
            assert(store@.dirs.take(0) =~= Seq::<DirView>::empty());
            assert(r@.map_values(|x: String| x@) =~= used_ids_of(store@.dirs.take(0)));
        }
        while i < store.dirs.len()
            invariant
                i <= store.dirs.len(),
                r@.map_values(|x: String| x@) == used_ids_of(store@.dirs.take(i as int)),
            decreases store.dirs.len() - i,
        {
            let d = &store.dirs[i];
            let valid = match &d.config {
                ConfigFile::Valid(c) => resolve_loader(&c.versions).is_ok(),
                ConfigFile::Malformed => false,
                ConfigFile::Missing => false,
            };
            proof {
                assert(valid == (entry_profile(store@.dirs[i as int]) is Ok));
                assert(store@.dirs.take(i as int + 1).drop_last() =~= store@.dirs.take(i as int));
                assert(store@.dirs.take(i as int + 1).last() == store@.dirs[i as int]);
            }
            if valid {
                r.push(d.slug.clone());
                proof {
                    assert(r@.map_values(|x: String| x@) =~= used_ids_of(
                        store@.dirs.take(i as int + 1),
                    ));
                }
            }
            i = i + 1;
        }
        proof {
            assert(store@.dirs.take(store@.dirs.len() as int) =~= store@.dirs);
        }
        r
    }

    /// Create a profile from `config`: resolve the loader before any other
    /// step, derive the slug, refuse a slug whose directory already exists,
    /// and only then lay down the directory with its config and an empty
    /// `mods/`. `vcs` is the best-effort version-control capability the
    /// caller set up; it never affects success.
    pub fn new(store: &mut ProfileStore, config: Config, vcs: Option<VcsHandle>) -> (r: Result<
        Profile,
        Error,
    >)
        requires
            old(store)@.wf(),
        ensures
            final(store)@ == create_transition(old(store)@, config@, vcs is Some),
            profile_result_view(r) == create_result(old(store)@, config@, vcs is Some),
            final(store)@.wf(),
            r matches Ok(p) ==> p@.wf(),
    {
        let loader = match resolve_loader(&config.versions) {
            Err(e) => {
                return Err(e);
            },
            Ok(l) => l,
        };
        let slug = slugify(config.name.as_str());
        match find_dir(store, &slug) {
            Some(_) => {
                return Err(Error::AlreadyExists);
            },
            None => {},
        };
        let has_repo = vcs.is_some();
        let entry = DirEntry {
            slug: slug.clone(),
            config: ConfigFile::Valid(config.clone()),
            mods: Vec::new(),
            has_repo,
        };
        proof {
            assert(entry@.mods =~= Seq::<ModEntryView>::empty());
        }
        store.dirs.push(entry);
        proof {
            let s0 = old(store)@;
            let dv = DirView {
                slug: slug_of(config@.name),
                config: ConfigFileView::Valid(config@),
                mods: Seq::<ModEntryView>::empty(),
                has_repo: vcs is Some,
            };
            assert(store@.dirs =~= s0.dirs.push(dv));
            assert(store@ == create_transition(s0, config@, vcs is Some));
            assert forall|i: int, j: int|
                0 <= i < j < store@.dirs.len() implies (#[trigger] store@.dirs[i]).slug != (
            #[trigger] store@.dirs[j]).slug by {
                if j == s0.dirs.len() {
                    assert(store@.dirs[i] == s0.dirs[i]);
                }
            }
            assert forall|i: int| 0 <= i < store@.dirs.len() implies mods_wf(
                (#[trigger] store@.dirs[i]).mods,
            ) by {
                if i < s0.dirs.len() {
                    assert(store@.dirs[i] == s0.dirs[i]);
                }
            }
        }
        Ok(Profile { config, slug, loader, repo: vcs })
    }

    /// Load the profile named `id`: its decoded config, the loader the
    /// config re-derives, and the reopened version-control capability.
    pub fn load(store: &ProfileStore, id: &str) -> (r: Result<Profile, Error>)
        requires
            store@.wf(),
        ensures
            profile_result_view(r) == load_result(store@, id@),
    {
        let key = String::from_str(id);
        match find_dir(store, &key) {
            None => Err(Error::NotFound),
            Some(i) => {
                proof {
                    lemma_dir_index(store@, i as int);
                }
                load_entry(&store.dirs[i])
            },
        }
    }

    /// Load every profile directory, one result per directory: a malformed
    /// or loader-ambiguous entry fails alone and never aborts the rest.
    pub fn load_all(store: &ProfileStore) -> (r: Vec<Result<Profile, Error>>)
        ensures
            r@.len() == store@.dirs.len(),
            forall|i: int|
                0 <= i < r@.len() ==> profile_result_view(#[trigger] r@[i]) == entry_profile(
                    store@.dirs[i],
                ),
    {
        let mut r: Vec<Result<Profile, Error>> = Vec::new();
        let mut i: usize = 0;
        while i < store.dirs.len()
            invariant
                i <= store.dirs.len(),
                r@.len() == i,
                forall|j: int|
                    0 <= j < i ==> profile_result_view(#[trigger] r@[j]) == entry_profile(
                        store@.dirs[j],
                    ),
            decreases store.dirs.len() - i,
        {
            r.push(load_entry(&store.dirs[i]));
            i = i + 1;
        }
        r
    }

    /// Load the profile the selection marker names. An absent marker, or a
    /// selection naming no directory with a readable config, is
    /// `SelectedProfileMissing`, never a raw not-found; reads validate what
    /// writes did not.
    pub fn load_selected(store: &ProfileStore) -> (r: Result<Profile, Error>)
        requires
            store@.wf(),
        ensures
            profile_result_view(r) == load_selected_result(store@),
    {
        match &store.selected {
            None => Err(Error::SelectedProfileMissing),
            Some(g) => match Self::load(store, g.as_str()) {
                Err(Error::NotFound) => Err(Error::SelectedProfileMissing),
                Err(Error::Malformed) => Err(Error::SelectedProfileMissing),
                r => r,
            },
        }
    }

    /// Make this profile the selected one: overwrite the marker with the
    /// slug of the profile's name, as creation derives it. Nothing validates
    /// the slug at write time; reads validate.
    pub fn select(&self, store: &mut ProfileStore)
        ensures
            final(store)@ == select_transition(old(store)@, slug_of(self.config.name@)),
    {
        store.selected = Some(slugify(self.config.name.as_str()));
    }

    /// Whether the selection marker names this profile, by the slug of its
    /// name.
    pub fn is_selected(&self, store: &ProfileStore) -> (r: bool)
        ensures
            r == selected_is(store@, slug_of(self.config.name@)),
    {
        let g = slugify(self.config.name.as_str());
        match &store.selected {
            None => false,
            Some(s) => *s == g,
        }
    }

    /// Attach a mod record to this profile: write it at
    /// `mods/<slug>.mm.toml`, overwriting any record of the same mod slug
    /// (update semantics, never duplication).
    pub fn add_mod(&self, store: &mut ProfileStore, m: &Mod) -> (r: Result<(), Error>)
        requires
            old(store)@.wf(),
        ensures
            r == add_mod_result(old(store)@, self.slug@),
            final(store)@ == add_mod_transition(old(store)@, self.slug@, m@),
            final(store)@.wf(),
    {
        let i = match find_dir(store, &self.slug) {
            None => {
                return Err(Error::NotFound);
            },
            Some(i) => i,
        };
        proof {
            lemma_dir_index(old(store)@, i as int);
        }
        let filename = m.slug.clone().concat(".mm.toml");
        let entry = ModEntry { filename, file: ModFile::Valid(m.clone()) };
        let mut d = store.dirs.remove(i);
        let ghost mods0 = d@.mods;
        let k_opt = find_mod_file(&d.mods, &entry.filename);
        proof {
            lemma_put_mod(mods0, m@);
        }
        match k_opt {
            Some(k) => {
                proof {
                    assert(mods0[k as int].filename == entry@.filename);
                    lemma_mod_file_index(mods0, k as int);
                }
                d.mods.remove(k);
                d.mods.insert(k, entry);
                proof {
                    assert(d@.mods =~= mods0.update(k as int, entry@));
                }
            },
            None => {
                proof {
                    assert(!has_mod_file(mods0, entry@.filename));
                }
                d.mods.push(entry);
            },
        };
        store.dirs.insert(i, d);
        proof {
            let s0 = old(store)@;
            assert(entry@.filename == mod_filename(m@.slug));
            assert(d@.mods =~= put_mod(mods0, m@));
            assert(store@.dirs =~= s0.dirs.update(i as int, d@));
            assert(store@ == add_mod_transition(s0, self.slug@, m@));
            assert forall|a: int, b: int|
                0 <= a < b < store@.dirs.len() implies (#[trigger] store@.dirs[a]).slug != (
            #[trigger] store@.dirs[b]).slug by {
                assert(store@.dirs[a].slug == s0.dirs[a].slug);
                assert(store@.dirs[b].slug == s0.dirs[b].slug);
            }
            assert forall|a: int| 0 <= a < store@.dirs.len() implies mods_wf(
                (#[trigger] store@.dirs[a]).mods,
            ) by {
                if a != i as int {
                    assert(store@.dirs[a] == s0.dirs[a]);
                }
            }
        }
        Ok(())
    }

    /// Read this profile's mod records, one result per file in `mods/`: a
    /// malformed file fails alone and never aborts the rest.
    pub fn get_mods(&self, store: &ProfileStore) -> (r: Result<Vec<Result<Mod, Error>>, Error>)
        requires
            store@.wf(),
        ensures
            match r {
                Err(e) => !has_dir(store@, self.slug@) && e == Error::NotFound,
                Ok(v) => has_dir(store@, self.slug@) && v@.len() == dir_at(
                    store@,
                    self.slug@,
                ).mods.len() && (forall|k: int|
                    0 <= k < v@.len() ==> mod_result_view(#[trigger] v@[k]) == mod_results(
                        dir_at(store@, self.slug@).mods,
                    )[k]),
            },
    {
        let i = match find_dir(store, &self.slug) {
            None => {
                return Err(Error::NotFound);
            },
            Some(i) => i,
        };
        proof {
            lemma_dir_index(store@, i as int);
        }
        let d = &store.dirs[i];
        let mut v: Vec<Result<Mod, Error>> = Vec::new();
        let mut k: usize = 0;
        while k < d.mods.len()
            invariant
                k <= d.mods.len(),
                v@.len() == k,
                forall|j: int|
                    0 <= j < k ==> mod_result_view(#[trigger] v@[j]) == mod_results(d@.mods)[j],
            decreases d.mods.len() - k,
        {
            match &d.mods[k].file {
                ModFile::Valid(m) => v.push(Ok(m.clone())),
                ModFile::Malformed => v.push(Err(Error::Malformed)),
            };
            k = k + 1;
        }
        Ok(v)
    }

    /// Delete this profile's directory; a selection naming it is cleared
    /// rather than left dangling.
    pub fn delete(&self, store: &mut ProfileStore) -> (r: Result<(), Error>)
        requires
            old(store)@.wf(),
        ensures
            r == delete_result(old(store)@, self.slug@),
            final(store)@ == delete_transition(old(store)@, self.slug@),
            final(store)@.wf(),
    {
        let i = match find_dir(store, &self.slug) {
            None => {
                return Err(Error::NotFound);
            },
            Some(i) => i,
        };
        proof {
            lemma_dir_index(old(store)@, i as int);
        }
        store.dirs.remove(i);
        let clear = match &store.selected {
            None => false,
            Some(s) => *s == self.slug,
        };
        if clear {
            store.selected = None;
        }
        proof {
            let s0 = old(store)@;
            assert(store@.dirs =~= s0.dirs.remove(i as int));
            assert(store@ == delete_transition(s0, self.slug@));
            assert forall|a: int, b: int|
                0 <= a < b < store@.dirs.len() implies (#[trigger] store@.dirs[a]).slug != (
            #[trigger] store@.dirs[b]).slug by {
                let pa = if a < i as int { a } else { a + 1 };
                let pb = if b < i as int { b } else { b + 1 };
                assert(store@.dirs[a] == s0.dirs[pa]);
                assert(store@.dirs[b] == s0.dirs[pb]);
            }
            assert forall|a: int| 0 <= a < store@.dirs.len() implies mods_wf(
                (#[trigger] store@.dirs[a]).mods,
            ) by {
                let pa = if a < i as int { a } else { a + 1 };
                assert(store@.dirs[a] == s0.dirs[pa]);
            }
        }
        Ok(())
    }
}

} // verus!
