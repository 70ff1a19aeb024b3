//! The laws of the profile lifecycle, stated and proved over the store's
//! mathematical transitions.

use vstd::prelude::*;

use crate::error::Error;
use crate::loader::resolved_loader;
use crate::loader::ConfigView;
use crate::mcmod::ModView;
use crate::slug::slug_of;
use crate::store::add_mod_transition;
use crate::store::create_result;
use crate::store::create_transition;
use crate::store::delete_transition;
use crate::store::dir_at;
use crate::store::dir_index;
use crate::store::has_dir;
use crate::store::has_mod_file;
use crate::store::lemma_put_mod;
use crate::store::load_result;
use crate::store::mod_file_index;
use crate::store::mod_filename;
use crate::store::mods_wf;
use crate::store::put_mod;
use crate::store::record_slug_is;
use crate::store::select_transition;
use crate::store::selected_is;
use crate::store::ModEntryView;
use crate::store::ModFileView;
use crate::store::ProfileView;
use crate::store::StoreView;

verus! {

/// Two configs whose names slug alike collide: once a profile is created
/// from the first, creating one from the second fails with `AlreadyExists`,
/// whatever the version-control outcomes were.
pub proof fn lemma_create_collision(
    s: StoreView,
    c1: ConfigView,
    c2: ConfigView,
    vcs1: bool,
    vcs2: bool,
)
    requires
        slug_of(c1.name) == slug_of(c2.name),
        create_result(s, c1, vcs1) is Ok,
        resolved_loader(c2.versions) is Ok,
    ensures
        create_result(create_transition(s, c1, vcs1), c2, vcs2) == Err::<ProfileView, Error>(
            Error::AlreadyExists,
        ),
{
    let s2 = create_transition(s, c1, vcs1);
    assert(s2.dirs[s.dirs.len() as int].slug == slug_of(c2.name));
    assert(has_dir(s2, slug_of(c2.name)));
}

/// Loading right after creating reconstructs the profile: the loaded
/// config, slug and loader equal the created ones, for any config with
/// exactly one version field set.
pub proof fn lemma_load_after_create(s: StoreView, c: ConfigView, vcs: bool)
    requires
        s.wf(),
        create_result(s, c, vcs) is Ok,
    ensures
        load_result(create_transition(s, c, vcs), slug_of(c.name)) == create_result(s, c, vcs),
{
    let s2 = create_transition(s, c, vcs);
    let g = slug_of(c.name);
    let n = s.dirs.len() as int;
    assert(s2.dirs[n].slug == g);
    assert(has_dir(s2, g));
    let j = dir_index(s2, g);
    assert(0 <= j < s2.dirs.len() && s2.dirs[j].slug == g);
    if j < n {
        assert(s.dirs[j] == s2.dirs[j]);
        assert(has_dir(s, g));
    }
    assert(dir_at(s2, g) == s2.dirs[n]);
}

/// A config that derives no single loader fails creation without touching
/// the store: no directory, no partial state.
pub proof fn lemma_failed_create_changes_nothing(s: StoreView, c: ConfigView, vcs: bool)
    requires
        create_result(s, c, vcs) is Err,
    ensures
        create_transition(s, c, vcs) == s,
{
}

/// Selecting a profile makes it the selected one.
pub proof fn lemma_select_then_selected(s: StoreView, g: Seq<char>)
    ensures
        selected_is(select_transition(s, g), g),
{
}

/// Deleting the selected profile clears the selection: no dangling
/// "selected but nonexistent" state remains.
pub proof fn lemma_delete_clears_selection(s: StoreView, g: Seq<char>)
    requires
        s.selected == Some(g),
        has_dir(s, g),
    ensures
        delete_transition(s, g).selected is None,
{
}

/// The version-control capability is purely additive: whether creation
/// succeeds, and with which error it fails, never depends on it.
pub proof fn lemma_vcs_never_affects_success(s: StoreView, c: ConfigView, vcs1: bool, vcs2: bool)
    ensures
        create_result(s, c, vcs1) is Ok <==> create_result(s, c, vcs2) is Ok,
        create_result(s, c, vcs1) is Err ==> create_result(s, c, vcs1) == create_result(
            s,
            c,
            vcs2,
        ),
{
}

/// Attaching two records with the same mod slug leaves exactly one file for
/// that slug, holding the second payload — and no other file holds a record
/// of that slug: an overwrite, never a duplicate.
pub proof fn lemma_add_mod_overwrites(s: StoreView, g: Seq<char>, m1: ModView, m2: ModView)
    requires
        s.wf(),
        has_dir(s, g),
        m1.slug == m2.slug,
    ensures
        ({
            let s2 = add_mod_transition(add_mod_transition(s, g, m1), g, m2);
            let mods = dir_at(s2, g).mods;
            let f = mod_filename(m2.slug);
            let e = (ModEntryView { filename: f, file: ModFileView::Valid(m2) });
            has_dir(s2, g) && mods_wf(mods) && (exists|k: int|
                0 <= k < mods.len() && (#[trigger] mods[k]) == e) && (forall|k: int|
                0 <= k < mods.len() && (#[trigger] mods[k]).filename == f ==> mods[k] == e) && (
            forall|k: int|
                0 <= k < mods.len() && record_slug_is((#[trigger] mods[k]).file, m2.slug)
                    ==> mods[k] == e)
        }),
{
    let i = dir_index(s, g);
    assert(0 <= i < s.dirs.len() && s.dirs[i].slug == g);
    let mods0 = s.dirs[i].mods;
    assert(mods_wf(mods0));
    lemma_put_mod(mods0, m1);
    let s1 = add_mod_transition(s, g, m1);
    assert(s1.dirs.len() == s.dirs.len());
    assert forall|a: int| 0 <= a < s1.dirs.len() implies (#[trigger] s1.dirs[a]).slug
        == s.dirs[a].slug by {}
    assert(has_dir(s1, g));
    let j = dir_index(s1, g);
    assert(0 <= j < s1.dirs.len() && s1.dirs[j].slug == g);
    if j < i {
        assert(s.dirs[j].slug != s.dirs[i].slug);
    } else if j > i {
        assert(s.dirs[i].slug != s.dirs[j].slug);
    }
    assert(dir_at(s1, g) == s1.dirs[i]);
    let mods1 = put_mod(mods0, m1);
    assert(dir_at(s1, g).mods == mods1);
    lemma_put_mod(mods1, m2);
    let s2 = add_mod_transition(s1, g, m2);
    assert(s2.dirs.len() == s1.dirs.len());
    assert forall|a: int| 0 <= a < s2.dirs.len() implies (#[trigger] s2.dirs[a]).slug
        == s.dirs[a].slug by {}
    assert(has_dir(s2, g));
    let j2 = dir_index(s2, g);
    if j2 < i {
        assert(s.dirs[j2].slug != s.dirs[i].slug);
    } else if j2 > i {
        assert(s.dirs[i].slug != s.dirs[j2].slug);
    }
    assert(dir_at(s2, g) == s2.dirs[i]);
    let mods2 = put_mod(mods1, m2);
    assert(dir_at(s2, g).mods == mods2);
    let f = mod_filename(m2.slug);
    assert(mod_filename(m1.slug) == f);
    assert(has_mod_file(mods1, f));
    let k = mod_file_index(mods1, f);
    assert(mods2 == mods1.update(
        k,
        (ModEntryView { filename: f, file: ModFileView::Valid(m2) }),
    ));
    assert(mods2[k] == (ModEntryView { filename: f, file: ModFileView::Valid(m2) }));
    assert forall|a: int|
        0 <= a < mods2.len() && record_slug_is((#[trigger] mods2[a]).file, m2.slug) implies mods2[a]
        == (ModEntryView { filename: f, file: ModFileView::Valid(m2) }) by {
        assert(mods_wf(mods2));
        assert(mods2[a].filename == f);
    }
}

/// Selecting a profile whose name is itself a derived slug writes that very
/// slug: slug derivation is idempotent, so selecting a profile named after
/// another profile's slug leaves the marker as that slug.
pub proof fn lemma_select_by_slug_name(s: StoreView, name: Seq<char>)
    ensures
        select_transition(s, slug_of(slug_of(name))).selected == Some(slug_of(name)),
{
    crate::slug::lemma_slugify_idempotent(name);
}

} // verus!
