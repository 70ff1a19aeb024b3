use modman::determine_loader;
use modman::parse;
use modman::Command;
use modman::Config;
use modman::Op;
use modman::Subcommands;
use modman::VcsHandle;
use modman::ViewArgs;
use modman::ConfigFile;
use modman::ConfigVersions;
use modman::DependencyType;
use modman::DirEntry;
use modman::Error;
use modman::Loader;
use modman::Mod;
use modman::ModEntry;
use modman::ModFile;
use modman::Profile;
use modman::ProfileStore;

fn versions(
    fabric: Option<&str>,
    forge: Option<&str>,
    quilt: Option<&str>,
) -> ConfigVersions {
    ConfigVersions {
        fabric: fabric.map(|s| s.to_string()),
        forge: forge.map(|s| s.to_string()),
        quilt: quilt.map(|s| s.to_string()),
    }
}

fn config(name: &str, vs: ConfigVersions) -> Config {
    Config { name: name.to_string(), versions: vs }
}

fn a_mod(slug: &str, name: &str) -> Mod {
    Mod {
        name: name.to_string(),
        filename: format!("{}.jar", slug),
        slug: slug.to_string(),
        url: format!("https://mods.example/{}", slug),
        dependencies: vec![(DependencyType::Required, "fabric-api".to_string())],
        loader: Loader::Fabric,
        minecraft_version: "1.20.1".to_string(),
    }
}

#[test]
fn create_lays_down_profile() {
    let mut store = ProfileStore::empty();
    let p = Profile::new(&mut store, config("My Pack", versions(Some("1.20.1"), None, None)), None)
        .expect("create should succeed");
    assert_eq!(p.slug, "my-pack");
    assert_eq!(p.loader, Loader::Fabric);
    assert_eq!(p.config.name, "My Pack");
    assert!(p.repo.is_none());
    assert_eq!(store.dirs.len(), 1);
    assert_eq!(store.dirs[0].slug, "my-pack");
    assert!(store.dirs[0].mods.is_empty());
    let ids = Profile::used_ids(&store);
    assert_eq!(ids, vec!["my-pack".to_string()]);
}

#[test]
fn create_collision_on_equal_slugs() {
    let mut store = ProfileStore::empty();
    Profile::new(&mut store, config("My Pack", versions(Some("1.20.1"), None, None)), None)
        .expect("first create should succeed");
    let second =
        Profile::new(&mut store, config("my-pack", versions(None, Some("1.19.2"), None)), None);
    assert!(matches!(second, Err(Error::AlreadyExists)));
    assert_eq!(store.dirs.len(), 1, "the second create must not add a directory");
}

#[test]
fn load_after_create_reconstructs_profile() {
    let mut store = ProfileStore::empty();
    let created =
        Profile::new(&mut store, config("My Pack", versions(None, None, Some("1.19.4"))), None)
            .expect("create should succeed");
    let loaded = Profile::load(&store, "my-pack").expect("load should succeed");
    assert_eq!(loaded.config.name, created.config.name);
    assert_eq!(loaded.config.versions.quilt, created.config.versions.quilt);
    assert_eq!(loaded.config.versions.fabric, None);
    assert_eq!(loaded.config.versions.forge, None);
    assert_eq!(loaded.slug, created.slug);
    assert_eq!(loaded.loader, created.loader);
    assert_eq!(loaded.loader, Loader::Quilt);
}

#[test]
fn zero_version_fields_fail_without_state() {
    let mut store = ProfileStore::empty();
    let r = Profile::new(&mut store, config("Empty", versions(None, None, None)), None);
    assert!(matches!(r, Err(Error::NoLoader)));
    assert_eq!(store.dirs.len(), 0, "a failed create must leave no directory");
}

#[test]
fn two_version_fields_fail_without_state() {
    let mut store = ProfileStore::empty();
    let r = Profile::new(
        &mut store,
        config("Torn", versions(Some("1.20.1"), Some("1.19.2"), None)),
        None,
    );
    assert!(matches!(r, Err(Error::AmbiguousLoader)));
    assert_eq!(store.dirs.len(), 0, "a failed create must leave no directory");
}

#[test]
fn ambiguous_config_fails_load_too() {
    let mut store = ProfileStore::empty();
    store.dirs.push(DirEntry {
        slug: "torn".to_string(),
        config: ConfigFile::Valid(config(
            "Torn",
            versions(Some("1.20.1"), Some("1.19.2"), None),
        )),
        mods: Vec::new(),
        has_repo: false,
    });
    let r = Profile::load(&store, "torn");
    assert!(matches!(r, Err(Error::AmbiguousLoader)));
}

#[test]
fn loader_priority_is_fabric_forge_quilt() {
    assert_eq!(
        determine_loader(&versions(Some("1.20.1"), Some("1.19.2"), Some("1.19.4"))),
        Some(Loader::Fabric)
    );
    assert_eq!(
        determine_loader(&versions(None, Some("1.19.2"), Some("1.19.4"))),
        Some(Loader::Forge)
    );
    assert_eq!(determine_loader(&versions(None, None, Some("1.19.4"))), Some(Loader::Quilt));
    assert_eq!(determine_loader(&versions(None, None, None)), None);
}

#[test]
fn select_then_is_selected() {
    let mut store = ProfileStore::empty();
    let p = Profile::new(&mut store, config("Pack A", versions(Some("1.20.1"), None, None)), None)
        .expect("create should succeed");
    assert!(!p.is_selected(&store));
    p.select(&mut store);
    assert!(p.is_selected(&store));
    assert_eq!(store.current(), Some("pack-a".to_string()));
}

#[test]
fn delete_selected_clears_selection() {
    let mut store = ProfileStore::empty();
    let p = Profile::new(&mut store, config("Pack A", versions(Some("1.20.1"), None, None)), None)
        .expect("create should succeed");
    p.select(&mut store);
    p.delete(&mut store).expect("delete should succeed");
    assert_eq!(store.current(), None, "no dangling selection may remain");
    assert_eq!(store.dirs.len(), 0);
    assert!(matches!(Profile::load_selected(&store), Err(Error::SelectedProfileMissing)));
}

#[test]
fn delete_keeps_unrelated_selection() {
    let mut store = ProfileStore::empty();
    let a = Profile::new(&mut store, config("Pack A", versions(Some("1.20.1"), None, None)), None)
        .expect("create should succeed");
    let b = Profile::new(&mut store, config("Pack B", versions(None, Some("1.19.2"), None)), None)
        .expect("create should succeed");
    a.select(&mut store);
    b.delete(&mut store).expect("delete should succeed");
    assert_eq!(store.current(), Some("pack-a".to_string()));
}

#[test]
fn add_mod_twice_overwrites() {
    let mut store = ProfileStore::empty();
    let p = Profile::new(&mut store, config("Pack A", versions(Some("1.20.1"), None, None)), None)
        .expect("create should succeed");
    let first = a_mod("sodium", "Sodium (old)");
    let mut second = a_mod("sodium", "Sodium (new)");
    second.url = "https://mods.example/sodium-new".to_string();
    p.add_mod(&mut store, &first).expect("first add should succeed");
    p.add_mod(&mut store, &second).expect("second add should succeed");
    let mods = p.get_mods(&store).expect("get_mods should succeed");
    assert_eq!(mods.len(), 1, "overwrite, not duplication");
    let only = mods[0].as_ref().expect("the record should be well-formed");
    assert_eq!(only.name, "Sodium (new)");
    assert_eq!(only.url, "https://mods.example/sodium-new");
    assert_eq!(store.dirs[0].mods[0].filename, "sodium.mm.toml");
}

#[test]
fn add_mod_keeps_distinct_slugs() {
    let mut store = ProfileStore::empty();
    let p = Profile::new(&mut store, config("Pack A", versions(Some("1.20.1"), None, None)), None)
        .expect("create should succeed");
    p.add_mod(&mut store, &a_mod("sodium", "Sodium")).expect("add should succeed");
    p.add_mod(&mut store, &a_mod("lithium", "Lithium")).expect("add should succeed");
    let mods = p.get_mods(&store).expect("get_mods should succeed");
    assert_eq!(mods.len(), 2);
}

#[test]
fn add_mod_to_missing_profile_fails() {
    let mut store = ProfileStore::empty();
    let p = Profile::new(&mut store, config("Pack A", versions(Some("1.20.1"), None, None)), None)
        .expect("create should succeed");
    p.delete(&mut store).expect("delete should succeed");
    let r = p.add_mod(&mut store, &a_mod("sodium", "Sodium"));
    assert!(matches!(r, Err(Error::NotFound)));
}

#[test]
fn get_mods_reports_malformed_per_entry() {
    let mut store = ProfileStore::empty();
    let p = Profile::new(&mut store, config("Pack A", versions(Some("1.20.1"), None, None)), None)
        .expect("create should succeed");
    p.add_mod(&mut store, &a_mod("sodium", "Sodium")).expect("add should succeed");
    store.dirs[0].mods.push(ModEntry {
        filename: "broken.mm.toml".to_string(),
        file: ModFile::Malformed,
    });
    p.add_mod(&mut store, &a_mod("lithium", "Lithium")).expect("add should succeed");
    let mods = p.get_mods(&store).expect("the whole read must not abort");
    assert_eq!(mods.len(), 3);
    let ok: Vec<&Mod> = mods.iter().filter_map(|r| r.as_ref().ok()).collect();
    assert_eq!(ok.len(), 2);
    assert_eq!(ok[0].slug, "sodium");
    assert_eq!(ok[1].slug, "lithium");
    assert!(matches!(mods[1], Err(Error::Malformed)));
}

#[test]
fn load_all_fails_per_entry_only() {
    let mut store = ProfileStore::empty();
    Profile::new(&mut store, config("Good One", versions(Some("1.20.1"), None, None)), None)
        .expect("create should succeed");
    store.dirs.push(DirEntry {
        slug: "broken".to_string(),
        config: ConfigFile::Malformed,
        mods: Vec::new(),
        has_repo: false,
    });
    store.dirs.push(DirEntry {
        slug: "no-config".to_string(),
        config: ConfigFile::Missing,
        mods: Vec::new(),
        has_repo: false,
    });
    Profile::new(&mut store, config("Good Two", versions(None, Some("1.19.2"), None)), None)
        .expect("create should succeed");
    let all = Profile::load_all(&store);
    assert_eq!(all.len(), 4);
    assert_eq!(all[0].as_ref().expect("entry loads").slug, "good-one");
    assert!(matches!(all[1], Err(Error::Malformed)));
    assert!(matches!(all[2], Err(Error::NotFound)));
    assert_eq!(all[3].as_ref().expect("entry loads").slug, "good-two");
}

#[test]
fn load_missing_profile_fails() {
    let store = ProfileStore::empty();
    assert!(matches!(Profile::load(&store, "nowhere"), Err(Error::NotFound)));
}

#[test]
fn load_selected_validates_at_read_time() {
    let mut store = ProfileStore::empty();
    assert!(matches!(Profile::load_selected(&store), Err(Error::SelectedProfileMissing)));
    store.selected = Some("ghost".to_string());
    assert!(matches!(Profile::load_selected(&store), Err(Error::SelectedProfileMissing)));
    let p = Profile::new(&mut store, config("Real", versions(Some("1.20.1"), None, None)), None)
        .expect("create should succeed");
    p.select(&mut store);
    let loaded = Profile::load_selected(&store).expect("the selected profile loads");
    assert_eq!(loaded.slug, "real");
}

#[test]
fn vcs_handle_never_affects_success() {
    let mut with = ProfileStore::empty();
    let mut without = ProfileStore::empty();
    let pw =
        Profile::new(&mut with, config("Pack", versions(Some("1.20.1"), None, None)), Some(VcsHandle {}))
            .expect("create with a handle succeeds");
    let po = Profile::new(&mut without, config("Pack", versions(Some("1.20.1"), None, None)), None)
        .expect("create without a handle succeeds");
    assert!(pw.repo.is_some());
    assert!(po.repo.is_none());
    assert_eq!(pw.slug, po.slug);
    let lw = Profile::load(&with, "pack").expect("load succeeds");
    let lo = Profile::load(&without, "pack").expect("load succeeds");
    assert!(lw.repo.is_some());
    assert!(lo.repo.is_none());
    assert_eq!(lw.loader, lo.loader);
}

#[test]
fn skyfactory_scenario() {
    let mut store = ProfileStore::empty();
    let p =
        Profile::new(&mut store, config("SkyFactory", versions(None, Some("1.19.2"), None)), None)
            .expect("create should succeed");
    assert_eq!(Profile::directory(Some(&p.slug)), "profiles/skyfactory");
    assert_eq!(p.loader, Loader::Forge);
    assert_eq!(store.dirs[0].slug, "skyfactory");
    assert!(store.dirs[0].mods.is_empty(), "the mods directory starts empty");
    assert!(matches!(store.dirs[0].config, ConfigFile::Valid(_)));
    p.select(&mut store);
    assert_eq!(store.current(), Some("skyfactory".to_string()));
}

#[test]
fn directory_paths() {
    assert_eq!(Profile::directory(None), "profiles");
    assert_eq!(Profile::directory(Some("my-pack")), "profiles/my-pack");
}

#[test]
fn error_messages_name_each_failure() {
    let all = [
        Error::AlreadyExists,
        Error::NotFound,
        Error::Malformed,
        Error::NoLoader,
        Error::AmbiguousLoader,
        Error::SelectedProfileMissing,
        Error::IoFailure,
    ];
    let texts: Vec<String> = all.iter().map(|e| e.message()).collect();
    for t in &texts {
        assert!(!t.is_empty());
    }
    for i in 0..texts.len() {
        for j in 0..i {
            assert_ne!(texts[i], texts[j]);
        }
    }
}

#[test]
fn parse_dispatches_each_subcommand() {
    assert!(matches!(
        parse(Command { subcommand: Subcommands::Create }),
        Op::CreateProfile
    ));
    assert!(matches!(
        parse(Command { subcommand: Subcommands::Select }),
        Op::SelectProfile
    ));
    assert!(matches!(
        parse(Command { subcommand: Subcommands::Backup }),
        Op::BackupProfiles
    ));
    match parse(Command {
        subcommand: Subcommands::View(ViewArgs { id: Some("my-pack".to_string()) }),
    }) {
        Op::ViewProfile(Some(id)) => assert_eq!(id, "my-pack"),
        other => panic!("wrong dispatch: {:?}", std::mem::discriminant(&other)),
    }
}

#[test]
fn profiles_compare_by_name() {
    let mut one = ProfileStore::empty();
    let mut two = ProfileStore::empty();
    let a = Profile::new(&mut one, config("Pack", versions(Some("1.20.1"), None, None)), None)
        .expect("create should succeed");
    let b = Profile::new(&mut two, config("Pack", versions(None, Some("1.19.2"), None)), None)
        .expect("create should succeed");
    let c = Profile::new(&mut two, config("Other", versions(None, Some("1.19.2"), None)), None)
        .expect("create should succeed");
    assert!(a == b, "same name, same profile identity");
    assert!(a != c);
}

#[test]
fn used_ids_lists_only_valid_profiles() {
    let mut store = ProfileStore::empty();
    Profile::new(&mut store, config("Good One", versions(Some("1.20.1"), None, None)), None)
        .expect("create should succeed");
    store.dirs.push(DirEntry {
        slug: "broken".to_string(),
        config: ConfigFile::Malformed,
        mods: Vec::new(),
        has_repo: false,
    });
    store.dirs.push(DirEntry {
        slug: "no-config".to_string(),
        config: ConfigFile::Missing,
        mods: Vec::new(),
        has_repo: false,
    });
    store.dirs.push(DirEntry {
        slug: "torn".to_string(),
        config: ConfigFile::Valid(config(
            "Torn",
            versions(Some("1.20.1"), Some("1.19.2"), None),
        )),
        mods: Vec::new(),
        has_repo: false,
    });
    Profile::new(&mut store, config("Good Two", versions(None, Some("1.19.2"), None)), None)
        .expect("create should succeed");
    let ids = Profile::used_ids(&store);
    assert_eq!(ids, vec!["good-one".to_string(), "good-two".to_string()]);
}

#[test]
fn selection_of_malformed_profile_reports_missing() {
    let mut store = ProfileStore::empty();
    store.dirs.push(DirEntry {
        slug: "broken".to_string(),
        config: ConfigFile::Malformed,
        mods: Vec::new(),
        has_repo: false,
    });
    store.selected = Some("broken".to_string());
    assert!(matches!(Profile::load_selected(&store), Err(Error::SelectedProfileMissing)));
}

#[test]
fn selection_of_ambiguous_profile_keeps_its_error() {
    let mut store = ProfileStore::empty();
    store.dirs.push(DirEntry {
        slug: "torn".to_string(),
        config: ConfigFile::Valid(config(
            "Torn",
            versions(Some("1.20.1"), Some("1.19.2"), None),
        )),
        mods: Vec::new(),
        has_repo: false,
    });
    store.selected = Some("torn".to_string());
    assert!(matches!(Profile::load_selected(&store), Err(Error::AmbiguousLoader)));
}

#[test]
fn selecting_a_slug_named_profile_keeps_the_marker() {
    let mut store = ProfileStore::empty();
    let p = Profile::new(&mut store, config("My Pack", versions(Some("1.20.1"), None, None)), None)
        .expect("create should succeed");
    p.select(&mut store);
    assert_eq!(store.current(), Some("my-pack".to_string()));
    let q = Profile {
        config: config("my-pack", versions(Some("1.20.1"), None, None)),
        slug: "my-pack".to_string(),
        loader: Loader::Fabric,
        repo: None,
    };
    q.select(&mut store);
    assert_eq!(store.current(), Some("my-pack".to_string()), "re-slugging a slug changes nothing");
    assert!(q.is_selected(&store));
    assert!(p.is_selected(&store), "both profiles name the same marker");
}

#[test]
fn select_derives_the_slug_from_the_name() {
    let mut store = ProfileStore::empty();
    Profile::new(&mut store, config("Pack A", versions(Some("1.20.1"), None, None)), None)
        .expect("create should succeed");
    let q = Profile {
        config: config("Pack A", versions(Some("1.20.1"), None, None)),
        slug: "stale-cache".to_string(),
        loader: Loader::Fabric,
        repo: None,
    };
    q.select(&mut store);
    assert_eq!(store.current(), Some("pack-a".to_string()));
    assert!(q.is_selected(&store));
}
