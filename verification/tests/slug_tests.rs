use modman::slugify;

#[test]
fn slugify_lowercases_and_separates() {
    assert_eq!(slugify("My Pack"), "my-pack");
    assert_eq!(slugify("SkyFactory"), "skyfactory");
    assert_eq!(slugify("already-a-slug"), "already-a-slug");
}

#[test]
fn slugify_collapses_whitespace_runs() {
    assert_eq!(slugify("a \t b"), "a-b");
    assert_eq!(slugify("one  two\nthree"), "one-two-three");
    assert_eq!(slugify(" padded "), "-padded-");
}

#[test]
fn slugify_keeps_punctuation_and_unicode() {
    assert_eq!(slugify("Mod.Pack_v2!"), "mod.pack_v2!");
    assert_eq!(slugify("Crème Brûlée"), "crème-brûlée");
}

#[test]
fn slugify_is_idempotent() {
    for name in ["My Pack", "  lots   of space ", "ALLCAPS", "", "a\tb\r\nc"] {
        let once = slugify(name);
        let twice = slugify(&once);
        assert_eq!(once, twice);
    }
}

#[test]
fn slugify_empty_is_empty() {
    assert_eq!(slugify(""), "");
}
