//! Slug generation: a filesystem-safe identifier derived from a
//! human-readable profile name. Lowercases ASCII letters and replaces each
//! run of whitespace with a single `-`; no other normalization is applied.

use vstd::prelude::*;

verus! {

/// Relies on String::push: appends exactly the given character.
pub assume_specification[ String::push ](s: &mut String, c: char)
    ensures
        final(s)@ == old(s)@.push(c),
;

/// The whitespace characters that a slug separates on.
pub open spec fn is_space(c: char) -> bool {
    c == ' ' || c == '\t' || c == '\n' || c == '\r'
}

/// ASCII lowercasing of a single character; all others are unchanged.
pub open spec fn lower_char(c: char) -> char {
    if 65 <= c as u32 && c as u32 <= 90 {
        ((c as u32 + 32) as u8) as char
    } else {
        c
    }
}

/// The slug of the suffix `s`, given whether the character just before the
/// suffix belonged to a whitespace run that has already been separated.
pub open spec fn slug_rec(s: Seq<char>, prev_sep: bool) -> Seq<char>
    decreases s.len(),
{
    if s.len() == 0 {
        Seq::<char>::empty()
    } else if is_space(s[0]) {
        if prev_sep {
            slug_rec(s.drop_first(), true)
        } else {
            seq!['-'] + slug_rec(s.drop_first(), true)
        }
    } else {
        seq![lower_char(s[0])] + slug_rec(s.drop_first(), false)
    }
}

/// The slug of a name: ASCII-lowercased, with each whitespace run replaced
/// by a single `-`.
pub open spec fn slug_of(s: Seq<char>) -> Seq<char> {
    slug_rec(s, false)
}

fn is_space_exec(c: char) -> (r: bool)
    ensures
        r == is_space(c),
{
    c == ' ' || c == '\t' || c == '\n' || c == '\r'
}

fn lower_char_exec(c: char) -> (r: char)
    ensures
        r == lower_char(c),
{
    let u = c as u32;
    if 65 <= u && u <= 90 {
        ((u + 32) as u8) as char
    } else {
        c
    }
}

/// Derive the filesystem-safe slug of a human-readable name.
pub fn slugify(name: &str) -> (r: String)
    ensures
        r@ == slug_of(name@),
{
    let n = name.unicode_len();
    let mut out = String::new();
    let mut prev_sep = false;
    let mut i: usize = 0;
    proof {
        assert(name@.skip(0) =~= name@);
    }
    while i < n
        invariant
            i <= n,
            n == name@.len(),
            slug_of(name@) == out@ + slug_rec(name@.skip(i as int), prev_sep),
        decreases n - i,
    {
        let c = name.get_char(i);
        proof {
            assert(name@.skip(i as int).len() > 0);
            assert(name@.skip(i as int)[0] == name@[i as int]);
            assert(name@.skip(i as int).drop_first() =~= name@.skip(i as int + 1));
        }
        if is_space_exec(c) {
            if !prev_sep {
                out.push('-');
                proof {
                    assert(out@ + slug_rec(name@.skip(i as int + 1), true) =~= slug_of(
                        name@,
                    ));
                }
            }
            prev_sep = true;
        } else {
            let lc = lower_char_exec(c);
            out.push(lc);
            proof {
                assert(out@ + slug_rec(name@.skip(i as int + 1), false) =~= slug_of(name@));
            }
            prev_sep = false;
        }
        i = i + 1;
    }
    proof {
        assert(name@.skip(n as int) =~= Seq::<char>::empty());
        assert(out@ =~= slug_of(name@));
    }
    out
}

/// Every character of a slug is neither whitespace nor an uppercase ASCII
/// letter: it is fixed by `lower_char` and never separated again.
proof fn lemma_slug_chars(s: Seq<char>, prev_sep: bool)
    ensures
        forall|i: int|
            0 <= i < slug_rec(s, prev_sep).len() ==> !is_space(#[trigger] slug_rec(s, prev_sep)[i])
                && lower_char(slug_rec(s, prev_sep)[i]) == slug_rec(s, prev_sep)[i],
    decreases s.len(),
{
    if s.len() == 0 {
    } else {
        lemma_slug_chars(s.drop_first(), true);
        lemma_slug_chars(s.drop_first(), false);
        let t = slug_rec(s, prev_sep);
        if is_space(s[0]) && prev_sep {
            assert forall|i: int| 0 <= i < t.len() implies !is_space(#[trigger] t[i])
                && lower_char(t[i]) == t[i] by {
                assert(t[i] == slug_rec(s.drop_first(), true)[i]);
            }
        } else if is_space(s[0]) && !prev_sep {
            assert forall|i: int| 0 <= i < t.len() implies !is_space(#[trigger] t[i])
                && lower_char(t[i]) == t[i] by {
                if i == 0 {
                    assert(t[0] == '-');
                } else {
                    assert(t[i] == slug_rec(s.drop_first(), true)[i - 1]);
                }
            }
        } else if !is_space(s[0]) {
            assert forall|i: int| 0 <= i < t.len() implies !is_space(#[trigger] t[i])
                && lower_char(t[i]) == t[i] by {
                if i == 0 {
                    assert(t[0] == lower_char(s[0]));
                } else {
                    assert(t[i] == slug_rec(s.drop_first(), false)[i - 1]);
                }
            }
        }
    }
}

/// On a sequence with no whitespace whose characters are all fixed by
/// `lower_char`, slugging is the identity.
proof fn lemma_slug_fixed(s: Seq<char>, prev_sep: bool)
    requires
        forall|i: int|
            0 <= i < s.len() ==> !is_space(#[trigger] s[i]) && lower_char(s[i]) == s[i],
    ensures
        slug_rec(s, prev_sep) == s,
    decreases s.len(),
{
    if s.len() == 0 {
        assert(slug_rec(s, prev_sep) =~= s);
    } else {
        lemma_slug_fixed(s.drop_first(), false);
        assert(slug_rec(s, prev_sep) =~= s);
    }
}

/// Slug generation is idempotent: slugging a slug changes nothing.
pub proof fn lemma_slugify_idempotent(s: Seq<char>)
    ensures
        slug_of(slug_of(s)) == slug_of(s),
{
    lemma_slug_chars(s, false);
    lemma_slug_fixed(slug_of(s), false);
}

} // verus!
