//! The part of a profile's `config.json` that the desktop app reads (slug,
//! name, age, mode, stage, ...), and the order in which profiles are listed.
//!
//! Reading the profile folders from disk is left to the application; the
//! library orders what was read.

use vstd::prelude::*;

use crate::text::{lemma_lex_le_total, lemma_lex_le_transitive, lex_le, str_le};

verus! {

/// One profile as found on disk.
#[derive(Debug, Clone)]
pub struct ProfileConfig {
    pub slug: String,
    pub name: String,
    pub age: u32,
    pub nationality: String,
    pub tz: String,
    pub mode: String,
    pub stage: String,
    pub created_at: Option<String>,
}

impl ProfileConfig {
    /// A copy equal to `self`.
    pub fn duplicate(&self) -> (r: ProfileConfig)
        ensures
            r == *self,
    {
        ProfileConfig {
            slug: self.slug.clone(),
            name: self.name.clone(),
            age: self.age,
            nationality: self.nationality.clone(),
            tz: self.tz.clone(),
            mode: self.mode.clone(),
            stage: self.stage.clone(),
            created_at: match &self.created_at {
                Some(c) => Some(c.clone()),
                None => None,
            },
        }
    }
}

/// Profiles ordered by slug (the order of `String`).
pub open spec fn sorted_by_slug(s: Seq<ProfileConfig>) -> bool {
    forall|i: int, j: int| 0 <= i < j < s.len() ==> lex_le(#[trigger] s[i].slug@, #[trigger] s[j].slug@)
}

/// Whether a profile has slug `k`.
pub open spec fn has_slug(k: Seq<char>) -> spec_fn(ProfileConfig) -> bool {
    |p: ProfileConfig| p.slug@ == k
}

/// `s` ordered by slug, stably: for every slug, the profiles with that slug
/// keep their relative order.
pub open spec fn is_stable_slug_sort(s: Seq<ProfileConfig>, r: Seq<ProfileConfig>) -> bool {
    &&& sorted_by_slug(r)
    &&& forall|k: Seq<char>| #[trigger] r.filter(has_slug(k)) == s.filter(has_slug(k))
    &&& r.to_multiset() == s.to_multiset()
}

proof fn lemma_lex_le_refl(a: Seq<char>)
    ensures
        lex_le(a, a),
    decreases a.len(),
{
    if a.len() > 0 {
        lemma_lex_le_refl(a.drop_first());
    }
}

/// Inserting `x` after every profile whose slug is not greater keeps the
/// order and adds `x` behind the profiles with its slug.
proof fn lemma_insert_sorted(r: Seq<ProfileConfig>, p: int, x: ProfileConfig)
    requires
        sorted_by_slug(r),
        0 <= p <= r.len(),
        forall|j: int| 0 <= j < p ==> lex_le(#[trigger] r[j].slug@, x.slug@),
        forall|j: int| p <= j < r.len() ==> !lex_le(#[trigger] r[j].slug@, x.slug@),
    ensures
        sorted_by_slug(r.insert(p, x)),
        forall|k: Seq<char>| #[trigger] r.insert(p, x).filter(has_slug(k)) == if x.slug@ == k {
            r.filter(has_slug(k)).push(x)
        } else {
            r.filter(has_slug(k))
        },
        r.insert(p, x).to_multiset() == r.to_multiset().insert(x),
{
    let n = r.insert(p, x);
    assert(n =~= r.subrange(0, p) + seq![x] + r.subrange(p, r.len() as int));
    assert forall|i: int, j: int| 0 <= i < j < n.len() implies lex_le(
        #[trigger] n[i].slug@,
        #[trigger] n[j].slug@,
    ) by {
        if j < p {
            assert(n[i] == r[i] && n[j] == r[j]);
        } else if j == p {
            assert(n[i] == r[i]);
        } else if i < p {
            assert(n[i] == r[i] && n[j] == r[j - 1]);
            lemma_lex_le_total(r[j - 1].slug@, x.slug@);
            lemma_lex_le_transitive(r[i].slug@, x.slug@, r[j - 1].slug@);
        } else if i == p {
            assert(n[j] == r[j - 1]);
            lemma_lex_le_total(r[j - 1].slug@, x.slug@);
        } else {
            assert(n[i] == r[i - 1] && n[j] == r[j - 1]);
        }
    }
    assert forall|k: Seq<char>| #[trigger] n.filter(has_slug(k)) == if x.slug@ == k {
        r.filter(has_slug(k)).push(x)
    } else {
        r.filter(has_slug(k))
    } by {
        let f = has_slug(k);
        let a = r.subrange(0, p);
        let b = r.subrange(p, r.len() as int);
        assert(r =~= a + b);
        Seq::filter_distributes_over_add(a, b, f);
        Seq::filter_distributes_over_add(a + seq![x], b, f);
        Seq::filter_distributes_over_add(a, seq![x], f);
        reveal(Seq::filter);
        assert(seq![x].drop_last() =~= Seq::<ProfileConfig>::empty());
        assert(Seq::<ProfileConfig>::empty().filter(f) =~= Seq::<ProfileConfig>::empty());
        if x.slug@ == k {
            assert(seq![x].filter(f) =~= seq![x]);
            assert forall|j: int| 0 <= j < b.len() implies !f(#[trigger] b[j]) by {
                assert(b[j] == r[p + j]);
                if b[j].slug@ == k {
                    lemma_lex_le_refl(k);
                }
            }
            b.lemma_all_neg_filter_empty(f);
            assert(b.filter(f) =~= Seq::<ProfileConfig>::empty());
            assert(n.filter(f) =~= r.filter(f).push(x));
        } else {
            assert(seq![x].filter(f) =~= Seq::<ProfileConfig>::empty());
            assert(n.filter(f) =~= r.filter(f));
        }
    }
    r.insert_ensures(p, x);
    n.to_multiset_ensures();
    assert(n.remove(p) =~= r);
    assert(n.to_multiset().count(x) > 0);
    assert(n.to_multiset() =~= r.to_multiset().insert(x));
}

/// The profiles ordered by slug, keeping the relative order of profiles that
/// share a slug (as `sort_by` on `slug` does).
pub fn sort_by_slug(v: Vec<ProfileConfig>) -> (r: Vec<ProfileConfig>)
    ensures
        is_stable_slug_sort(v@, r@),
{
    let mut r: Vec<ProfileConfig> = Vec::new();
    let mut i: usize = 0;
    assert(r@ =~= v@.subrange(0, 0));
    while i < v.len()
        invariant
            i <= v@.len(),
            sorted_by_slug(r@),
            forall|k: Seq<char>| #[trigger]
                r@.filter(has_slug(k)) == v@.subrange(0, i as int).filter(has_slug(k)),
            r@.to_multiset() == v@.subrange(0, i as int).to_multiset(),
        decreases v@.len() - i,
    {
        let x = v[i].duplicate();
        let mut p: usize = 0;
        while p < r.len() && str_le(r[p].slug.as_str(), x.slug.as_str())
            invariant
                p <= r@.len(),
                sorted_by_slug(r@),
                forall|j: int| 0 <= j < p ==> lex_le(#[trigger] r@[j].slug@, x.slug@),
            decreases r@.len() - p,
        {
            p = p + 1;
        }
        proof {
            assert forall|j: int| p <= j < r@.len() implies !lex_le(
                #[trigger] r@[j].slug@,
                x.slug@,
            ) by {
                if lex_le(r@[j].slug@, x.slug@) {
                    if j > p {
                        lemma_lex_le_transitive(r@[p as int].slug@, r@[j].slug@, x.slug@);
                    }
                }
            }
            lemma_insert_sorted(r@, p as int, x);
            let prev = v@.subrange(0, i as int);
            let next = v@.subrange(0, i + 1);
            assert(next =~= prev.push(x));
            assert forall|k: Seq<char>| #[trigger] next.filter(has_slug(k)) == if x.slug@ == k {
                prev.filter(has_slug(k)).push(x)
            } else {
                prev.filter(has_slug(k))
            } by {
                prev.lemma_filter_push(x, has_slug(k));
            }
            prev.to_multiset_ensures();
        }
        r.insert(p, x);
        i = i + 1;
    }
    assert(v@.subrange(0, i as int) =~= v@);
    r
}

/// `parts` joined with `sep` between neighbours.
pub open spec fn joined(parts: Seq<Seq<char>>, sep: Seq<char>) -> Seq<char>
    decreases parts.len(),
{
    if parts.len() == 0 {
        Seq::empty()
    } else if parts.len() == 1 {
        parts[0]
    } else {
        joined(parts.drop_last(), sep) + sep + parts.last()
    }
}

/// Whether a text is non-empty.
pub open spec fn nonempty_text() -> spec_fn(Seq<char>) -> bool {
    |s: Seq<char>| s.len() > 0
}

/// The non-empty ones of nationality, time zone and stage.
pub open spec fn subtitle_parts(p: ProfileConfig) -> Seq<Seq<char>> {
    seq![p.nationality@, p.tz@, p.stage@].filter(nonempty_text())
}

/// The profile picker's sub-line: the non-empty ones of nationality, time
/// zone and stage joined by ` · `, or `—` when all are empty.
pub open spec fn subtitle_text(p: ProfileConfig) -> Seq<char> {
    if subtitle_parts(p).len() == 0 {
        "—"@
    } else {
        joined(subtitle_parts(p), " · "@)
    }
}

/// Appends `part` to the sub-line built from `done` (when non-empty).
fn add_part(out: &mut String, part: &str, Ghost(done): Ghost<Seq<Seq<char>>>)
    requires
        old(out)@ == joined(done, " · "@),
        forall|i: int| 0 <= i < done.len() ==> (#[trigger] done[i]).len() > 0,
    ensures
        final(out)@ == joined(if part@.len() > 0 { done.push(part@) } else { done }, " · "@),
{
    if !part.is_empty() {
        if !out.as_str().is_empty() {
            proof {
                if done.len() == 0 {
                    assert(joined(done, " · "@) =~= Seq::<char>::empty());
                }
                assert(done.push(part@).drop_last() =~= done);
            }
            out.append(" · ");
        } else {
            proof {
                if done.len() > 0 {
                    lemma_joined_nonempty(done);
                }
                assert(done.push(part@) =~= seq![part@]);
            }
        }
        out.append(part);
    }
}

/// The profile picker's sub-line for `p`.
pub fn profile_subtitle(p: &ProfileConfig) -> (r: String)
    ensures
        r@ == subtitle_text(*p),
{
    let mut out = String::new();
    let ghost f = nonempty_text();
    let ghost d0 = Seq::<Seq<char>>::empty();
    assert(joined(d0, " · "@) =~= Seq::<char>::empty());
    add_part(&mut out, p.nationality.as_str(), Ghost(d0));
    let ghost d1 = if p.nationality@.len() > 0 { d0.push(p.nationality@) } else { d0 };
    add_part(&mut out, p.tz.as_str(), Ghost(d1));
    let ghost d2 = if p.tz@.len() > 0 { d1.push(p.tz@) } else { d1 };
    add_part(&mut out, p.stage.as_str(), Ghost(d2));
    let ghost d3 = if p.stage@.len() > 0 { d2.push(p.stage@) } else { d2 };
    proof {
        let s3 = seq![p.nationality@, p.tz@, p.stage@];
        let s2 = seq![p.nationality@, p.tz@];
        let s1 = seq![p.nationality@];
        let s0 = Seq::<Seq<char>>::empty();
        assert(s3.drop_last() =~= s2);
        assert(s2.drop_last() =~= s1);
        assert(s1.drop_last() =~= s0);
        reveal(Seq::filter);
        assert(s0.filter(f) =~= d0);
        assert(s1.filter(f) =~= d1);
        assert(s2.filter(f) =~= d2);
        assert(s3.filter(f) =~= d3);
        assert(d3 =~= subtitle_parts(*p));
    }
    if out.as_str().is_empty() {
        proof {
            if d3.len() > 0 {
                assert(d3[0].len() > 0);
                lemma_joined_nonempty(d3);
            }
        }
        crate::text::owned("—")
    } else {
        proof {
            if d3.len() == 0 {
                assert(joined(d3, " · "@) =~= Seq::<char>::empty());
            }
        }
        out
    }
}

proof fn lemma_joined_nonempty(parts: Seq<Seq<char>>)
    requires
        parts.len() > 0,
        forall|i: int| 0 <= i < parts.len() ==> (#[trigger] parts[i]).len() > 0,
    ensures
        joined(parts, " · "@).len() > 0,
    decreases parts.len(),
{
    if parts.len() > 1 {
        lemma_joined_nonempty(parts.drop_last());
    }
}

} // verus!
