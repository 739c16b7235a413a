//! The order the saved profiles are listed in: most recently updated first.
use vstd::prelude::*;

use crate::profile::{MountProfile, ProfileView};
use crate::text::chars_of;

verus! {

pub open spec fn profile_views(v: Seq<MountProfile>) -> Seq<ProfileView> {
    v.map_values(|p: MountProfile| p@)
}

/// `a < b` as `String`'s `Ord` has it: byte by byte on the UTF-8 text,
/// which orders exactly as the characters' code points do.
pub open spec fn text_less(a: Seq<char>, b: Seq<char>) -> bool
    decreases a.len(),
{
    if a.len() == 0 {
        b.len() > 0
    } else if b.len() == 0 {
        false
    } else if a[0] != b[0] {
        a[0] < b[0]
    } else {
        text_less(a.drop_first(), b.drop_first())
    }
}

proof fn lemma_text_less_skip(a: Seq<char>, b: Seq<char>, i: int)
    requires
        0 <= i <= a.len(),
        i <= b.len(),
        a.take(i) == b.take(i),
    ensures
        text_less(a, b) == text_less(a.skip(i), b.skip(i)),
    decreases i,
{
    if i > 0 {
        assert(a[0] == a.take(i)[0]);
        assert(b[0] == b.take(i)[0]);
        assert(a.drop_first().take(i - 1) =~= a.take(i).drop_first());
        assert(b.drop_first().take(i - 1) =~= b.take(i).drop_first());
        lemma_text_less_skip(a.drop_first(), b.drop_first(), i - 1);
        assert(a.drop_first().skip(i - 1) =~= a.skip(i));
        assert(b.drop_first().skip(i - 1) =~= b.skip(i));
    } else {
        assert(a.skip(0) =~= a);
        assert(b.skip(0) =~= b);
    }
}

proof fn lemma_text_less_asymmetric(a: Seq<char>, b: Seq<char>)
    ensures
        !(text_less(a, b) && text_less(b, a)),
    decreases a.len(),
{
    if a.len() > 0 && b.len() > 0 && a[0] == b[0] {
        lemma_text_less_asymmetric(a.drop_first(), b.drop_first());
    }
}

proof fn lemma_text_less_transitive(a: Seq<char>, b: Seq<char>, c: Seq<char>)
    requires
        text_less(a, b),
        text_less(b, c),
    ensures
        text_less(a, c),
    decreases a.len(),
{
    if a.len() > 0 && b.len() > 0 && c.len() > 0 && a[0] == b[0] && b[0] == c[0] {
        lemma_text_less_transitive(a.drop_first(), b.drop_first(), c.drop_first());
    }
}

/// `a < b` on text.
pub fn text_lt(a: &str, b: &str) -> (r: bool)
    ensures
        r == text_less(a@, b@),
{
    let av = chars_of(a);
    let bv = chars_of(b);
    let mut i: usize = 0;
    while i < av.len() && i < bv.len() && av[i] == bv[i]
        invariant
            av@ == a@,
            bv@ == b@,
            i <= av@.len(),
            i <= bv@.len(),
            av@.take(i as int) == bv@.take(i as int),
        decreases av@.len() - i,
    {
        assert(av@.take(i + 1) =~= av@.take(i as int).push(av@[i as int]));
        assert(bv@.take(i + 1) =~= bv@.take(i as int).push(bv@[i as int]));
        i += 1;
    }
    proof {
        lemma_text_less_skip(a@, b@, i as int);
        if i < av@.len() {
            assert(a@.skip(i as int)[0] == av@[i as int]);
        }
        if i < bv@.len() {
            assert(b@.skip(i as int)[0] == bv@[i as int]);
        }
    }
    if i == av.len() {
        i < bv.len()
    } else if i == bv.len() {
        false
    } else {
        av[i] < bv[i]
    }
}

/// `p` goes into the newest-first list `s`: before the first profile
/// updated earlier than it, so after every one updated at the same time.
pub open spec fn insert_newest(s: Seq<ProfileView>, p: ProfileView) -> Seq<ProfileView>
    decreases s.len(),
{
    if s.len() == 0 {
        seq![p]
    } else if text_less(s[0].updated_at, p.updated_at) {
        seq![p] + s
    } else {
        seq![s[0]] + insert_newest(s.drop_first(), p)
    }
}

/// The profiles sorted by `updated_at`, newest first; profiles updated at
/// the same time keep their order (a stable sort).
pub open spec fn newest_first(ps: Seq<ProfileView>) -> Seq<ProfileView>
    decreases ps.len(),
{
    if ps.len() == 0 {
        Seq::empty()
    } else {
        insert_newest(newest_first(ps.drop_last()), ps.last())
    }
}

pub open spec fn sorted_newest_first(s: Seq<ProfileView>) -> bool {
    forall|i: int, j: int| 0 <= i < j < s.len() ==> !text_less(#[trigger] s[i].updated_at, #[trigger] s[j].updated_at)
}

proof fn lemma_insert_at(s: Seq<ProfileView>, p: ProfileView, k: int)
    requires
        0 <= k <= s.len(),
        forall|j: int| 0 <= j < k ==> !text_less(#[trigger] s[j].updated_at, p.updated_at),
        k < s.len() ==> text_less(s[k].updated_at, p.updated_at),
    ensures
        insert_newest(s, p) == s.take(k).push(p) + s.skip(k),
    decreases k,
{
    if k == 0 {
        assert(s.take(0).push(p) + s.skip(0) =~= seq![p] + s);
    } else {
        assert forall|j: int| 0 <= j < k - 1 implies !text_less(
            #[trigger] s.drop_first()[j].updated_at,
            p.updated_at,
        ) by {
            assert(s.drop_first()[j] == s[j + 1]);
        }
        if k - 1 < s.drop_first().len() {
            assert(s.drop_first()[k - 1] == s[k]);
        }
        lemma_insert_at(s.drop_first(), p, k - 1);
        assert(!text_less(s[0].updated_at, p.updated_at));
        assert(seq![s[0]] + (s.drop_first().take(k - 1).push(p) + s.drop_first().skip(k - 1)) =~= s.take(
            k,
        ).push(p) + s.skip(k));
    }
}

proof fn lemma_insert_sorted(s: Seq<ProfileView>, p: ProfileView)
    requires
        sorted_newest_first(s),
    ensures
        sorted_newest_first(insert_newest(s, p)),
        insert_newest(s, p).to_multiset() == s.to_multiset().insert(p),
    decreases s.len(),
{
    if s.len() == 0 {
        assert(insert_newest(s, p) =~= seq![p]);
        assert(seq![p].to_multiset() =~= vstd::multiset::Multiset::<ProfileView>::empty().insert(p)) by {
            broadcast use vstd::seq_lib::group_to_multiset_ensures;
            assert(seq![p] =~= Seq::<ProfileView>::empty().push(p));
        }
        assert(s =~= Seq::<ProfileView>::empty());
        assert(s.to_multiset() =~= vstd::multiset::Multiset::<ProfileView>::empty()) by {
            broadcast use vstd::seq_lib::group_to_multiset_ensures;
        }
    } else if text_less(s[0].updated_at, p.updated_at) {
        let r = seq![p] + s;
        assert(insert_newest(s, p) == r);
        assert forall|i: int, j: int| 0 <= i < j < r.len() implies !text_less(
            #[trigger] r[i].updated_at,
            #[trigger] r[j].updated_at,
        ) by {
            if i == 0 {
                if j == 1 {
                    lemma_text_less_asymmetric(s[0].updated_at, p.updated_at);
                } else {
                    assert(!text_less(s[0].updated_at, s[j - 1].updated_at));
                    if text_less(p.updated_at, s[j - 1].updated_at) {
                        lemma_text_less_transitive(s[0].updated_at, p.updated_at, s[j - 1].updated_at);
                    }
                }
            } else {
                assert(r[i] == s[i - 1]);
                assert(r[j] == s[j - 1]);
            }
        }
        assert(r.to_multiset() =~= s.to_multiset().insert(p)) by {
            broadcast use vstd::seq_lib::group_to_multiset_ensures;
            vstd::seq_lib::lemma_multiset_commutative(seq![p], s);
            assert(seq![p] =~= Seq::<ProfileView>::empty().push(p));
            assert(Seq::<ProfileView>::empty().to_multiset() =~= vstd::multiset::Multiset::<ProfileView>::empty());
        }
    } else {
        let t = s.drop_first();
        assert(sorted_newest_first(t)) by {
            assert forall|i: int, j: int| 0 <= i < j < t.len() implies !text_less(
                #[trigger] t[i].updated_at,
                #[trigger] t[j].updated_at,
            ) by {
                assert(t[i] == s[i + 1]);
                assert(t[j] == s[j + 1]);
            }
        }
        lemma_insert_sorted(t, p);
        let rest = insert_newest(t, p);
        let r = seq![s[0]] + rest;
        assert(insert_newest(s, p) == r);
        assert forall|k: int| 0 <= k < rest.len() implies !text_less(s[0].updated_at, #[trigger] rest[k].updated_at) by {
            assert(rest.to_multiset().count(rest[k]) > 0) by {
                broadcast use vstd::seq_lib::group_to_multiset_ensures;
                assert(rest.contains(rest[k]));
            }
            assert(t.to_multiset().insert(p).count(rest[k]) > 0);
            if rest[k] == p {
            } else {
                assert(t.to_multiset().count(rest[k]) > 0);
                assert(t.contains(rest[k])) by {
                    broadcast use vstd::seq_lib::group_to_multiset_ensures;
                }
                let m = choose|m: int| 0 <= m < t.len() && t[m] == rest[k];
                assert(t[m] == s[m + 1]);
            }
        }
        assert forall|i: int, j: int| 0 <= i < j < r.len() implies !text_less(
            #[trigger] r[i].updated_at,
            #[trigger] r[j].updated_at,
        ) by {
            if i == 0 {
                assert(r[j] == rest[j - 1]);
            } else {
                assert(r[i] == rest[i - 1]);
                assert(r[j] == rest[j - 1]);
            }
        }
        assert(r.to_multiset() =~= s.to_multiset().insert(p)) by {
            broadcast use vstd::seq_lib::group_to_multiset_ensures;
            vstd::seq_lib::lemma_multiset_commutative(seq![s[0]], rest);
            vstd::seq_lib::lemma_multiset_commutative(seq![s[0]], t);
            assert(seq![s[0]] + t =~= s);
        }
    }
}

/// The listing order is what it promises: newest first, and the same
/// profiles as were read, each as often.
pub proof fn listing_is_sorted_and_complete(ps: Seq<ProfileView>)
    ensures
        sorted_newest_first(newest_first(ps)),
        newest_first(ps).to_multiset() == ps.to_multiset(),
    decreases ps.len(),
{
    if ps.len() == 0 {
        assert(newest_first(ps) =~= Seq::<ProfileView>::empty());
        assert(ps =~= Seq::<ProfileView>::empty());
    } else {
        listing_is_sorted_and_complete(ps.drop_last());
        lemma_insert_sorted(newest_first(ps.drop_last()), ps.last());
        assert(ps.drop_last().push(ps.last()) =~= ps);
        assert(ps.to_multiset() =~= ps.drop_last().to_multiset().insert(ps.last())) by {
            broadcast use vstd::seq_lib::group_to_multiset_ensures;
        }
    }
}

/// The profiles as they are listed: most recently updated first, ties in
/// the order they were read.
pub fn sort_profiles_newest_first(profiles: &[MountProfile]) -> (r: Vec<MountProfile>)
    ensures
        profile_views(r@) == newest_first(profile_views(profiles@)),
{
    let mut out: Vec<MountProfile> = Vec::new();
    let mut i: usize = 0;
    while i < profiles.len()
        invariant
            i <= profiles@.len(),
            profile_views(out@) == newest_first(profile_views(profiles@).take(i as int)),
        decreases profiles@.len() - i,
    {
        let p = profiles[i].duplicate();
        let mut k: usize = 0;
        while k < out.len() && !text_lt(out[k].updated_at.as_str(), p.updated_at.as_str())
            invariant
                k <= out@.len(),
                forall|j: int| 0 <= j < k ==> !text_less(#[trigger] out@[j].updated_at@, p.updated_at@),
            decreases out@.len() - k,
        {
            k += 1;
        }
        proof {
            let s = profile_views(out@);
            assert forall|j: int| 0 <= j < k implies !text_less(#[trigger] s[j].updated_at, p@.updated_at) by {
                assert(s[j] == out@[j]@);
            }
            if k < s.len() {
                assert(s[k as int] == out@[k as int]@);
            }
            lemma_insert_at(s, p@, k as int);
            let vs = profile_views(profiles@);
            assert(vs.take(i + 1).drop_last() =~= vs.take(i as int));
            assert(vs.take(i + 1).last() == p@);
        }
        let ghost before = out@;
        out.insert(k, p);
        assert(profile_views(out@) =~= profile_views(before).take(k as int).push(p@) + profile_views(before).skip(
            k as int,
        ));
        i += 1;
    }
    assert(profile_views(profiles@).take(profiles@.len() as int) =~= profile_views(profiles@));
    out
}

} // verus!
