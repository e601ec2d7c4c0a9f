//! Per-post reader metrics: view, like and dislike counters, kept in a
//! store keyed by the post's slug.

use vstd::prelude::*;
use vstd::string::StrSliceExecFns;

use crate::text::str_eq;

verus! {

/// Counters for one post. Each saturates at its maximum rather than
/// wrapping.
#[derive(Clone, Copy, Debug, PartialEq, Eq, Structural)]
pub struct PostMetrics {
    pub views: u64,
    pub likes: u64,
    pub dislikes: u64,
}

impl Default for PostMetrics {
    /// A post starts with all counters at zero.
    fn default() -> (r: Self)
        ensures
            r == (PostMetrics { views: 0, likes: 0, dislikes: 0 }),
    {
        PostMetrics { views: 0, likes: 0, dislikes: 0 }
    }
}

/// `x + 1`, stopping at the maximum instead of wrapping.
pub open spec fn spec_saturating_inc(x: u64) -> u64 {
    if x < u64::MAX {
        (x + 1) as u64
    } else {
        x
    }
}

/// The metrics store: one entry per slug that was ever counted, keys
/// unique. Viewed as a map from slug to counters.
pub struct MetricsStore {
    entries: Vec<(String, PostMetrics)>,
}

impl View for MetricsStore {
    type V = Map<Seq<char>, PostMetrics>;

    closed spec fn view(&self) -> Map<Seq<char>, PostMetrics> {
        Map::new(
            |k: Seq<char>| exists|i: int| 0 <= i < self.entries@.len() && self.entries@[i].0@ == k,
            |k: Seq<char>|
                self.entries@[choose|i: int|
                    0 <= i < self.entries@.len() && self.entries@[i].0@ == k].1,
        )
    }
}

impl MetricsStore {
    /// Keys are unique, so each slug has one well-defined entry.
    pub closed spec fn inv(&self) -> bool {
        forall|i: int, j: int|
            0 <= i < j < self.entries@.len() ==> self.entries@[i].0@ != self.entries@[j].0@
    }

    /// A fresh store counts nothing yet.
    pub fn new() -> (r: Self)
        ensures
            r.inv(),
            r@ == Map::<Seq<char>, PostMetrics>::empty(),
    {
        let r = MetricsStore { entries: Vec::new() };
        proof {
            assert(r@ =~= Map::<Seq<char>, PostMetrics>::empty());
        }
        r
    }

    /// Index of the entry for `slug`, if one exists.
    fn find(&self, slug: &str) -> (r: Option<usize>)
        requires
            self.inv(),
        ensures
            match r {
                Some(i) => i < self.entries@.len() && self.entries@[i as int].0@ == slug@
                    && self@.contains_key(slug@),
                None => !self@.contains_key(slug@),
            },
    {
        let n = self.entries.len();
        let mut i: usize = 0;
        while i < n
            invariant
                i <= n,
                n == self.entries@.len(),
                self.inv(),
                forall|j: int| 0 <= j < i ==> self.entries@[j].0@ != slug@,
            decreases n - i,
        {
            if str_eq(self.entries[i].0.as_str(), slug) {
                proof {
                    let w = i as int;
                    assert(self.entries@[w].0@ == slug@);
                    assert(self@.contains_key(slug@));
                    let c = choose|j: int|
                        0 <= j < self.entries@.len() && self.entries@[j].0@ == slug@;
                    assert(c == w);
                }
                return Some(i);
            }
            i = i + 1;
        }
        proof {
            if self@.contains_key(slug@) {
                let j = choose|j: int|
                    0 <= j < self.entries@.len() && self.entries@[j].0@ == slug@;
                assert(self.entries@[j].0@ != slug@);
            }
        }
        None
    }

    /// The index `find` returns carries the slug's metrics.
    proof fn lemma_found_value(&self, slug: Seq<char>, i: int)
        requires
            self.inv(),
            0 <= i < self.entries@.len(),
            self.entries@[i].0@ == slug,
        ensures
            self@.contains_key(slug),
            self@[slug] == self.entries@[i].1,
    {
        let c = choose|j: int| 0 <= j < self.entries@.len() && self.entries@[j].0@ == slug;
        assert(c == i);
    }

    /// The counters recorded for `slug`; a slug never counted reads as
    /// all zero.
    pub fn get_post_metrics(&self, slug: &str) -> (r: PostMetrics)
        requires
            self.inv(),
        ensures
            r == (if self@.contains_key(slug@) {
                self@[slug@]
            } else {
                PostMetrics { views: 0, likes: 0, dislikes: 0 }
            }),
    {
        match self.find(slug) {
            Some(i) => {
                proof {
                    self.lemma_found_value(slug@, i as int);
                }
                self.entries[i].1
            },
            None => PostMetrics { views: 0, likes: 0, dislikes: 0 },
        }
    }

    /// Replaces the entry at `i` with new counters, keeping its slug.
    fn set_at(&mut self, i: usize, m: PostMetrics)
        requires
            old(self).inv(),
            i < old(self).entries@.len(),
        ensures
            final(self).inv(),
            final(self)@ == old(self)@.insert(old(self).entries@[i as int].0@, m),
    {
        let slug = self.entries[i].0.clone();
        let ghost key = self.entries@[i as int].0@;
        self.entries.set(i, (slug, m));
        proof {
            assert forall|k: Seq<char>| #[trigger] self@.contains_key(k) == old(
                self,
            )@.insert(key, m).contains_key(k) by {
                if k == key {
                    assert(self.entries@[i as int].0@ == k);
                } else {
                    if exists|j: int| 0 <= j < old(self).entries@.len() && old(
                        self,
                    ).entries@[j].0@ == k {
                        let j = choose|j: int|
                            0 <= j < old(self).entries@.len() && old(self).entries@[j].0@ == k;
                        assert(self.entries@[j].0@ == k);
                    } else {
                        assert forall|j: int|
                            0 <= j < self.entries@.len() implies self.entries@[j].0@ != k by {
                            if j != i {
                                assert(old(self).entries@[j].0@ != k);
                            }
                        }
                    }
                }
            }
            assert forall|k: Seq<char>| self@.contains_key(k) implies #[trigger] self@[k]
                == old(self)@.insert(key, m)[k] by {
                let c = choose|j: int|
                    0 <= j < self.entries@.len() && self.entries@[j].0@ == k;
                if k == key {
                    assert(c == i);
                } else {
                    assert(c != i);
                    assert(old(self).entries@[c].0@ == k);
                    let c2 = choose|j: int|
                        0 <= j < old(self).entries@.len() && old(self).entries@[j].0@ == k;
                    assert(c2 == c);
                }
            }
            assert(self@ =~= old(self)@.insert(key, m));
        }
    }

    /// Appends a brand-new slug's entry.
    fn push_entry(&mut self, slug: &str, m: PostMetrics)
        requires
            old(self).inv(),
            !old(self)@.contains_key(slug@),
        ensures
            final(self).inv(),
            final(self)@ == old(self)@.insert(slug@, m),
    {
        self.entries.push((slug.to_owned(), m));
        proof {
            let n = self.entries@.len() - 1;
            assert forall|j: int| 0 <= j < n implies self.entries@[j].0@ != slug@ by {
                if old(self)@.contains_key(slug@) {
                } else {
                    assert(old(self).entries@[j] == self.entries@[j]);
                    if self.entries@[j].0@ == slug@ {
                        assert(exists|x: int|
                            0 <= x < old(self).entries@.len() && old(self).entries@[x].0@
                                == slug@);
                    }
                }
            }
            assert forall|k: Seq<char>| #[trigger] self@.contains_key(k) == old(
                self,
            )@.insert(slug@, m).contains_key(k) by {
                if k == slug@ {
                    assert(self.entries@[n].0@ == k);
                } else {
                    if exists|j: int| 0 <= j < old(self).entries@.len() && old(
                        self,
                    ).entries@[j].0@ == k {
                        let j = choose|j: int|
                            0 <= j < old(self).entries@.len() && old(self).entries@[j].0@ == k;
                        assert(self.entries@[j].0@ == k);
                    } else {
                        assert forall|j: int|
                            0 <= j < self.entries@.len() implies self.entries@[j].0@ != k by {
                            if j < n {
                                assert(old(self).entries@[j].0@ != k);
                            }
                        }
                    }
                }
            }
            assert forall|k: Seq<char>| self@.contains_key(k) implies #[trigger] self@[k]
                == old(self)@.insert(slug@, m)[k] by {
                let c = choose|j: int|
                    0 <= j < self.entries@.len() && self.entries@[j].0@ == k;
                if k == slug@ {
                    assert(c == n);
                } else {
                    assert(c < n);
                    assert(old(self).entries@[c].0@ == k);
                    let c2 = choose|j: int|
                        0 <= j < old(self).entries@.len() && old(self).entries@[j].0@ == k;
                    assert(c2 == c);
                }
            }
            assert(self@ =~= old(self)@.insert(slug@, m));
        }
    }

    /// The counters for `slug` as they stand, or all zero if none were
    /// recorded yet.
    pub open spec fn spec_current(&self, slug: Seq<char>) -> PostMetrics {
        if self@.contains_key(slug) {
            self@[slug]
        } else {
            PostMetrics { views: 0, likes: 0, dislikes: 0 }
        }
    }

    /// Counts one more view of the post, creating its entry if needed;
    /// the view counter saturates instead of wrapping.
    pub fn increment_view(&mut self, slug: &str)
        requires
            old(self).inv(),
        ensures
            final(self).inv(),
            final(self)@ == old(self)@.insert(
                slug@,
                PostMetrics {
                    views: spec_saturating_inc(old(self).spec_current(slug@).views),
                    likes: old(self).spec_current(slug@).likes,
                    dislikes: old(self).spec_current(slug@).dislikes,
                },
            ),
    {
        let mut m = self.get_post_metrics(slug);
        if m.views < u64::MAX {
            m.views = m.views + 1;
        }
        self.upsert(slug, m);
    }

    /// Counts one more like (or dislike) of the post, creating its
    /// entry if needed; the counter saturates instead of wrapping.
    pub fn update_vote(&mut self, slug: &str, is_like: bool)
        requires
            old(self).inv(),
        ensures
            final(self).inv(),
            is_like ==> final(self)@ == old(self)@.insert(
                slug@,
                PostMetrics {
                    views: old(self).spec_current(slug@).views,
                    likes: spec_saturating_inc(old(self).spec_current(slug@).likes),
                    dislikes: old(self).spec_current(slug@).dislikes,
                },
            ),
            !is_like ==> final(self)@ == old(self)@.insert(
                slug@,
                PostMetrics {
                    views: old(self).spec_current(slug@).views,
                    likes: old(self).spec_current(slug@).likes,
                    dislikes: spec_saturating_inc(old(self).spec_current(slug@).dislikes),
                },
            ),
    {
        let mut m = self.get_post_metrics(slug);
        if is_like {
            if m.likes < u64::MAX {
                m.likes = m.likes + 1;
            }
        } else {
            if m.dislikes < u64::MAX {
                m.dislikes = m.dislikes + 1;
            }
        }
        self.upsert(slug, m);
    }

    /// Writes `m` as the counters for `slug`, creating or replacing its
    /// entry.
    fn upsert(&mut self, slug: &str, m: PostMetrics)
        requires
            old(self).inv(),
        ensures
            final(self).inv(),
            final(self)@ == old(self)@.insert(slug@, m),
    {
        match self.find(slug) {
            Some(i) => {
                self.set_at(i, m);
            },
            None => {
                self.push_entry(slug, m);
            },
        }
    }
}

} // verus!
