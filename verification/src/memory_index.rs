//! The indexes of a memory store: which items are of each kind and which carry each
//! tag, kept up to date as items are added, changed and removed; and when an
//! addition first needs room.

use vstd::prelude::*;
use crate::ids::MemoryId;
use crate::memory::MemoryType;
use crate::text::{owned, str_eq, views_of};

verus! {

/// Whether adding an item first needs room: it is new, and the store already holds
/// `max_items` items or more.
pub fn add_needs_room(is_update: bool, held: usize, max_items: usize) -> (b: bool)
    ensures
        b == (!is_update && held >= max_items),
{
    !is_update && held >= max_items
}

/// Which items are of each kind and which carry each tag.
pub struct MemoryIndex {
    /// Pairs of a kind and an item of that kind.
    by_type: Vec<(MemoryType, MemoryId)>,
    /// Pairs of a tag and an item carrying it.
    by_tag: Vec<(String, MemoryId)>,
}

/// Whether `v`, as texts, contains `s`.
pub open spec fn texts_contain(v: Seq<String>, s: Seq<char>) -> bool {
    views_of(v).contains(s)
}

/// Whether one of the texts `v` is `s`.
fn strings_contain(v: &Vec<String>, s: &str) -> (b: bool)
    ensures
        b == texts_contain(v@, s@),
{
    let mut i: usize = 0;
    while i < v.len()
        invariant
            i <= v@.len(),
            forall|k: int| 0 <= k < i ==> v@[k]@ != s@,
        decreases v.len() - i,
    {
        if str_eq(v[i].as_str(), s) {
            assert(views_of(v@)[i as int] == s@);
            return true;
        }
        i = i + 1;
    }
    proof {
        if views_of(v@).contains(s@) {
            let k = choose|k: int| 0 <= k < views_of(v@).len() && views_of(v@)[k] == s@;
            assert(v@[k]@ == s@);
        }
    }
    false
}

impl MemoryIndex {
    /// The items of kind `t`.
    pub closed spec fn typed(&self, t: MemoryType) -> Set<MemoryId> {
        Set::new(|id: MemoryId| exists|i: int| 0 <= i < self.by_type@.len() && self.by_type@[i] == (t, id))
    }

    /// The items carrying the tag `g`.
    pub closed spec fn tagged(&self, g: Seq<char>) -> Set<MemoryId> {
        Set::new(
            |id: MemoryId|
                exists|i: int|
                    0 <= i < self.by_tag@.len() && self.by_tag@[i].0@ == g && self.by_tag@[i].1 == id,
        )
    }

    /// An index with no items.
    pub fn new() -> (m: Self)
        ensures
            forall|t: MemoryType| m.typed(t) == Set::<MemoryId>::empty(),
            forall|g: Seq<char>| m.tagged(g) == Set::<MemoryId>::empty(),
    {
        let m = MemoryIndex { by_type: Vec::new(), by_tag: Vec::new() };
        proof {
            assert forall|t: MemoryType| m.typed(t) == Set::<MemoryId>::empty() by {
                assert(m.typed(t) =~= Set::<MemoryId>::empty());
            }
            assert forall|g: Seq<char>| m.tagged(g) == Set::<MemoryId>::empty() by {
                assert(m.tagged(g) =~= Set::<MemoryId>::empty());
            }
        }
        m
    }

    /// Records that `id` is of kind `t`.
    fn add_type(&mut self, t: MemoryType, id: MemoryId)
        ensures
            forall|t2: MemoryType, x: MemoryId|
                #[trigger] final(self).typed(t2).contains(x) <==> old(self).typed(t2).contains(x) || (t2 == t && x == id),
            final(self).by_tag == old(self).by_tag,
    {
        let ghost before = self.by_type@;
        let mut i: usize = 0;
        while i < self.by_type.len()
            invariant
                self.by_type@ == before,
                i <= before.len(),
            decreases before.len() - i,
        {
            let (t2, x) = self.by_type[i];
            if t2 == t && x == id {
                proof {
                    assert forall|t3: MemoryType, y: MemoryId|
                        #[trigger] self.typed(t3).contains(y) <==> old(self).typed(t3).contains(y) || (t3 == t && y == id) by {
                        if t3 == t && y == id {
                            assert(self.by_type@[i as int] == (t3, y));
                        }
                    }
                }
                return;
            }
            i = i + 1;
        }
        self.by_type.push((t, id));
        proof {
            assert forall|t2: MemoryType, x: MemoryId|
                #[trigger] self.typed(t2).contains(x) <==> old(self).typed(t2).contains(x) || (t2 == t && x == id) by {
                if old(self).typed(t2).contains(x) {
                    let i = choose|i: int| 0 <= i < before.len() && before[i] == (t2, x);
                    assert(self.by_type@[i] == (t2, x));
                }
                if t2 == t && x == id {
                    assert(self.by_type@[before.len() as int] == (t2, x));
                }
                if self.typed(t2).contains(x) && !(t2 == t && x == id) {
                    let i = choose|i: int| 0 <= i < self.by_type@.len() && self.by_type@[i] == (t2, x);
                    assert(i < before.len());
                    assert(before[i] == (t2, x));
                }
            }
        }
    }

    /// Records that `id` is no longer of kind `t`.
    fn drop_type(&mut self, t: MemoryType, id: MemoryId)
        ensures
            forall|t2: MemoryType, x: MemoryId|
                #[trigger] final(self).typed(t2).contains(x) <==> old(self).typed(t2).contains(x) && !(t2 == t && x == id),
            final(self).by_tag == old(self).by_tag,
    {
        let ghost before = self.by_type@;
        let mut kept: Vec<(MemoryType, MemoryId)> = Vec::new();
        let mut i: usize = 0;
        while i < self.by_type.len()
            invariant
                self.by_type@ == before,
                i <= before.len(),
                forall|k: int| 0 <= k < kept@.len() ==> #[trigger] kept@[k] != (t, id),
                forall|k: int| 0 <= k < kept@.len() ==> exists|j: int| 0 <= j < i && before[j] == #[trigger] kept@[k],
                forall|j: int| #![trigger before[j]] 0 <= j < i && before[j] != (t, id) ==> exists|k: int| 0 <= k < kept@.len() && kept@[k] == before[j],
            decreases before.len() - i,
        {
            let ghost prev = kept@;
            let (t2, x) = self.by_type[i];
            if !(t2 == t && x == id) {
                kept.push((t2, x));
                assert(kept@[kept@.len() - 1] == before[i as int]);
            }
            proof {
                assert forall|j: int| #![trigger before[j]] 0 <= j < i + 1 && before[j] != (t, id) implies exists|k: int| 0 <= k < kept@.len() && kept@[k] == before[j] by {
                    if j < i {
                        let k = choose|k: int| 0 <= k < prev.len() && prev[k] == before[j];
                        assert(kept@[k] == before[j]);
                    } else {
                        assert(kept@[kept@.len() - 1] == before[j]);
                    }
                }
            }
            i = i + 1;
        }
        self.by_type = kept;
        proof {
            assert forall|t2: MemoryType, x: MemoryId|
                #[trigger] self.typed(t2).contains(x) <==> old(self).typed(t2).contains(x) && !(t2 == t && x == id) by {
                if self.typed(t2).contains(x) {
                    let k = choose|k: int| 0 <= k < self.by_type@.len() && self.by_type@[k] == (t2, x);
                    assert(self.by_type@[k] != (t, id));
                    let j = choose|j: int| 0 <= j < before.len() && before[j] == self.by_type@[k];
                }
                if old(self).typed(t2).contains(x) && !(t2 == t && x == id) {
                    let j = choose|j: int| 0 <= j < before.len() && before[j] == (t2, x);
                    assert(before[j] != (t, id));
                    let k = choose|k: int| 0 <= k < self.by_type@.len() && self.by_type@[k] == before[j];
                }
            }
        }
    }

    /// Records that `id` carries the tag `g`.
    fn add_tag(&mut self, g: &str, id: MemoryId)
        ensures
            forall|g2: Seq<char>, x: MemoryId|
                #[trigger] final(self).tagged(g2).contains(x) <==> old(self).tagged(g2).contains(x) || (g2 == g@ && x == id),
            final(self).by_type == old(self).by_type,
    {
        let ghost before = self.by_tag@;
        let mut i: usize = 0;
        while i < self.by_tag.len()
            invariant
                self.by_tag@ == before,
                i <= before.len(),
            decreases before.len() - i,
        {
            let e = &self.by_tag[i];
            if e.1 == id && str_eq(e.0.as_str(), g) {
                proof {
                    assert forall|g3: Seq<char>, y: MemoryId|
                        #[trigger] self.tagged(g3).contains(y) <==> old(self).tagged(g3).contains(y) || (g3 == g@ && y == id) by {
                        if g3 == g@ && y == id {
                            assert(self.by_tag@[i as int].0@ == g3 && self.by_tag@[i as int].1 == y);
                        }
                    }
                }
                return;
            }
            i = i + 1;
        }
        self.by_tag.push((owned(g), id));
        proof {
            assert forall|g2: Seq<char>, x: MemoryId|
                #[trigger] self.tagged(g2).contains(x) <==> old(self).tagged(g2).contains(x) || (g2 == g@ && x == id) by {
                if old(self).tagged(g2).contains(x) {
                    let i = choose|i: int| 0 <= i < before.len() && before[i].0@ == g2 && before[i].1 == x;
                    assert(self.by_tag@[i] == before[i]);
                }
                if g2 == g@ && x == id {
                    assert(self.by_tag@[before.len() as int].0@ == g2);
                }
                if self.tagged(g2).contains(x) && !(g2 == g@ && x == id) {
                    let i = choose|i: int| 0 <= i < self.by_tag@.len() && self.by_tag@[i].0@ == g2 && self.by_tag@[i].1 == x;
                    assert(i < before.len());
                    assert(before[i] == self.by_tag@[i]);
                }
            }
        }
    }

    /// Records that `id` no longer carries the tag `g`.
    fn drop_tag(&mut self, g: &str, id: MemoryId)
        ensures
            forall|g2: Seq<char>, x: MemoryId|
                #[trigger] final(self).tagged(g2).contains(x) <==> old(self).tagged(g2).contains(x) && !(g2 == g@ && x == id),
            final(self).by_type == old(self).by_type,
    {
        let ghost before = self.by_tag@;
        let mut kept: Vec<(String, MemoryId)> = Vec::new();
        let mut i: usize = 0;
        while i < self.by_tag.len()
            invariant
                self.by_tag@ == before,
                i <= before.len(),
                forall|k: int| 0 <= k < kept@.len() ==> !(#[trigger] kept@[k].0@ == g@ && kept@[k].1 == id),
                forall|k: int| 0 <= k < kept@.len() ==> exists|j: int| 0 <= j < i && before[j] == #[trigger] kept@[k],
                forall|j: int| #![trigger before[j]] 0 <= j < i && !(before[j].0@ == g@ && before[j].1 == id) ==> exists|k: int| 0 <= k < kept@.len() && kept@[k] == before[j],
            decreases before.len() - i,
        {
            let ghost prev = kept@;
            let e = &self.by_tag[i];
            if !(str_eq(e.0.as_str(), g) && e.1 == id) {
                kept.push((e.0.clone(), e.1));
                assert(kept@[kept@.len() - 1] == before[i as int]);
            }
            proof {
                assert forall|j: int| #![trigger before[j]] 0 <= j < i + 1 && !(before[j].0@ == g@ && before[j].1 == id) implies exists|k: int| 0 <= k < kept@.len() && kept@[k] == before[j] by {
                    if j < i {
                        let k = choose|k: int| 0 <= k < prev.len() && prev[k] == before[j];
                        assert(kept@[k] == before[j]);
                    } else {
                        assert(kept@[kept@.len() - 1] == before[j]);
                    }
                }
            }
            i = i + 1;
        }
        self.by_tag = kept;
        proof {
            assert forall|g2: Seq<char>, x: MemoryId|
                #[trigger] self.tagged(g2).contains(x) <==> old(self).tagged(g2).contains(x) && !(g2 == g@ && x == id) by {
                if self.tagged(g2).contains(x) {
                    let k = choose|k: int| 0 <= k < self.by_tag@.len() && self.by_tag@[k].0@ == g2 && self.by_tag@[k].1 == x;
                    assert(!(self.by_tag@[k].0@ == g@ && self.by_tag@[k].1 == id));
                    let j = choose|j: int| 0 <= j < before.len() && before[j] == self.by_tag@[k];
                }
                if old(self).tagged(g2).contains(x) && !(g2 == g@ && x == id) {
                    let j = choose|j: int| 0 <= j < before.len() && before[j].0@ == g2 && before[j].1 == x;
                    let k = choose|k: int| 0 <= k < self.by_tag@.len() && self.by_tag@[k] == before[j];
                }
            }
        }
    }

    /// Brings the index up to date for the item `id`, now of kind `kind` with the
    /// tags `tags`, which before was of the kind and had the tags in `previous`
    /// (`None` for a new item): it is of kind `kind` and carries each of `tags`; it
    /// leaves its former kind when that differs and each former tag it no longer
    /// has; nothing else changes.
    pub fn reindex(
        &mut self,
        id: MemoryId,
        previous: Option<(MemoryType, Vec<String>)>,
        kind: MemoryType,
        tags: &Vec<String>,
    )
        ensures
            final(self).typed(kind) == old(self).typed(kind).insert(id),
            forall|t: MemoryType| t != kind ==> #[trigger] final(self).typed(t) == (if previous_kind(previous) == Some(t) {
                old(self).typed(t).remove(id)
            } else {
                old(self).typed(t)
            }),
            forall|g: Seq<char>| #[trigger] final(self).tagged(g) == (if texts_contain(tags@, g) {
                old(self).tagged(g).insert(id)
            } else if texts_contain(previous_tags(previous), g) {
                old(self).tagged(g).remove(id)
            } else {
                old(self).tagged(g)
            }),
    {
        let ghost start = *self;
        let empty: Vec<String> = Vec::new();
        let (pk, otags) = match &previous {
            Some((t, v)) => (Some(*t), v),
            None => (None, &empty),
        };
        proof {
            assert(otags@ == previous_tags(previous));
        }
        match pk {
            Some(t) => {
                if t != kind {
                    self.drop_type(t, id);
                }
            },
            None => {},
        }
        let ghost typed_done = *self;
        let mut j: usize = 0;
        while j < otags.len()
            invariant
                j <= otags@.len(),
                self.by_type == typed_done.by_type,
                typed_done.by_tag == start.by_tag,
                forall|g: Seq<char>, x: MemoryId| #[trigger] self.tagged(g).contains(x) <==> start.tagged(g).contains(x)
                    && !(x == id && text_before(otags@, j as int, g) && !texts_contain(tags@, g)),
            decreases otags.len() - j,
        {
            let ghost cur = *self;
            if !strings_contain(tags, otags[j].as_str()) {
                self.drop_tag(otags[j].as_str(), id);
            }
            proof {
                assert forall|g: Seq<char>, x: MemoryId| #[trigger] self.tagged(g).contains(x) <==> start.tagged(g).contains(x)
                    && !(x == id && text_before(otags@, j + 1, g) && !texts_contain(tags@, g)) by {
                    if g == otags@[j as int]@ {
                        assert(text_before(otags@, j + 1, g));
                    } else if text_before(otags@, j + 1, g) {
                        let k = choose|k: int| 0 <= k < j + 1 && otags@[k]@ == g;
                        assert(text_before(otags@, j as int, g));
                    }
                    if text_before(otags@, j as int, g) {
                        let k = choose|k: int| 0 <= k < j && otags@[k]@ == g;
                        assert(otags@[k]@ == g);
                    }
                    assert(cur.tagged(g).contains(x) == self.tagged(g).contains(x) || g == otags@[j as int]@);
                }
            }
            j = j + 1;
        }
        let ghost after_tags = *self;
        self.add_type(kind, id);
        let ghost mid = *self;
        proof {
            lemma_same_tags(&mid, &after_tags);
        }
        let mut k: usize = 0;
        while k < tags.len()
            invariant
                k <= tags@.len(),
                self.by_type == mid.by_type,
                forall|g: Seq<char>, x: MemoryId| #[trigger] self.tagged(g).contains(x) <==> mid.tagged(g).contains(x)
                    || (x == id && text_before(tags@, k as int, g)),
            decreases tags.len() - k,
        {
            let ghost cur = *self;
            self.add_tag(tags[k].as_str(), id);
            proof {
                assert forall|g: Seq<char>, x: MemoryId| #[trigger] self.tagged(g).contains(x) <==> mid.tagged(g).contains(x)
                    || (x == id && text_before(tags@, k + 1, g)) by {
                    if g == tags@[k as int]@ {
                        assert(text_before(tags@, k + 1, g));
                    }
                    if text_before(tags@, k + 1, g) && g != tags@[k as int]@ {
                        let q = choose|q: int| 0 <= q < k + 1 && tags@[q]@ == g;
                        assert(text_before(tags@, k as int, g));
                    }
                    if text_before(tags@, k as int, g) {
                        let q = choose|q: int| 0 <= q < k && tags@[q]@ == g;
                        assert(tags@[q]@ == g);
                    }
                }
            }
            k = k + 1;
        }
        proof {
            lemma_text_before_all(otags@);
            lemma_text_before_all(tags@);
            lemma_same_types(&*self, &mid);
            lemma_same_types(&after_tags, &typed_done);
            assert(self.typed(kind) =~= start.typed(kind).insert(id));
            assert forall|t: MemoryType| t != kind implies #[trigger] self.typed(t) == (if previous_kind(previous) == Some(t) {
                start.typed(t).remove(id)
            } else {
                start.typed(t)
            }) by {
                if previous_kind(previous) == Some(t) {
                    assert(self.typed(t) =~= start.typed(t).remove(id));
                } else {
                    assert(self.typed(t) =~= start.typed(t));
                }
            }
            assert forall|g: Seq<char>| #[trigger] self.tagged(g) == (if texts_contain(tags@, g) {
                start.tagged(g).insert(id)
            } else if texts_contain(previous_tags(previous), g) {
                start.tagged(g).remove(id)
            } else {
                start.tagged(g)
            }) by {
                if texts_contain(tags@, g) {
                    assert(self.tagged(g) =~= start.tagged(g).insert(id));
                } else if texts_contain(previous_tags(previous), g) {
                    assert(self.tagged(g) =~= start.tagged(g).remove(id));
                } else {
                    assert(self.tagged(g) =~= start.tagged(g));
                }
            }
        }
    }
}

impl MemoryIndex {
    /// Removes the item `id`, of kind `kind` with the tags `tags`, from the index: it
    /// leaves that kind and each of those tags; nothing else changes.
    pub fn forget(&mut self, id: MemoryId, kind: MemoryType, tags: &Vec<String>)
        ensures
            final(self).typed(kind) == old(self).typed(kind).remove(id),
            forall|t: MemoryType| t != kind ==> #[trigger] final(self).typed(t) == old(self).typed(t),
            forall|g: Seq<char>| #[trigger] final(self).tagged(g) == (if texts_contain(tags@, g) {
                old(self).tagged(g).remove(id)
            } else {
                old(self).tagged(g)
            }),
    {
        let ghost start = *self;
        self.drop_type(kind, id);
        let ghost typed_done = *self;
        proof {
            lemma_same_tags(&typed_done, &start);
        }
        let mut j: usize = 0;
        while j < tags.len()
            invariant
                j <= tags@.len(),
                self.by_type == typed_done.by_type,
                forall|g: Seq<char>, x: MemoryId| #[trigger] self.tagged(g).contains(x) <==> start.tagged(g).contains(x)
                    && !(x == id && text_before(tags@, j as int, g)),
            decreases tags.len() - j,
        {
            self.drop_tag(tags[j].as_str(), id);
            proof {
                assert forall|g: Seq<char>, x: MemoryId| #[trigger] self.tagged(g).contains(x) <==> start.tagged(g).contains(x)
                    && !(x == id && text_before(tags@, j + 1, g)) by {
                    if g == tags@[j as int]@ {
                        assert(text_before(tags@, j + 1, g));
                    } else if text_before(tags@, j + 1, g) {
                        let k = choose|k: int| 0 <= k < j + 1 && tags@[k]@ == g;
                        assert(text_before(tags@, j as int, g));
                    }
                    if text_before(tags@, j as int, g) {
                        let k = choose|k: int| 0 <= k < j && tags@[k]@ == g;
                        assert(tags@[k]@ == g);
                    }
                }
            }
            j = j + 1;
        }
        proof {
            lemma_text_before_all(tags@);
            lemma_same_types(&*self, &typed_done);
            assert(self.typed(kind) =~= start.typed(kind).remove(id));
            assert forall|t: MemoryType| t != kind implies #[trigger] self.typed(t) == start.typed(t) by {
                assert(self.typed(t) =~= start.typed(t));
            }
            assert forall|g: Seq<char>| #[trigger] self.tagged(g) == (if texts_contain(tags@, g) {
                start.tagged(g).remove(id)
            } else {
                start.tagged(g)
            }) by {
                if texts_contain(tags@, g) {
                    assert(self.tagged(g) =~= start.tagged(g).remove(id));
                } else {
                    assert(self.tagged(g) =~= start.tagged(g));
                }
            }
        }
    }

    /// The items of kind `t`, each once.
    pub fn typed_ids(&self, t: MemoryType) -> (r: Vec<MemoryId>)
        ensures
            r@.no_duplicates(),
            forall|x: MemoryId| r@.contains(x) <==> self.typed(t).contains(x),
    {
        let mut r: Vec<MemoryId> = Vec::new();
        let mut i: usize = 0;
        while i < self.by_type.len()
            invariant
                i <= self.by_type@.len(),
                r@.no_duplicates(),
                forall|x: MemoryId| r@.contains(x) <==> exists|j: int| 0 <= j < i && #[trigger] self.by_type@[j] == (t, x),
            decreases self.by_type.len() - i,
        {
            let ghost prev = r@;
            let (t2, x) = self.by_type[i];
            if t2 == t && !ids_contain(&r, x) {
                r.push(x);
                assert(r@[r@.len() - 1] == x);
            }
            proof {
                assert forall|y: MemoryId| r@.contains(y) <==> exists|j: int| 0 <= j < i + 1 && #[trigger] self.by_type@[j] == (t, y) by {
                    if r@.contains(y) {
                        if prev.contains(y) {
                            let j = choose|j: int| 0 <= j < i && #[trigger] self.by_type@[j] == (t, y);
                        } else {
                            let k = choose|k: int| 0 <= k < r@.len() && r@[k] == y;
                            assert(k == prev.len());
                            assert(self.by_type@[i as int] == (t, y));
                        }
                    }
                    if exists|j: int| 0 <= j < i + 1 && #[trigger] self.by_type@[j] == (t, y) {
                        let j = choose|j: int| 0 <= j < i + 1 && #[trigger] self.by_type@[j] == (t, y);
                        if j < i {
                            assert(prev.contains(y));
                            let k = choose|k: int| 0 <= k < prev.len() && prev[k] == y;
                            assert(r@[k] == y);
                        } else if prev.contains(y) {
                            let k = choose|k: int| 0 <= k < prev.len() && prev[k] == y;
                            assert(r@[k] == y);
                        }
                    }
                }
            }
            i = i + 1;
        }
        r
    }

    /// The items carrying the tag `g`, each once.
    pub fn tagged_ids(&self, g: &str) -> (r: Vec<MemoryId>)
        ensures
            r@.no_duplicates(),
            forall|x: MemoryId| r@.contains(x) <==> self.tagged(g@).contains(x),
    {
        let mut r: Vec<MemoryId> = Vec::new();
        let mut i: usize = 0;
        while i < self.by_tag.len()
            invariant
                i <= self.by_tag@.len(),
                r@.no_duplicates(),
                forall|x: MemoryId| r@.contains(x) <==> exists|j: int| 0 <= j < i && #[trigger] self.by_tag@[j].1 == x
                    && self.by_tag@[j].0@ == g@,
            decreases self.by_tag.len() - i,
        {
            let ghost prev = r@;
            let e = &self.by_tag[i];
            let x = e.1;
            if str_eq(e.0.as_str(), g) && !ids_contain(&r, x) {
                r.push(x);
                assert(r@[r@.len() - 1] == x);
            }
            proof {
                assert forall|y: MemoryId| r@.contains(y) <==> exists|j: int| 0 <= j < i + 1 && #[trigger] self.by_tag@[j].1 == y
                    && self.by_tag@[j].0@ == g@ by {
                    if r@.contains(y) {
                        if prev.contains(y) {
                            let j = choose|j: int| 0 <= j < i && #[trigger] self.by_tag@[j].1 == y && self.by_tag@[j].0@ == g@;
                        } else {
                            let k = choose|k: int| 0 <= k < r@.len() && r@[k] == y;
                            assert(k == prev.len());
                            assert(self.by_tag@[i as int].1 == y);
                        }
                    }
                    if exists|j: int| 0 <= j < i + 1 && #[trigger] self.by_tag@[j].1 == y && self.by_tag@[j].0@ == g@ {
                        let j = choose|j: int| 0 <= j < i + 1 && #[trigger] self.by_tag@[j].1 == y && self.by_tag@[j].0@ == g@;
                        if j < i {
                            assert(prev.contains(y));
                            let k = choose|k: int| 0 <= k < prev.len() && prev[k] == y;
                            assert(r@[k] == y);
                        } else if prev.contains(y) {
                            let k = choose|k: int| 0 <= k < prev.len() && prev[k] == y;
                            assert(r@[k] == y);
                        }
                    }
                }
            }
            i = i + 1;
        }
        r
    }
}

/// Whether `x` is one of `v`.
fn ids_contain(v: &Vec<MemoryId>, x: MemoryId) -> (b: bool)
    ensures
        b == v@.contains(x),
{
    let mut i: usize = 0;
    while i < v.len()
        invariant
            i <= v@.len(),
            forall|k: int| 0 <= k < i ==> v@[k] != x,
        decreases v.len() - i,
    {
        if v[i] == x {
            return true;
        }
        i = i + 1;
    }
    false
}

/// Indexes with the same kind pairs list the same items of each kind.
proof fn lemma_same_types(a: &MemoryIndex, b: &MemoryIndex)
    requires
        a.by_type == b.by_type,
    ensures
        forall|t: MemoryType| #[trigger] a.typed(t) == b.typed(t),
{
    assert forall|t: MemoryType| #[trigger] a.typed(t) == b.typed(t) by {
        assert(a.typed(t) =~= b.typed(t));
    }
}

/// Indexes with the same tag pairs list the same items under each tag.
proof fn lemma_same_tags(a: &MemoryIndex, b: &MemoryIndex)
    requires
        a.by_tag == b.by_tag,
    ensures
        forall|g: Seq<char>| #[trigger] a.tagged(g) == b.tagged(g),
{
    assert forall|g: Seq<char>| #[trigger] a.tagged(g) == b.tagged(g) by {
        assert(a.tagged(g) =~= b.tagged(g));
    }
}

/// The kind an item had before, if it existed.
pub open spec fn previous_kind(previous: Option<(MemoryType, Vec<String>)>) -> Option<MemoryType> {
    match previous {
        Some((t, _)) => Some(t),
        None => None,
    }
}

/// The tags an item had before (none for a new item).
pub open spec fn previous_tags(previous: Option<(MemoryType, Vec<String>)>) -> Seq<String> {
    match previous {
        Some((_, v)) => v@,
        None => Seq::empty(),
    }
}

/// One of the first `j` texts of `v` is `g`.
pub open spec fn text_before(v: Seq<String>, j: int, g: Seq<char>) -> bool {
    exists|k: int| 0 <= k < j && v[k]@ == g
}

/// A text occurs among all of `v` exactly when it is one of `v`'s texts.
proof fn lemma_text_before_all(v: Seq<String>)
    ensures
        forall|g: Seq<char>| #[trigger] texts_contain(v, g) == text_before(v, v.len() as int, g),
{
    assert forall|g: Seq<char>| #[trigger] texts_contain(v, g) == text_before(v, v.len() as int, g) by {
        if texts_contain(v, g) {
            let i = choose|i: int| 0 <= i < views_of(v).len() && views_of(v)[i] == g;
            assert(v[i]@ == g);
        }
        if text_before(v, v.len() as int, g) {
            let k = choose|k: int| 0 <= k < v.len() && v[k]@ == g;
            assert(views_of(v)[k] == g);
        }
    }
}

} // verus!
