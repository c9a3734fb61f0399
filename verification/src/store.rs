//! The post store: persistence semantics over one table of posts.
//! Rows are keyed by a non-empty id, unique per row; upsert is
//! insert-if-absent or update-if-present, keyed by the post's own id;
//! the preview listing returns the newest posts first, each text cut
//! to the requested length.

use crate::post::{spec_preview_of, Post, PostV};
use crate::timestamp::{lemma_ts_le_total, ts_le};
use vstd::prelude::*;

verus! {

/// Why a store operation failed: the requested row does not exist, or
/// the backend itself failed.
#[derive(Clone, Copy, PartialEq, Eq, Structural, Debug)]
pub enum StoreError {
    NotFound,
    Backend,
}

/// The ghost images of a sequence of posts.
pub open spec fn posts_view(s: Seq<Post>) -> Seq<PostV> {
    s.map_values(|p: Post| p@)
}

/// Some row carries the id.
pub open spec fn contains_id(s: Seq<PostV>, id: Seq<char>) -> bool {
    exists|i: int| 0 <= i < s.len() && s[i].id == id
}

/// The position of the row carrying the id (meaningful when unique).
pub open spec fn idx_of_id(s: Seq<PostV>, id: Seq<char>) -> int {
    choose|i: int| 0 <= i < s.len() && s[i].id == id
}

/// The row carrying the id.
pub open spec fn lookup(s: Seq<PostV>, id: Seq<char>) -> PostV {
    s[idx_of_id(s, id)]
}

/// Store invariant: every row's id is non-empty, and a non-empty id
/// matches at most one row.
pub open spec fn store_wf(s: Seq<PostV>) -> bool {
    &&& forall|i: int, j: int| 0 <= i < j < s.len() ==> s[i].id != s[j].id
    &&& forall|i: int| 0 <= i < s.len() ==> s[i].id.len() > 0
}

/// What upsert does: replace the row carrying the post's id if one
/// exists, else append the post as a new row.
pub open spec fn spec_upsert(s: Seq<PostV>, p: PostV) -> Seq<PostV> {
    if contains_id(s, p.id) {
        s.update(idx_of_id(s, p.id), p)
    } else {
        s.push(p)
    }
}

/// What delete does: drop the row carrying the id if one exists;
/// deleting an absent id changes nothing and is no failure.
pub open spec fn spec_delete(s: Seq<PostV>, id: Seq<char>) -> Seq<PostV> {
    if contains_id(s, id) {
        s.remove(idx_of_id(s, id))
    } else {
        s
    }
}

/// The posts, newest first: each one at least as new as all later ones.
pub open spec fn sorted_desc(s: Seq<PostV>) -> bool {
    forall|i: int, j: int| 0 <= i <= j < s.len() ==> ts_le(s[j].dt, s[i].dt)
}

/// `chosen` picks `min(n, s.len())` rows of `s` (as a multiset), newest
/// first, and no row left behind is newer than a chosen one.
pub open spec fn is_newest_selection(s: Seq<PostV>, n: nat, chosen: Seq<PostV>) -> bool {
    &&& chosen.len() == vstd::math::min(n as int, s.len() as int)
    &&& sorted_desc(chosen)
    &&& chosen.to_multiset().subset_of(s.to_multiset())
    &&& forall|p: PostV|
        s.to_multiset().count(p) > chosen.to_multiset().count(p) ==> (forall|k: int|
            0 <= k < chosen.len() ==> ts_le(p.dt, chosen[k].dt))
}

/// `r` is the preview listing of store `s` with page size `n` and text
/// cut `l`: the previews of a newest-first selection.
pub open spec fn is_preview_listing(s: Seq<PostV>, n: nat, l: nat, r: Seq<PostV>) -> bool {
    exists|chosen: Seq<PostV>|
        #[trigger] is_newest_selection(s, n, chosen) && r == chosen.map_values(
            |p: PostV| spec_preview_of(p, l),
        )
}

/// The least position among those carrying the newest timestamp —
/// the tie-break that makes the listing a function of the table.
/// Meaningful when `s` is non-empty.
pub open spec fn max_idx(s: Seq<PostV>) -> int
    decreases s.len(),
{
    if s.len() <= 1 {
        0
    } else {
        let m = max_idx(s.drop_last());
        if ts_le(s[s.len() - 1].dt, s[m].dt) {
            m
        } else {
            s.len() - 1
        }
    }
}

/// The rows of the preview listing, newest first; among equal
/// timestamps the earlier row wins.
pub open spec fn spec_previews_rows(s: Seq<PostV>, n: nat) -> Seq<PostV>
    decreases n,
{
    if n == 0 || s.len() == 0 {
        Seq::empty()
    } else {
        seq![s[max_idx(s)]] + spec_previews_rows(s.remove(max_idx(s)), (n - 1) as nat)
    }
}

/// The preview listing itself: the newest rows, texts cut to `l`.
pub open spec fn spec_previews(s: Seq<PostV>, n: nat, l: nat) -> Seq<PostV> {
    spec_previews_rows(s, n).map_values(|p: PostV| spec_preview_of(p, l))
}

proof fn lemma_max_idx_in_range(s: Seq<PostV>)
    requires
        s.len() > 0,
    ensures
        0 <= max_idx(s) < s.len(),
    decreases s.len(),
{
    if s.len() > 1 {
        lemma_max_idx_in_range(s.drop_last());
    }
}

/// How the tie-breaking maximum grows with its prefix: scanning one
/// more row keeps the earlier winner unless the new row is strictly
/// newer.
proof fn lemma_max_idx_take_step(s: Seq<PostV>, j: int)
    requires
        1 <= j < s.len(),
    ensures
        max_idx(s.take(j + 1)) == (if ts_le(s[j].dt, s[max_idx(s.take(j))].dt) {
            max_idx(s.take(j))
        } else {
            j
        }),
{
    let t = s.take(j + 1);
    lemma_max_idx_in_range(s.take(j));
    assert(t.drop_last() =~= s.take(j));
    assert(t.len() == j + 1);
    assert(max_idx(t) == if ts_le(t[t.len() - 1].dt, t[max_idx(t.drop_last())].dt) {
        max_idx(t.drop_last())
    } else {
        t.len() - 1
    });
    assert(t[j] == s[j]);
    assert(t[max_idx(s.take(j))] == s[max_idx(s.take(j))]);
}

/// The post store, modelled as its table of rows.
pub struct PostStore {
    pub posts: Vec<Post>,
}

impl View for PostStore {
    type V = Seq<PostV>;

    open spec fn view(&self) -> Seq<PostV> {
        posts_view(self.posts@)
    }
}

/// Relies on uuid::Uuid::new_v4 and uuid's Display form: a fresh
/// version-4 UUID, rendered hyphenated, is exactly 36 characters. The
/// value is random, so nothing more is assumed of it. The call panics
/// when the operating system's random source fails — an environmental
/// condition no argument can exclude.
#[verifier::external_body]
fn fresh_post_id() -> (r: String)
    ensures
        r@.len() == 36,
{
    uuid::Uuid::new_v4().to_string()
}

impl PostStore {
    /// An empty store.
    pub fn new() -> (r: PostStore)
        ensures
            r@ == Seq::<PostV>::empty(),
            store_wf(r@),
    {
        let r = PostStore { posts: Vec::new() };
        proof {
            assert(r@ =~= Seq::<PostV>::empty());
        }
        r
    }

    /// The position of the row carrying `id`, if any.
    fn find_index(&self, id: &String) -> (r: Option<usize>)
        ensures
            match r {
                Some(i) => 0 <= i < self@.len() && self@[i as int].id == id@,
                None => !contains_id(self@, id@),
            },
    {
        let mut j: usize = 0;
        while j < self.posts.len()
            invariant
                j <= self.posts.len(),
                forall|k: int| 0 <= k < j ==> self@[k].id != id@,
            decreases self.posts.len() - j,
        {
            if self.posts[j].id == *id {
                return Some(j);
            }
            j += 1;
        }
        None
    }

    /// Fetches the row carrying `id`. Returns it exactly when it
    /// exists; an absent id — the empty id always among them — is
    /// reported as not found.
    pub fn get_post(&self, id: &String) -> (r: Result<Post, StoreError>)
        requires
            store_wf(self@),
        ensures
            contains_id(self@, id@) ==> r is Ok && r->Ok_0@ == lookup(self@, id@),
            !contains_id(self@, id@) ==> r == Err::<Post, StoreError>(StoreError::NotFound),
    {
        match self.find_index(id) {
            Some(i) => {
                proof {
                    assert(contains_id(self@, id@));
                    let j = idx_of_id(self@, id@);
                    assert(0 <= j < self@.len() && self@[j].id == id@);
                    assert(i as int == j);
                }
                Ok(self.posts[i].clone())
            },
            None => Err(StoreError::NotFound),
        }
    }

    /// Upsert with the replacement id already decided: when the post
    /// carries an id, the store replaces or inserts the row under that
    /// id; when it does not, the row is inserted under `fresh_id` —
    /// unless that id is already taken, which the store reports as a
    /// backend failure rather than overwrite a foreign row.
    pub fn upsert_post_with_id(&mut self, post: &Post, fresh_id: String) -> (r: Result<
        String,
        StoreError,
    >)
        requires
            store_wf(old(self)@),
            fresh_id@.len() > 0,
        ensures
            store_wf(final(self)@),
            post@.id.len() > 0 ==> r is Ok && r->Ok_0@ == post@.id && final(self)@ == spec_upsert(
                old(self)@,
                post@,
            ),
            post@.id.len() == 0 && contains_id(old(self)@, fresh_id@) ==> r == Err::<
                String,
                StoreError,
            >(StoreError::Backend) && final(self)@ == old(self)@,
            post@.id.len() == 0 && !contains_id(old(self)@, fresh_id@) ==> r is Ok
                && r->Ok_0@ == fresh_id@ && final(self)@ == spec_upsert(
                old(self)@,
                PostV { id: fresh_id@, ..post@ },
            ),
    {
        if !post.id.as_str().is_empty() {
            let rid = post.id.clone();
            let updated = post.clone();
            match self.find_index(&rid) {
                Some(i) => {
                    let ghost prev = self@;
                    self.posts.remove(i);
                    self.posts.insert(i, updated);
                    proof {
                        assert(self@ =~= prev.update(i as int, post@));
                        assert(contains_id(prev, post@.id));
                        let j = idx_of_id(prev, post@.id);
                        assert(0 <= j < prev.len() && prev[j].id == post@.id);
                        assert(i as int == j);
                        assert(self@ == spec_upsert(prev, post@));
                        assert forall|a: int, b: int| 0 <= a < b < self@.len() implies self@[a].id
                            != self@[b].id by {
                            assert(prev[a].id == self@[a].id || a == i as int);
                            assert(prev[b].id == self@[b].id || b == i as int);
                        }
                    }
                    Ok(rid)
                },
                None => {
                    let ghost prev = self@;
                    self.posts.push(updated);
                    proof {
                        assert(self@ =~= prev.push(post@));
                    }
                    Ok(rid)
                },
            }
        } else {
            match self.find_index(&fresh_id) {
                Some(_) => Err(StoreError::Backend),
                None => {
                    let ghost prev = self@;
                    let mut updated = post.clone();
                    updated.id = fresh_id.clone();
                    self.posts.push(updated);
                    proof {
                        assert(updated@ == (PostV { id: fresh_id@, ..post@ }));
                        assert(self@ =~= prev.push(updated@));
                    }
                    Ok(fresh_id)
                },
            }
        }
    }

    /// Upsert as the editor calls it: a post with an id replaces or
    /// creates its own row; a never-persisted post (empty id) is
    /// inserted under a freshly generated id, which is returned. The
    /// store alone decides between insert and update.
    pub fn upsert_post(&mut self, post: &Post) -> (r: Result<String, StoreError>)
        requires
            store_wf(old(self)@),
        ensures
            store_wf(final(self)@),
            post@.id.len() > 0 ==> r is Ok && r->Ok_0@ == post@.id && final(self)@ == spec_upsert(
                old(self)@,
                post@,
            ),
            post@.id.len() == 0 && r is Ok ==> r->Ok_0@.len() == 36 && !contains_id(
                old(self)@,
                r->Ok_0@,
            ) && final(self)@ == spec_upsert(old(self)@, PostV { id: r->Ok_0@, ..post@ }),
            r is Err ==> r == Err::<String, StoreError>(StoreError::Backend) && final(self)@ == old(
                self,
            )@,
    {
        let fresh = fresh_post_id();
        let ghost fresh_view = fresh@;
        let r = self.upsert_post_with_id(post, fresh);
        proof {
            if post@.id.len() == 0 && !contains_id(old(self)@, fresh_view) {
                assert(r is Ok && r->Ok_0@ == fresh_view);
            }
        }
        r
    }

    /// Deletes the row carrying `id`. Deleting an id that matches no
    /// row is not a failure: the operation always succeeds and leaves
    /// the store without such a row either way.
    pub fn delete_post(&mut self, id: &String) -> (r: Result<(), StoreError>)
        requires
            store_wf(old(self)@),
        ensures
            store_wf(final(self)@),
            final(self)@ == spec_delete(old(self)@, id@),
            r is Ok,
            !contains_id(final(self)@, id@),
    {
        match self.find_index(id) {
            Some(i) => {
                let ghost prev = self@;
                self.posts.remove(i);
                proof {
                    assert(self@ =~= prev.remove(i as int));
                    assert(contains_id(prev, id@));
                    let j = idx_of_id(prev, id@);
                    assert(0 <= j < prev.len() && prev[j].id == id@);
                    assert(i as int == j);
                    assert forall|a: int, b: int| 0 <= a < b < self@.len() implies self@[a].id
                        != self@[b].id by {
                        let a0 = if a < i as int {
                            a
                        } else {
                            a + 1
                        };
                        let b0 = if b < i as int {
                            b
                        } else {
                            b + 1
                        };
                        assert(self@[a] == prev[a0] && self@[b] == prev[b0]);
                    }
                    assert forall|k: int| 0 <= k < self@.len() implies self@[k].id != id@ by {
                        let k0 = if k < i as int {
                            k
                        } else {
                            k + 1
                        };
                        assert(self@[k] == prev[k0]);
                    }
                }
                Ok(())
            },
            None => Ok(()),
        }
    }
}

impl PostStore {
    /// The preview listing: the newest `page_size` posts (all of them
    /// when the store holds fewer), newest first, each text cut to
    /// `preview_length` characters with an ellipsis marker when
    /// longer. The listing is a function of the table — equal
    /// timestamps are broken by row position — so reading it twice
    /// without a write in between yields the same listing.
    pub fn get_previews(&self, preview_length: usize, page_size: usize) -> (r: Vec<Post>)
        ensures
            posts_view(r@) == spec_previews(self@, page_size as nat, preview_length as nat),
            is_preview_listing(self@, page_size as nat, preview_length as nat, posts_view(r@)),
            r@.len() == vstd::math::min(page_size as int, self@.len() as int),
            sorted_desc(posts_view(r@)),
            forall|k: int| 0 <= k < r@.len() ==> r@[k]@.text.len() <= preview_length + 3,
    {
        broadcast use vstd::seq_lib::group_to_multiset_ensures;
        broadcast use vstd::multiset::group_multiset_axioms;


        let ghost total: Seq<PostV> = self@;
        let mut remaining: Vec<Post> = Vec::new();
        let mut i: usize = 0;
        while i < self.posts.len()
            invariant
                i <= self.posts.len(),
                remaining@.len() == i,
                forall|k: int| 0 <= k < i ==> remaining@[k]@ == self@[k],
            decreases self.posts.len() - i,
        {
            remaining.push(self.posts[i].clone());
            i += 1;
        }
        proof {
            assert(posts_view(remaining@) =~= total);
        }
        let mut out: Vec<Post> = Vec::new();
        let ghost mut chosen: Seq<PostV> = Seq::empty();
        proof {
            assert(chosen.to_multiset().add(posts_view(remaining@).to_multiset())
                =~= total.to_multiset());
            assert(chosen + spec_previews_rows(posts_view(remaining@), page_size as nat)
                =~= spec_previews_rows(total, page_size as nat));
        }
        while out.len() < page_size && remaining.len() != 0
            invariant
                out@.len() == chosen.len(),
                chosen.len() <= page_size,
                forall|k: int|
                    0 <= k < chosen.len() ==> out@[k]@ == spec_preview_of(
                        chosen[k],
                        preview_length as nat,
                    ),
                sorted_desc(chosen),
                chosen.to_multiset().add(posts_view(remaining@).to_multiset())
                    == total.to_multiset(),
                forall|k: int, j: int|
                    0 <= k < chosen.len() && 0 <= j < remaining@.len() ==> ts_le(
                        remaining@[j]@.dt,
                        chosen[k].dt,
                    ),
                chosen + spec_previews_rows(
                    posts_view(remaining@),
                    (page_size - out@.len()) as nat,
                ) == spec_previews_rows(total, page_size as nat),
            decreases remaining@.len(),
        {
            let ghost rem_prev = posts_view(remaining@);
            let mut best: usize = 0;
            let mut j: usize = 1;
            proof {
                assert(rem_prev.take(1).len() == 1);
                assert(max_idx(rem_prev.take(1)) == 0);
            }
            while j < remaining.len()
                invariant
                    0 < remaining@.len(),
                    best < j <= remaining@.len(),
                    posts_view(remaining@) == rem_prev,
                    forall|k: int| 0 <= k < j ==> ts_le(remaining@[k]@.dt, remaining@[best as int]@.dt),
                    best as int == max_idx(rem_prev.take(j as int)),
                decreases remaining@.len() - j,
            {
                proof {
                    lemma_max_idx_take_step(rem_prev, j as int);
                    lemma_ts_le_total(remaining@[best as int]@.dt, remaining@[j as int]@.dt);
                }
                if !remaining[j].dt.le(&remaining[best].dt) {
                    best = j;
                }
                j += 1;
            }
            proof {
                assert(rem_prev.take(rem_prev.len() as int) =~= rem_prev);
                assert(best as int == max_idx(rem_prev));
            }
            let ghost chosen_prev = chosen;
            let p = remaining.remove(best);
            out.push(p.preview_of(preview_length));
            proof {
                let rem_now = posts_view(remaining@);
                assert(rem_now =~= rem_prev.remove(best as int));
                assert(p@ == rem_prev[best as int]);
                chosen = chosen_prev.push(p@);
                let m = (page_size - chosen_prev.len()) as nat;
                assert(spec_previews_rows(rem_prev, m) == seq![rem_prev[max_idx(rem_prev)]]
                    + spec_previews_rows(rem_prev.remove(max_idx(rem_prev)), (m - 1) as nat));
                assert(chosen_prev + seq![p@] =~= chosen);
                assert(chosen + spec_previews_rows(rem_now, (page_size - out@.len()) as nat)
                    =~= spec_previews_rows(total, page_size as nat));
                rem_prev.to_multiset_ensures();
                chosen_prev.to_multiset_ensures();
                assert(rem_prev.contains(p@));
                assert(rem_prev.to_multiset().count(p@) > 0);
                assert(chosen_prev.push(p@).to_multiset() =~= chosen_prev.to_multiset().insert(p@));
                assert(rem_prev.remove(best as int).to_multiset() =~= rem_prev.to_multiset().remove(
                    rem_prev[best as int],
                ));
                assert forall|q: PostV|
                    chosen.to_multiset().add(rem_now.to_multiset()).count(q) == total.to_multiset()
                        .count(q) by {
                    assert(chosen.to_multiset() == chosen_prev.to_multiset().insert(p@));
                    assert(rem_now.to_multiset() == rem_prev.to_multiset().remove(p@));
                }
                assert(chosen.to_multiset().add(rem_now.to_multiset()) =~= total.to_multiset());
                assert forall|k: int, jj: int|
                    0 <= k < chosen.len() && 0 <= jj < rem_now.len() implies ts_le(
                    rem_now[jj].dt,
                    chosen[k].dt,
                ) by {
                    let j0 = if jj < best as int {
                        jj
                    } else {
                        jj + 1
                    };
                    assert(rem_now[jj] == rem_prev[j0]);
                    assert(ts_le(rem_prev[j0].dt, p@.dt));
                }
                assert(sorted_desc(chosen));
            }
        }
        proof {
            let rem_now = posts_view(remaining@);
            chosen.to_multiset_ensures();
            rem_now.to_multiset_ensures();
            assert(chosen.to_multiset().len() == chosen.len());
            assert(rem_now.to_multiset().len() == rem_now.len());
            vstd::multiset::axiom_len_add(chosen.to_multiset(), rem_now.to_multiset());
            assert(chosen.len() + rem_now.len() == total.len());
            assert(chosen.len() == vstd::math::min(page_size as int, total.len() as int));
            assert forall|q: PostV|
                total.to_multiset().count(q) > chosen.to_multiset().count(q) implies (forall|k: int|
                0 <= k < chosen.len() ==> ts_le(q.dt, chosen[k].dt)) by {
                assert(rem_now.to_multiset().count(q) > 0);
                assert(rem_now.contains(q));
                let j = choose|j: int| 0 <= j < rem_now.len() && rem_now[j] == q;
                assert(forall|k: int| 0 <= k < chosen.len() ==> ts_le(rem_now[j].dt, chosen[k].dt));
            }
            assert forall|q: PostV| chosen.to_multiset().count(q) <= total.to_multiset().count(
                q,
            ) by {}
            assert(chosen.to_multiset().subset_of(total.to_multiset()));
            assert(is_newest_selection(total, page_size as nat, chosen));
            assert(spec_previews_rows(rem_now, (page_size - out@.len()) as nat)
                =~= Seq::<PostV>::empty());
            assert(chosen + Seq::<PostV>::empty() =~= chosen);
            assert(chosen == spec_previews_rows(total, page_size as nat));
            assert(posts_view(out@) =~= chosen.map_values(
                |p: PostV| spec_preview_of(p, preview_length as nat),
            ));
            assert(posts_view(out@) =~= spec_previews(
                total,
                page_size as nat,
                preview_length as nat,
            ));
            assert(is_preview_listing(
                total,
                page_size as nat,
                preview_length as nat,
                posts_view(out@),
            ));
            assert forall|k: int| 0 <= k < out@.len() implies out@[k]@.text.len() <= preview_length
                + 3 by {
                crate::post::lemma_preview_text_len(chosen[k].text, preview_length as nat);
            }
        }
        out
    }
}

/// Law: upserting a post that carries an id and then fetching that id
/// returns a row equal to the submitted post in every field — callers
/// that were handed a generated id instantiate `p` with it, so the
/// fetched post equals the submitted one in all fields except possibly
/// the id assignment. The store invariant is preserved.
pub proof fn lemma_upsert_then_get_round_trip(s: Seq<PostV>, p: PostV)
    requires
        store_wf(s),
        p.id.len() > 0,
    ensures
        store_wf(spec_upsert(s, p)),
        contains_id(spec_upsert(s, p), p.id),
        lookup(spec_upsert(s, p), p.id) == p,
{
    let s2 = spec_upsert(s, p);
    if contains_id(s, p.id) {
        let i = idx_of_id(s, p.id);
        assert(0 <= i < s.len() && s[i].id == p.id);
        assert(s2[i] == p);
        assert forall|a: int, b: int| 0 <= a < b < s2.len() implies s2[a].id != s2[b].id by {
            assert(s[a].id == s2[a].id || a == i);
            assert(s[b].id == s2[b].id || b == i);
        }
        let j = idx_of_id(s2, p.id);
        assert(0 <= j < s2.len() && s2[j].id == p.id);
        assert(j == i);
    } else {
        assert(s2[s.len() as int] == p);
        let j = idx_of_id(s2, p.id);
        assert(0 <= j < s2.len() && s2[j].id == p.id);
        assert(j == s.len() as int);
    }
}

} // verus!
