//! The post entity: a record of five plain fields, its ghost image,
//! and the read-only preview projection used by the listing.

use crate::timestamp::Timestamp;
use vstd::prelude::*;
use vstd::string::*;

verus! {

/// Ghost image of a post: each text field as its character sequence.
pub struct PostV {
    pub id: Seq<char>,
    pub dt: Timestamp,
    pub image_url: Seq<char>,
    pub title: Seq<char>,
    pub text: Seq<char>,
}

/// A blog post. An empty `id` means the post has never been persisted;
/// a non-empty `id` names at most one stored row.
pub struct Post {
    pub id: String,
    pub dt: Timestamp,
    pub image_url: String,
    pub title: String,
    pub text: String,
}

impl View for Post {
    type V = PostV;

    open spec fn view(&self) -> PostV {
        PostV {
            id: self.id@,
            dt: self.dt,
            image_url: self.image_url@,
            title: self.title@,
            text: self.text@,
        }
    }
}

impl Clone for Post {
    fn clone(&self) -> (r: Self)
        ensures
            r@ == self@,
    {
        Post {
            id: self.id.clone(),
            dt: self.dt,
            image_url: self.image_url.clone(),
            title: self.title.clone(),
            text: self.text.clone(),
        }
    }
}

/// The ghost image of a post whose text fields are all empty and whose
/// timestamp is `now`.
pub open spec fn spec_empty_post(now: Timestamp) -> PostV {
    PostV {
        id: Seq::empty(),
        dt: now,
        image_url: Seq::empty(),
        title: Seq::empty(),
        text: Seq::empty(),
    }
}

impl Post {
    /// A never-persisted post: empty id and fields, stamped `now`.
    pub fn new_empty(now: Timestamp) -> (r: Post)
        ensures
            r@ == spec_empty_post(now),
    {
        let r = Post {
            id: String::new(),
            dt: now,
            image_url: String::new(),
            title: String::new(),
            text: String::new(),
        };
        proof {
            assert(r.id@ =~= Seq::<char>::empty());
            assert(r.image_url@ =~= Seq::<char>::empty());
            assert(r.title@ =~= Seq::<char>::empty());
            assert(r.text@ =~= Seq::<char>::empty());
        }
        r
    }
}

/// Marker appended to a truncated preview text.
pub open spec fn ellipsis() -> Seq<char> {
    seq!['.', '.', '.']
}

/// A text cut for the listing: unchanged when it has at most `l`
/// characters, else its first `l` characters with the ellipsis marker.
pub open spec fn spec_preview_text(s: Seq<char>, l: nat) -> Seq<char> {
    if s.len() <= l {
        s
    } else {
        s.subrange(0, l as int) + ellipsis()
    }
}

/// A preview text never exceeds the cut length by more than the
/// three-character ellipsis marker.
pub proof fn lemma_preview_text_len(s: Seq<char>, l: nat)
    ensures
        spec_preview_text(s, l).len() <= l + 3,
{
}

/// Cuts a text for the listing.
pub fn preview_text(s: &str, l: usize) -> (r: String)
    ensures
        r@ == spec_preview_text(s@, l as nat),
{
    let n = s.unicode_len();
    if n <= l {
        s.to_owned()
    } else {
        let mut out = s.substring_char(0, l).to_owned();
        out.append("...");
        proof {
            reveal_strlit("...");
            assert(out@ =~= spec_preview_text(s@, l as nat));
        }
        out
    }
}

/// The preview projection of a post: same fields, text cut to `l`.
pub open spec fn spec_preview_of(p: PostV, l: nat) -> PostV {
    PostV { text: spec_preview_text(p.text, l), ..p }
}

impl Post {
    /// The read-only preview of this post for the listing. Previews are
    /// projections: they are never submitted back as full content.
    pub fn preview_of(&self, l: usize) -> (r: Post)
        ensures
            r@ == spec_preview_of(self@, l as nat),
    {
        Post {
            id: self.id.clone(),
            dt: self.dt,
            image_url: self.image_url.clone(),
            title: self.title.clone(),
            text: preview_text(self.text.as_str(), l),
        }
    }
}

} // verus!
