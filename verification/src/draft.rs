//! The draft controller: the state machine behind the post editor.
//! One controller owns the in-progress edit of one post: it loads an
//! existing post or starts an empty one, applies field edits, and
//! completes submit and delete outcomes, emitting the success toast
//! and the navigation target. Fetch answers carry the generation they
//! were requested under, so an answer superseded by a later
//! initialization is discarded instead of resurrecting a stale draft.

use crate::post::{spec_empty_post, Post, PostV};
use crate::store::StoreError;
use crate::timestamp::{parse_dt, spec_parse_dt, Timestamp};
use crate::toast::{spec_emit, ToastCenter, ToastType};
use vstd::pervasive::unreached;
use vstd::prelude::*;
use vstd::string::*;

verus! {

/// How far the post under edit has loaded.
pub enum LoadState {
    Pending,
    Loaded(Post),
    Failed(StoreError),
}

/// Ghost image of a load state.
pub enum LoadStateV {
    Pending,
    Loaded(PostV),
    Failed(StoreError),
}

impl View for LoadState {
    type V = LoadStateV;

    open spec fn view(&self) -> LoadStateV {
        match self {
            LoadState::Pending => LoadStateV::Pending,
            LoadState::Loaded(p) => LoadStateV::Loaded(p@),
            LoadState::Failed(e) => LoadStateV::Failed(*e),
        }
    }
}

/// The draft controller for one editing session.
pub struct Draft {
    pub generation: u64,
    pub state: LoadState,
}

/// Ghost image of a draft controller.
pub struct DraftV {
    pub generation: nat,
    pub state: LoadStateV,
}

impl View for Draft {
    type V = DraftV;

    open spec fn view(&self) -> DraftV {
        DraftV { generation: self.generation as nat, state: self.state@ }
    }
}

/// A fetch the caller owes the controller: load `id` from the store
/// and hand the answer back under `generation`.
pub struct FetchTicket {
    pub id: String,
    pub generation: u64,
}

/// One field edit: which field of the wrapped post to replace, with
/// the raw new value as the form hands it over.
pub enum FieldEdit {
    Dt(String),
    ImageUrl(String),
    Title(String),
    Text(String),
}

/// Ghost image of a field edit.
pub enum FieldEditV {
    Dt(Seq<char>),
    ImageUrl(Seq<char>),
    Title(Seq<char>),
    Text(Seq<char>),
}

impl View for FieldEdit {
    type V = FieldEditV;

    open spec fn view(&self) -> FieldEditV {
        match self {
            FieldEdit::Dt(s) => FieldEditV::Dt(s@),
            FieldEdit::ImageUrl(s) => FieldEditV::ImageUrl(s@),
            FieldEdit::Title(s) => FieldEditV::Title(s@),
            FieldEdit::Text(s) => FieldEditV::Text(s@),
        }
    }
}

/// Two edits address the same field.
pub open spec fn same_field(a: FieldEditV, b: FieldEditV) -> bool {
    match (a, b) {
        (FieldEditV::Dt(_), FieldEditV::Dt(_)) => true,
        (FieldEditV::ImageUrl(_), FieldEditV::ImageUrl(_)) => true,
        (FieldEditV::Title(_), FieldEditV::Title(_)) => true,
        (FieldEditV::Text(_), FieldEditV::Text(_)) => true,
        _ => false,
    }
}

/// What one field edit does to the wrapped post: exactly the named
/// field is replaced, the others stay. A timestamp text that does not
/// parse in the fixed form falls back to `now` — the edit is accepted
/// either way, and the fallback is reported to the caller rather than
/// swallowed.
pub open spec fn spec_edit(p: PostV, edit: FieldEditV, now: Timestamp) -> PostV {
    match edit {
        FieldEditV::Dt(s) => PostV {
            dt: match spec_parse_dt(s) {
                Some(t) => t,
                None => now,
            },
            ..p
        },
        FieldEditV::ImageUrl(s) => PostV { image_url: s, ..p },
        FieldEditV::Title(s) => PostV { title: s, ..p },
        FieldEditV::Text(s) => PostV { text: s, ..p },
    }
}

/// Ghost image of a fetch answer.
pub open spec fn fetch_result_view(r: Result<Post, StoreError>) -> Result<PostV, StoreError> {
    match r {
        Ok(p) => Ok(p@),
        Err(e) => Err(e),
    }
}

/// What a fetch answer does to the controller: it lands only when the
/// controller still waits for it — state Pending and an unchanged
/// generation. A stale or unsolicited answer changes nothing.
pub open spec fn spec_apply_fetch(d: DraftV, token: nat, r: Result<PostV, StoreError>) -> DraftV {
    if token == d.generation && d.state is Pending {
        match r {
            Ok(p) => DraftV { state: LoadStateV::Loaded(p), ..d },
            Err(e) => DraftV { state: LoadStateV::Failed(e), ..d },
        }
    } else {
        d
    }
}

impl Draft {
    /// Opens (or re-opens) the editing session. Without an id the
    /// draft is immediately a loaded, never-persisted post stamped
    /// `now`; with an id the draft is pending and the returned ticket
    /// asks the caller to fetch that post. Any edits of the previous
    /// session are discarded, and the bumped generation invalidates
    /// every fetch still in flight.
    pub fn initialize(&mut self, id: Option<String>, now: Timestamp) -> (t: Option<FetchTicket>)
        requires
            old(self)@.generation < u64::MAX,
        ensures
            final(self)@.generation == old(self)@.generation + 1,
            match id {
                None => final(self)@.state == LoadStateV::Loaded(spec_empty_post(now)) && t
                    is None,
                Some(s) => final(self)@.state is Pending && match t {
                    Some(tk) => tk.id@ == s@ && tk.generation as nat == final(self)@.generation,
                    None => false,
                },
            },
    {
        self.generation = self.generation + 1;
        match id {
            None => {
                self.state = LoadState::Loaded(Post::new_empty(now));
                None
            },
            Some(s) => {
                self.state = LoadState::Pending;
                Some(FetchTicket { id: s, generation: self.generation })
            },
        }
    }

    /// A fresh controller, opened on `id` as `initialize` does.
    pub fn new(id: Option<String>, now: Timestamp) -> (r: (Draft, Option<FetchTicket>))
        ensures
            r.0@.generation == 1,
            match id {
                None => r.0@.state == LoadStateV::Loaded(spec_empty_post(now)) && r.1 is None,
                Some(s) => r.0@.state is Pending && match r.1 {
                    Some(tk) => tk.id@ == s@ && tk.generation as nat == r.0@.generation,
                    None => false,
                },
            },
    {
        let mut d = Draft { generation: 0, state: LoadState::Pending };
        let t = d.initialize(id, now);
        (d, t)
    }

    /// Hands the controller the store's answer to the fetch requested
    /// under `token`.
    pub fn apply_fetch(&mut self, token: u64, result: Result<Post, StoreError>)
        ensures
            final(self)@ == spec_apply_fetch(old(self)@, token as nat, fetch_result_view(result)),
    {
        let is_pending = match &self.state {
            LoadState::Pending => true,
            _ => false,
        };
        if token == self.generation && is_pending {
            match result {
                Ok(p) => {
                    self.state = LoadState::Loaded(p);
                },
                Err(e) => {
                    self.state = LoadState::Failed(e);
                },
            }
        }
    }

    /// Applies one field edit to the loaded draft. An edit is valid
    /// only while the draft is loaded: one that arrives while the
    /// draft is pending or failed is ignored and changes nothing.
    /// Returns whether the timestamp fallback was taken: the given
    /// text did not parse and `now` was substituted.
    pub fn edit_field(&mut self, edit: FieldEdit, now: Timestamp) -> (fallback: bool)
        ensures
            final(self)@.generation == old(self)@.generation,
            old(self)@.state is Loaded ==> final(self)@.state == LoadStateV::Loaded(
                spec_edit(old(self)@.state->Loaded_0, edit@, now),
            ) && fallback == (edit@ matches FieldEditV::Dt(s) && spec_parse_dt(s) is None),
            !(old(self)@.state is Loaded) ==> final(self)@ == old(self)@ && !fallback,
    {
        match &mut self.state {
            LoadState::Loaded(p) => {
                match edit {
                    FieldEdit::Dt(s) => {
                        match parse_dt(s.as_str()) {
                            Some(t) => {
                                p.dt = t;
                                false
                            },
                            None => {
                                p.dt = now;
                                true
                            },
                        }
                    },
                    FieldEdit::ImageUrl(s) => {
                        p.image_url = s;
                        false
                    },
                    FieldEdit::Title(s) => {
                        p.title = s;
                        false
                    },
                    FieldEdit::Text(s) => {
                        p.text = s;
                        false
                    },
                }
            },
            _ => false,
        }
    }

    /// The wrapped post, for rendering a live preview while editing.
    pub fn current_draft_post(&self) -> (r: Option<&Post>)
        ensures
            match r {
                Some(p) => self@.state == LoadStateV::Loaded(p@),
                None => !(self@.state is Loaded),
            },
    {
        match &self.state {
            LoadState::Loaded(p) => Some(p),
            _ => None,
        }
    }

    /// The full post to send to the store's upsert — available exactly
    /// while the draft is loaded.
    pub fn submit_request(&self) -> (r: Option<Post>)
        ensures
            match r {
                Some(p) => self@.state == LoadStateV::Loaded(p@),
                None => !(self@.state is Loaded),
            },
    {
        match &self.state {
            LoadState::Loaded(p) => Some(p.clone()),
            _ => None,
        }
    }

    /// The id to send to the store's delete — available exactly while
    /// the draft is loaded and wraps a persisted (non-empty) id.
    pub fn delete_request(&self) -> (r: Option<String>)
        ensures
            match r {
                Some(id) => self@.state is Loaded && id@ == self@.state->Loaded_0.id
                    && id@.len() > 0,
                None => !(self@.state is Loaded) || self@.state->Loaded_0.id.len() == 0,
            },
    {
        match &self.state {
            LoadState::Loaded(p) => {
                if !p.id.as_str().is_empty() {
                    Some(p.id.clone())
                } else {
                    None
                }
            },
            _ => None,
        }
    }
}

/// The toast text reported after a successful submit.
pub open spec fn submit_toast_text() -> Seq<char> {
    "Post submitted."@
}

/// The toast text reported after a successful delete.
pub open spec fn delete_toast_text() -> Seq<char> {
    "Post deleted"@
}

/// The navigation target after a successful submit: the viewer of the
/// stored post.
pub open spec fn view_path(id: Seq<char>) -> Seq<char> {
    "/view/"@ + id
}

/// The navigation target after a successful delete: the listing root.
pub open spec fn root_path() -> Seq<char> {
    "/"@
}

impl Draft {
    /// Completes a submit with the store's answer. On success the
    /// draft stays loaded with its id set to the returned one, the
    /// success toast is emitted, and the navigation target is the
    /// viewer of that id. On failure nothing changes — the draft keeps
    /// its unsaved edits, no toast is emitted, there is no navigation —
    /// and the error is handed back to be surfaced inline.
    pub fn complete_submit(
        &mut self,
        toasts: &mut ToastCenter,
        result: Result<String, StoreError>,
    ) -> (nav: Result<String, StoreError>)
        requires
            old(self)@.state is Loaded,
            old(toasts)@.generation < u64::MAX,
        ensures
            final(self)@.generation == old(self)@.generation,
            match result {
                Ok(id) => {
                    &&& final(self)@.state == LoadStateV::Loaded(
                        PostV { id: id@, ..old(self)@.state->Loaded_0 },
                    )
                    &&& final(toasts)@ == spec_emit(
                        old(toasts)@,
                        submit_toast_text(),
                        ToastType::Success,
                    )
                    &&& nav matches Ok(p) && p@ == view_path(id@)
                },
                Err(e) => {
                    &&& final(self)@ == old(self)@
                    &&& final(toasts)@ == old(toasts)@
                    &&& nav == Err::<String, StoreError>(e)
                },
            },
    {
        match result {
            Ok(id) => {
                match &mut self.state {
                    LoadState::Loaded(p) => {
                        p.id = id.clone();
                    },
                    _ => unreached(),
                }
                toasts.emit(String::from_str("Post submitted."), ToastType::Success);
                let path = String::from_str("/view/").concat(id.as_str());
                Ok(path)
            },
            Err(e) => Err(e),
        }
    }

    /// Completes a delete with the store's answer. On success the
    /// "Post deleted" toast is emitted and the navigation target is
    /// the listing root; the session is over and the caller discards
    /// the draft. On failure nothing changes and the error is handed
    /// back to be surfaced inline.
    pub fn complete_delete(
        &mut self,
        toasts: &mut ToastCenter,
        result: Result<(), StoreError>,
    ) -> (nav: Result<String, StoreError>)
        requires
            old(self)@.state is Loaded,
            old(self)@.state->Loaded_0.id.len() > 0,
            old(toasts)@.generation < u64::MAX,
        ensures
            final(self)@ == old(self)@,
            match result {
                Ok(_) => {
                    &&& final(toasts)@ == spec_emit(
                        old(toasts)@,
                        delete_toast_text(),
                        ToastType::Success,
                    )
                    &&& nav matches Ok(p) && p@ == root_path()
                },
                Err(e) => {
                    &&& final(toasts)@ == old(toasts)@
                    &&& nav == Err::<String, StoreError>(e)
                },
            },
    {
        match result {
            Ok(_) => {
                toasts.emit(String::from_str("Post deleted"), ToastType::Success);
                Ok(String::from_str("/"))
            },
            Err(e) => Err(e),
        }
    }
}

/// Law: opening the editor without an id always yields a loaded draft
/// wrapping a never-persisted post — empty id — whose timestamp is no
/// earlier than the moment the session was opened.
pub proof fn lemma_initialize_empty_is_fresh(now: Timestamp)
    ensures
        spec_empty_post(now).id.len() == 0,
        crate::timestamp::ts_le(now, spec_empty_post(now).dt),
{
}

/// Law: editing the same field twice keeps only the second value —
/// last write wins, no merging — and leaves every other field as a
/// single second edit would.
pub proof fn lemma_edit_last_write_wins(p: PostV, e1: FieldEditV, e2: FieldEditV, now: Timestamp)
    requires
        same_field(e1, e2),
    ensures
        spec_edit(spec_edit(p, e1, now), e2, now) == spec_edit(p, e2, now),
{
}

} // verus!
