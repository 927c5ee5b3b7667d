//! The lookup as a state machine. The caller performs each request that a
//! step asks for, waiting the lookup's delay before it, and hands the reply
//! to the next step, until a step is done.

use vstd::prelude::*;
use crate::labels::{
    add_item_labels, harvest, insert_all, item_labels, lemma_harvest_push, names,
};
use crate::query::SearchQuery;

verus! {

/// The delay before each request, in milliseconds, unless chosen otherwise.
pub const DEFAULT_DELAY_MS: u64 = 500;

/// Where a lookup stands: what its last request asked for.
#[derive(PartialEq, Eq, Structural, Clone, Copy, Debug)]
pub enum Stage {
    /// The recording search.
    Search,
    /// The genres and tags of one candidate recording.
    RecordingLabels,
    /// The releases of one candidate recording (fallback).
    RecordingReleases,
    /// The genres and tags of one release (fallback).
    ReleaseLabels,
    /// The lookup is over.
    Finished,
}

/// What the caller is asked to fetch from the metadata service.
pub enum Request {
    /// Search recordings with this query.
    Search { query: String },
    /// Fetch this recording with its genres and tags.
    RecordingLabels { id: String },
    /// Fetch this recording with its releases.
    RecordingReleases { id: String },
    /// Fetch this release with its genres and tags.
    ReleaseLabels { id: String },
}

/// What the metadata service answered to the last request.
pub enum Reply {
    /// The ids of the recordings that the search found, in the service's order.
    Recordings { ids: Vec<String> },
    /// The genre names and the tag names of the fetched recording or release.
    Labels { genres: Option<Vec<String>>, tags: Option<Vec<String>> },
    /// The ids of the fetched recording's releases, if it carried a list.
    Releases { releases: Option<Vec<String>> },
    /// The request failed.
    Failed,
}

/// How a lookup ended.
pub enum Outcome {
    /// The search found no recording.
    NoMatch,
    /// Neither the recordings nor their releases carry a label.
    NoGenres,
    /// The labels found, each once, in the order first seen.
    Genres { labels: Vec<String> },
    /// A request failed, or its reply was not of the kind asked for.
    ServiceFailure,
}

/// What a step of the lookup hands back.
pub enum Step {
    Send { request: Request },
    Done { outcome: Outcome },
}

/// The kind of a request, as the stage it belongs to, and the query or id
/// that it names.
pub open spec fn request_view(r: Request) -> (Stage, Seq<char>) {
    match r {
        Request::Search { query } => (Stage::Search, query@),
        Request::RecordingLabels { id } => (Stage::RecordingLabels, id@),
        Request::RecordingReleases { id } => (Stage::RecordingReleases, id@),
        Request::ReleaseLabels { id } => (Stage::ReleaseLabels, id@),
    }
}

/// The step sends a request of kind `kind` that names `target`.
pub open spec fn sends(s: Step, kind: Stage, target: Seq<char>) -> bool {
    match s {
        Step::Send { request } => request_view(request) == (kind, target),
        Step::Done { .. } => false,
    }
}

/// The step ends the lookup with these labels.
pub open spec fn ends_with_genres(s: Step, labels: Seq<Seq<char>>) -> bool {
    match s {
        Step::Done { outcome: Outcome::Genres { labels: l } } => names(l@) == labels,
        _ => false,
    }
}

/// The step ends the lookup with no match.
pub open spec fn ends_with_no_match(s: Step) -> bool {
    s matches Step::Done { outcome: Outcome::NoMatch }
}

/// The step ends the lookup with no label found.
pub open spec fn ends_with_no_genres(s: Step) -> bool {
    s matches Step::Done { outcome: Outcome::NoGenres }
}

/// The step ends the lookup on a failure of the service.
pub open spec fn ends_with_failure(s: Step) -> bool {
    s matches Step::Done { outcome: Outcome::ServiceFailure }
}

/// What one step does, from the lookup `pre` and the reply to its last
/// request, to the lookup `post` and the step `r` that it hands back.
pub open spec fn step_post(pre: Lookup, reply: Reply, post: Lookup, r: Step) -> bool {
    &&& post.delay() == pre.delay()
    &&& match pre.stage() {
        Stage::Search => match reply {
            Reply::Recordings { ids } => if ids@.len() == 0 {
                &&& post.stage() == Stage::Finished
                &&& ends_with_no_match(r)
            } else {
                &&& post.stage() == Stage::RecordingLabels
                &&& post.recordings() == names(ids@)
                &&& post.next() == 0
                &&& post.recording_items() == Seq::<Seq<Seq<char>>>::empty()
                &&& sends(r, Stage::RecordingLabels, ids@[0]@)
            },
            _ => post.stage() == Stage::Finished && ends_with_failure(r),
        },
        Stage::RecordingLabels => match reply {
            Reply::Labels { genres, tags } => {
                let items = pre.recording_items().push(item_labels(genres, tags));
                &&& post.recordings() == pre.recordings()
                &&& post.recording_items() == items
                &&& if pre.next() + 1 < pre.recordings().len() {
                    &&& post.stage() == Stage::RecordingLabels
                    &&& post.next() == pre.next() + 1
                    &&& sends(r, Stage::RecordingLabels, pre.recordings()[pre.next() + 1int])
                } else if harvest(items).len() > 0 {
                    &&& post.stage() == Stage::Finished
                    &&& ends_with_genres(r, harvest(items))
                } else {
                    &&& post.stage() == Stage::RecordingReleases
                    &&& post.next() == 0
                    &&& post.releases() == Seq::<Seq<char>>::empty()
                    &&& sends(r, Stage::RecordingReleases, pre.recordings()[0])
                }
            },
            _ => post.stage() == Stage::Finished && ends_with_failure(r),
        },
        Stage::RecordingReleases => match reply {
            Reply::Releases { releases: Some(l) } => {
                let releases = pre.releases() + names(l@);
                &&& post.recordings() == pre.recordings()
                &&& post.recording_items() == pre.recording_items()
                &&& post.releases() == releases
                &&& if pre.next() + 1 < pre.recordings().len() {
                    &&& post.stage() == Stage::RecordingReleases
                    &&& post.next() == pre.next() + 1
                    &&& sends(r, Stage::RecordingReleases, pre.recordings()[pre.next() + 1int])
                } else if releases.len() == 0 {
                    &&& post.stage() == Stage::Finished
                    &&& ends_with_no_genres(r)
                } else {
                    &&& post.stage() == Stage::ReleaseLabels
                    &&& post.next() == 0
                    &&& post.release_items() == Seq::<Seq<Seq<char>>>::empty()
                    &&& sends(r, Stage::ReleaseLabels, releases[0])
                }
            },
            _ => post.stage() == Stage::Finished && ends_with_failure(r),
        },
        Stage::ReleaseLabels => match reply {
            Reply::Labels { genres, tags } => {
                let items = pre.release_items().push(item_labels(genres, tags));
                &&& post.releases() == pre.releases()
                &&& post.release_items() == items
                &&& if pre.next() + 1 < pre.releases().len() {
                    &&& post.stage() == Stage::ReleaseLabels
                    &&& post.next() == pre.next() + 1
                    &&& sends(r, Stage::ReleaseLabels, pre.releases()[pre.next() + 1int])
                } else if harvest(items).len() > 0 {
                    &&& post.stage() == Stage::Finished
                    &&& ends_with_genres(r, harvest(items))
                } else {
                    &&& post.stage() == Stage::Finished
                    &&& ends_with_no_genres(r)
                }
            },
            _ => post.stage() == Stage::Finished && ends_with_failure(r),
        },
        Stage::Finished => false,
    }
}

/// One lookup in progress.
pub struct Lookup {
    delay_ms: u64,
    stage: Stage,
    recordings: Vec<String>,
    releases: Vec<String>,
    next: usize,
    labels: Vec<String>,
    recording_items: Ghost<Seq<Seq<Seq<char>>>>,
    release_items: Ghost<Seq<Seq<Seq<char>>>>,
}

impl Lookup {
    pub closed spec fn stage(self) -> Stage {
        self.stage
    }

    /// The candidate recordings that the search found.
    pub closed spec fn recordings(self) -> Seq<Seq<char>> {
        names(self.recordings@)
    }

    /// The releases gathered so far, recording by recording.
    pub closed spec fn releases(self) -> Seq<Seq<char>> {
        names(self.releases@)
    }

    /// The position of the item whose reply is awaited.
    pub closed spec fn next(self) -> nat {
        self.next as nat
    }

    /// The labels accumulated in the current harvest.
    pub closed spec fn labels(self) -> Seq<Seq<char>> {
        names(self.labels@)
    }

    /// The labels of each candidate recording fetched so far.
    pub closed spec fn recording_items(self) -> Seq<Seq<Seq<char>>> {
        self.recording_items@
    }

    /// The labels of each release fetched so far.
    pub closed spec fn release_items(self) -> Seq<Seq<Seq<char>>> {
        self.release_items@
    }

    pub closed spec fn delay(self) -> u64 {
        self.delay_ms
    }

    /// The lookup's invariant: the position stays within the items of the
    /// current stage, the accumulator is the harvest of the items fetched so
    /// far, and the fallback stages follow a recording harvest that found
    /// nothing.
    pub closed spec fn wf(self) -> bool {
        &&& (self.stage == Stage::RecordingLabels || self.stage == Stage::RecordingReleases)
            ==> self.next < self.recordings@.len()
        &&& self.stage == Stage::RecordingLabels ==> {
            &&& self.recording_items@.len() == self.next
            &&& names(self.labels@) == harvest(self.recording_items@)
        }
        &&& (self.stage == Stage::RecordingReleases || self.stage == Stage::ReleaseLabels) ==> {
            &&& self.recording_items@.len() == self.recordings@.len()
            &&& harvest(self.recording_items@) == Seq::<Seq<char>>::empty()
        }
        &&& self.stage == Stage::ReleaseLabels ==> {
            &&& self.next < self.releases@.len()
            &&& self.release_items@.len() == self.next
            &&& names(self.labels@) == harvest(self.release_items@)
        }
    }

    /// A new lookup for these criteria, waiting `delay_ms` before each
    /// request, and its first request: the recording search.
    pub fn start(query: &SearchQuery, delay_ms: u64) -> (r: (Lookup, Request))
        ensures
            r.0.wf(),
            r.0.stage() == Stage::Search,
            r.0.delay() == delay_ms,
            request_view(r.1) == (Stage::Search, crate::query::recording_query_text(
                query.artist@,
                query.title@,
            )),
    {
        let lookup = Lookup {
            delay_ms,
            stage: Stage::Search,
            recordings: Vec::new(),
            releases: Vec::new(),
            next: 0,
            labels: Vec::new(),
            recording_items: Ghost(Seq::empty()),
            release_items: Ghost(Seq::empty()),
        };
        (lookup, Request::Search { query: query.recording_query() })
    }

    /// The delay to wait before each request, in milliseconds.
    pub fn delay_ms(&self) -> (r: u64)
        ensures
            r == self.delay(),
    {
        self.delay_ms
    }

    /// Whether the lookup is over.
    pub fn is_finished(&self) -> (r: bool)
        ensures
            r == (self.stage() == Stage::Finished),
    {
        self.stage == Stage::Finished
    }

    fn finish(&mut self, outcome: Outcome) -> (r: Step)
        ensures
            *final(self) == (Lookup { stage: Stage::Finished, ..*old(self) }),
            r == (Step::Done { outcome }),
    {
        self.stage = Stage::Finished;
        Step::Done { outcome }
    }

    /// Takes the reply to the last request and gives the next request, or
    /// the outcome once the lookup is over.
    pub fn step(&mut self, reply: Reply) -> (r: Step)
        requires
            old(self).wf(),
            old(self).stage() != Stage::Finished,
        ensures
            final(self).wf(),
            step_post(*old(self), reply, *final(self), r),
    {
        match self.stage {
            Stage::Search => self.on_search(reply),
            Stage::RecordingLabels => self.on_recording_labels(reply),
            Stage::RecordingReleases => self.on_recording_releases(reply),
            _ => self.on_release_labels(reply),
        }
    }

    fn on_search(&mut self, reply: Reply) -> (r: Step)
        requires
            old(self).wf(),
            old(self).stage() == Stage::Search,
        ensures
            final(self).wf(),
            step_post(*old(self), reply, *final(self), r),
    {
        match reply {
            Reply::Recordings { ids } => {
                if ids.len() == 0 {
                    self.finish(Outcome::NoMatch)
                } else {
                    let first = ids[0].clone();
                    self.recordings = ids;
                    self.next = 0;
                    self.labels = Vec::new();
                    self.recording_items = Ghost(Seq::empty());
                    self.stage = Stage::RecordingLabels;
                    assert(names(self.labels@) =~= Seq::<Seq<char>>::empty());
                    Step::Send { request: Request::RecordingLabels { id: first } }
                }
            },
            _ => self.finish(Outcome::ServiceFailure),
        }
    }

    fn on_recording_labels(&mut self, reply: Reply) -> (r: Step)
        requires
            old(self).wf(),
            old(self).stage() == Stage::RecordingLabels,
        ensures
            final(self).wf(),
            step_post(*old(self), reply, *final(self), r),
    {
        match reply {
            Reply::Labels { genres, tags } => {
                let ghost item = item_labels(genres, tags);
                proof {
                    lemma_harvest_push(self.recording_items@, item);
                }
                add_item_labels(&mut self.labels, genres, tags);
                self.recording_items = Ghost(self.recording_items@.push(item));
                if self.next < self.recordings.len() - 1 {
                    self.next = self.next + 1;
                    Step::Send { request: Request::RecordingLabels { id: self.recordings[self.next].clone() } }
                } else if self.labels.len() > 0 {
                    let found = self.labels.clone();
                    assert(names(found@) == names(self.labels@));
                    self.finish(Outcome::Genres { labels: found })
                } else {
                    self.next = 0;
                    self.releases = Vec::new();
                    self.stage = Stage::RecordingReleases;
                    assert(names(self.releases@) =~= Seq::<Seq<char>>::empty());
                    assert(names(self.labels@) =~= Seq::<Seq<char>>::empty());
                    Step::Send { request: Request::RecordingReleases { id: self.recordings[0].clone() } }
                }
            },
            _ => self.finish(Outcome::ServiceFailure),
        }
    }

    fn on_recording_releases(&mut self, reply: Reply) -> (r: Step)
        requires
            old(self).wf(),
            old(self).stage() == Stage::RecordingReleases,
        ensures
            final(self).wf(),
            step_post(*old(self), reply, *final(self), r),
    {
        match reply {
            Reply::Releases { releases: Some(list) } => {
                let ghost before = self.releases@;
                let ghost added = list@;
                let mut list = list;
                self.releases.append(&mut list);
                assert(names(self.releases@) =~= names(before) + names(added));
                if self.next < self.recordings.len() - 1 {
                    self.next = self.next + 1;
                    Step::Send { request: Request::RecordingReleases { id: self.recordings[self.next].clone() } }
                } else if self.releases.len() == 0 {
                    self.finish(Outcome::NoGenres)
                } else {
                    self.next = 0;
                    self.labels = Vec::new();
                    self.release_items = Ghost(Seq::empty());
                    self.stage = Stage::ReleaseLabels;
                    assert(names(self.labels@) =~= Seq::<Seq<char>>::empty());
                    Step::Send { request: Request::ReleaseLabels { id: self.releases[0].clone() } }
                }
            },
            _ => self.finish(Outcome::ServiceFailure),
        }
    }

    fn on_release_labels(&mut self, reply: Reply) -> (r: Step)
        requires
            old(self).wf(),
            old(self).stage() == Stage::ReleaseLabels,
        ensures
            final(self).wf(),
            step_post(*old(self), reply, *final(self), r),
    {
        match reply {
            Reply::Labels { genres, tags } => {
                let ghost item = item_labels(genres, tags);
                proof {
                    lemma_harvest_push(self.release_items@, item);
                }
                add_item_labels(&mut self.labels, genres, tags);
                self.release_items = Ghost(self.release_items@.push(item));
                if self.next < self.releases.len() - 1 {
                    self.next = self.next + 1;
                    Step::Send { request: Request::ReleaseLabels { id: self.releases[self.next].clone() } }
                } else if self.labels.len() > 0 {
                    let found = self.labels.clone();
                    self.finish(Outcome::Genres { labels: found })
                } else {
                    assert(names(self.labels@) =~= Seq::<Seq<char>>::empty());
                    self.finish(Outcome::NoGenres)
                }
            },
            _ => self.finish(Outcome::ServiceFailure),
        }
    }
}

/// The fallback stages come only after every candidate recording was fetched
/// and their harvest found no label.
pub proof fn lemma_fallback_follows_empty_harvest(l: Lookup)
    requires
        l.wf(),
        l.stage() == Stage::RecordingReleases || l.stage() == Stage::ReleaseLabels,
    ensures
        l.recording_items().len() == l.recordings().len(),
        harvest(l.recording_items()) == Seq::<Seq<char>>::empty(),
{
}

/// After the last candidate recording's labels, the lookup turns to the
/// releases exactly when the recording harvest is empty, and else ends with
/// that harvest.
pub proof fn lemma_fallback_trigger(pre: Lookup, reply: Reply, post: Lookup, r: Step)
    requires
        pre.wf(),
        pre.stage() == Stage::RecordingLabels,
        pre.next() + 1 == pre.recordings().len(),
        reply is Labels,
        step_post(pre, reply, post, r),
    ensures
        harvest(post.recording_items()).len() == 0 ==> sends(
            r,
            Stage::RecordingReleases,
            pre.recordings()[0],
        ),
        harvest(post.recording_items()).len() > 0 ==> ends_with_genres(
            r,
            harvest(post.recording_items()),
        ) && post.stage() == Stage::Finished,
{
}

/// A search that finds no recording ends the lookup with no match, before
/// any fetch is asked for.
pub proof fn lemma_empty_search_ends(pre: Lookup, ids: Vec<String>, post: Lookup, r: Step)
    requires
        pre.stage() == Stage::Search,
        ids@.len() == 0,
        step_post(pre, Reply::Recordings { ids }, post, r),
    ensures
        ends_with_no_match(r),
        post.stage() == Stage::Finished,
{
}

} // verus!
