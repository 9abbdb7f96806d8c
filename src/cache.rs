use vstd::prelude::*;

use crate::artifact::{slot_of, ArtifactKind, ARTIFACT_SLOTS};

verus! {

/// What the cache knows of one artifact.
#[derive(Clone, Copy, Debug, PartialEq, Eq, Structural)]
pub enum BuildState {
    /// Not looked at yet, or its last build failed.
    Unchecked,
    /// One caller is building it; others wait.
    Building,
    /// It is on disk and is never rebuilt.
    Ready,
}

/// What a caller asking for an artifact is told to do.
#[derive(Clone, Copy, Debug, PartialEq, Eq, Structural)]
pub enum Resolution {
    /// The artifact is there: use its path.
    Use,
    /// Run the build step, then report with `finish`.
    Build,
    /// Another caller's build is running: ask again once it finishes.
    Wait,
}

/// One thing that happens to an artifact's entry: a caller asks for it (seeing
/// whether the file exists), or the running build ends (in success or not).
#[derive(Clone, Copy, Debug, PartialEq, Eq, Structural)]
pub enum CacheEvent {
    Request(bool),
    Finish(bool),
}

/// A request on an entry: the new state and the answer.
pub open spec fn request_step(s: BuildState, exists: bool) -> (BuildState, Resolution) {
    match s {
        BuildState::Ready => (BuildState::Ready, Resolution::Use),
        BuildState::Building => (BuildState::Building, Resolution::Wait),
        BuildState::Unchecked => if exists {
            (BuildState::Ready, Resolution::Use)
        } else {
            (BuildState::Building, Resolution::Build)
        },
    }
}

/// The end of a build on an entry; only a running build can end.
pub open spec fn finish_step(s: BuildState, built: bool) -> BuildState {
    match s {
        BuildState::Building => if built {
            BuildState::Ready
        } else {
            BuildState::Unchecked
        },
        _ => s,
    }
}

pub open spec fn event_step(s: BuildState, e: CacheEvent) -> BuildState {
    match e {
        CacheEvent::Request(exists) => request_step(s, exists).0,
        CacheEvent::Finish(built) => finish_step(s, built),
    }
}

/// The state of an entry after a run of events.
pub open spec fn state_after(s: BuildState, evs: Seq<CacheEvent>) -> BuildState
    decreases evs.len(),
{
    if evs.len() == 0 {
        s
    } else {
        state_after(event_step(s, evs[0]), evs.drop_first())
    }
}

/// How many builds a run of events starts.
pub open spec fn builds_in(s: BuildState, evs: Seq<CacheEvent>) -> nat
    decreases evs.len(),
{
    if evs.len() == 0 {
        0
    } else {
        let starts: nat = match evs[0] {
            CacheEvent::Request(exists) => if request_step(s, exists).1 == Resolution::Build {
                1
            } else {
                0
            },
            CacheEvent::Finish(_) => 0,
        };
        starts + builds_in(event_step(s, evs[0]), evs.drop_first())
    }
}

/// How many failed builds a run of events reports.
pub open spec fn failures_in(evs: Seq<CacheEvent>) -> nat
    decreases evs.len(),
{
    if evs.len() == 0 {
        0
    } else {
        (if evs[0] == CacheEvent::Finish(false) {
            1nat
        } else {
            0nat
        }) + failures_in(evs.drop_first())
    }
}

/// Once an artifact is ready, no run of events builds it again or makes it
/// anything but ready.
pub proof fn lemma_ready_is_final(evs: Seq<CacheEvent>)
    ensures
        builds_in(BuildState::Ready, evs) == 0,
        state_after(BuildState::Ready, evs) == BuildState::Ready,
    decreases evs.len(),
{
    if evs.len() > 0 {
        lemma_ready_is_final(evs.drop_first());
    }
}

/// Single flight: over any run of events, an artifact is built at most once,
/// plus once more after each build that failed; none starts while one runs.
pub proof fn lemma_built_at_most_once(s: BuildState, evs: Seq<CacheEvent>)
    ensures
        builds_in(s, evs) <= failures_in(evs) + (if s == BuildState::Unchecked {
            1nat
        } else {
            0nat
        }),
    decreases evs.len(),
{
    if evs.len() > 0 {
        let next = event_step(s, evs[0]);
        lemma_built_at_most_once(next, evs.drop_first());
        if next == BuildState::Ready {
            lemma_ready_is_final(evs.drop_first());
        }
    }
}

/// The host's table of boot artifacts, shared by all requests.
#[derive(Debug)]
pub struct ArtifactCache {
    slots: Vec<BuildState>,
}

impl View for ArtifactCache {
    type V = Seq<BuildState>;

    /// The state of each entry, by slot.
    closed spec fn view(&self) -> Seq<BuildState> {
        self.slots@
    }
}

impl ArtifactCache {
    pub open spec fn wf(&self) -> bool {
        self@.len() == ARTIFACT_SLOTS
    }

    /// The state of the entry of `kind`.
    pub open spec fn state_of(&self, kind: ArtifactKind) -> BuildState {
        self@[slot_of(kind)]
    }

    /// A table in which nothing has been looked at yet.
    pub fn new() -> (r: Self)
        ensures
            r.wf(),
            forall|k: ArtifactKind| r.state_of(k) == BuildState::Unchecked,
    {
        let mut slots: Vec<BuildState> = Vec::new();
        let mut i: usize = 0;
        while i < ARTIFACT_SLOTS
            invariant
                i <= ARTIFACT_SLOTS,
                slots@.len() == i,
                forall|j: int| 0 <= j < i ==> slots@[j] == BuildState::Unchecked,
            decreases ARTIFACT_SLOTS - i,
        {
            slots.push(BuildState::Unchecked);
            i = i + 1;
        }
        let r = ArtifactCache { slots };
        assert(r@ == slots@);
        r
    }

    /// The state of the entry of `kind`.
    pub fn state(&self, kind: ArtifactKind) -> (r: BuildState)
        requires
            self.wf(),
        ensures
            r == self.state_of(kind),
    {
        self.slots[kind.slot()]
    }

    /// A caller asks for `kind`, having seen whether its file `exists`. The answer
    /// and the entry's new state follow `request_step`; other entries keep theirs.
    pub fn request(&mut self, kind: ArtifactKind, exists: bool) -> (r: Resolution)
        requires
            old(self).wf(),
        ensures
            final(self).wf(),
            (final(self).state_of(kind), r) == request_step(old(self).state_of(kind), exists),
            forall|k: ArtifactKind| k != kind ==> final(self).state_of(k) == old(self).state_of(k),
    {
        let i = kind.slot();
        let (next, r) = match self.slots[i] {
            BuildState::Ready => (BuildState::Ready, Resolution::Use),
            BuildState::Building => (BuildState::Building, Resolution::Wait),
            BuildState::Unchecked => if exists {
                (BuildState::Ready, Resolution::Use)
            } else {
                (BuildState::Building, Resolution::Build)
            },
        };
        self.slots.set(i, next);
        proof {
            assert forall|k: ArtifactKind| k != kind implies slot_of(k) != slot_of(kind) by {}
        }
        r
    }

    /// The build of `kind` ended; `built` tells whether it left the file in place.
    pub fn finish(&mut self, kind: ArtifactKind, built: bool)
        requires
            old(self).wf(),
        ensures
            final(self).wf(),
            final(self).state_of(kind) == finish_step(old(self).state_of(kind), built),
            forall|k: ArtifactKind| k != kind ==> final(self).state_of(k) == old(self).state_of(k),
    {
        let i = kind.slot();
        let next = match self.slots[i] {
            BuildState::Building => if built {
                BuildState::Ready
            } else {
                BuildState::Unchecked
            },
            other => other,
        };
        self.slots.set(i, next);
        proof {
            assert forall|k: ArtifactKind| k != kind implies slot_of(k) != slot_of(kind) by {}
        }
    }
}

} // verus!
