//! The bodies that requests carry, one record per operation.

use crate::model::Binary32;
use crate::response_values::{Source, SourceView};
use vstd::prelude::*;

verus! {

/// Body of `seek`: the position to jump to.
#[derive(Clone, Copy, Debug, PartialEq, Eq)]
pub struct Seek {
    pub offset: Binary32,
}

/// Body of `skip`: how far to skip ahead.
#[derive(Clone, Copy, Debug, PartialEq, Eq)]
pub struct Skip {
    pub offset: Binary32,
}

/// Body of `setAutoplay`.
#[derive(Clone, Copy, Debug, PartialEq, Eq)]
pub struct SetAutoplay {
    pub autoplay: bool,
}

/// Body of `planner/unmark`: the address to release.
#[derive(Clone, Debug, PartialEq, Eq)]
pub struct Unmark {
    pub address: String,
}

/// Body of `loadSource`: what to search for.
#[derive(Clone, Debug, PartialEq, Eq)]
pub struct LoadSource {
    pub query: String,
}

/// Body of `setVolume`.
#[derive(Clone, Copy, Debug, PartialEq, Eq)]
pub struct SetVolume {
    pub volume: Binary32,
}

/// Body of `setCrossfade`.
#[derive(Clone, Copy, Debug, PartialEq, Eq)]
pub struct SetCrossfade {
    pub crossfade: Binary32,
}

/// Body of `setGapless`.
#[derive(Clone, Copy, Debug, PartialEq, Eq)]
pub struct SetGapless {
    pub gapless: Binary32,
}

/// Body of `putSource`: the source to enqueue.
#[derive(Debug, PartialEq, Eq)]
pub struct PutSoucre {
    pub source: Source,
}

/// The body of a request that has none.
#[derive(Clone, Copy, Debug, PartialEq, Eq)]
pub struct Nothing;

/// What [`Unmark`] holds, as plain text.
pub struct UnmarkView {
    pub address: Seq<char>,
}

/// What [`LoadSource`] holds, as plain text.
pub struct LoadSourceView {
    pub query: Seq<char>,
}

/// What [`PutSoucre`] holds.
pub struct PutSoucreView {
    pub source: SourceView,
}

impl View for Seek {
    type V = Seek;

    open spec fn view(&self) -> Seek {
        *self
    }
}

impl View for Skip {
    type V = Skip;

    open spec fn view(&self) -> Skip {
        *self
    }
}

impl View for SetAutoplay {
    type V = SetAutoplay;

    open spec fn view(&self) -> SetAutoplay {
        *self
    }
}

impl View for Unmark {
    type V = UnmarkView;

    open spec fn view(&self) -> UnmarkView {
        UnmarkView { address: self.address@ }
    }
}

impl View for LoadSource {
    type V = LoadSourceView;

    open spec fn view(&self) -> LoadSourceView {
        LoadSourceView { query: self.query@ }
    }
}

impl View for SetVolume {
    type V = SetVolume;

    open spec fn view(&self) -> SetVolume {
        *self
    }
}

impl View for SetCrossfade {
    type V = SetCrossfade;

    open spec fn view(&self) -> SetCrossfade {
        *self
    }
}

impl View for SetGapless {
    type V = SetGapless;

    open spec fn view(&self) -> SetGapless {
        *self
    }
}

impl View for PutSoucre {
    type V = PutSoucreView;

    open spec fn view(&self) -> PutSoucreView {
        PutSoucreView { source: self.source@ }
    }
}

impl View for Nothing {
    type V = Nothing;

    open spec fn view(&self) -> Nothing {
        *self
    }
}

} // verus!
