//! The records that the node answers with.

use crate::model::Binary64;
use vstd::prelude::*;

verus! {

/// A JSON value of `serde_json`. The client carries such values through
/// without looking inside.
#[verifier::external_type_specification]
#[verifier::external_body]
pub struct ExJsonValue(serde_json::Value);

/// Load figures of the node, as `status` reports them.
#[derive(Clone, Copy, Debug, PartialEq, Eq, Structural)]
pub struct StatusResponse {
    pub used_memory: Binary64,
    pub total_memory: Binary64,
    pub process_load: Binary64,
    pub total_load: Binary64,
    pub cores: Binary64,
    pub threads: Binary64,
    pub network_inbound: Binary64,
    pub network_outbound: Binary64,
}

/// Answer to `getSource`.
#[derive(Debug, PartialEq, Eq)]
pub struct SourceResponse {
    pub source: Source,
}

/// Description of one playable source.
#[derive(Debug, PartialEq, Eq)]
pub struct Source {
    pub _type: String,
    pub tag: String,
    pub title: Option<String>,
    pub webpage_url: Option<String>,
    pub thumbnail: Option<String>,
    pub duration: Binary64,
    pub is_live: bool,
    pub uploader: String,
    pub description: Option<String>,
    pub subtitles: serde_json::Value,
    pub chapters: serde_json::Value,
    pub related: bool,
}

/// The text of an optional string.
pub open spec fn optional_text(text: Option<String>) -> Option<Seq<char>> {
    match text {
        Some(t) => Some(t@),
        None => None,
    }
}

/// What a [`Source`] holds, with its strings as plain text.
pub struct SourceView {
    pub _type: Seq<char>,
    pub tag: Seq<char>,
    pub title: Option<Seq<char>>,
    pub webpage_url: Option<Seq<char>>,
    pub thumbnail: Option<Seq<char>>,
    pub duration: Binary64,
    pub is_live: bool,
    pub uploader: Seq<char>,
    pub description: Option<Seq<char>>,
    pub subtitles: serde_json::Value,
    pub chapters: serde_json::Value,
    pub related: bool,
}

/// What a [`SourceResponse`] holds.
pub struct SourceResponseView {
    pub source: SourceView,
}

impl View for StatusResponse {
    type V = StatusResponse;

    open spec fn view(&self) -> StatusResponse {
        *self
    }
}

impl View for Source {
    type V = SourceView;

    open spec fn view(&self) -> SourceView {
        SourceView {
            _type: self._type@,
            tag: self.tag@,
            title: optional_text(self.title),
            webpage_url: optional_text(self.webpage_url),
            thumbnail: optional_text(self.thumbnail),
            duration: self.duration,
            is_live: self.is_live,
            uploader: self.uploader@,
            description: optional_text(self.description),
            subtitles: self.subtitles,
            chapters: self.chapters,
            related: self.related,
        }
    }
}

impl View for SourceResponse {
    type V = SourceResponseView;

    open spec fn view(&self) -> SourceResponseView {
        SourceResponseView { source: self.source@ }
    }
}

} // verus!
