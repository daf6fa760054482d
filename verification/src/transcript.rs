//! The nested result structure a completed recognition job carries: ordered
//! groups of ranked alternative transcriptions. Order is significant and is
//! preserved end to end.

use vstd::prelude::*;

verus! {

/// One candidate transcription of a group of recognized speech.
#[derive(Debug, Clone, PartialEq, Eq)]
pub struct Alternative {
    pub transcript: String,
}

impl View for Alternative {
    type V = Seq<char>;

    open spec fn view(&self) -> Seq<char> {
        self.transcript@
    }
}

/// One segment of recognized speech, holding its alternative transcriptions
/// in ranked order.
#[derive(Debug, Clone, PartialEq, Eq)]
pub struct ResultGroup {
    pub alternatives: Vec<Alternative>,
}

impl View for ResultGroup {
    type V = Seq<Seq<char>>;

    open spec fn view(&self) -> Seq<Seq<char>> {
        self.alternatives@.map_values(|a: Alternative| a@)
    }
}

/// The full result of a completed job: result groups in their given order.
#[derive(Debug, Clone, PartialEq, Eq)]
pub struct TranscriptResult {
    pub groups: Vec<ResultGroup>,
}

impl View for TranscriptResult {
    type V = Seq<Seq<Seq<char>>>;

    open spec fn view(&self) -> Seq<Seq<Seq<char>>> {
        self.groups@.map_values(|g: ResultGroup| g@)
    }
}

} // verus!
