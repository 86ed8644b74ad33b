//! The library's model of one document's markup event stream. The host
//! parser's events are converted into these before rewriting and back after;
//! events the rewriter never inspects are carried as opaque `Other` entries
//! holding the caller's own index for the original event.

use vstd::prelude::*;

verus! {

/// How a code block was introduced: by a fence with a (possibly empty)
/// language tag, or by indentation.
#[derive(Debug, PartialEq)]
pub enum BlockKind {
    Fenced(String),
    Indented,
}

/// Spec-level image of a [`BlockKind`].
pub ghost enum BlockKindV {
    Fenced(Seq<char>),
    Indented,
}

impl View for BlockKind {
    type V = BlockKindV;

    open spec fn view(&self) -> BlockKindV {
        match self {
            BlockKind::Fenced(tag) => BlockKindV::Fenced(tag@),
            BlockKind::Indented => BlockKindV::Indented,
        }
    }
}

impl DeepView for BlockKind {
    type V = BlockKindV;

    open spec fn deep_view(&self) -> BlockKindV {
        self.view()
    }
}

impl Clone for BlockKind {
    fn clone(&self) -> (r: Self)
        ensures
            r == *self,
    {
        match self {
            BlockKind::Fenced(tag) => BlockKind::Fenced(tag.clone()),
            BlockKind::Indented => BlockKind::Indented,
        }
    }
}

/// One markup event, as the rewriter sees it.
#[derive(Debug, PartialEq)]
pub enum MdEvent {
    /// Start of a code block.
    CodeBlockStart(BlockKind),
    /// End of a code block.
    CodeBlockEnd(BlockKind),
    /// Plain text.
    Text(String),
    /// An inline code span.
    InlineCode(String),
    /// A raw HTML fragment.
    Html(String),
    /// A forced line break.
    HardBreak,
    /// Any other event, passed through untouched; the payload is the
    /// caller's index for the original event.
    Other(usize),
}

/// Spec-level image of an [`MdEvent`].
pub ghost enum MdEventV {
    CodeBlockStart(BlockKindV),
    CodeBlockEnd(BlockKindV),
    Text(Seq<char>),
    InlineCode(Seq<char>),
    Html(Seq<char>),
    HardBreak,
    Other(int),
}

impl View for MdEvent {
    type V = MdEventV;

    open spec fn view(&self) -> MdEventV {
        match self {
            MdEvent::CodeBlockStart(kind) => MdEventV::CodeBlockStart(kind@),
            MdEvent::CodeBlockEnd(kind) => MdEventV::CodeBlockEnd(kind@),
            MdEvent::Text(s) => MdEventV::Text(s@),
            MdEvent::InlineCode(s) => MdEventV::InlineCode(s@),
            MdEvent::Html(s) => MdEventV::Html(s@),
            MdEvent::HardBreak => MdEventV::HardBreak,
            MdEvent::Other(i) => MdEventV::Other(*i as int),
        }
    }
}

impl DeepView for MdEvent {
    type V = MdEventV;

    open spec fn deep_view(&self) -> MdEventV {
        self.view()
    }
}

impl Clone for MdEvent {
    fn clone(&self) -> (r: Self)
        ensures
            r == *self,
    {
        match self {
            MdEvent::CodeBlockStart(kind) => MdEvent::CodeBlockStart(kind.clone()),
            MdEvent::CodeBlockEnd(kind) => MdEvent::CodeBlockEnd(kind.clone()),
            MdEvent::Text(s) => MdEvent::Text(s.clone()),
            MdEvent::InlineCode(s) => MdEvent::InlineCode(s.clone()),
            MdEvent::Html(s) => MdEvent::Html(s.clone()),
            MdEvent::HardBreak => MdEvent::HardBreak,
            MdEvent::Other(i) => MdEvent::Other(*i),
        }
    }
}

} // verus!
