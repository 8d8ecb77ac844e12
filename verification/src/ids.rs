//! Text identifiers of the protocol's entities.

use vstd::prelude::*;
use crate::text::{text_eq, copy_text};

verus! {

/// Identifier of a spoke (a machine running the node daemon).
#[derive(Debug, PartialEq, Eq, PartialOrd, Ord, Hash)]
pub struct SpokeId(pub String);

impl View for SpokeId {
    type V = Seq<char>;

    open spec fn view(&self) -> Seq<char> {
        self.0@
    }
}

impl Clone for SpokeId {
    fn clone(&self) -> (r: Self)
        ensures
            r == *self,
    {
        SpokeId(self.0.clone())
    }
}

impl SpokeId {
    /// An identifier with the given text.
    pub fn new(text: &str) -> (r: Self)
        ensures
            r@ == text@,
    {
        SpokeId(copy_text(text))
    }

    /// Whether both identifiers have the same text.
    pub fn same(&self, other: &Self) -> (r: bool)
        ensures
            r == (self@ == other@),
    {
        text_eq(&self.0, &other.0)
    }

    /// The identifier's text.
    pub fn as_str(&self) -> (r: &str)
        ensures
            r@ == self@,
    {
        self.0.as_str()
    }
}

/// Identifier of a project on a spoke.
#[derive(Debug, PartialEq, Eq, PartialOrd, Ord, Hash)]
pub struct ProjectId(pub String);

impl View for ProjectId {
    type V = Seq<char>;

    open spec fn view(&self) -> Seq<char> {
        self.0@
    }
}

impl Clone for ProjectId {
    fn clone(&self) -> (r: Self)
        ensures
            r == *self,
    {
        ProjectId(self.0.clone())
    }
}

impl ProjectId {
    /// An identifier with the given text.
    pub fn new(text: &str) -> (r: Self)
        ensures
            r@ == text@,
    {
        ProjectId(copy_text(text))
    }

    /// Whether both identifiers have the same text.
    pub fn same(&self, other: &Self) -> (r: bool)
        ensures
            r == (self@ == other@),
    {
        text_eq(&self.0, &other.0)
    }

    /// The identifier's text.
    pub fn as_str(&self) -> (r: &str)
        ensures
            r@ == self@,
    {
        self.0.as_str()
    }
}

/// Identifier of a project's source of intent.
#[derive(Debug, PartialEq, Eq, PartialOrd, Ord, Hash)]
pub struct SourceOfIntentId(pub String);

impl View for SourceOfIntentId {
    type V = Seq<char>;

    open spec fn view(&self) -> Seq<char> {
        self.0@
    }
}

impl Clone for SourceOfIntentId {
    fn clone(&self) -> (r: Self)
        ensures
            r == *self,
    {
        SourceOfIntentId(self.0.clone())
    }
}

impl SourceOfIntentId {
    /// An identifier with the given text.
    pub fn new(text: &str) -> (r: Self)
        ensures
            r@ == text@,
    {
        SourceOfIntentId(copy_text(text))
    }

    /// Whether both identifiers have the same text.
    pub fn same(&self, other: &Self) -> (r: bool)
        ensures
            r == (self@ == other@),
    {
        text_eq(&self.0, &other.0)
    }

    /// The identifier's text.
    pub fn as_str(&self) -> (r: &str)
        ensures
            r@ == self@,
    {
        self.0.as_str()
    }
}

/// Identifier of a project's intent chat.
#[derive(Debug, PartialEq, Eq, PartialOrd, Ord, Hash)]
pub struct IntentChatId(pub String);

impl View for IntentChatId {
    type V = Seq<char>;

    open spec fn view(&self) -> Seq<char> {
        self.0@
    }
}

impl Clone for IntentChatId {
    fn clone(&self) -> (r: Self)
        ensures
            r == *self,
    {
        IntentChatId(self.0.clone())
    }
}

impl IntentChatId {
    /// An identifier with the given text.
    pub fn new(text: &str) -> (r: Self)
        ensures
            r@ == text@,
    {
        IntentChatId(copy_text(text))
    }

    /// Whether both identifiers have the same text.
    pub fn same(&self, other: &Self) -> (r: bool)
        ensures
            r == (self@ == other@),
    {
        text_eq(&self.0, &other.0)
    }

    /// The identifier's text.
    pub fn as_str(&self) -> (r: &str)
        ensures
            r@ == self@,
    {
        self.0.as_str()
    }
}

/// Identifier of an operation.
#[derive(Debug, PartialEq, Eq, PartialOrd, Ord, Hash)]
pub struct OperationId(pub String);

impl View for OperationId {
    type V = Seq<char>;

    open spec fn view(&self) -> Seq<char> {
        self.0@
    }
}

impl Clone for OperationId {
    fn clone(&self) -> (r: Self)
        ensures
            r == *self,
    {
        OperationId(self.0.clone())
    }
}

impl OperationId {
    /// An identifier with the given text.
    pub fn new(text: &str) -> (r: Self)
        ensures
            r@ == text@,
    {
        OperationId(copy_text(text))
    }

    /// Whether both identifiers have the same text.
    pub fn same(&self, other: &Self) -> (r: bool)
        ensures
            r == (self@ == other@),
    {
        text_eq(&self.0, &other.0)
    }

    /// The identifier's text.
    pub fn as_str(&self) -> (r: &str)
        ensures
            r@ == self@,
    {
        self.0.as_str()
    }
}

/// Identifier of a timeline item.
#[derive(Debug, PartialEq, Eq, PartialOrd, Ord, Hash)]
pub struct TimelineItemId(pub String);

impl View for TimelineItemId {
    type V = Seq<char>;

    open spec fn view(&self) -> Seq<char> {
        self.0@
    }
}

impl Clone for TimelineItemId {
    fn clone(&self) -> (r: Self)
        ensures
            r == *self,
    {
        TimelineItemId(self.0.clone())
    }
}

impl TimelineItemId {
    /// An identifier with the given text.
    pub fn new(text: &str) -> (r: Self)
        ensures
            r@ == text@,
    {
        TimelineItemId(copy_text(text))
    }

    /// Whether both identifiers have the same text.
    pub fn same(&self, other: &Self) -> (r: bool)
        ensures
            r == (self@ == other@),
    {
        text_eq(&self.0, &other.0)
    }

    /// The identifier's text.
    pub fn as_str(&self) -> (r: &str)
        ensures
            r@ == self@,
    {
        self.0.as_str()
    }
}

/// Identifier of an agent session.
#[derive(Debug, PartialEq, Eq, PartialOrd, Ord, Hash)]
pub struct SessionId(pub String);

impl View for SessionId {
    type V = Seq<char>;

    open spec fn view(&self) -> Seq<char> {
        self.0@
    }
}

impl Clone for SessionId {
    fn clone(&self) -> (r: Self)
        ensures
            r == *self,
    {
        SessionId(self.0.clone())
    }
}

impl SessionId {
    /// An identifier with the given text.
    pub fn new(text: &str) -> (r: Self)
        ensures
            r@ == text@,
    {
        SessionId(copy_text(text))
    }

    /// Whether both identifiers have the same text.
    pub fn same(&self, other: &Self) -> (r: bool)
        ensures
            r == (self@ == other@),
    {
        text_eq(&self.0, &other.0)
    }

    /// The identifier's text.
    pub fn as_str(&self) -> (r: &str)
        ensures
            r@ == self@,
    {
        self.0.as_str()
    }
}

/// Identifier of an agent run.
#[derive(Debug, PartialEq, Eq, PartialOrd, Ord, Hash)]
pub struct RunId(pub String);

impl View for RunId {
    type V = Seq<char>;

    open spec fn view(&self) -> Seq<char> {
        self.0@
    }
}

impl Clone for RunId {
    fn clone(&self) -> (r: Self)
        ensures
            r == *self,
    {
        RunId(self.0.clone())
    }
}

impl RunId {
    /// An identifier with the given text.
    pub fn new(text: &str) -> (r: Self)
        ensures
            r@ == text@,
    {
        RunId(copy_text(text))
    }

    /// Whether both identifiers have the same text.
    pub fn same(&self, other: &Self) -> (r: bool)
        ensures
            r == (self@ == other@),
    {
        text_eq(&self.0, &other.0)
    }

    /// The identifier's text.
    pub fn as_str(&self) -> (r: &str)
        ensures
            r@ == self@,
    {
        self.0.as_str()
    }
}

/// Identifier of a review.
#[derive(Debug, PartialEq, Eq, PartialOrd, Ord, Hash)]
pub struct ReviewId(pub String);

impl View for ReviewId {
    type V = Seq<char>;

    open spec fn view(&self) -> Seq<char> {
        self.0@
    }
}

impl Clone for ReviewId {
    fn clone(&self) -> (r: Self)
        ensures
            r == *self,
    {
        ReviewId(self.0.clone())
    }
}

impl ReviewId {
    /// An identifier with the given text.
    pub fn new(text: &str) -> (r: Self)
        ensures
            r@ == text@,
    {
        ReviewId(copy_text(text))
    }

    /// Whether both identifiers have the same text.
    pub fn same(&self, other: &Self) -> (r: bool)
        ensures
            r == (self@ == other@),
    {
        text_eq(&self.0, &other.0)
    }

    /// The identifier's text.
    pub fn as_str(&self) -> (r: &str)
        ensures
            r@ == self@,
    {
        self.0.as_str()
    }
}

/// Identifier of a piece of evidence.
#[derive(Debug, PartialEq, Eq, PartialOrd, Ord, Hash)]
pub struct EvidenceId(pub String);

impl View for EvidenceId {
    type V = Seq<char>;

    open spec fn view(&self) -> Seq<char> {
        self.0@
    }
}

impl Clone for EvidenceId {
    fn clone(&self) -> (r: Self)
        ensures
            r == *self,
    {
        EvidenceId(self.0.clone())
    }
}

impl EvidenceId {
    /// An identifier with the given text.
    pub fn new(text: &str) -> (r: Self)
        ensures
            r@ == text@,
    {
        EvidenceId(copy_text(text))
    }

    /// Whether both identifiers have the same text.
    pub fn same(&self, other: &Self) -> (r: bool)
        ensures
            r == (self@ == other@),
    {
        text_eq(&self.0, &other.0)
    }

    /// The identifier's text.
    pub fn as_str(&self) -> (r: &str)
        ensures
            r@ == self@,
    {
        self.0.as_str()
    }
}

/// Identifier of a review finding.
#[derive(Debug, PartialEq, Eq, PartialOrd, Ord, Hash)]
pub struct FindingId(pub String);

impl View for FindingId {
    type V = Seq<char>;

    open spec fn view(&self) -> Seq<char> {
        self.0@
    }
}

impl Clone for FindingId {
    fn clone(&self) -> (r: Self)
        ensures
            r == *self,
    {
        FindingId(self.0.clone())
    }
}

impl FindingId {
    /// An identifier with the given text.
    pub fn new(text: &str) -> (r: Self)
        ensures
            r@ == text@,
    {
        FindingId(copy_text(text))
    }

    /// Whether both identifiers have the same text.
    pub fn same(&self, other: &Self) -> (r: bool)
        ensures
            r == (self@ == other@),
    {
        text_eq(&self.0, &other.0)
    }

    /// The identifier's text.
    pub fn as_str(&self) -> (r: &str)
        ensures
            r@ == self@,
    {
        self.0.as_str()
    }
}

/// Identifier of a client request.
#[derive(Debug, PartialEq, Eq, PartialOrd, Ord, Hash)]
pub struct RequestId(pub String);

impl View for RequestId {
    type V = Seq<char>;

    open spec fn view(&self) -> Seq<char> {
        self.0@
    }
}

impl Clone for RequestId {
    fn clone(&self) -> (r: Self)
        ensures
            r == *self,
    {
        RequestId(self.0.clone())
    }
}

impl RequestId {
    /// An identifier with the given text.
    pub fn new(text: &str) -> (r: Self)
        ensures
            r@ == text@,
    {
        RequestId(copy_text(text))
    }

    /// Whether both identifiers have the same text.
    pub fn same(&self, other: &Self) -> (r: bool)
        ensures
            r == (self@ == other@),
    {
        text_eq(&self.0, &other.0)
    }

    /// The identifier's text.
    pub fn as_str(&self) -> (r: &str)
        ensures
            r@ == self@,
    {
        self.0.as_str()
    }
}

} // verus!
