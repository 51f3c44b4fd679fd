//! Diagnostic messages: a severity and a line of text.

use vstd::prelude::*;
use vstd::string::*;

verus! {

/// Severity of a message.
#[derive(Clone, Copy, Debug, PartialEq, Eq, Structural)]
pub enum MsgType {
    Success,
    Failure,
}

/// The console stream on which a message is echoed when it is created.
#[derive(Clone, Copy, Debug, PartialEq, Eq, Structural)]
pub enum Stream {
    Stdout,
    Stderr,
}

impl MsgType {
    /// Where a message of this severity is echoed: successes on the standard
    /// output, failures on the standard error.
    pub open spec fn spec_stream(self) -> Stream {
        match self {
            MsgType::Success => Stream::Stdout,
            MsgType::Failure => Stream::Stderr,
        }
    }

    /// Where a message of this severity is echoed.
    #[verifier::when_used_as_spec(spec_stream)]
    pub fn stream(self) -> (stream: Stream)
        ensures
            stream == self.spec_stream(),
    {
        match self {
            MsgType::Success => Stream::Stdout,
            MsgType::Failure => Stream::Stderr,
        }
    }
}

/// One log entry. Its text is fixed when it is built.
#[derive(Debug, PartialEq, Eq)]
pub struct Msg {
    ty: MsgType,
    content: String,
}

/// What a [`Msg`] stands for in contracts.
pub struct MsgView {
    pub ty: MsgType,
    pub content: Seq<char>,
}

impl MsgView {
    /// A success message with the text `content`.
    pub open spec fn success(content: Seq<char>) -> MsgView {
        MsgView { ty: MsgType::Success, content }
    }

    /// A failure message with the text `content`.
    pub open spec fn failure(content: Seq<char>) -> MsgView {
        MsgView { ty: MsgType::Failure, content }
    }
}

impl View for Msg {
    type V = MsgView;

    closed spec fn view(&self) -> MsgView {
        MsgView { ty: self.ty, content: self.content@ }
    }
}

impl Clone for Msg {
    fn clone(&self) -> (copy: Msg)
        ensures
            copy@ == self@,
    {
        Msg { ty: self.ty, content: self.content.clone() }
    }
}

impl Msg {
    /// A message of severity `ty` with a copy of `content` as its text.
    pub fn new(ty: MsgType, content: &str) -> (msg: Msg)
        ensures
            msg@ == (MsgView { ty, content: content@ }),
    {
        Msg { ty, content: String::from_str(content) }
    }

    /// A success message with a copy of `content` as its text.
    pub fn success(content: &str) -> (msg: Msg)
        ensures
            msg@ == MsgView::success(content@),
    {
        Msg::new(MsgType::Success, content)
    }

    /// A failure message with a copy of `content` as its text.
    pub fn failure(content: &str) -> (msg: Msg)
        ensures
            msg@ == MsgView::failure(content@),
    {
        Msg::new(MsgType::Failure, content)
    }

    /// The severity.
    pub fn ty(&self) -> (ty: MsgType)
        ensures
            ty == self@.ty,
    {
        self.ty
    }

    /// The text.
    pub fn content(&self) -> (content: &str)
        ensures
            content@ == self@.content,
    {
        self.content.as_str()
    }
}

} // verus!
