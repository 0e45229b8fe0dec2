//! The line at the bottom of the window.
use vstd::prelude::*;

verus! {

/// How a status line is meant.
#[derive(Clone, Copy, PartialEq, Eq, Structural, Debug)]
pub enum StatusKind {
    /// A piece of news.
    Info,
    /// Something was done.
    Success,
    /// Something went wrong.
    Error,
}

/// A status line.
#[derive(Debug)]
pub struct StatusMessage {
    /// How the line is meant.
    pub kind: StatusKind,
    /// What it says.
    pub text: String,
}

/// The contents of a [`StatusMessage`].
pub struct StatusView {
    /// How the line is meant.
    pub kind: StatusKind,
    /// What it says.
    pub text: Seq<char>,
}

impl View for StatusMessage {
    type V = StatusView;

    open spec fn view(&self) -> StatusView {
        StatusView { kind: self.kind, text: self.text@ }
    }
}

/// A piece of news.
pub open spec fn news(text: Seq<char>) -> StatusView {
    StatusView { kind: StatusKind::Info, text }
}

/// Something was done.
pub open spec fn done(text: Seq<char>) -> StatusView {
    StatusView { kind: StatusKind::Success, text }
}

/// Something went wrong.
pub open spec fn failed(text: Seq<char>) -> StatusView {
    StatusView { kind: StatusKind::Error, text }
}

impl StatusMessage {
    /// A piece of news.
    pub fn info(text: String) -> (r: Self)
        ensures
            r@ == news(text@),
    {
        StatusMessage { kind: StatusKind::Info, text }
    }

    /// Something was done.
    pub fn success(text: String) -> (r: Self)
        ensures
            r@ == done(text@),
    {
        StatusMessage { kind: StatusKind::Success, text }
    }

    /// Something went wrong.
    pub fn error(text: String) -> (r: Self)
        ensures
            r@ == failed(text@),
    {
        StatusMessage { kind: StatusKind::Error, text }
    }
}

} // verus!
