//! Error types of the engine, with ghost views used by the contracts.
//!
//! Every failure is surfaced as a distinct, named value; nothing is coerced
//! to a default. The ghost view of each error type carries the same
//! information over character sequences, so contracts can say exactly which
//! error an input produces.

use vstd::prelude::*;

verus! {

/// Ghost view of [`UpdateBodyError`].
pub enum UpdateErrView {
    /// The response text is not well-formed markup.
    ParseFailed,
    /// A required node is absent; the payload names it.
    MissingNode(Seq<char>),
    /// A required attribute is absent on the named node.
    MissingAttr { node: Seq<char>, attribute: Seq<char> },
    /// Required text content is absent in the named node.
    MissingContent(Seq<char>),
    /// The snapshot rewrite did not produce a new document.
    RewriteFailed,
}

/// An error while decoding an incremental update response or while applying
/// it to the snapshot.
#[derive(Debug, Clone, PartialEq, Eq)]
pub enum UpdateBodyError {
    /// The response text is not well-formed markup.
    ParseFailed,
    /// A required node is absent; the payload names it.
    NoSuchNode(String),
    /// A required attribute is absent on the named node.
    NoSuchAttribute { node: String, attribute: String },
    /// Required text content is absent in the named node.
    NoSuchContent(String),
    /// The snapshot rewrite did not produce a new document.
    RewriteFailed,
}

impl View for UpdateBodyError {
    type V = UpdateErrView;

    open spec fn view(&self) -> UpdateErrView {
        match self {
            UpdateBodyError::ParseFailed => UpdateErrView::ParseFailed,
            UpdateBodyError::NoSuchNode(n) => UpdateErrView::MissingNode(n@),
            UpdateBodyError::NoSuchAttribute { node, attribute } => UpdateErrView::MissingAttr {
                node: node@,
                attribute: attribute@,
            },
            UpdateBodyError::NoSuchContent(n) => UpdateErrView::MissingContent(n@),
            UpdateBodyError::RewriteFailed => UpdateErrView::RewriteFailed,
        }
    }
}

/// Ghost view of [`BodyError`].
pub enum BodyErrView {
    /// The navigation document is unusable; the payload says why.
    Invalid(Seq<char>),
    /// A required session-form field is absent; the payload names it.
    MissingField(Seq<char>),
}

/// An error while deriving the session record from a navigation document.
#[derive(Debug, Clone, PartialEq, Eq)]
pub enum BodyError {
    /// The navigation document is unusable; the payload says why.
    Invalid(String),
    /// A required session-form field is absent; the payload names it.
    NoSuchAttribute(String),
}

impl View for BodyError {
    type V = BodyErrView;

    open spec fn view(&self) -> BodyErrView {
        match self {
            BodyError::Invalid(s) => BodyErrView::Invalid(s@),
            BodyError::NoSuchAttribute(s) => BodyErrView::MissingField(s@),
        }
    }
}

/// Ghost view of [`ClientError`].
pub enum ClientErrView {
    /// The base URL lacks a component the engine needs.
    InvalidBaseUrl(Seq<char>),
    /// The synthetic form-submit event could not be produced.
    NoSuchForm(Seq<char>),
    /// A transport request failed; the payload says why.
    FailedRequest(Seq<char>),
    /// A transport response was unusable; the payload says why.
    InvalidResponse(Seq<char>),
}

/// An error on the session-controller level.
#[derive(Debug, Clone, PartialEq, Eq)]
pub enum ClientError {
    /// The base URL lacks a component the engine needs.
    InvalidBaseUrl(String),
    /// The synthetic form-submit event could not be produced.
    NoSuchForm(String),
    /// A transport request failed; the payload says why.
    FailedRequest(String),
    /// A transport response was unusable; the payload says why.
    InvalidResponse(String),
}

impl View for ClientError {
    type V = ClientErrView;

    open spec fn view(&self) -> ClientErrView {
        match self {
            ClientError::InvalidBaseUrl(s) => ClientErrView::InvalidBaseUrl(s@),
            ClientError::NoSuchForm(s) => ClientErrView::NoSuchForm(s@),
            ClientError::FailedRequest(s) => ClientErrView::FailedRequest(s@),
            ClientError::InvalidResponse(s) => ClientErrView::InvalidResponse(s@),
        }
    }
}

/// Ghost view of [`WebDynproError`].
pub enum WebDynproErrView {
    /// A session-derivation failure.
    Body(BodyErrView),
    /// An update-decoding or patching failure.
    UpdateBody(UpdateErrView),
    /// A session-controller failure.
    Client(ClientErrView),
}

/// Any failure the engine can surface to its caller.
#[derive(Debug, Clone, PartialEq, Eq)]
pub enum WebDynproError {
    /// A session-derivation failure.
    Body(BodyError),
    /// An update-decoding or patching failure.
    UpdateBody(UpdateBodyError),
    /// A session-controller failure.
    Client(ClientError),
}

impl View for WebDynproError {
    type V = WebDynproErrView;

    open spec fn view(&self) -> WebDynproErrView {
        match self {
            WebDynproError::Body(e) => WebDynproErrView::Body(e@),
            WebDynproError::UpdateBody(e) => WebDynproErrView::UpdateBody(e@),
            WebDynproError::Client(e) => WebDynproErrView::Client(e@),
        }
    }
}

/// An error while assembling an event from its builder.
#[derive(Debug, Clone, PartialEq, Eq)]
pub enum EventBuilderError {
    /// A required builder field was never set; the payload names it.
    UninitializedField(String),
}

impl View for EventBuilderError {
    type V = Seq<char>;

    open spec fn view(&self) -> Seq<char> {
        match self {
            EventBuilderError::UninitializedField(s) => s@,
        }
    }
}

} // verus!
