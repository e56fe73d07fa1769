//! Opaque identifiers handed out by the remote service.
//!
//! The remote API exposes every resource through an opaque string id. Each
//! id kind gets its own newtype so that an assistant id cannot be passed
//! where a file id is expected. The view of an id is its character sequence.

use vstd::prelude::*;

verus! {

/// Remote id of an assistant resource.
#[derive(Debug)]
pub struct AssistantId(pub String);

/// Remote id of a conversation thread.
#[derive(Debug)]
pub struct ThreadId(pub String);

/// Remote id of an uploaded file.
#[derive(Debug)]
pub struct FileId(pub String);

impl View for AssistantId {
    type V = Seq<char>;

    open spec fn view(&self) -> Seq<char> {
        self.0@
    }
}

impl DeepView for AssistantId {
    type V = Seq<char>;

    open spec fn deep_view(&self) -> Seq<char> {
        self@
    }
}

impl View for ThreadId {
    type V = Seq<char>;

    open spec fn view(&self) -> Seq<char> {
        self.0@
    }
}

impl DeepView for ThreadId {
    type V = Seq<char>;

    open spec fn deep_view(&self) -> Seq<char> {
        self@
    }
}

impl View for FileId {
    type V = Seq<char>;

    open spec fn view(&self) -> Seq<char> {
        self.0@
    }
}

impl DeepView for FileId {
    type V = Seq<char>;

    open spec fn deep_view(&self) -> Seq<char> {
        self@
    }
}

impl Clone for AssistantId {
    fn clone(&self) -> (r: Self)
        ensures
            r@ == self@,
    {
        AssistantId(self.0.clone())
    }
}

impl Clone for ThreadId {
    fn clone(&self) -> (r: Self)
        ensures
            r@ == self@,
    {
        ThreadId(self.0.clone())
    }
}

impl Clone for FileId {
    fn clone(&self) -> (r: Self)
        ensures
            r@ == self@,
    {
        FileId(self.0.clone())
    }
}

} // verus!
