//! Requests that the library sends to the retrieval service.

use vstd::prelude::*;

verus! {

/// A semantic search.
pub struct SearchRequest {
    pub query: String,
    pub limit: i32,
    pub document_slug: Option<String>,
    pub include_chunks: bool,
    pub include_elements: bool,
    pub element_type: Option<String>,
}

/// A question for the answering service.
pub struct ChatRequest {
    pub question: String,
    pub limit: i32,
    pub document_slug: Option<String>,
}

pub ghost struct SearchRequestView {
    pub query: Seq<char>,
    pub limit: int,
    pub document_slug: Option<Seq<char>>,
    pub include_chunks: bool,
    pub include_elements: bool,
    pub element_type: Option<Seq<char>>,
}

pub ghost struct ChatRequestView {
    pub question: Seq<char>,
    pub limit: int,
    pub document_slug: Option<Seq<char>>,
}

pub open spec fn opt_view(s: Option<String>) -> Option<Seq<char>> {
    match s {
        Some(x) => Some(x@),
        None => None,
    }
}

impl View for SearchRequest {
    type V = SearchRequestView;

    open spec fn view(&self) -> SearchRequestView {
        SearchRequestView {
            query: self.query@,
            limit: self.limit as int,
            document_slug: opt_view(self.document_slug),
            include_chunks: self.include_chunks,
            include_elements: self.include_elements,
            element_type: opt_view(self.element_type),
        }
    }
}

impl View for ChatRequest {
    type V = ChatRequestView;

    open spec fn view(&self) -> ChatRequestView {
        ChatRequestView {
            question: self.question@,
            limit: self.limit as int,
            document_slug: opt_view(self.document_slug),
        }
    }
}

impl SearchRequest {
    /// The search that a one-shot search command asks for: a type filter
    /// limits it to elements, and each `*_only` flag leaves the other kind out.
    pub fn for_query(
        query: String,
        limit: i32,
        document: Option<String>,
        elements_only: bool,
        chunks_only: bool,
        element_type: Option<String>,
    ) -> (r: SearchRequest)
        ensures
            r.query == query,
            r.limit == limit,
            r.document_slug == document,
            r.include_chunks == !(elements_only || element_type is Some),
            r.include_elements == !chunks_only,
            r.element_type == element_type,
    {
        let elements_only = elements_only || element_type.is_some();
        SearchRequest {
            query,
            limit,
            document_slug: document,
            include_chunks: !elements_only,
            include_elements: !chunks_only,
            element_type,
        }
    }
}

} // verus!
