use vstd::prelude::*;

verus! {

/// What identifies a span across processes: the trace it belongs to, its
/// own number, and what travels with the two.
#[derive(Debug, PartialEq, Eq)]
pub struct SpanContext {
    pub trace_id: u128,
    pub span_id: u64,
    pub trace_flags: u8,
    pub is_remote: bool,
    /// The trace state as it stands in a `tracestate` header.
    pub trace_state: String,
}

/// The mathematical value of a [`SpanContext`].
pub struct SpanContextModel {
    pub trace_id: u128,
    pub span_id: u64,
    pub trace_flags: u8,
    pub is_remote: bool,
    pub trace_state: Seq<char>,
}

impl View for SpanContext {
    type V = SpanContextModel;

    open spec fn view(&self) -> SpanContextModel {
        SpanContextModel {
            trace_id: self.trace_id,
            span_id: self.span_id,
            trace_flags: self.trace_flags,
            is_remote: self.is_remote,
            trace_state: self.trace_state@,
        }
    }
}

impl Clone for SpanContext {
    fn clone(&self) -> (r: Self)
        ensures
            r@ == self@,
    {
        SpanContext {
            trace_id: self.trace_id,
            span_id: self.span_id,
            trace_flags: self.trace_flags,
            is_remote: self.is_remote,
            trace_state: self.trace_state.clone(),
        }
    }
}

impl SpanContextModel {
    /// A context names a span only if neither its trace nor its span number
    /// is zero.
    pub open spec fn valid(self) -> bool {
        self.trace_id != 0 && self.span_id != 0
    }
}

impl SpanContext {
    /// Whether the two contexts are the same in every part.
    pub fn same(&self, other: &SpanContext) -> (r: bool)
        ensures
            r == (self@ == other@),
    {
        self.trace_id == other.trace_id && self.span_id == other.span_id && self.trace_flags
            == other.trace_flags && self.is_remote == other.is_remote && self.trace_state
            == other.trace_state
    }

    /// Whether the context names a span.
    pub fn is_valid(&self) -> (r: bool)
        ensures
            r == self@.valid(),
    {
        self.trace_id != 0 && self.span_id != 0
    }
}

} // verus!
