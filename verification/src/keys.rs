use vstd::prelude::*;

verus! {

/// The name of every event that records a report.
pub const EXCEPTION: &'static str = "exception";

/// The key of the attribute that holds a report's type.
pub open spec fn type_key() -> Seq<char> {
    "exception.type"@
}

/// The key of the attribute that holds a report's message.
pub open spec fn message_key() -> Seq<char> {
    "exception.message"@
}

/// The key of the attribute that holds a report's backtrace.
pub open spec fn stacktrace_key() -> Seq<char> {
    "exception.stacktrace"@
}

/// The key of the attribute that says whether the error left its span.
pub open spec fn escaped_key() -> Seq<char> {
    "exception.escaped"@
}

/// The key of the attribute that holds the texts of further attachments.
pub open spec fn extras_key() -> Seq<char> {
    "exception.extras"@
}

/// The key of the span attribute that holds the type of an error.
pub open spec fn error_type_key() -> Seq<char> {
    "error.type"@
}

/// A text of its own with the characters of `s`.
pub(crate) fn owned(s: &str) -> (r: String)
    ensures
        r@ == s@,
{
    s.to_owned()
}

/// Reads `opentelemetry_semantic_conventions::attribute::EXCEPTION_TYPE`.
/// The contract claims that this constant is the text `exception.type`.
#[verifier::external_body]
pub(crate) fn exception_type() -> (r: &'static str)
    ensures
        r@ == type_key(),
{
    opentelemetry_semantic_conventions::attribute::EXCEPTION_TYPE
}

/// Reads `opentelemetry_semantic_conventions::attribute::EXCEPTION_MESSAGE`.
/// The contract claims that this constant is the text `exception.message`.
#[verifier::external_body]
pub(crate) fn exception_message() -> (r: &'static str)
    ensures
        r@ == message_key(),
{
    opentelemetry_semantic_conventions::attribute::EXCEPTION_MESSAGE
}

/// Reads `opentelemetry_semantic_conventions::attribute::EXCEPTION_STACKTRACE`.
/// The contract claims that this constant is the text
/// `exception.stacktrace`.
#[verifier::external_body]
pub(crate) fn exception_stacktrace() -> (r: &'static str)
    ensures
        r@ == stacktrace_key(),
{
    opentelemetry_semantic_conventions::attribute::EXCEPTION_STACKTRACE
}

/// Reads `opentelemetry_semantic_conventions::attribute::ERROR_TYPE`.
/// The contract claims that this constant is the text `error.type`.
#[verifier::external_body]
pub(crate) fn error_type() -> (r: &'static str)
    ensures
        r@ == error_type_key(),
{
    opentelemetry_semantic_conventions::attribute::ERROR_TYPE
}

/// The five keys of an event's attributes differ from one another.
pub proof fn lemma_keys_differ()
    ensures
        type_key() != message_key(),
        type_key() != stacktrace_key(),
        type_key() != escaped_key(),
        type_key() != extras_key(),
        message_key() != stacktrace_key(),
        message_key() != escaped_key(),
        message_key() != extras_key(),
        stacktrace_key() != escaped_key(),
        stacktrace_key() != extras_key(),
        escaped_key() != extras_key(),
{
    reveal_strlit("exception.type");
    reveal_strlit("exception.message");
    reveal_strlit("exception.stacktrace");
    reveal_strlit("exception.escaped");
    reveal_strlit("exception.extras");
    assert(type_key().len() == 14);
    assert(message_key().len() == 17);
    assert(stacktrace_key().len() == 20);
    assert(escaped_key().len() == 17);
    assert(extras_key().len() == 16);
    assert(message_key()[10] == 'm');
    assert(escaped_key()[10] == 'e');
}

} // verus!
