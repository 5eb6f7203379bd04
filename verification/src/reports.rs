use crate::event::{Attribute, AttributeValue, ValueModel};
use crate::time::current_time;
use std::time::SystemTime;
use vstd::prelude::*;
use vstd::string::StringExecFns;

verus! {

/// `serde_json::Value`: any JSON value, carried as it is.
#[verifier::external_type_specification]
#[verifier::external_body]
pub struct ExJsonValue(serde_json::Value);

/// `serde_json::Error`: why a serialization failed, carried as it is.
#[verifier::external_type_specification]
#[verifier::external_body]
pub struct ExJsonError(serde_json::Error);

/// Calls `serde_json::to_string_pretty` on a JSON value. Nothing is claimed
/// of the text that comes back.
#[verifier::external_body]
fn json_pretty(value: &serde_json::Value) -> Result<String, serde_json::Error> {
    serde_json::to_string_pretty(value)
}

/// Calls `serde_json::to_string` on a JSON value. Nothing is claimed of the
/// text that comes back.
#[verifier::external_body]
fn json_compact(value: &serde_json::Value) -> Result<String, serde_json::Error> {
    serde_json::to_string(value)
}

/// The text that `opentelemetry::Value::as_str` gives for an attribute
/// value.
pub uninterp spec fn value_text(value: ValueModel) -> Seq<char>;

/// Calls `opentelemetry::Value::as_str` on the attribute value, written as
/// a value of that crate. The contract gives the result its name, and claims
/// that the text of a text value is that text.
#[verifier::external_body]
fn value_as_text(value: &AttributeValue) -> (r: String)
    ensures
        r@ == value_text(value@),
        value@ matches ValueModel::Text(s) ==> r@ == s,
{
    let v = match value {
        AttributeValue::Bool(b) => opentelemetry::Value::Bool(*b),
        AttributeValue::Int(i) => opentelemetry::Value::I64(*i),
        AttributeValue::Text(s) => opentelemetry::Value::String(s.clone().into()),
        AttributeValue::TextList(l) => opentelemetry::Value::Array(
            opentelemetry::Array::String(l.iter().map(|s| s.clone().into()).collect()),
        ),
    };
    v.as_str().into_owned()
}

/// Attaches the time at which a report is made.
#[derive(Debug, Clone, Copy, PartialEq, Eq)]
pub struct SystemTimeCollector;

impl SystemTimeCollector {
    /// The current time, to be attached to a new report.
    pub fn collect(&self) -> SystemTime {
        current_time()
    }
}

/// A text could not be produced.
#[derive(Debug, Clone, Copy, PartialEq, Eq, Structural)]
pub struct FormatError;

/// Shows a value as JSON.
#[derive(Debug, Clone, Copy, PartialEq, Eq)]
pub struct JsonHandler;

impl JsonHandler {
    /// What is shown for the outcome of a serialization: the text, or an
    /// error that no longer says what went wrong.
    pub fn written(serialized: Result<String, serde_json::Error>) -> (r: Result<
        String,
        FormatError,
    >)
        ensures
            match serialized {
                Ok(s) => r == Ok::<String, FormatError>(s),
                Err(_) => r == Err::<String, FormatError>(FormatError),
            },
    {
        match serialized {
            Ok(s) => Ok(s),
            Err(_) => Err(FormatError),
        }
    }

    /// The value as JSON over several lines.
    pub fn display(value: &serde_json::Value) -> Result<String, FormatError> {
        JsonHandler::written(json_pretty(value))
    }

    /// The value as JSON on one line.
    pub fn debug(value: &serde_json::Value) -> Result<String, FormatError> {
        JsonHandler::written(json_compact(value))
    }
}

/// Where an attachment is shown within a printed report.
#[derive(Debug, Clone, Copy, PartialEq, Eq)]
pub enum AttachmentFormattingPlacement {
    Inline,
    InlineWithHeader { header: &'static str },
    Appendix { appendix_name: &'static str },
    Opaque,
    Hidden,
}

/// Which of its two texts an attachment is shown as.
#[derive(Debug, Clone, Copy, PartialEq, Eq)]
pub enum FormattingFunction {
    Display,
    Debug,
}

/// How an attachment asks to be shown within a printed report.
#[derive(Debug, Clone, Copy, PartialEq, Eq)]
pub struct AttachmentFormattingStyle {
    pub placement: AttachmentFormattingPlacement,
    pub function: FormattingFunction,
    pub priority: i32,
}

/// Shows an attribute that is attached to a report.
#[derive(Debug, Clone, Copy, PartialEq, Eq)]
pub struct OTelAttribute;

impl OTelAttribute {
    /// The attribute as `key: value`.
    pub fn display(value: &Attribute) -> (r: String)
        ensures
            r@ == value@.key + ": "@ + value_text(value@.value),
            value@.value matches ValueModel::Text(s) ==> r@ == value@.key + ": "@ + s,
    {
        let mut r = value.key.clone();
        r.append(": ");
        let shown = value_as_text(&value.value);
        r.append(shown.as_str());
        r
    }

    /// Attributes are listed in an appendix of their own, by their display
    /// text.
    pub fn preferred_formatting_style() -> (r: AttachmentFormattingStyle)
        ensures
            r.placement matches AttachmentFormattingPlacement::Appendix { appendix_name }
                && appendix_name@ == "OTel Attributes"@,
            r.function == FormattingFunction::Display,
            r.priority == 0,
    {
        AttachmentFormattingStyle {
            placement: AttachmentFormattingPlacement::Appendix { appendix_name: "OTel Attributes" },
            function: FormattingFunction::Display,
            priority: 0,
        }
    }
}

} // verus!
