//! Turns trees of error reports into telemetry: events on spans, span
//! links, span status and log records.
//!
//! The reports are read into plain values ([`report::ReportNode`]). What is
//! recorded of them is decided here and handed back as plain values as well
//! ([`event::FinishedEvent`], [`span_event::SpanAction`],
//! [`log_event::LogRecord`]), for whoever holds the span or the logger.

pub mod attachments;
pub mod builder;
pub mod event;
pub mod event_builder;
pub mod event_spec;
pub mod granular;
pub mod keys;
pub mod log_event;
pub mod projector;
pub mod report;
pub mod reports;
pub mod span_context;
pub mod span_event;
pub mod time;
pub mod tristate;
pub mod utilities;
