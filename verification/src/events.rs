//! The event monitor: what is logged of the events that a running pipeline
//! posts, and in which words. Events are observed and logged; none of them
//! changes what a pipeline does.

use crate::decimal::{digits_of, render_u64};
use crate::pipeline::{Label, Notice, Pad};
use crate::sampler::{Report, ReportView};
use vstd::prelude::*;

verus! {

/// How much a log record matters.
#[derive(Clone, Copy, Debug, PartialEq, Eq, Structural)]
pub enum Severity {
    Error,
    Warning,
    Info,
}

/// The states that the engine takes a stage or a pipeline through.
#[derive(Clone, Copy, Debug, PartialEq, Eq, Structural)]
pub enum EngineState {
    VoidPending,
    Null,
    Ready,
    Paused,
    Playing,
}

impl EngineState {
    /// The name of the state.
    pub open spec fn name_text(self) -> Seq<char> {
        match self {
            EngineState::VoidPending => "VoidPending"@,
            EngineState::Null => "Null"@,
            EngineState::Ready => "Ready"@,
            EngineState::Paused => "Paused"@,
            EngineState::Playing => "Playing"@,
        }
    }

    /// The name of the state.
    pub fn name(self) -> (r: &'static str)
        ensures
            r@ == self.name_text(),
    {
        match self {
            EngineState::VoidPending => "VoidPending",
            EngineState::Null => "Null",
            EngineState::Ready => "Ready",
            EngineState::Paused => "Paused",
            EngineState::Playing => "Playing",
        }
    }
}

/// What an error, a warning or a notice of the engine carries.
#[derive(Clone, Debug, PartialEq, Eq)]
pub struct Diagnostic {
    /// The path of the stage that posted it, where it is known.
    pub source: Option<String>,
    /// What went wrong.
    pub message: String,
    /// Detail for debugging, where there is any.
    pub debug: Option<String>,
}

/// An event on a pipeline's event stream.
#[derive(Clone, Debug, PartialEq, Eq)]
pub enum BusEvent {
    Error(Diagnostic),
    Warning(Diagnostic),
    Info(Diagnostic),
    /// A stage's own message, such as the periodic summary of a level
    /// meter, with its content as text where it has any.
    Element { structure: Option<String> },
    /// A state change, of the pipeline itself or of one of its stages.
    StateChanged {
        from_pipeline: bool,
        old: EngineState,
        current: EngineState,
        pending: EngineState,
    },
    /// The latency of the pipeline has to be computed anew.
    Latency,
    /// Any other event.
    Other,
}

/// A line for the log.
#[derive(Clone, Debug, PartialEq, Eq)]
pub struct LogRecord {
    pub severity: Severity,
    pub line: String,
}

/// What a `LogRecord` stands for.
pub struct LogRecordView {
    pub severity: Severity,
    pub line: Seq<char>,
}

impl View for LogRecord {
    type V = LogRecordView;

    open spec fn view(&self) -> LogRecordView {
        LogRecordView { severity: self.severity, line: self.line@ }
    }
}

/// The view of an optional record.
pub open spec fn record_of(o: Option<LogRecord>) -> Option<LogRecordView> {
    match o {
        Some(r) => Some(r@),
        None => None,
    }
}

/// The source of a diagnostic, or `<unknown>`.
pub open spec fn source_text(source: Option<String>) -> Seq<char> {
    match source {
        Some(s) => s@,
        None => "<unknown>"@,
    }
}

/// The debugging detail of a diagnostic, or `none`.
pub open spec fn debug_text(debug: Option<String>) -> Seq<char> {
    match debug {
        Some(s) => s@,
        None => "none"@,
    }
}

/// The line for a diagnostic: the pipeline's tag, the kind of diagnostic,
/// then source, message and detail.
pub open spec fn diagnostic_line(tag: Seq<char>, kind: Seq<char>, d: Diagnostic) -> Seq<char> {
    "["@ + tag + kind + source_text(d.source) + ": "@ + d.message@ + " (debug: "@ + debug_text(
        d.debug,
    ) + ")"@
}

/// The line for a state change of the pipeline.
pub open spec fn state_line(
    tag: Seq<char>,
    old: EngineState,
    current: EngineState,
    pending: EngineState,
) -> Seq<char> {
    "["@ + tag + "] state changed: "@ + old.name_text() + " -> "@ + current.name_text()
        + " (pending "@ + pending.name_text() + ")"@
}

/// What is logged of an event on the stream of the pipeline `tag`.
///
/// Errors, warnings and notices are always logged, each at its own
/// severity. A stage's own message is logged where it has content. A state
/// change is logged only where the pipeline itself changed state. A latency
/// event is logged; any other event is not.
pub open spec fn bus_record(tag: Seq<char>, event: BusEvent) -> Option<LogRecordView> {
    match event {
        BusEvent::Error(d) => Some(
            LogRecordView {
                severity: Severity::Error,
                line: diagnostic_line(tag, "] ERROR from "@, d),
            },
        ),
        BusEvent::Warning(d) => Some(
            LogRecordView {
                severity: Severity::Warning,
                line: diagnostic_line(tag, "] WARN  from "@, d),
            },
        ),
        BusEvent::Info(d) => Some(
            LogRecordView {
                severity: Severity::Info,
                line: diagnostic_line(tag, "] INFO  from "@, d),
            },
        ),
        BusEvent::Element { structure } => match structure {
            Some(s) => Some(
                LogRecordView { severity: Severity::Info, line: "["@ + tag + "] ELEMENT "@ + s@ },
            ),
            None => None,
        },
        BusEvent::StateChanged { from_pipeline, old, current, pending } => if from_pipeline {
            Some(
                LogRecordView {
                    severity: Severity::Info,
                    line: state_line(tag, old, current, pending),
                },
            )
        } else {
            None
        },
        BusEvent::Latency => Some(
            LogRecordView { severity: Severity::Info, line: "["@ + tag + "] latency message"@ },
        ),
        BusEvent::Other => None,
    }
}

/// Writes the line for a diagnostic.
fn write_diagnostic(tag: &str, kind: &str, d: &Diagnostic) -> (line: String)
    ensures
        line@ == diagnostic_line(tag@, kind@, *d),
{
    let mut line = String::from_str("[");
    line.append(tag);
    line.append(kind);
    match &d.source {
        Some(s) => line.append(s.as_str()),
        None => line.append("<unknown>"),
    }
    line.append(": ");
    line.append(d.message.as_str());
    line.append(" (debug: ");
    match &d.debug {
        Some(s) => line.append(s.as_str()),
        None => line.append("none"),
    }
    line.append(")");
    line
}

/// Decides what is logged of an event on the stream of the pipeline `tag`,
/// and writes the line.
pub fn log_bus_event(tag: &str, event: &BusEvent) -> (r: Option<LogRecord>)
    ensures
        record_of(r) == bus_record(tag@, *event),
{
    match event {
        BusEvent::Error(d) => Some(
            LogRecord { severity: Severity::Error, line: write_diagnostic(tag, "] ERROR from ", d) },
        ),
        BusEvent::Warning(d) => Some(
            LogRecord {
                severity: Severity::Warning,
                line: write_diagnostic(tag, "] WARN  from ", d),
            },
        ),
        BusEvent::Info(d) => Some(
            LogRecord { severity: Severity::Info, line: write_diagnostic(tag, "] INFO  from ", d) },
        ),
        BusEvent::Element { structure } => match structure {
            Some(s) => {
                let mut line = String::from_str("[");
                line.append(tag);
                line.append("] ELEMENT ");
                line.append(s.as_str());
                Some(LogRecord { severity: Severity::Info, line })
            },
            None => None,
        },
        BusEvent::StateChanged { from_pipeline, old, current, pending } => {
            if *from_pipeline {
                let mut line = String::from_str("[");
                line.append(tag);
                line.append("] state changed: ");
                line.append(old.name());
                line.append(" -> ");
                line.append(current.name());
                line.append(" (pending ");
                line.append(pending.name());
                line.append(")");
                Some(LogRecord { severity: Severity::Info, line })
            } else {
                None
            }
        },
        BusEvent::Latency => {
            let mut line = String::from_str("[");
            line.append(tag);
            line.append("] latency message");
            Some(LogRecord { severity: Severity::Info, line })
        },
        BusEvent::Other => None,
    }
}

/// The line for a format that was negotiated at a probe: the probe's
/// label, the side of the stage, and the format as the engine describes it.
pub open spec fn format_line(label: Label, pad: Pad, description: Seq<char>) -> Seq<char> {
    "[caps:"@ + label.text() + "] "@ + pad.name_text() + " -> "@ + description
}

/// Writes the record for a format that was negotiated at a probe.
pub fn log_format(label: Label, pad: Pad, description: &str) -> (r: LogRecord)
    ensures
        r@ == (LogRecordView {
            severity: Severity::Info,
            line: format_line(label, pad, description@),
        }),
{
    let mut line = String::from_str("[caps:");
    line.append(label.as_str());
    line.append("] ");
    line.append(pad.name());
    line.append(" -> ");
    line.append(description);
    LogRecord { severity: Severity::Info, line }
}

/// The line for a throughput report: whole packets per second, whole
/// kilobits per second, the bytes of the window and its length in whole
/// milliseconds.
pub open spec fn throughput_line(label: Label, report: ReportView) -> Seq<char> {
    "["@ + label.text() + "] TX ~"@ + digits_of(report.packets_per_second()) + " pkts/s, ~"@
        + digits_of(report.kbit_per_second()) + " kbit/s ("@ + digits_of(report.bytes)
        + " bytes in "@ + digits_of(report.elapsed / 1_000_000) + " ms)"@
}

/// Writes the record for a throughput report.
pub fn log_throughput(label: Label, report: &Report) -> (r: LogRecord)
    ensures
        r@ == (LogRecordView { severity: Severity::Info, line: throughput_line(label, report@) }),
{
    let mut line = String::from_str("[");
    line.append(label.as_str());
    line.append("] TX ~");
    line.append(render_u64(report.packets_per_second()).as_str());
    line.append(" pkts/s, ~");
    line.append(render_u64(report.kbit_per_second()).as_str());
    line.append(" kbit/s (");
    line.append(render_u64(report.bytes()).as_str());
    line.append(" bytes in ");
    line.append(render_u64(report.elapsed_nanos() / 1_000_000).as_str());
    line.append(" ms)");
    LogRecord { severity: Severity::Info, line }
}

/// The line for something that was noted while the pipeline `tag` was built.
pub open spec fn notice_line(tag: Seq<char>, notice: Notice) -> Seq<char> {
    match notice {
        Notice::HintDiscarded => "["@ + tag
            + "] the capture device has to be given by index here; using the default device"@,
        Notice::NoMonitorFound => "["@ + tag
            + "] no monitor source found; falling back to the default source (may be the microphone)"@,
        Notice::StageSkipped(role) => "["@ + tag + "] cannot make "@ + role.name_text()
            + "; going on without it"@,
        Notice::SettingSkipped(role, param) => "["@ + tag + "] "@ + role.name_text() + " has no "@
            + param.name_text() + "; setting skipped"@,
    }
}

/// Writes the record for something that was noted while the pipeline `tag`
/// was built. Every notice is a warning.
pub fn log_notice(tag: &str, notice: Notice) -> (r: LogRecord)
    ensures
        r@ == (LogRecordView { severity: Severity::Warning, line: notice_line(tag@, notice) }),
{
    let mut line = String::from_str("[");
    line.append(tag);
    match notice {
        Notice::HintDiscarded => {
            line.append(
                "] the capture device has to be given by index here; using the default device",
            );
        },
        Notice::NoMonitorFound => {
            line.append(
                "] no monitor source found; falling back to the default source (may be the microphone)",
            );
        },
        Notice::StageSkipped(role) => {
            line.append("] cannot make ");
            line.append(role.name());
            line.append("; going on without it");
        },
        Notice::SettingSkipped(role, param) => {
            line.append("] ");
            line.append(role.name());
            line.append(" has no ");
            line.append(param.name());
            line.append("; setting skipped");
        },
    }
    LogRecord { severity: Severity::Warning, line }
}

} // verus!
