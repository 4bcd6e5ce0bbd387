use vstd::prelude::*;
use vstd::string::StringExecFns;

use crate::sample::{format_line, is_field_text, local_timestamp, sample_from_report, WeatherReport};

verus! {

/// The address of the current-weather query for the fixed location, in
/// metric units and Japanese, authorised by `api_key`.
pub open spec fn request_url_text(api_key: Seq<char>) -> Seq<char> {
    "https://api.openweathermap.org/data/2.5/weather?id=1850147&units=metric&lang=ja&appid="@
        + api_key
}

/// The URL that one poll requests.
pub fn request_url(api_key: &str) -> (r: String)
    ensures
        r@ == request_url_text(api_key@),
{
    let mut url =
        "https://api.openweathermap.org/data/2.5/weather?id=1850147&units=metric&lang=ja&appid="
        .to_owned();
    url.append(api_key);
    url
}

/// How the request for a report ended.
pub enum FetchOutcome {
    /// A response came and its body was read as a report.
    Received(WeatherReport),
    /// The request failed, or its body could not be read as a report; the
    /// text says why.
    Failed(String),
}

/// How appending a line to the log ended.
pub enum StoreOutcome {
    Appended,
    /// The log file could not be opened or created.
    OpenFailed,
    /// The file opened but the write failed; the text says why.
    WriteFailed(String),
}

/// Why a poll ended without its line reaching the log.
pub enum Diagnostic {
    RequestFailed(String),
    NoCondition,
    OpenFailed,
    WriteFailed(String),
}

/// What a poll does once its request has ended.
pub enum PollStep {
    /// Append this line to the log.
    Append(String),
    /// Print the diagnostic and drop the sample.
    Drop(Diagnostic),
}

pub open spec fn diagnostic_text(d: Diagnostic) -> Seq<char> {
    match d {
        Diagnostic::RequestFailed(m) => "request error: "@ + m@,
        Diagnostic::NoCondition => "response lists no weather condition"@,
        Diagnostic::OpenFailed => "Failed to create OpenOptions."@,
        Diagnostic::WriteFailed(m) => "Failed to write to Log: "@ + m@,
    }
}

impl Diagnostic {
    /// The text printed for this diagnostic.
    pub fn message(&self) -> (r: String)
        ensures
            r@ == diagnostic_text(*self),
    {
        match self {
            Diagnostic::RequestFailed(m) => {
                let mut s = "request error: ".to_owned();
                s.append(m.as_str());
                s
            },
            Diagnostic::NoCondition => "response lists no weather condition".to_owned(),
            Diagnostic::OpenFailed => "Failed to create OpenOptions.".to_owned(),
            Diagnostic::WriteFailed(m) => {
                let mut s = "Failed to write to Log: ".to_owned();
                s.append(m.as_str());
                s
            },
        }
    }
}

/// The step a poll takes after its request ended with `outcome`, its line
/// stamped with `timestamp`: a failed request appends nothing, and a report
/// is logged with the label of its first condition only.
pub fn step_after_fetch_at(outcome: FetchOutcome, timestamp: &str) -> (r: PollStep)
    ensures
        outcome matches FetchOutcome::Failed(m) ==> (r matches PollStep::Drop(
            Diagnostic::RequestFailed(m2),
        ) && m2@ == m@),
        outcome matches FetchOutcome::Received(rep) ==> (rep.weather@.len() == 0 <==> r
            matches PollStep::Drop(Diagnostic::NoCondition)),
        outcome matches FetchOutcome::Received(rep) ==> (rep.weather@.len() > 0 <==> r
            matches PollStep::Append(_)),
        outcome matches FetchOutcome::Received(rep) ==> (r matches PollStep::Append(line)
            ==> line@ == crate::sample::line_text(
            timestamp@,
            rep.name@,
            rep.weather@[0].main@,
            rep.temp@,
        )),
{
    match outcome {
        FetchOutcome::Failed(m) => PollStep::Drop(Diagnostic::RequestFailed(m)),
        FetchOutcome::Received(rep) => match sample_from_report(&rep) {
            Some(sample) => PollStep::Append(format_line(timestamp, &sample)),
            None => PollStep::Drop(Diagnostic::NoCondition),
        },
    }
}

/// The step a poll takes after its request ended with `outcome`, its line
/// stamped with the local time now.
pub fn step_after_fetch(outcome: FetchOutcome) -> (r: PollStep)
    ensures
        outcome matches FetchOutcome::Failed(m) ==> (r matches PollStep::Drop(
            Diagnostic::RequestFailed(m2),
        ) && m2@ == m@),
        outcome matches FetchOutcome::Received(rep) ==> (rep.weather@.len() == 0 <==> r
            matches PollStep::Drop(Diagnostic::NoCondition)),
        outcome matches FetchOutcome::Received(rep) ==> (rep.weather@.len() > 0 <==> r
            matches PollStep::Append(_)),
        outcome matches FetchOutcome::Received(rep) ==> (r matches PollStep::Append(line)
            ==> exists|timestamp: Seq<char>|
            is_field_text(timestamp) && line@ == #[trigger] crate::sample::line_text(
                timestamp,
                rep.name@,
                rep.weather@[0].main@,
                rep.temp@,
            )),
{
    let timestamp = local_timestamp();
    step_after_fetch_at(outcome, timestamp.as_str())
}

/// The diagnostic, if any, after appending a line ended with `outcome`: a
/// file that cannot be opened or written is reported, and the poll ends
/// either way.
pub fn diagnostic_after_store(outcome: StoreOutcome) -> (r: Option<Diagnostic>)
    ensures
        outcome matches StoreOutcome::Appended ==> r is None,
        outcome matches StoreOutcome::OpenFailed ==> r matches Some(Diagnostic::OpenFailed),
        outcome matches StoreOutcome::WriteFailed(m) ==> (r matches Some(
            Diagnostic::WriteFailed(m2),
        ) && m2@ == m@),
{
    match outcome {
        StoreOutcome::Appended => None,
        StoreOutcome::OpenFailed => Some(Diagnostic::OpenFailed),
        StoreOutcome::WriteFailed(m) => Some(Diagnostic::WriteFailed(m)),
    }
}

} // verus!
