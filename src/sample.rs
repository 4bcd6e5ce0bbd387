use vstd::prelude::*;
use vstd::string::StringExecFns;

verus! {

/// One weather condition of a response.
pub struct Condition {
    pub id: i64,
    /// The condition's label, such as `Clear`.
    pub main: String,
    pub description: String,
    pub icon: String,
}

/// What the poller reads of a weather response: the location's name, the
/// list of conditions in the order the response gives them, and the current
/// temperature in its decimal text form.
pub struct WeatherReport {
    pub name: String,
    pub weather: Vec<Condition>,
    pub temp: String,
}

/// The three fields that one log line records.
pub struct WeatherSample {
    pub location: String,
    pub condition: String,
    pub temperature: String,
}

/// The log line for a sample taken at `timestamp`: the four fields separated
/// by single spaces, then a newline.
pub open spec fn line_text(
    timestamp: Seq<char>,
    location: Seq<char>,
    condition: Seq<char>,
    temperature: Seq<char>,
) -> Seq<char> {
    timestamp + seq![' '] + location + seq![' '] + condition + seq![' '] + temperature + seq![
        '\n',
    ]
}

/// Text that holds at least one character and neither a space nor a newline:
/// one whole field of a log line.
pub open spec fn is_field_text(s: Seq<char>) -> bool {
    &&& s.len() > 0
    &&& forall|i: int| 0 <= i < s.len() ==> #[trigger] s[i] != ' ' && s[i] != '\n'
}

pub open spec fn has_no_newline(s: Seq<char>) -> bool {
    forall|i: int| 0 <= i < s.len() ==> #[trigger] s[i] != '\n'
}

impl WeatherSample {
    pub open spec fn line_at(&self, timestamp: Seq<char>) -> Seq<char> {
        line_text(timestamp, self.location@, self.condition@, self.temperature@)
    }
}

/// The sample that a report yields: its name, the label of its first
/// condition and its temperature; `None` where it lists no condition.
pub fn sample_from_report(report: &WeatherReport) -> (r: Option<WeatherSample>)
    ensures
        r is Some <==> report.weather@.len() > 0,
        r matches Some(s) ==> {
            &&& s.location@ == report.name@
            &&& s.condition@ == report.weather@[0].main@
            &&& s.temperature@ == report.temp@
        },
{
    if report.weather.len() == 0 {
        return None;
    }
    Some(
        WeatherSample {
            location: report.name.clone(),
            condition: report.weather[0].main.clone(),
            temperature: report.temp.clone(),
        },
    )
}

/// Formats the log line for `sample` stamped with `timestamp`.
pub fn format_line(timestamp: &str, sample: &WeatherSample) -> (r: String)
    ensures
        r@ == sample.line_at(timestamp@),
        r@.len() > 0 && r@.last() == '\n',
        has_no_newline(timestamp@) && has_no_newline(sample.location@) && has_no_newline(
            sample.condition@,
        ) && has_no_newline(sample.temperature@) ==> has_no_newline(r@.drop_last()),
{
    let mut line = timestamp.to_owned();
    line.append(" ");
    line.append(sample.location.as_str());
    line.append(" ");
    line.append(sample.condition.as_str());
    line.append(" ");
    line.append(sample.temperature.as_str());
    line.append("\n");
    proof {
        reveal_strlit(" ");
        reveal_strlit("\n");
        assert(line@ =~= sample.line_at(timestamp@));
        let body = timestamp@ + seq![' '] + sample.location@ + seq![' '] + sample.condition@
            + seq![' '] + sample.temperature@;
        assert(line@.drop_last() =~= body);
    }
    line
}

/// Relies on chrono's `Local::now` for the current time in the machine's
/// time zone, and `DateTime::to_rfc3339` for its text form with the offset:
/// a date, `T`, a time and a zero-padded offset, never empty and without
/// spaces or newlines.
#[verifier::external_body]
pub(crate) fn local_timestamp() -> (r: String)
    ensures
        is_field_text(r@),
{
    chrono::Local::now().to_rfc3339()
}

/// Formats the log line for `sample`, stamped with the local time now.
pub fn log_line(sample: &WeatherSample) -> (r: String)
    ensures
        exists|timestamp: Seq<char>|
            is_field_text(timestamp) && r@ == #[trigger] sample.line_at(timestamp),
        r@.len() > 0 && r@.last() == '\n',
{
    let timestamp = local_timestamp();
    format_line(timestamp.as_str(), sample)
}

} // verus!
