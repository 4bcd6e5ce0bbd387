//! A periodic weather poller: the interval chosen at startup, the tick
//! schedule, the weather sample taken from a response, the log line written
//! for it, and the decisions taken at each step of one poll.

mod interval;
mod poll;
mod sample;
mod schedule;

pub use interval::{choose_interval, parse_seconds, Config, IntervalChoice, DEFAULT_INTERVAL_SECS};
pub use schedule::{lemma_tick_cadence, tick_offset, Ticker};
pub use sample::{format_line, has_no_newline, is_field_text, line_text, log_line, sample_from_report, Condition, WeatherReport, WeatherSample};
pub use poll::{diagnostic_after_store, diagnostic_text, request_url, request_url_text, step_after_fetch, step_after_fetch_at, Diagnostic, FetchOutcome, PollStep, StoreOutcome};
