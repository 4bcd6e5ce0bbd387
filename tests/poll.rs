use tokio_futures_polling::{
    diagnostic_after_store, format_line, request_url, log_line, sample_from_report, step_after_fetch,
    step_after_fetch_at, Condition, Diagnostic, FetchOutcome, PollStep, StoreOutcome,
    WeatherReport, WeatherSample,
};

fn condition(main: &str) -> Condition {
    Condition {
        id: 800,
        main: main.to_string(),
        description: format!("{} sky", main),
        icon: "01d".to_string(),
    }
}

fn report(labels: &[&str]) -> WeatherReport {
    WeatherReport {
        name: "Tokyo".to_string(),
        weather: labels.iter().map(|l| condition(l)).collect(),
        temp: "21.5".to_string(),
    }
}

#[test]
fn successful_poll_line() {
    let step = step_after_fetch_at(FetchOutcome::Received(report(&["Clear"])), "2024-05-01T12:00:00+09:00");
    match step {
        PollStep::Append(line) => {
            assert_eq!(line, "2024-05-01T12:00:00+09:00 Tokyo Clear 21.5\n");
            assert!(line.contains("Tokyo") && line.contains("Clear") && line.contains("21.5"));
            assert!(line.ends_with('\n'));
        }
        PollStep::Drop(_) => panic!("expected a line"),
    }
}

#[test]
fn successful_poll_line_now() {
    match step_after_fetch(FetchOutcome::Received(report(&["Clear"]))) {
        PollStep::Append(line) => {
            let stamp = line.strip_suffix(" Tokyo Clear 21.5\n").unwrap();
            assert!(!stamp.is_empty() && !stamp.contains(' ') && !stamp.contains('\n'));
            assert_eq!(line.matches('\n').count(), 1);
        }
        PollStep::Drop(_) => panic!("expected a line"),
    }
}

#[test]
fn only_first_condition_logged() {
    let rep = report(&["Rain", "Mist", "Clear"]);
    let sample = sample_from_report(&rep).unwrap();
    assert_eq!(sample.condition, "Rain");
    match step_after_fetch_at(FetchOutcome::Received(rep), "T") {
        PollStep::Append(line) => assert_eq!(line, "T Tokyo Rain 21.5\n"),
        PollStep::Drop(_) => panic!("expected a line"),
    }
}

#[test]
fn report_without_condition_is_dropped() {
    assert!(sample_from_report(&report(&[])).is_none());
    let step = step_after_fetch_at(FetchOutcome::Received(report(&[])), "T");
    match step {
        PollStep::Drop(d) => {
            assert!(matches!(d, Diagnostic::NoCondition));
            assert_eq!(d.message(), "response lists no weather condition");
        }
        PollStep::Append(_) => panic!("nothing may be logged"),
    }
}

#[test]
fn failed_request_appends_nothing() {
    let step = step_after_fetch(FetchOutcome::Failed("connection refused".to_string()));
    match step {
        PollStep::Drop(d) => assert_eq!(d.message(), "request error: connection refused"),
        PollStep::Append(_) => panic!("nothing may be logged"),
    }
}

#[test]
fn open_failure_is_reported() {
    let d = diagnostic_after_store(StoreOutcome::OpenFailed).unwrap();
    assert!(matches!(d, Diagnostic::OpenFailed));
    assert_eq!(d.message(), "Failed to create OpenOptions.");
}

#[test]
fn write_failure_is_reported() {
    let d = diagnostic_after_store(StoreOutcome::WriteFailed("disk full".to_string())).unwrap();
    assert_eq!(d.message(), "Failed to write to Log: disk full");
}

#[test]
fn append_success_reports_nothing() {
    assert!(diagnostic_after_store(StoreOutcome::Appended).is_none());
}

#[test]
fn format_line_exact() {
    let s = WeatherSample {
        location: "Osaka".to_string(),
        condition: "Clouds".to_string(),
        temperature: "-3".to_string(),
    };
    assert_eq!(format_line("", &s), " Osaka Clouds -3\n");
    assert_eq!(format_line("ts", &s), "ts Osaka Clouds -3\n");
}

#[test]
fn log_line_starts_with_local_timestamp() {
    let s = WeatherSample {
        location: "Tokyo".to_string(),
        condition: "Clear".to_string(),
        temperature: "21.5".to_string(),
    };
    let line = log_line(&s);
    let stamp = line.strip_suffix(" Tokyo Clear 21.5\n").unwrap();
    assert!(stamp.len() >= 25, "{:?}", stamp);
    assert_eq!(&stamp[4..5], "-");
    assert_eq!(&stamp[10..11], "T");
    assert!(!stamp.contains(' '));
}

#[test]
fn request_url_carries_key() {
    assert_eq!(
        request_url("abc123"),
        "https://api.openweathermap.org/data/2.5/weather?id=1850147&units=metric&lang=ja&appid=abc123"
    );
}

#[test]
fn two_lines_each_end_with_one_newline() {
    let a = step_after_fetch(FetchOutcome::Received(report(&["Clear"])));
    let b = step_after_fetch(FetchOutcome::Received(report(&["Rain", "Snow"])));
    let mut log = String::new();
    for step in [a, b] {
        match step {
            PollStep::Append(line) => log.push_str(&line),
            PollStep::Drop(_) => panic!("expected a line"),
        }
    }
    let lines: Vec<&str> = log.split_terminator('\n').collect();
    assert_eq!(lines.len(), 2);
    assert!(log.ends_with('\n'));
    assert!(lines[0].ends_with(" Tokyo Clear 21.5"));
    assert!(lines[1].ends_with(" Tokyo Rain 21.5"));
}
