use relative_uda::derive::Warning;
use relative_uda::filter::{process_task_line, Decoded, Rejection, Written};
use relative_uda::offset::Failure;
use relative_uda::record::{Attribute, AttributeName, Status, TaskRecord};
use tasklib::chrono::{DateTime, Utc};
use tasklib::prelude::UdaValue;
use tasklib::Task;

fn decode_line(line: &str) -> (Decoded, Option<Task>) {
    match line.parse::<Task>() {
        Err(error) => (Decoded::Malformed { detail: error.to_string() }, None),
        Ok(task) => {
            let record = TaskRecord::new(
                task.uuid().to_string(),
                match task.status() {
                    tasklib::Status::Pending => Status::Pending,
                    tasklib::Status::Completed => Status::Completed,
                    tasklib::Status::Deleted => Status::Deleted,
                    tasklib::Status::Recurring => Status::Recurring,
                },
                task.recur().map(|rule| rule.to_string()),
                task.due().map(|date| date.timestamp()),
                task.until().map(|date| date.timestamp()),
                task.wait().map(|date| date.timestamp()),
                uda(&task, "untilrel"),
                uda(&task, "waitrel"),
            )
            .unwrap();
            (Decoded::Record(record), Some(task))
        }
    }
}

fn uda(task: &Task, name: &str) -> Attribute {
    match task.udas().get(name) {
        None => Attribute::Absent,
        Some(UdaValue::String(text)) => Attribute::Text(text.clone()),
        Some(other) => Attribute::Other(other.to_string()),
    }
}

/// Runs one line through the filter and gives what goes out, with the
/// warnings of the derivation or the rejection.
fn filter_one(line: &str) -> (String, Vec<Warning>, Option<Rejection>) {
    let (decoded, task) = decode_line(line);
    match process_task_line(line.to_string(), decoded) {
        Written::Rewritten(derivation) => {
            let mut task = task.unwrap();
            *task.until_mut() =
                derivation.record.until().map(|t| DateTime::<Utc>::from_timestamp(t, 0).unwrap());
            *task.wait_mut() =
                derivation.record.wait().map(|t| DateTime::<Utc>::from_timestamp(t, 0).unwrap());
            (task.to_json_string(), derivation.warnings, None)
        }
        Written::Unchanged { line, rejection } => (line, vec![], Some(rejection)),
    }
}

fn task_line(extra: &str) -> String {
    format!(
        "{{\"description\":\"Pay rent\",\"entry\":\"20240101T120000Z\",\
         \"modified\":\"20240101T120000Z\",\"status\":\"pending\",\
         \"uuid\":\"d67fce70-c0b6-43c5-affc-a21e64567d40\"{extra}}}"
    )
}

fn reparsed(line: &str) -> Task {
    line.parse::<Task>().unwrap()
}

fn date(text: &str) -> DateTime<Utc> {
    DateTime::parse_from_rfc3339(text).unwrap().with_timezone(&Utc)
}

#[test]
fn line_with_untilrel_gets_until() {
    let line = task_line(",\"due\":\"20240110T000000Z\",\"untilrel\":\"2 days\"");
    let (out, warnings, rejection) = filter_one(&line);
    assert_eq!(rejection, None);
    assert_eq!(warnings, vec![]);
    assert!(out.contains("\"until\":\"20240112T000000Z\""), "{}", out);
    let task = reparsed(&out);
    assert_eq!(task.until(), Some(&date("2024-01-12T00:00:00Z")));
    assert_eq!(task.wait(), None);
    assert_eq!(task.due(), Some(&date("2024-01-10T00:00:00Z")));
    assert_eq!(task.udas().get("untilrel"), Some(&UdaValue::String("2 days".to_string())));
}

#[test]
fn line_with_waitrel_gets_wait() {
    let line = task_line(",\"due\":\"20240110T000000Z\",\"waitrel\":\"1 day\"");
    let (out, warnings, rejection) = filter_one(&line);
    assert_eq!(rejection, None);
    assert_eq!(warnings, vec![]);
    assert!(out.contains("\"wait\":\"20240109T000000Z\""), "{}", out);
    let task = reparsed(&out);
    assert_eq!(task.wait(), Some(&date("2024-01-09T00:00:00Z")));
    assert_eq!(task.until(), None);
}

#[test]
fn line_without_due_is_unchanged_with_one_warning() {
    let line = task_line(",\"untilrel\":\"2 days\"");
    let (out, warnings, rejection) = filter_one(&line);
    assert_eq!(rejection, None);
    assert_eq!(
        warnings,
        vec![Warning::MissingDue {
            uuid: "d67fce70-c0b6-43c5-affc-a21e64567d40".to_string(),
            attribute: AttributeName::Untilrel,
        }]
    );
    assert_eq!(reparsed(&out), reparsed(&line));
}

#[test]
fn line_of_a_template_is_unchanged() {
    let line = task_line(
        ",\"due\":\"20240110T000000Z\",\"recur\":\"weekly\",\"untilrel\":\"2 days\",\
         \"waitrel\":\"never\"",
    )
    .replace("\"status\":\"pending\"", "\"status\":\"recurring\"");
    let (out, warnings, rejection) = filter_one(&line);
    assert_eq!(rejection, None);
    assert_eq!(warnings, vec![]);
    assert_eq!(reparsed(&out), reparsed(&line));
}

#[test]
fn line_with_numeric_attribute_is_passed_through() {
    let line = task_line(",\"due\":\"20240110T000000Z\",\"untilrel\":2,\"waitrel\":\"1 day\"");
    let (out, warnings, rejection) = filter_one(&line);
    assert_eq!(out, line);
    assert_eq!(warnings, vec![]);
    match rejection {
        Some(Rejection::Resolve { uuid, error }) => {
            assert_eq!(uuid, "d67fce70-c0b6-43c5-affc-a21e64567d40");
            assert_eq!(error.attribute, AttributeName::Untilrel);
            assert_eq!(error.reason, Failure::NotText);
        }
        other => panic!("{:?}", other),
    }
}

#[test]
fn line_with_unparseable_attribute_is_passed_through() {
    let line =
        task_line(",\"due\":\"20240110T000000Z\",\"untilrel\":\"2 days\",\"waitrel\":\"a bit\"");
    let (out, warnings, rejection) = filter_one(&line);
    assert_eq!(out, line);
    assert_eq!(warnings, vec![]);
    match rejection {
        Some(Rejection::Resolve { uuid, error }) => {
            assert_eq!(uuid, "d67fce70-c0b6-43c5-affc-a21e64567d40");
            assert_eq!(error.attribute, AttributeName::Waitrel);
            assert_eq!(error.raw, "a bit");
            assert_eq!(error.reason, Failure::NotADuration);
        }
        other => panic!("{:?}", other),
    }
}

#[test]
fn line_that_is_no_json_is_passed_through() {
    let line = "{\"description\": \"half a task\"";
    let (out, warnings, rejection) = filter_one(line);
    assert_eq!(out, line);
    assert_eq!(warnings, vec![]);
    assert!(matches!(rejection, Some(Rejection::Decode { .. })));
}

#[test]
fn output_fed_back_warns_of_clobber() {
    let line = task_line(
        ",\"due\":\"20240110T000000Z\",\"untilrel\":\"2 days\",\"waitrel\":\"1 day\"",
    );
    let (first, warnings, _) = filter_one(&line);
    assert_eq!(warnings, vec![]);
    let (second, warnings, rejection) = filter_one(&first);
    assert_eq!(rejection, None);
    assert_eq!(warnings.len(), 2);
    assert!(matches!(warnings[0], Warning::Clobber { .. }));
    assert!(matches!(warnings[1], Warning::Clobber { .. }));
    assert_eq!(reparsed(&second), reparsed(&first));
}
