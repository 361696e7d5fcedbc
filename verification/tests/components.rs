use camino_import::config::resolve_default_baseline_id;
use camino_import::datetime::{add_months, DateTime};
use camino_import::error::ImportError;
use camino_import::hierarchy::{infer_begin_month, infer_end_month};
use camino_import::models::{
    Baseline, Config, Frequency, Resource, ResourceAllocation, ResourceType, Task, TaskBaseline,
    TaskStatus,
};
use camino_import::parse::parse_i64;
use camino_import::records::TaskRecord;
use camino_import::resolve::{resolve_named_id, NamedId};

fn config_row(key: &str, value: Option<&str>) -> Config {
    Config {
        config_id: 1,
        config_key: key.to_string(),
        config_value: value.map(|v| v.to_string()),
        description: None,
    }
}

fn task_record(
    id: u32,
    name: &str,
    parent: Option<u32>,
    begin_month: Option<u32>,
    end_month: Option<u32>,
) -> TaskRecord {
    TaskRecord {
        id,
        name: name.to_string(),
        wbs: "1".to_string(),
        parent,
        begin_month,
        end_month,
        planned_work_pm: None,
        planned_team_cost_eur: None,
        planned_other_cost_eur: None,
    }
}

#[test]
fn parse_i64_plain() {
    assert_eq!(parse_i64("12"), Some(12));
    assert_eq!(parse_i64("0"), Some(0));
    assert_eq!(parse_i64("007"), Some(7));
}

#[test]
fn parse_i64_signed() {
    assert_eq!(parse_i64("-7"), Some(-7));
    assert_eq!(parse_i64("+5"), Some(5));
}

#[test]
fn parse_i64_rejects_bad_input() {
    assert_eq!(parse_i64(""), None);
    assert_eq!(parse_i64("-"), None);
    assert_eq!(parse_i64("+"), None);
    assert_eq!(parse_i64("12a"), None);
    assert_eq!(parse_i64("a12"), None);
    assert_eq!(parse_i64(" 1"), None);
}

#[test]
fn parse_i64_range_limits() {
    assert_eq!(parse_i64("9223372036854775807"), Some(i64::MAX));
    assert_eq!(parse_i64("9223372036854775808"), None);
    assert_eq!(parse_i64("-9223372036854775808"), Some(i64::MIN));
    assert_eq!(parse_i64("-9223372036854775809"), None);
}

#[test]
fn config_lookup_resolves_id() {
    let rows = vec![config_row("baseline_id_default", Some("1"))];
    assert_eq!(resolve_default_baseline_id(&rows), Ok(1));
}

#[test]
fn config_lookup_is_idempotent() {
    let rows = vec![
        config_row("timezone", Some("Europe/Warsaw")),
        config_row("baseline_id_default", Some("42")),
    ];
    let first = resolve_default_baseline_id(&rows);
    let second = resolve_default_baseline_id(&rows);
    assert_eq!(first, Ok(42));
    assert_eq!(first, second);
}

#[test]
fn config_key_not_found() {
    let rows = vec![config_row("timezone", Some("Europe/Warsaw"))];
    assert_eq!(
        resolve_default_baseline_id(&rows),
        Err(ImportError::ConfigKeyNotFound)
    );
}

#[test]
fn config_value_missing() {
    let rows = vec![config_row("baseline_id_default", None)];
    assert_eq!(
        resolve_default_baseline_id(&rows),
        Err(ImportError::ConfigValueMissing)
    );
}

#[test]
fn config_value_invalid() {
    let rows = vec![config_row("baseline_id_default", Some("current"))];
    assert_eq!(
        resolve_default_baseline_id(&rows),
        Err(ImportError::ConfigValueInvalid)
    );
}

#[test]
fn config_first_row_wins() {
    let rows = vec![
        config_row("baseline_id_default", Some("1")),
        config_row("baseline_id_default", Some("2")),
    ];
    assert_eq!(resolve_default_baseline_id(&rows), Ok(1));
}

#[test]
fn hierarchy_min_begin_among_children() {
    let tasks = vec![
        task_record(1, "parent", None, None, None),
        task_record(2, "a", Some(1), Some(3), None),
        task_record(3, "b", Some(1), Some(5), None),
        task_record(4, "c", Some(1), Some(9), None),
    ];
    assert_eq!(infer_begin_month(&tasks, 1), 3);
}

#[test]
fn hierarchy_max_end_among_children() {
    let tasks = vec![
        task_record(1, "parent", None, None, None),
        task_record(2, "a", Some(1), None, Some(10)),
        task_record(3, "b", Some(1), None, Some(20)),
    ];
    assert_eq!(infer_end_month(&tasks, 1), 20);
}

#[test]
fn hierarchy_childless_defaults() {
    let tasks = vec![task_record(1, "alone", None, None, None)];
    assert_eq!(infer_begin_month(&tasks, 1), 29);
    assert_eq!(infer_end_month(&tasks, 1), 0);
}

#[test]
fn hierarchy_child_without_month_counts_as_default() {
    let tasks = vec![
        task_record(1, "parent", None, None, None),
        task_record(2, "a", Some(1), None, None),
        task_record(3, "b", Some(1), Some(31), Some(4)),
    ];
    // A child with no begin month counts as 29, below the explicit 31.
    assert_eq!(infer_begin_month(&tasks, 1), 29);
    assert_eq!(infer_end_month(&tasks, 1), 4);
}

fn date(year: i32, month: u8, day: u8) -> DateTime {
    DateTime {
        year,
        month,
        day,
        hour: 0,
        minute: 0,
        second: 0,
    }
}

#[test]
fn add_months_moves_the_month() {
    assert_eq!(add_months(&date(2025, 1, 1), 3), date(2025, 4, 1));
    assert_eq!(add_months(&date(2025, 1, 1), 0), date(2025, 1, 1));
    assert_eq!(add_months(&date(2025, 11, 15), 2), date(2026, 1, 15));
}

#[test]
fn add_months_clamps_the_day() {
    assert_eq!(add_months(&date(2025, 1, 31), 1), date(2025, 2, 28));
    assert_eq!(add_months(&date(2024, 1, 31), 1), date(2024, 2, 29));
    assert_eq!(add_months(&date(2025, 3, 31), 1), date(2025, 4, 30));
}

#[test]
fn resolver_returns_first_match() {
    let entries = vec![
        NamedId {
            name: "x".to_string(),
            id: 10,
        },
        NamedId {
            name: "y".to_string(),
            id: 11,
        },
        NamedId {
            name: "x".to_string(),
            id: 12,
        },
    ];
    assert_eq!(resolve_named_id(&entries, &"x".to_string()), Ok(10));
    assert_eq!(resolve_named_id(&entries, &"y".to_string()), Ok(11));
}

#[test]
fn resolver_misses_with_reference_not_found() {
    let entries = vec![NamedId {
        name: "x".to_string(),
        id: 10,
    }];
    assert_eq!(
        resolve_named_id(&entries, &"z".to_string()),
        Err(ImportError::ReferenceNotFound)
    );
}

#[test]
fn field_name_arrays() {
    assert_eq!(
        Baseline::fields(),
        ["baseline_id", "name", "description", "comment", "is_active"]
    );
    assert_eq!(
        ResourceType::fields(),
        ["resource_type_id", "name", "description", "comment"]
    );
    assert_eq!(
        Task::fields(),
        ["task_id", "name", "description", "comment", "status"]
    );
    assert_eq!(Resource::fields().len(), 13);
    assert_eq!(Resource::fields()[0], "resource_id");
    assert_eq!(Resource::fields()[12], "is_active");
    assert_eq!(TaskBaseline::fields().len(), 9);
    assert_eq!(TaskBaseline::fields()[0], "task_baseline_id");
    assert_eq!(ResourceAllocation::fields().len(), 9);
    assert_eq!(ResourceAllocation::fields()[0], "resource_baseline_id");
}

#[test]
fn status_and_frequency_labels() {
    assert_eq!(TaskStatus::ToDo.label(), "ToDo");
    assert_eq!(TaskStatus::InProgress.label(), "InProgress");
    assert_eq!(TaskStatus::Done.label(), "Done");
    assert_eq!(TaskStatus::Cancelled.label(), "Cancelled");
    assert_eq!(Frequency::Yearly.label(), "Yearly");
    assert_eq!(Frequency::Monthly.label(), "Monthly");
    assert_eq!(Frequency::Secondly.label(), "Secondly");
}

#[test]
fn config_value_accessors() {
    let row = config_row("baseline_id_default", Some("17"));
    assert_eq!(row.value_as_string(), Some("17".to_string()));
    assert_eq!(row.value_as_i64(), Some(17));
    let empty = config_row("baseline_id_default", None);
    assert_eq!(empty.value_as_string(), None);
    assert_eq!(empty.value_as_i64(), None);
    let bad = config_row("baseline_id_default", Some("x"));
    assert_eq!(bad.value_as_i64(), None);
}
