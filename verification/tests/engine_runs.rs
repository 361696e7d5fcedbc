use camino_import::datetime::DateTime;
use camino_import::engine::{import_project_plan, synthesize_descriptions, Store};
use camino_import::error::ImportError;
use camino_import::models::TaskStatus;
use camino_import::records::{ProjectConfig, ProjectInfo, ResourceRecord, TaskRecord};

fn project() -> ProjectInfo {
    ProjectInfo {
        project_name: "EIC".to_string(),
        project_start: DateTime {
            year: 2025,
            month: 1,
            day: 1,
            hour: 0,
            minute: 0,
            second: 0,
        },
        project_finish: DateTime {
            year: 2027,
            month: 6,
            day: 30,
            hour: 0,
            minute: 0,
            second: 0,
        },
        timezone: "Europe/Warsaw".to_string(),
        config: ProjectConfig {
            currency: "EUR".to_string(),
            avg_hours_per_month: 160,
        },
    }
}

fn task_record(
    id: u32,
    name: &str,
    wbs: &str,
    parent: Option<u32>,
    begin_month: Option<u32>,
    end_month: Option<u32>,
) -> TaskRecord {
    TaskRecord {
        id,
        name: name.to_string(),
        wbs: wbs.to_string(),
        parent,
        begin_month,
        end_month,
        planned_work_pm: None,
        planned_team_cost_eur: None,
        planned_other_cost_eur: None,
    }
}

fn resource_record(task: &str, name: &str, kind: &str, cost: i64) -> ResourceRecord {
    ResourceRecord {
        task: task.to_string(),
        name: name.to_string(),
        description: None,
        resource_type_id: kind.to_string(),
        cost,
        cost_currency: "USD".to_string(),
        billing_frequency: "Monthly".to_string(),
        capacity: None,
        capacity_unit: None,
    }
}

/// A seeded store whose default baseline id is set, as an administrator
/// would configure it before the first run.
fn configured_store() -> Store {
    let mut store = Store::seeded();
    store.config[0].config_value = Some("1".to_string());
    store
}

fn assert_no_rows(store: &Store) {
    assert!(store.tasks.is_empty());
    assert!(store.task_baselines.is_empty());
    assert!(store.resources.is_empty());
    assert!(store.resource_baselines.is_empty());
}

#[test]
fn seeded_store_shape() {
    let store = Store::seeded();
    assert_eq!(store.resource_types.len(), 5);
    assert_eq!(store.resource_types[0].name, "Personnel");
    assert_eq!(store.resource_types[4].name, "Other");
    assert_eq!(store.baselines.len(), 1);
    assert_eq!(store.baselines[0].baseline_id, 1);
    assert_eq!(store.baselines[0].name, "Current");
    assert_eq!(store.config.len(), 3);
    assert_eq!(store.config[0].config_key, "baseline_id_default");
    assert_eq!(store.config[0].config_value, None);
    assert_no_rows(&store);
}

#[test]
fn single_task_and_resource_commit() {
    let mut store = configured_store();
    let tasks = vec![task_record(1, "T1", "1", None, Some(1), Some(3))];
    let resources = vec![resource_record("T1", "Alice", "Personnel", 100)];
    let r = import_project_plan(&mut store, &project(), &tasks, &resources);
    assert_eq!(r, Ok(()));

    assert_eq!(store.tasks.len(), 1);
    let t = &store.tasks[0];
    assert_eq!(t.name, "T1");
    assert_eq!(t.status, TaskStatus::ToDo);
    assert_eq!(t.description, None);

    assert_eq!(store.task_baselines.len(), 1);
    let tb = &store.task_baselines[0];
    assert_eq!(tb.task_id, t.task_id);
    assert_eq!(tb.baseline_id, 1);
    assert_eq!(tb.wbs, "1");
    assert_eq!(tb.parent, Some(t.task_id));
    assert_eq!((tb.start.year, tb.start.month, tb.start.day), (2025, 1, 1));
    assert_eq!(
        (tb.finish.year, tb.finish.month, tb.finish.day),
        (2025, 4, 1)
    );
    assert_eq!(tb.start_timezone, "Europe/Warsaw");
    assert_eq!(tb.finish_timezone, "Europe/Warsaw");

    assert_eq!(store.resources.len(), 1);
    let res = &store.resources[0];
    assert_eq!(res.name, "Alice");
    assert_eq!(res.description, Some("Alice T1".to_string()));
    assert_eq!(res.resource_type_id, 1);
    assert_eq!(res.cost, Some(100));
    assert_eq!(res.cost_currency, "USD");
    assert!(res.is_active);

    assert_eq!(store.resource_baselines.len(), 1);
    let rb = &store.resource_baselines[0];
    assert_eq!(rb.resource_id, res.resource_id);
    assert_eq!(rb.task_id, t.task_id);
    assert_eq!(rb.baseline_id, 1);
    assert_eq!(rb.capacity_allocated, None);
}

#[test]
fn parent_bounds_inferred_from_children() {
    let mut store = configured_store();
    let tasks = vec![
        task_record(1, "parent", "1", None, None, None),
        task_record(2, "a", "1.1", Some(1), Some(3), Some(10)),
        task_record(3, "b", "1.2", Some(1), Some(5), Some(20)),
        task_record(4, "c", "1.3", Some(1), Some(9), None),
    ];
    let r = import_project_plan(&mut store, &project(), &tasks, &vec![]);
    assert_eq!(r, Ok(()));
    let tb = &store.task_baselines[0];
    // minimum child begin month 3: offset 2 months from 2025-01-01
    assert_eq!((tb.start.year, tb.start.month, tb.start.day), (2025, 3, 1));
    // maximum child end month 20: offset 20 months
    assert_eq!(
        (tb.finish.year, tb.finish.month, tb.finish.day),
        (2026, 9, 1)
    );
}

#[test]
fn childless_task_falls_back_to_defaults() {
    let mut store = configured_store();
    let tasks = vec![task_record(1, "alone", "1", None, None, None)];
    let r = import_project_plan(&mut store, &project(), &tasks, &vec![]);
    assert_eq!(r, Ok(()));
    let tb = &store.task_baselines[0];
    // begin month 29: project start advanced by 28 months
    assert_eq!((tb.start.year, tb.start.month, tb.start.day), (2027, 5, 1));
    // end month 0: the project start itself
    assert_eq!(
        (tb.finish.year, tb.finish.month, tb.finish.day),
        (2025, 1, 1)
    );
}

#[test]
fn unknown_resource_type_rolls_back_everything() {
    let mut store = configured_store();
    let tasks = vec![task_record(1, "T1", "1", None, Some(1), Some(3))];
    let resources = vec![resource_record("T1", "Alice", "Plutonium", 100)];
    let r = import_project_plan(&mut store, &project(), &tasks, &resources);
    assert_eq!(r, Err(ImportError::ReferenceNotFound));
    assert_no_rows(&store);
    assert_eq!(store.next_id, 9);
}

#[test]
fn unknown_owning_task_rolls_back_everything() {
    let mut store = configured_store();
    let tasks = vec![task_record(1, "T1", "1", None, Some(1), Some(3))];
    let resources = vec![resource_record("T9", "Alice", "Personnel", 100)];
    let r = import_project_plan(&mut store, &project(), &tasks, &resources);
    assert_eq!(r, Err(ImportError::ReferenceNotFound));
    assert_no_rows(&store);
}

#[test]
fn config_failure_aborts_before_any_write() {
    let mut store = Store::seeded();
    // the seeded default baseline id has no value yet
    let tasks = vec![task_record(1, "T1", "1", None, Some(1), Some(3))];
    let r = import_project_plan(&mut store, &project(), &tasks, &vec![]);
    assert_eq!(r, Err(ImportError::ConfigValueMissing));
    assert_no_rows(&store);
}

#[test]
fn missing_config_key_aborts_before_any_write() {
    let mut store = configured_store();
    store.config.clear();
    let tasks = vec![task_record(1, "T1", "1", None, Some(1), Some(3))];
    let r = import_project_plan(&mut store, &project(), &tasks, &vec![]);
    assert_eq!(r, Err(ImportError::ConfigKeyNotFound));
    assert_no_rows(&store);
}

#[test]
fn unparseable_config_value_aborts_before_any_write() {
    let mut store = configured_store();
    store.config[0].config_value = Some("current".to_string());
    let tasks = vec![task_record(1, "T1", "1", None, Some(1), Some(3))];
    let r = import_project_plan(&mut store, &project(), &tasks, &vec![]);
    assert_eq!(r, Err(ImportError::ConfigValueInvalid));
    assert_no_rows(&store);
}

#[test]
fn two_tasks_two_resources_commit_together() {
    let mut store = configured_store();
    let tasks = vec![
        task_record(1, "Build", "1", None, Some(1), Some(6)),
        task_record(2, "Test", "2", None, Some(7), Some(9)),
    ];
    let mut resources = vec![
        resource_record("Build", "Crane", "Equipment", 50000),
        resource_record("Test", "Lab", "Service", 12550),
    ];
    resources[1].capacity = Some(800);
    let r = import_project_plan(&mut store, &project(), &tasks, &resources);
    assert_eq!(r, Ok(()));
    assert_eq!(store.tasks.len(), 2);
    assert_eq!(store.task_baselines.len(), 2);
    assert_eq!(store.resources.len(), 2);
    assert_eq!(store.resource_baselines.len(), 2);
    assert_eq!(store.resources[0].resource_type_id, 3);
    assert_eq!(store.resources[1].resource_type_id, 4);
    assert_eq!(store.resources[1].capacity, Some(800));
    assert_eq!(store.resource_baselines[1].capacity_allocated, Some(800));
    assert_eq!(store.resource_baselines[0].task_id, store.tasks[0].task_id);
    assert_eq!(store.resource_baselines[1].task_id, store.tasks[1].task_id);
}

#[test]
fn description_synthesis_overwrites_existing_text() {
    let mut records = vec![resource_record("T1", "Alice", "Personnel", 100)];
    records[0].description = Some("hand-written".to_string());
    let synthed = synthesize_descriptions(&records);
    assert_eq!(synthed.len(), 1);
    assert_eq!(synthed[0].description, Some("Alice T1".to_string()));
    assert_eq!(synthed[0].name, "Alice");
    assert_eq!(synthed[0].task, "T1");
}

#[test]
fn colliding_descriptions_resolve_to_first_match() {
    // Two records whose synthesized descriptions coincide across different
    // tasks: "Team A" + "X" and "Team" + "A X" both become "Team A X".
    let mut store = configured_store();
    let tasks = vec![
        task_record(1, "X", "1", None, Some(1), Some(2)),
        task_record(2, "A X", "2", None, Some(1), Some(2)),
    ];
    let resources = vec![
        resource_record("X", "Team A", "Personnel", 10),
        resource_record("A X", "Team", "Personnel", 20),
    ];
    let r = import_project_plan(&mut store, &project(), &tasks, &resources);
    assert_eq!(r, Ok(()));
    assert_eq!(store.resources.len(), 2);
    assert_eq!(store.resources[0].description, store.resources[1].description);
    // Both rows resolve, deterministically, to the first inserted resource.
    assert_eq!(store.resource_baselines.len(), 2);
    let first_resource = store.resources[0].resource_id;
    assert_eq!(store.resource_baselines[0].resource_id, first_resource);
    assert_eq!(store.resource_baselines[1].resource_id, first_resource);
    // The task links still go to the right tasks.
    assert_eq!(store.resource_baselines[0].task_id, store.tasks[0].task_id);
    assert_eq!(store.resource_baselines[1].task_id, store.tasks[1].task_id);
}

#[test]
fn ids_are_fresh_and_sequential_across_runs() {
    let mut store = configured_store();
    let tasks = vec![task_record(1, "T1", "1", None, Some(1), Some(2))];
    assert_eq!(
        import_project_plan(&mut store, &project(), &tasks, &vec![]),
        Ok(())
    );
    let first_task = store.tasks[0].task_id;
    let tasks2 = vec![task_record(2, "T2", "2", None, Some(1), Some(2))];
    assert_eq!(
        import_project_plan(&mut store, &project(), &tasks2, &vec![]),
        Ok(())
    );
    assert_eq!(store.tasks.len(), 2);
    assert_ne!(store.tasks[1].task_id, first_task);
    assert_eq!(store.task_baselines[1].task_id, store.tasks[1].task_id);
}

#[test]
fn duplicate_task_summaries_link_to_first_match() {
    let mut store = configured_store();
    let tasks = vec![
        task_record(1, "Twin", "1", None, Some(1), Some(2)),
        task_record(2, "Twin", "2", None, Some(1), Some(2)),
    ];
    let r = import_project_plan(&mut store, &project(), &tasks, &vec![]);
    assert_eq!(r, Ok(()));
    // Both baseline rows resolve "Twin" to the first inserted task.
    assert_eq!(store.task_baselines[0].task_id, store.tasks[0].task_id);
    assert_eq!(store.task_baselines[1].task_id, store.tasks[0].task_id);
}
