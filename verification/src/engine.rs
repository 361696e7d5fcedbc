//! The transactional import engine.
//!
//! One import run loads one batch of task and resource records into the
//! store, all or nothing. The engine first resolves the default baseline id
//! from the config table, then plans every row of the four target tables in
//! memory — tasks, task baselines, resources, resource baselines, in that
//! order, resolving natural-key references as it goes — and only when every
//! step has succeeded appends them to the store in one step. Any failure
//! leaves the store exactly as it was.
//!
//! The store here is the engine's model of the relational tables: generated
//! ids come from a single counter. An embedding that talks to a real
//! database performs the same steps with the plan functions below, handing
//! them the ids its store generated.

use vstd::prelude::*;
use vstd::string::StringExecFns;
use crate::config::{resolve_default_baseline_id, spec_default_baseline_id};
use crate::datetime::{add_months, spec_add_months, DateTime, MAX_MONTH_OFFSET, MAX_START_YEAR};
use crate::error::ImportError;
use crate::hierarchy::{
    begin_offset_months, end_offset_months, infer_begin_month, infer_end_month,
    lemma_min_child_begin_bounds, lemma_max_child_end_bounds, months_wf,
};
use crate::models::{
    clone_opt_string, Baseline, BaselineView, Config, ConfigView, Resource, ResourceBaseline,
    ResourceBaselineView, ResourceType, ResourceTypeView, ResourceView, Task, TaskBaseline,
    TaskBaselineView, TaskStatus, TaskView,
};
use crate::records::{ProjectInfo, ProjectInfoView, ResourceRecord, ResourceRecordView, TaskRecord, TaskRecordView};
use crate::resolve::{lemma_resolve_ok_iff, resolve_named_id, spec_resolve, NamedId, NamedIdView};

verus! {

/// The largest batch size the engine accepts.
pub const MAX_BATCH: usize = 1_000_000;

/// The store: one in-memory model of the relational tables the import
/// writes or reads. `next_id` is the id generator; every row created by the
/// engine takes its id from it.
pub struct Store {
    pub config: Vec<Config>,
    pub baselines: Vec<Baseline>,
    pub resource_types: Vec<ResourceType>,
    pub tasks: Vec<Task>,
    pub task_baselines: Vec<TaskBaseline>,
    pub resources: Vec<Resource>,
    pub resource_baselines: Vec<ResourceBaseline>,
    pub next_id: i64,
}

/// Mathematical view of a [`Store`].
#[verifier::ext_equal]
pub struct StoreView {
    pub config: Seq<ConfigView>,
    pub baselines: Seq<BaselineView>,
    pub resource_types: Seq<ResourceTypeView>,
    pub tasks: Seq<TaskView>,
    pub task_baselines: Seq<TaskBaselineView>,
    pub resources: Seq<ResourceView>,
    pub resource_baselines: Seq<ResourceBaselineView>,
    pub next_id: int,
}

impl View for Store {
    type V = StoreView;

    open spec fn view(&self) -> StoreView {
        StoreView {
            config: self.config.deep_view(),
            baselines: self.baselines.deep_view(),
            resource_types: self.resource_types.deep_view(),
            tasks: self.tasks.deep_view(),
            task_baselines: self.task_baselines.deep_view(),
            resources: self.resources.deep_view(),
            resource_baselines: self.resource_baselines.deep_view(),
            next_id: self.next_id as int,
        }
    }
}

/// The store exactly as storage initialization seeds it: the five resource
/// types under ids 1 through 5, the baseline `Current` under id 1, and
/// three config rows — the default baseline id with no value yet, the
/// current baseline id `1`, and the timezone `Europe/Warsaw`.
pub open spec fn spec_seeded_store() -> StoreView {
    StoreView {
        config: seq![
            ConfigView {
                config_id: 6,
                config_key: "baseline_id_default"@,
                config_value: None,
                description: None,
            },
            ConfigView {
                config_id: 7,
                config_key: "baseline_id_current"@,
                config_value: Some("1"@),
                description: None,
            },
            ConfigView {
                config_id: 8,
                config_key: "timezone"@,
                config_value: Some("Europe/Warsaw"@),
                description: None,
            },
        ],
        baselines: seq![
            BaselineView {
                baseline_id: 1,
                name: "Current"@,
                description: None,
                comment: None,
                is_active: true,
            },
        ],
        resource_types: seq![
            ResourceTypeView { resource_type_id: 1, name: "Personnel"@, description: None, comment: None },
            ResourceTypeView { resource_type_id: 2, name: "Material"@, description: None, comment: None },
            ResourceTypeView { resource_type_id: 3, name: "Equipment"@, description: None, comment: None },
            ResourceTypeView { resource_type_id: 4, name: "Service"@, description: None, comment: None },
            ResourceTypeView { resource_type_id: 5, name: "Other"@, description: None, comment: None },
        ],
        tasks: Seq::empty(),
        task_baselines: Seq::empty(),
        resources: Seq::empty(),
        resource_baselines: Seq::empty(),
        next_id: 9,
    }
}

impl Store {
    /// A freshly initialized store, with the seed rows and nothing else.
    pub fn seeded() -> (s: Store)
        ensures
            s@ == spec_seeded_store(),
    {
        let mut config: Vec<Config> = Vec::new();
        config.push(
            Config {
                config_id: 6,
                config_key: String::from_str("baseline_id_default"),
                config_value: None,
                description: None,
            },
        );
        config.push(
            Config {
                config_id: 7,
                config_key: String::from_str("baseline_id_current"),
                config_value: Some(String::from_str("1")),
                description: None,
            },
        );
        config.push(
            Config {
                config_id: 8,
                config_key: String::from_str("timezone"),
                config_value: Some(String::from_str("Europe/Warsaw")),
                description: None,
            },
        );
        let mut baselines: Vec<Baseline> = Vec::new();
        baselines.push(
            Baseline {
                baseline_id: 1,
                name: String::from_str("Current"),
                description: None,
                comment: None,
                is_active: true,
            },
        );
        let mut resource_types: Vec<ResourceType> = Vec::new();
        resource_types.push(
            ResourceType {
                resource_type_id: 1,
                name: String::from_str("Personnel"),
                description: None,
                comment: None,
            },
        );
        resource_types.push(
            ResourceType {
                resource_type_id: 2,
                name: String::from_str("Material"),
                description: None,
                comment: None,
            },
        );
        resource_types.push(
            ResourceType {
                resource_type_id: 3,
                name: String::from_str("Equipment"),
                description: None,
                comment: None,
            },
        );
        resource_types.push(
            ResourceType {
                resource_type_id: 4,
                name: String::from_str("Service"),
                description: None,
                comment: None,
            },
        );
        resource_types.push(
            ResourceType {
                resource_type_id: 5,
                name: String::from_str("Other"),
                description: None,
                comment: None,
            },
        );
        let s = Store {
            config,
            baselines,
            resource_types,
            tasks: Vec::new(),
            task_baselines: Vec::new(),
            resources: Vec::new(),
            resource_baselines: Vec::new(),
            next_id: 9,
        };
        proof {
            assert(s.config.deep_view() =~= spec_seeded_store().config);
            assert(s.baselines.deep_view() =~= spec_seeded_store().baselines);
            assert(s.resource_types.deep_view() =~= spec_seeded_store().resource_types);
            assert(s.tasks.deep_view() =~= spec_seeded_store().tasks);
            assert(s.task_baselines.deep_view() =~= spec_seeded_store().task_baselines);
            assert(s.resources.deep_view() =~= spec_seeded_store().resources);
            assert(s.resource_baselines.deep_view() =~= spec_seeded_store().resource_baselines);
            assert(s@ =~= spec_seeded_store());
        }
        s
    }
}

/// The task row planned for one record: only the summary is carried
/// forward; the status starts as to-do, everything else is left empty.
pub open spec fn spec_task_row(rec: TaskRecordView, id: int) -> TaskView {
    TaskView {
        task_id: id,
        name: rec.name,
        description: None,
        comment: None,
        status: TaskStatus::ToDo,
    }
}

/// The task rows planned for a batch, ids assigned in input order.
pub open spec fn spec_planned_tasks(tasks: Seq<TaskRecordView>, first_id: int) -> Seq<TaskView> {
    Seq::new(tasks.len(), |i: int| spec_task_row(tasks[i], first_id + i))
}

/// The name-to-id map over the newly inserted task rows.
pub open spec fn spec_task_entries(tasks: Seq<TaskRecordView>, first_id: int) -> Seq<NamedIdView> {
    Seq::new(tasks.len(), |i: int| NamedIdView { name: tasks[i].name, id: first_id + i })
}

/// The task baseline row planned for record `i`. The task id is resolved by
/// matching the record's name against the inserted rows. Note that `parent`
/// carries that same resolved id, so every row references itself; the
/// record's own `parent` field plays no part here, only in month inference.
pub open spec fn spec_task_baseline_row(
    tasks: Seq<TaskRecordView>,
    i: int,
    entries: Seq<NamedIdView>,
    baseline_id: int,
    project: ProjectInfoView,
    row_id: int,
) -> TaskBaselineView {
    let tid = spec_resolve(entries, tasks[i].name)->Ok_0;
    TaskBaselineView {
        task_baseline_id: row_id,
        task_id: tid,
        baseline_id: baseline_id,
        wbs: tasks[i].wbs,
        parent: Some(tid),
        start: spec_add_months(project.project_start, begin_offset_months(tasks, i)),
        start_timezone: project.timezone,
        finish: spec_add_months(project.project_start, end_offset_months(tasks, i)),
        finish_timezone: project.timezone,
    }
}

/// The task baseline rows planned for a batch, ids assigned in input order.
pub open spec fn spec_planned_task_baselines(
    tasks: Seq<TaskRecordView>,
    entries: Seq<NamedIdView>,
    baseline_id: int,
    project: ProjectInfoView,
    first_row_id: int,
) -> Seq<TaskBaselineView> {
    Seq::new(
        tasks.len(),
        |i: int| spec_task_baseline_row(tasks, i, entries, baseline_id, project, first_row_id + i),
    )
}

/// The description synthesized for a resource record: its name and its
/// owning task's name, space separated, disambiguating resources that share
/// a name across tasks.
pub open spec fn spec_synth_description(rec: ResourceRecordView) -> Seq<char> {
    rec.name + " "@ + rec.task
}

/// The batch with every record's description rewritten to the synthesized
/// composite. Unconditional, and done before any resource row is planned.
pub open spec fn spec_synthesized(resources: Seq<ResourceRecordView>) -> Seq<ResourceRecordView> {
    Seq::new(
        resources.len(),
        |i: int|
            ResourceRecordView {
                description: Some(spec_synth_description(resources[i])),
                ..resources[i]
            },
    )
}

/// The name-to-id map over the resource type lookup table.
pub open spec fn spec_type_entries(types: Seq<ResourceTypeView>) -> Seq<NamedIdView> {
    Seq::new(
        types.len(),
        |i: int| NamedIdView { name: types[i].name, id: types[i].resource_type_id },
    )
}

/// The resource row planned for one synthesized record: name, synthesized
/// description, resolved type id, and the cost and capacity fields carried
/// verbatim; everything else is left at its stored default.
pub open spec fn spec_resource_row(rec: ResourceRecordView, type_id: int, id: int) -> ResourceView {
    ResourceView {
        resource_id: id,
        name: rec.name,
        resource_type_id: type_id,
        description: rec.description,
        comment: None,
        cost: Some(rec.cost),
        cost_currency: rec.cost_currency,
        billing_frequency: None,
        billing_interval: None,
        availability: None,
        capacity: rec.capacity,
        capacity_unit: rec.capacity_unit,
        is_active: true,
    }
}

/// The resource rows planned for a batch, ids assigned in input order.
pub open spec fn spec_planned_resources(
    synthed: Seq<ResourceRecordView>,
    type_entries: Seq<NamedIdView>,
    first_id: int,
) -> Seq<ResourceView> {
    Seq::new(
        synthed.len(),
        |i: int|
            spec_resource_row(
                synthed[i],
                spec_resolve(type_entries, synthed[i].resource_type_id)->Ok_0,
                first_id + i,
            ),
    )
}

/// The description-to-id map over the newly inserted resource rows.
pub open spec fn spec_resource_entries(
    synthed: Seq<ResourceRecordView>,
    first_id: int,
) -> Seq<NamedIdView> {
    Seq::new(
        synthed.len(),
        |i: int| NamedIdView { name: synthed[i].description->Some_0, id: first_id + i },
    )
}

/// The resource baseline row planned for one synthesized record: the
/// resource id resolved by the synthesized description, the task id by the
/// owning task's name, the allocated capacity carried verbatim.
pub open spec fn spec_resource_baseline_row(
    rec: ResourceRecordView,
    res_entries: Seq<NamedIdView>,
    task_entries: Seq<NamedIdView>,
    baseline_id: int,
    row_id: int,
) -> ResourceBaselineView {
    ResourceBaselineView {
        resource_baseline_id: row_id,
        resource_id: spec_resolve(res_entries, rec.description->Some_0)->Ok_0,
        baseline_id: baseline_id,
        task_id: spec_resolve(task_entries, rec.task)->Ok_0,
        capacity_allocated: rec.capacity,
    }
}

/// The resource baseline rows planned for a batch, ids in input order.
pub open spec fn spec_planned_resource_baselines(
    synthed: Seq<ResourceRecordView>,
    res_entries: Seq<NamedIdView>,
    task_entries: Seq<NamedIdView>,
    baseline_id: int,
    first_row_id: int,
) -> Seq<ResourceBaselineView> {
    Seq::new(
        synthed.len(),
        |i: int|
            spec_resource_baseline_row(
                synthed[i],
                res_entries,
                task_entries,
                baseline_id,
                first_row_id + i,
            ),
    )
}

/// Plan one task row per record, carrying only the summary forward; the
/// store assigns ids in input order starting at `first_id`.
pub fn plan_task_rows(tasks: &Vec<TaskRecord>, first_id: i64) -> (r: Vec<Task>)
    requires
        0 <= first_id,
        tasks@.len() <= MAX_BATCH as int,
        first_id + tasks@.len() <= i64::MAX as int,
    ensures
        r.deep_view() == spec_planned_tasks(tasks.deep_view(), first_id as int),
{
    let n = tasks.len();
    let mut out: Vec<Task> = Vec::new();
    let mut i: usize = 0;
    while i < n
        invariant
            i <= n,
            n == tasks@.len(),
            n <= MAX_BATCH as int,
            0 <= first_id,
            first_id + n <= i64::MAX as int,
            out@.len() == i,
            forall|j: int|
                0 <= j < i ==> (#[trigger] out@[j])@ == spec_task_row(
                    tasks.deep_view()[j],
                    first_id as int + j,
                ),
        decreases n - i,
    {
        let row = Task {
            task_id: first_id + i as i64,
            name: tasks[i].name.clone(),
            description: None,
            comment: None,
            status: TaskStatus::ToDo,
        };
        let ghost prev = out@;
        proof {
            assert(row@ == spec_task_row(tasks.deep_view()[i as int], first_id as int + i));
        }
        out.push(row);
        proof {
            assert forall|j: int| 0 <= j < i + 1 implies (#[trigger] out@[j])@ == spec_task_row(
                tasks.deep_view()[j],
                first_id as int + j,
            ) by {
                if j < i {
                    assert(out@[j] == prev[j]);
                } else {
                    assert(out@[j] == row);
                }
            }
        }
        i = i + 1;
    }
    proof {
        assert forall|j: int| 0 <= j < n implies out.deep_view()[j] == spec_planned_tasks(
            tasks.deep_view(),
            first_id as int,
        )[j] by {
            assert(out.deep_view()[j] == out@[j]@);
        }
        assert(out.deep_view() =~= spec_planned_tasks(tasks.deep_view(), first_id as int));
    }
    out
}

/// Build the name-to-id map over the rows planned for a batch.
pub fn task_name_entries(tasks: &Vec<TaskRecord>, first_id: i64) -> (r: Vec<NamedId>)
    requires
        0 <= first_id,
        tasks@.len() <= MAX_BATCH as int,
        first_id + tasks@.len() <= i64::MAX as int,
    ensures
        r.deep_view() == spec_task_entries(tasks.deep_view(), first_id as int),
{
    let n = tasks.len();
    let mut out: Vec<NamedId> = Vec::new();
    let mut i: usize = 0;
    while i < n
        invariant
            i <= n,
            n == tasks@.len(),
            n <= MAX_BATCH as int,
            0 <= first_id,
            first_id + n <= i64::MAX as int,
            out@.len() == i,
            forall|j: int|
                0 <= j < i ==> (#[trigger] out@[j])@ == (NamedIdView {
                    name: tasks.deep_view()[j].name,
                    id: first_id as int + j,
                }),
        decreases n - i,
    {
        let row = NamedId { name: tasks[i].name.clone(), id: first_id + i as i64 };
        let ghost prev = out@;
        proof {
            assert(row@ == (NamedIdView {
                name: tasks.deep_view()[i as int].name,
                id: first_id as int + i,
            }));
        }
        out.push(row);
        proof {
            assert forall|j: int| 0 <= j < i + 1 implies (#[trigger] out@[j])@ == (NamedIdView {
                name: tasks.deep_view()[j].name,
                id: first_id as int + j,
            }) by {
                if j < i {
                    assert(out@[j] == prev[j]);
                } else {
                    assert(out@[j] == row);
                }
            }
        }
        i = i + 1;
    }
    proof {
        assert forall|j: int| 0 <= j < n implies out.deep_view()[j] == spec_task_entries(
            tasks.deep_view(),
            first_id as int,
        )[j] by {
            assert(out.deep_view()[j] == out@[j]@);
        }
        assert(out.deep_view() =~= spec_task_entries(tasks.deep_view(), first_id as int));
    }
    out
}

/// Plan one task baseline row per record: the task id resolved by summary,
/// the schedule bounds computed from explicit or inferred months, and the
/// project timezone on both instants. Fails with `ReferenceNotFound` when
/// some record's name resolves to no entry.
pub fn plan_task_baselines(
    tasks: &Vec<TaskRecord>,
    entries: &Vec<NamedId>,
    baseline_id: i64,
    project: &ProjectInfo,
    first_row_id: i64,
) -> (r: Result<Vec<TaskBaseline>, ImportError>)
    requires
        months_wf(tasks.deep_view()),
        project.project_start.wf(),
        0 <= project.project_start.year <= MAX_START_YEAR,
        0 <= first_row_id,
        tasks@.len() <= MAX_BATCH as int,
        first_row_id + tasks@.len() <= i64::MAX as int,
    ensures
        match r {
            Ok(rows) => {
                &&& rows.deep_view() == spec_planned_task_baselines(
                    tasks.deep_view(),
                    entries.deep_view(),
                    baseline_id as int,
                    project@,
                    first_row_id as int,
                )
                &&& forall|i: int|
                    0 <= i < tasks@.len() ==> spec_resolve(
                        entries.deep_view(),
                        #[trigger] tasks.deep_view()[i].name,
                    ) is Ok
            },
            Err(e) => {
                &&& e == ImportError::ReferenceNotFound
                &&& exists|i: int|
                    0 <= i < tasks@.len() && spec_resolve(
                        entries.deep_view(),
                        #[trigger] tasks.deep_view()[i].name,
                    ) is Err
            },
        },
{
    let n = tasks.len();
    let mut out: Vec<TaskBaseline> = Vec::new();
    let mut i: usize = 0;
    while i < n
        invariant
            i <= n,
            n == tasks@.len(),
            n <= MAX_BATCH as int,
            months_wf(tasks.deep_view()),
            project.project_start.wf(),
            0 <= project.project_start.year <= MAX_START_YEAR,
            0 <= first_row_id,
            first_row_id + n <= i64::MAX as int,
            out@.len() == i,
            forall|j: int|
                0 <= j < i ==> (#[trigger] out@[j])@ == spec_task_baseline_row(
                    tasks.deep_view(),
                    j,
                    entries.deep_view(),
                    baseline_id as int,
                    project@,
                    first_row_id as int + j,
                ),
            forall|j: int|
                0 <= j < i ==> spec_resolve(
                    entries.deep_view(),
                    #[trigger] tasks.deep_view()[j].name,
                ) is Ok,
        decreases n - i,
    {
        let tid = match resolve_named_id(entries, &tasks[i].name) {
            Ok(id) => id,
            Err(_) => {
                proof {
                    assert(spec_resolve(
                        entries.deep_view(),
                        tasks.deep_view()[i as int].name,
                    ) is Err);
                }
                return Err(ImportError::ReferenceNotFound);
            },
        };
        let begin_off: u32 = match tasks[i].begin_month {
            Some(b) => {
                proof {
                    assert(crate::hierarchy::month_bounds_ok(tasks.deep_view()[i as int]));
                }
                b - 1
            },
            None => {
                proof {
                    lemma_min_child_begin_bounds(tasks.deep_view(), tasks.deep_view()[i as int].id);
                }
                infer_begin_month(tasks, tasks[i].id) - 1
            },
        };
        let end_off: u32 = match tasks[i].end_month {
            Some(e) => {
                proof {
                    assert(crate::hierarchy::month_bounds_ok(tasks.deep_view()[i as int]));
                }
                e
            },
            None => {
                proof {
                    lemma_max_child_end_bounds(tasks.deep_view(), tasks.deep_view()[i as int].id);
                }
                infer_end_month(tasks, tasks[i].id)
            },
        };
        let start = add_months(&project.project_start, begin_off);
        let finish = add_months(&project.project_start, end_off);
        let row = TaskBaseline {
            task_baseline_id: first_row_id + i as i64,
            task_id: tid,
            baseline_id: baseline_id,
            wbs: tasks[i].wbs.clone(),
            parent: Some(tid),
            start: start,
            start_timezone: project.timezone.clone(),
            finish: finish,
            finish_timezone: project.timezone.clone(),
        };
        let ghost prev = out@;
        proof {
            assert(spec_resolve(entries.deep_view(), tasks.deep_view()[i as int].name) is Ok);
            assert(begin_off as int == begin_offset_months(tasks.deep_view(), i as int));
            assert(end_off as int == end_offset_months(tasks.deep_view(), i as int));
            assert(row@ == spec_task_baseline_row(
                tasks.deep_view(),
                i as int,
                entries.deep_view(),
                baseline_id as int,
                project@,
                first_row_id as int + i,
            ));
        }
        out.push(row);
        proof {
            assert forall|j: int| 0 <= j < i + 1 implies (#[trigger] out@[j])@
                == spec_task_baseline_row(
                tasks.deep_view(),
                j,
                entries.deep_view(),
                baseline_id as int,
                project@,
                first_row_id as int + j,
            ) by {
                if j < i {
                    assert(out@[j] == prev[j]);
                } else {
                    assert(out@[j] == row);
                }
            }
        }
        i = i + 1;
    }
    proof {
        assert forall|j: int| 0 <= j < n implies out.deep_view()[j]
            == spec_planned_task_baselines(
            tasks.deep_view(),
            entries.deep_view(),
            baseline_id as int,
            project@,
            first_row_id as int,
        )[j] by {
            assert(out.deep_view()[j] == out@[j]@);
        }
        assert(out.deep_view() =~= spec_planned_task_baselines(
            tasks.deep_view(),
            entries.deep_view(),
            baseline_id as int,
            project@,
            first_row_id as int,
        ));
    }
    Ok(out)
}

/// Rewrite every record's description to the synthesized composite of its
/// name and owning task name. Returns the rewritten batch; the input order
/// and every other field are kept.
pub fn synthesize_descriptions(resources: &Vec<ResourceRecord>) -> (r: Vec<ResourceRecord>)
    ensures
        r.deep_view() == spec_synthesized(resources.deep_view()),
{
    let n = resources.len();
    let mut out: Vec<ResourceRecord> = Vec::new();
    let mut i: usize = 0;
    while i < n
        invariant
            i <= n,
            n == resources@.len(),
            out@.len() == i,
            forall|j: int|
                0 <= j < i ==> (#[trigger] out@[j])@ == spec_synthesized(resources.deep_view())[j],
        decreases n - i,
    {
        let rec = &resources[i];
        let mut d = rec.name.clone();
        d.append(" ");
        d.append(rec.task.as_str());
        let row = ResourceRecord {
            task: rec.task.clone(),
            name: rec.name.clone(),
            description: Some(d),
            resource_type_id: rec.resource_type_id.clone(),
            cost: rec.cost,
            cost_currency: rec.cost_currency.clone(),
            billing_frequency: rec.billing_frequency.clone(),
            capacity: rec.capacity,
            capacity_unit: clone_opt_string(&rec.capacity_unit),
        };
        let ghost prev = out@;
        proof {
            assert(row@ == spec_synthesized(resources.deep_view())[i as int]);
        }
        out.push(row);
        proof {
            assert forall|j: int| 0 <= j < i + 1 implies (#[trigger] out@[j])@ == spec_synthesized(
                resources.deep_view(),
            )[j] by {
                if j < i {
                    assert(out@[j] == prev[j]);
                } else {
                    assert(out@[j] == row);
                }
            }
        }
        i = i + 1;
    }
    proof {
        assert forall|j: int| 0 <= j < n implies out.deep_view()[j] == spec_synthesized(
            resources.deep_view(),
        )[j] by {
            assert(out.deep_view()[j] == out@[j]@);
        }
        assert(out.deep_view() =~= spec_synthesized(resources.deep_view()));
    }
    out
}

/// Build the name-to-id map over the resource type lookup table.
pub fn resource_type_entries(types: &Vec<ResourceType>) -> (r: Vec<NamedId>)
    ensures
        r.deep_view() == spec_type_entries(types.deep_view()),
{
    let n = types.len();
    let mut out: Vec<NamedId> = Vec::new();
    let mut i: usize = 0;
    while i < n
        invariant
            i <= n,
            n == types@.len(),
            out@.len() == i,
            forall|j: int|
                0 <= j < i ==> (#[trigger] out@[j])@ == spec_type_entries(types.deep_view())[j],
        decreases n - i,
    {
        let row = NamedId { name: types[i].name.clone(), id: types[i].resource_type_id };
        let ghost prev = out@;
        proof {
            assert(row@ == spec_type_entries(types.deep_view())[i as int]);
        }
        out.push(row);
        proof {
            assert forall|j: int| 0 <= j < i + 1 implies (#[trigger] out@[j])@ == spec_type_entries(
                types.deep_view(),
            )[j] by {
                if j < i {
                    assert(out@[j] == prev[j]);
                } else {
                    assert(out@[j] == row);
                }
            }
        }
        i = i + 1;
    }
    proof {
        assert forall|j: int| 0 <= j < n implies out.deep_view()[j] == spec_type_entries(
            types.deep_view(),
        )[j] by {
            assert(out.deep_view()[j] == out@[j]@);
        }
        assert(out.deep_view() =~= spec_type_entries(types.deep_view()));
    }
    out
}

/// Plan one resource row per synthesized record, resolving each record's
/// resource type name against the lookup table entries. Fails with
/// `ReferenceNotFound` when some record names a type with no entry.
pub fn plan_resources(
    synthed: &Vec<ResourceRecord>,
    type_entries: &Vec<NamedId>,
    first_id: i64,
) -> (r: Result<Vec<Resource>, ImportError>)
    requires
        0 <= first_id,
        synthed@.len() <= MAX_BATCH as int,
        first_id + synthed@.len() <= i64::MAX as int,
    ensures
        match r {
            Ok(rows) => {
                &&& rows.deep_view() == spec_planned_resources(
                    synthed.deep_view(),
                    type_entries.deep_view(),
                    first_id as int,
                )
                &&& forall|i: int|
                    0 <= i < synthed@.len() ==> spec_resolve(
                        type_entries.deep_view(),
                        (#[trigger] synthed.deep_view()[i]).resource_type_id,
                    ) is Ok
            },
            Err(e) => {
                &&& e == ImportError::ReferenceNotFound
                &&& exists|i: int|
                    0 <= i < synthed@.len() && spec_resolve(
                        type_entries.deep_view(),
                        (#[trigger] synthed.deep_view()[i]).resource_type_id,
                    ) is Err
            },
        },
{
    let n = synthed.len();
    let mut out: Vec<Resource> = Vec::new();
    let mut i: usize = 0;
    while i < n
        invariant
            i <= n,
            n == synthed@.len(),
            n <= MAX_BATCH as int,
            0 <= first_id,
            first_id + n <= i64::MAX as int,
            out@.len() == i,
            forall|j: int|
                0 <= j < i ==> (#[trigger] out@[j])@ == spec_planned_resources(
                    synthed.deep_view(),
                    type_entries.deep_view(),
                    first_id as int,
                )[j],
            forall|j: int|
                0 <= j < i ==> spec_resolve(
                    type_entries.deep_view(),
                    (#[trigger] synthed.deep_view()[j]).resource_type_id,
                ) is Ok,
        decreases n - i,
    {
        let rec = &synthed[i];
        let rtid = match resolve_named_id(type_entries, &rec.resource_type_id) {
            Ok(id) => id,
            Err(_) => {
                proof {
                    assert(spec_resolve(
                        type_entries.deep_view(),
                        synthed.deep_view()[i as int].resource_type_id,
                    ) is Err);
                }
                return Err(ImportError::ReferenceNotFound);
            },
        };
        let row = Resource {
            resource_id: first_id + i as i64,
            name: rec.name.clone(),
            resource_type_id: rtid,
            description: clone_opt_string(&rec.description),
            comment: None,
            cost: Some(rec.cost),
            cost_currency: rec.cost_currency.clone(),
            billing_frequency: None,
            billing_interval: None,
            availability: None,
            capacity: rec.capacity,
            capacity_unit: clone_opt_string(&rec.capacity_unit),
            is_active: true,
        };
        let ghost prev = out@;
        proof {
            assert(spec_resolve(
                type_entries.deep_view(),
                synthed.deep_view()[i as int].resource_type_id,
            ) is Ok);
            assert(row@ == spec_planned_resources(
                synthed.deep_view(),
                type_entries.deep_view(),
                first_id as int,
            )[i as int]);
        }
        out.push(row);
        proof {
            assert forall|j: int| 0 <= j < i + 1 implies (#[trigger] out@[j])@
                == spec_planned_resources(
                synthed.deep_view(),
                type_entries.deep_view(),
                first_id as int,
            )[j] by {
                if j < i {
                    assert(out@[j] == prev[j]);
                } else {
                    assert(out@[j] == row);
                }
            }
        }
        i = i + 1;
    }
    proof {
        assert forall|j: int| 0 <= j < n implies out.deep_view()[j] == spec_planned_resources(
            synthed.deep_view(),
            type_entries.deep_view(),
            first_id as int,
        )[j] by {
            assert(out.deep_view()[j] == out@[j]@);
        }
        assert(out.deep_view() =~= spec_planned_resources(
            synthed.deep_view(),
            type_entries.deep_view(),
            first_id as int,
        ));
    }
    Ok(out)
}

/// Build the description-to-id map over the rows planned for a batch of
/// synthesized records.
pub fn resource_entries(synthed: &Vec<ResourceRecord>, first_id: i64) -> (r: Vec<NamedId>)
    requires
        0 <= first_id,
        synthed@.len() <= MAX_BATCH as int,
        first_id + synthed@.len() <= i64::MAX as int,
        forall|i: int|
            0 <= i < synthed@.len() ==> (#[trigger] synthed.deep_view()[i]).description is Some,
    ensures
        r.deep_view() == spec_resource_entries(synthed.deep_view(), first_id as int),
{
    let n = synthed.len();
    let mut out: Vec<NamedId> = Vec::new();
    let mut i: usize = 0;
    while i < n
        invariant
            i <= n,
            n == synthed@.len(),
            n <= MAX_BATCH as int,
            0 <= first_id,
            first_id + n <= i64::MAX as int,
            forall|k: int|
                0 <= k < synthed@.len() ==> (#[trigger] synthed.deep_view()[k]).description
                    is Some,
            out@.len() == i,
            forall|j: int|
                0 <= j < i ==> (#[trigger] out@[j])@ == spec_resource_entries(
                    synthed.deep_view(),
                    first_id as int,
                )[j],
        decreases n - i,
    {
        let d = match &synthed[i].description {
            Some(d) => d.clone(),
            None => {
                proof {
                    assert(synthed.deep_view()[i as int].description is Some);
                }
                unreached()
            },
        };
        let row = NamedId { name: d, id: first_id + i as i64 };
        let ghost prev = out@;
        proof {
            assert(row@ == spec_resource_entries(synthed.deep_view(), first_id as int)[i as int]);
        }
        out.push(row);
        proof {
            assert forall|j: int| 0 <= j < i + 1 implies (#[trigger] out@[j])@
                == spec_resource_entries(synthed.deep_view(), first_id as int)[j] by {
                if j < i {
                    assert(out@[j] == prev[j]);
                } else {
                    assert(out@[j] == row);
                }
            }
        }
        i = i + 1;
    }
    proof {
        assert forall|j: int| 0 <= j < n implies out.deep_view()[j] == spec_resource_entries(
            synthed.deep_view(),
            first_id as int,
        )[j] by {
            assert(out.deep_view()[j] == out@[j]@);
        }
        assert(out.deep_view() =~= spec_resource_entries(synthed.deep_view(), first_id as int));
    }
    out
}

/// Plan one resource baseline row per synthesized record: the resource id
/// resolved by synthesized description, the task id by owning task name.
/// Fails with `ReferenceNotFound` when either lookup finds no entry.
pub fn plan_resource_baselines(
    synthed: &Vec<ResourceRecord>,
    res_entries: &Vec<NamedId>,
    task_entries: &Vec<NamedId>,
    baseline_id: i64,
    first_row_id: i64,
) -> (r: Result<Vec<ResourceBaseline>, ImportError>)
    requires
        0 <= first_row_id,
        synthed@.len() <= MAX_BATCH as int,
        first_row_id + synthed@.len() <= i64::MAX as int,
        forall|i: int|
            0 <= i < synthed@.len() ==> (#[trigger] synthed.deep_view()[i]).description is Some,
    ensures
        match r {
            Ok(rows) => {
                &&& rows.deep_view() == spec_planned_resource_baselines(
                    synthed.deep_view(),
                    res_entries.deep_view(),
                    task_entries.deep_view(),
                    baseline_id as int,
                    first_row_id as int,
                )
                &&& forall|i: int|
                    0 <= i < synthed@.len() ==> spec_resolve(
                        task_entries.deep_view(),
                        (#[trigger] synthed.deep_view()[i]).task,
                    ) is Ok
            },
            Err(e) => {
                &&& e == ImportError::ReferenceNotFound
                &&& exists|i: int|
                    0 <= i < synthed@.len() && (spec_resolve(
                        res_entries.deep_view(),
                        (#[trigger] synthed.deep_view()[i]).description->Some_0,
                    ) is Err || spec_resolve(
                        task_entries.deep_view(),
                        synthed.deep_view()[i].task,
                    ) is Err)
            },
        },
{
    let n = synthed.len();
    let mut out: Vec<ResourceBaseline> = Vec::new();
    let mut i: usize = 0;
    while i < n
        invariant
            i <= n,
            n == synthed@.len(),
            n <= MAX_BATCH as int,
            0 <= first_row_id,
            first_row_id + n <= i64::MAX as int,
            forall|k: int|
                0 <= k < synthed@.len() ==> (#[trigger] synthed.deep_view()[k]).description
                    is Some,
            out@.len() == i,
            forall|j: int|
                0 <= j < i ==> (#[trigger] out@[j])@ == spec_planned_resource_baselines(
                    synthed.deep_view(),
                    res_entries.deep_view(),
                    task_entries.deep_view(),
                    baseline_id as int,
                    first_row_id as int,
                )[j],
            forall|j: int|
                0 <= j < i ==> spec_resolve(
                    task_entries.deep_view(),
                    (#[trigger] synthed.deep_view()[j]).task,
                ) is Ok,
        decreases n - i,
    {
        let rec = &synthed[i];
        let rid = match &rec.description {
            Some(d) => match resolve_named_id(res_entries, d) {
                Ok(id) => id,
                Err(_) => {
                    proof {
                        assert(spec_resolve(
                            res_entries.deep_view(),
                            synthed.deep_view()[i as int].description->Some_0,
                        ) is Err);
                    }
                    return Err(ImportError::ReferenceNotFound);
                },
            },
            None => {
                proof {
                    assert(synthed.deep_view()[i as int].description is Some);
                }
                unreached()
            },
        };
        let tid = match resolve_named_id(task_entries, &rec.task) {
            Ok(id) => id,
            Err(_) => {
                proof {
                    assert(spec_resolve(
                        task_entries.deep_view(),
                        synthed.deep_view()[i as int].task,
                    ) is Err);
                }
                return Err(ImportError::ReferenceNotFound);
            },
        };
        let row = ResourceBaseline {
            resource_baseline_id: first_row_id + i as i64,
            resource_id: rid,
            baseline_id: baseline_id,
            task_id: tid,
            capacity_allocated: rec.capacity,
        };
        let ghost prev = out@;
        proof {
            assert(spec_resolve(
                task_entries.deep_view(),
                synthed.deep_view()[i as int].task,
            ) is Ok);
            assert(row@ == spec_planned_resource_baselines(
                synthed.deep_view(),
                res_entries.deep_view(),
                task_entries.deep_view(),
                baseline_id as int,
                first_row_id as int,
            )[i as int]);
        }
        out.push(row);
        proof {
            assert forall|j: int| 0 <= j < i + 1 implies (#[trigger] out@[j])@
                == spec_planned_resource_baselines(
                synthed.deep_view(),
                res_entries.deep_view(),
                task_entries.deep_view(),
                baseline_id as int,
                first_row_id as int,
            )[j] by {
                if j < i {
                    assert(out@[j] == prev[j]);
                } else {
                    assert(out@[j] == row);
                }
            }
        }
        i = i + 1;
    }
    proof {
        assert forall|j: int| 0 <= j < n implies out.deep_view()[j]
            == spec_planned_resource_baselines(
            synthed.deep_view(),
            res_entries.deep_view(),
            task_entries.deep_view(),
            baseline_id as int,
            first_row_id as int,
        )[j] by {
            assert(out.deep_view()[j] == out@[j]@);
        }
        assert(out.deep_view() =~= spec_planned_resource_baselines(
            synthed.deep_view(),
            res_entries.deep_view(),
            task_entries.deep_view(),
            baseline_id as int,
            first_row_id as int,
        ));
    }
    Ok(out)
}

/// Some record names a resource type absent from the lookup table.
pub open spec fn has_unknown_type(
    resources: Seq<ResourceRecordView>,
    types: Seq<ResourceTypeView>,
) -> bool {
    exists|i: int|
        0 <= i < resources.len() && spec_resolve(
            spec_type_entries(types),
            (#[trigger] resources[i]).resource_type_id,
        ) is Err
}

/// Some record names an owning task outside the batch.
pub open spec fn has_unknown_task(
    resources: Seq<ResourceRecordView>,
    task_entries: Seq<NamedIdView>,
) -> bool {
    exists|i: int|
        0 <= i < resources.len() && spec_resolve(
            task_entries,
            (#[trigger] resources[i]).task,
        ) is Err
}

/// The batch caps and the id-space headroom one run needs.
pub open spec fn import_fits(s: StoreView, n_tasks: int, n_resources: int) -> bool {
    &&& n_tasks <= MAX_BATCH as int
    &&& n_resources <= MAX_BATCH as int
    &&& 0 <= s.next_id
    &&& s.next_id + 2 * n_tasks + 2 * n_resources <= i64::MAX as int
}

/// What one import run does to the store: either the exact error that
/// aborted it — the config step's error, or `ReferenceNotFound` when a
/// record's resource type or owning task resolves to nothing — with the
/// store untouched, or the store extended by exactly the planned rows of
/// the four target tables, ids assigned in input order from `next_id`.
pub open spec fn spec_import(
    s: StoreView,
    project: ProjectInfoView,
    tasks: Seq<TaskRecordView>,
    resources: Seq<ResourceRecordView>,
) -> Result<StoreView, ImportError> {
    match spec_default_baseline_id(s.config) {
        Err(e) => Err(e),
        Ok(bid) => {
            let task_entries = spec_task_entries(tasks, s.next_id);
            if has_unknown_type(resources, s.resource_types) || has_unknown_task(
                resources,
                task_entries,
            ) {
                Err(ImportError::ReferenceNotFound)
            } else {
                let synthed = spec_synthesized(resources);
                let first_task_id = s.next_id;
                let first_tb_id = first_task_id + tasks.len();
                let first_res_id = first_tb_id + tasks.len();
                let first_rb_id = first_res_id + resources.len();
                Ok(
                    StoreView {
                        tasks: s.tasks + spec_planned_tasks(tasks, first_task_id),
                        task_baselines: s.task_baselines + spec_planned_task_baselines(
                            tasks,
                            task_entries,
                            bid as int,
                            project,
                            first_tb_id,
                        ),
                        resources: s.resources + spec_planned_resources(
                            synthed,
                            spec_type_entries(s.resource_types),
                            first_res_id,
                        ),
                        resource_baselines: s.resource_baselines
                            + spec_planned_resource_baselines(
                            synthed,
                            spec_resource_entries(synthed, first_res_id),
                            task_entries,
                            bid as int,
                            first_rb_id,
                        ),
                        next_id: first_rb_id + resources.len(),
                        ..s
                    },
                )
            }
        },
    }
}

/// Perform one all-or-nothing import run against the store.
///
/// On success the four target tables are extended by exactly the rows that
/// [`spec_import`] plans and the id counter advances past them; on any
/// failure the result carries the exact error and the store is unchanged —
/// no row of any table becomes visible.
pub fn import_project_plan(
    store: &mut Store,
    project: &ProjectInfo,
    tasks: &Vec<TaskRecord>,
    resources: &Vec<ResourceRecord>,
) -> (r: Result<(), ImportError>)
    requires
        months_wf(tasks.deep_view()),
        project.project_start.wf(),
        0 <= project.project_start.year <= MAX_START_YEAR,
        import_fits(old(store)@, tasks@.len() as int, resources@.len() as int),
    ensures
        match spec_import(old(store)@, project@, tasks.deep_view(), resources.deep_view()) {
            Ok(sv) => r is Ok && final(store)@ == sv,
            Err(e) => r == Err::<(), ImportError>(e) && *final(store) == *old(store),
        },
{
    let bid = match resolve_default_baseline_id(&store.config) {
        Ok(b) => b,
        Err(e) => {
            return Err(e);
        },
    };
    let synthed = synthesize_descriptions(resources);
    let n_tasks = tasks.len();
    let n_resources = resources.len();
    let first_task_id = store.next_id;
    let first_tb_id = first_task_id + n_tasks as i64;
    let first_res_id = first_tb_id + n_tasks as i64;
    let first_rb_id = first_res_id + n_resources as i64;
    proof {
        assert(synthed.deep_view().len() == resources.deep_view().len());
        assert forall|i: int| 0 <= i < synthed.deep_view().len() implies {
            &&& (#[trigger] synthed.deep_view()[i]).description is Some
            &&& synthed.deep_view()[i].resource_type_id == resources.deep_view()[i].resource_type_id
            &&& synthed.deep_view()[i].task == resources.deep_view()[i].task
        } by {
            assert(synthed.deep_view()[i] == spec_synthesized(resources.deep_view())[i]);
        }
    }
    let mut new_tasks = plan_task_rows(tasks, first_task_id);
    let entries = task_name_entries(tasks, first_task_id);
    let mut new_tbs = match plan_task_baselines(tasks, &entries, bid, project, first_tb_id) {
        Ok(v) => v,
        Err(_) => {
            proof {
                let tv = tasks.deep_view();
                let ev = entries.deep_view();
                assert forall|i: int| 0 <= i < tv.len() implies spec_resolve(
                    ev,
                    #[trigger] tv[i].name,
                ) is Ok by {
                    assert(ev[i].name == tv[i].name);
                    lemma_resolve_ok_iff(ev, tv[i].name);
                }
            }
            unreached()
        },
    };
    let type_entries = resource_type_entries(&store.resource_types);
    let mut new_resources = match plan_resources(&synthed, &type_entries, first_res_id) {
        Ok(v) => v,
        Err(e) => {
            proof {
                let i = choose|i: int|
                    0 <= i < synthed@.len() && spec_resolve(
                        type_entries.deep_view(),
                        (#[trigger] synthed.deep_view()[i]).resource_type_id,
                    ) is Err;
                assert(spec_resolve(
                    spec_type_entries(old(store)@.resource_types),
                    resources.deep_view()[i].resource_type_id,
                ) is Err);
                assert(has_unknown_type(resources.deep_view(), old(store)@.resource_types));
            }
            return Err(e);
        },
    };
    let res_entries = resource_entries(&synthed, first_res_id);
    let mut new_rbs = match plan_resource_baselines(
        &synthed,
        &res_entries,
        &entries,
        bid,
        first_rb_id,
    ) {
        Ok(v) => v,
        Err(e) => {
            proof {
                let sv = synthed.deep_view();
                let rev = res_entries.deep_view();
                assert forall|i: int| 0 <= i < sv.len() implies spec_resolve(
                    rev,
                    (#[trigger] sv[i]).description->Some_0,
                ) is Ok by {
                    assert(rev[i].name == sv[i].description->Some_0);
                    lemma_resolve_ok_iff(rev, sv[i].description->Some_0);
                }
                let i = choose|i: int|
                    0 <= i < sv.len() && (spec_resolve(
                        rev,
                        (#[trigger] sv[i]).description->Some_0,
                    ) is Err || spec_resolve(entries.deep_view(), sv[i].task) is Err);
                assert(spec_resolve(
                    spec_task_entries(tasks.deep_view(), old(store)@.next_id),
                    resources.deep_view()[i].task,
                ) is Err);
                assert(has_unknown_task(
                    resources.deep_view(),
                    spec_task_entries(tasks.deep_view(), old(store)@.next_id),
                ));
            }
            return Err(e);
        },
    };
    // Commit: every row of every table is planned; append them in one step.
    let ghost pre = *store;
    let ghost planned_tasks_v = new_tasks.deep_view();
    let ghost planned_tbs_v = new_tbs.deep_view();
    let ghost planned_res_v = new_resources.deep_view();
    let ghost planned_rbs_v = new_rbs.deep_view();
    let ghost new_tasks_seq = new_tasks@;
    let ghost new_tbs_seq = new_tbs@;
    let ghost new_res_seq = new_resources@;
    let ghost new_rbs_seq = new_rbs@;
    store.tasks.append(&mut new_tasks);
    store.task_baselines.append(&mut new_tbs);
    store.resources.append(&mut new_resources);
    store.resource_baselines.append(&mut new_rbs);
    store.next_id = first_rb_id + n_resources as i64;
    proof {
        let s = old(store)@;
        let tv = tasks.deep_view();
        let rv = resources.deep_view();
        // neither reference check failed, so the run commits
        assert forall|i: int| 0 <= i < rv.len() implies {
            &&& spec_resolve(
                spec_type_entries(s.resource_types),
                (#[trigger] rv[i]).resource_type_id,
            ) is Ok
            &&& spec_resolve(spec_task_entries(tv, s.next_id), rv[i].task) is Ok
        } by {
            assert(synthed.deep_view()[i].resource_type_id == rv[i].resource_type_id);
            assert(synthed.deep_view()[i].task == rv[i].task);
        }
        assert(!has_unknown_type(rv, s.resource_types));
        assert(!has_unknown_task(rv, spec_task_entries(tv, s.next_id)));
        let target = spec_import(s, project@, tv, rv)->Ok_0;
        assert forall|k: int| 0 <= k < store.tasks@.len() implies store.tasks.deep_view()[k] == (
        s.tasks + planned_tasks_v)[k] by {
            assert(store.tasks.deep_view()[k] == store.tasks@[k].deep_view());
            if k < pre.tasks@.len() {
                assert(store.tasks@[k] == pre.tasks@[k]);
            } else {
                assert(store.tasks@[k] == new_tasks_seq[k - pre.tasks@.len()]);
            }
        }
        assert(store.tasks.deep_view() =~= s.tasks + planned_tasks_v);
        assert forall|k: int| 0 <= k < store.task_baselines@.len() implies store.task_baselines.deep_view()[k]
            == (s.task_baselines + planned_tbs_v)[k] by {
            assert(store.task_baselines.deep_view()[k] == store.task_baselines@[k].deep_view());
            if k < pre.task_baselines@.len() {
                assert(store.task_baselines@[k] == pre.task_baselines@[k]);
            } else {
                assert(store.task_baselines@[k] == new_tbs_seq[k - pre.task_baselines@.len()]);
            }
        }
        assert(store.task_baselines.deep_view() =~= s.task_baselines + planned_tbs_v);
        assert forall|k: int| 0 <= k < store.resources@.len() implies store.resources.deep_view()[k]
            == (s.resources + planned_res_v)[k] by {
            assert(store.resources.deep_view()[k] == store.resources@[k].deep_view());
            if k < pre.resources@.len() {
                assert(store.resources@[k] == pre.resources@[k]);
            } else {
                assert(store.resources@[k] == new_res_seq[k - pre.resources@.len()]);
            }
        }
        assert(store.resources.deep_view() =~= s.resources + planned_res_v);
        assert forall|k: int| 0 <= k < store.resource_baselines@.len() implies store.resource_baselines.deep_view()[k]
            == (s.resource_baselines + planned_rbs_v)[k] by {
            assert(store.resource_baselines.deep_view()[k]
                == store.resource_baselines@[k].deep_view());
            if k < pre.resource_baselines@.len() {
                assert(store.resource_baselines@[k] == pre.resource_baselines@[k]);
            } else {
                assert(store.resource_baselines@[k] == new_rbs_seq[k
                    - pre.resource_baselines@.len()]);
            }
        }
        assert(store.resource_baselines.deep_view() =~= s.resource_baselines + planned_rbs_v);
        assert(planned_tasks_v == spec_planned_tasks(tv, s.next_id));
        assert(entries.deep_view() == spec_task_entries(tv, s.next_id));
        assert(planned_tbs_v == spec_planned_task_baselines(
            tv,
            spec_task_entries(tv, s.next_id),
            bid as int,
            project@,
            s.next_id + tv.len(),
        ));
        assert(synthed.deep_view() == spec_synthesized(rv));
        assert(planned_res_v == spec_planned_resources(
            spec_synthesized(rv),
            spec_type_entries(s.resource_types),
            s.next_id + 2 * tv.len(),
        ));
        assert(planned_rbs_v == spec_planned_resource_baselines(
            spec_synthesized(rv),
            spec_resource_entries(spec_synthesized(rv), s.next_id + 2 * tv.len()),
            spec_task_entries(tv, s.next_id),
            bid as int,
            s.next_id + 2 * tv.len() + rv.len(),
        ));
        assert(store@.next_id == s.next_id + 2 * tv.len() + 2 * rv.len());
        assert(store@ =~= target);
    }
    Ok(())
}

} // verus!
