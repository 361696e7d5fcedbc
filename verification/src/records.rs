//! The incoming records of one import batch, and their mathematical views.
//!
//! The source record reader (outside this library) materializes these from
//! JSON or spreadsheet extracts; the engine consumes them fully in memory.

use vstd::prelude::*;
use crate::datetime::DateTime;
use crate::models::{opt_i64_view, opt_str_view, opt_u32_view};

verus! {

/// Nested configuration of the project metadata record.
#[derive(Clone, Debug, PartialEq)]
pub struct ProjectConfig {
    pub currency: String,
    pub avg_hours_per_month: i32,
}

/// Mathematical view of a [`ProjectConfig`].
pub struct ProjectConfigView {
    pub currency: Seq<char>,
    pub avg_hours_per_month: int,
}

impl View for ProjectConfig {
    type V = ProjectConfigView;

    open spec fn view(&self) -> ProjectConfigView {
        ProjectConfigView {
            currency: self.currency@,
            avg_hours_per_month: self.avg_hours_per_month as int,
        }
    }
}

/// The project metadata record: the instants and the timezone label that
/// every planned schedule row copies.
#[derive(Clone, Debug, PartialEq)]
pub struct ProjectInfo {
    pub project_name: String,
    pub project_start: DateTime,
    pub project_finish: DateTime,
    pub timezone: String,
    pub config: ProjectConfig,
}

/// Mathematical view of a [`ProjectInfo`].
pub struct ProjectInfoView {
    pub project_name: Seq<char>,
    pub project_start: DateTime,
    pub project_finish: DateTime,
    pub timezone: Seq<char>,
    pub config: ProjectConfigView,
}

impl View for ProjectInfo {
    type V = ProjectInfoView;

    open spec fn view(&self) -> ProjectInfoView {
        ProjectInfoView {
            project_name: self.project_name@,
            project_start: self.project_start,
            project_finish: self.project_finish,
            timezone: self.timezone@,
            config: self.config@,
        }
    }
}

/// One incoming task record. `id` is the record's natural id; a child
/// record points at it through its `parent` field, which is how missing
/// month bounds are inferred.
#[derive(Clone, Debug, PartialEq)]
pub struct TaskRecord {
    pub id: u32,
    pub name: String,
    pub wbs: String,
    pub parent: Option<u32>,
    pub begin_month: Option<u32>,
    pub end_month: Option<u32>,
    pub planned_work_pm: Option<u32>,
    pub planned_team_cost_eur: Option<u32>,
    pub planned_other_cost_eur: Option<u32>,
}

/// Mathematical view of a [`TaskRecord`].
pub struct TaskRecordView {
    pub id: int,
    pub name: Seq<char>,
    pub wbs: Seq<char>,
    pub parent: Option<int>,
    pub begin_month: Option<int>,
    pub end_month: Option<int>,
    pub planned_work_pm: Option<int>,
    pub planned_team_cost_eur: Option<int>,
    pub planned_other_cost_eur: Option<int>,
}

impl View for TaskRecord {
    type V = TaskRecordView;

    open spec fn view(&self) -> TaskRecordView {
        TaskRecordView {
            id: self.id as int,
            name: self.name@,
            wbs: self.wbs@,
            parent: opt_u32_view(self.parent),
            begin_month: opt_u32_view(self.begin_month),
            end_month: opt_u32_view(self.end_month),
            planned_work_pm: opt_u32_view(self.planned_work_pm),
            planned_team_cost_eur: opt_u32_view(self.planned_team_cost_eur),
            planned_other_cost_eur: opt_u32_view(self.planned_other_cost_eur),
        }
    }
}

impl DeepView for TaskRecord {
    type V = TaskRecordView;

    open spec fn deep_view(&self) -> TaskRecordView {
        self.view()
    }
}

/// One incoming resource record. `task` names the owning task by its
/// summary; `resource_type_id` names a seeded resource type.
#[derive(Clone, Debug, PartialEq)]
pub struct ResourceRecord {
    pub task: String,
    pub name: String,
    pub description: Option<String>,
    pub resource_type_id: String,
    /// Fixed-point amount in a minor unit chosen by the caller.
    pub cost: i64,
    pub cost_currency: String,
    pub billing_frequency: String,
    /// Fixed-point amount in a minor unit chosen by the caller.
    pub capacity: Option<i64>,
    pub capacity_unit: Option<String>,
}

/// Mathematical view of a [`ResourceRecord`].
pub struct ResourceRecordView {
    pub task: Seq<char>,
    pub name: Seq<char>,
    pub description: Option<Seq<char>>,
    pub resource_type_id: Seq<char>,
    pub cost: int,
    pub cost_currency: Seq<char>,
    pub billing_frequency: Seq<char>,
    pub capacity: Option<int>,
    pub capacity_unit: Option<Seq<char>>,
}

impl View for ResourceRecord {
    type V = ResourceRecordView;

    open spec fn view(&self) -> ResourceRecordView {
        ResourceRecordView {
            task: self.task@,
            name: self.name@,
            description: opt_str_view(self.description),
            resource_type_id: self.resource_type_id@,
            cost: self.cost as int,
            cost_currency: self.cost_currency@,
            billing_frequency: self.billing_frequency@,
            capacity: opt_i64_view(self.capacity),
            capacity_unit: opt_str_view(self.capacity_unit),
        }
    }
}

impl DeepView for ResourceRecord {
    type V = ResourceRecordView;

    open spec fn deep_view(&self) -> ResourceRecordView {
        self.view()
    }
}

} // verus!
