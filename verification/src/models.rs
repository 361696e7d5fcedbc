//! The rows of the store's tables, and their mathematical views.
//!
//! Each executable row type has a view struct whose fields are mathematical
//! values (`int`, `Seq<char>`); every contract of the engine speaks over
//! these views. Monetary and capacity amounts are carried as fixed-point
//! integers in a minor unit chosen by the caller; the engine never computes
//! on them, it only carries them through.

use vstd::prelude::*;
use crate::datetime::DateTime;
use crate::parse::{parse_i64, spec_parse_i64};

verus! {

/// Clone an optional string.
pub(crate) fn clone_opt_string(o: &Option<String>) -> (r: Option<String>)
    ensures
        r == *o,
{
    match o {
        Some(s) => Some(s.clone()),
        None => None,
    }
}

/// The view of an optional string: the character sequence, if present.
pub open spec fn opt_str_view(o: Option<String>) -> Option<Seq<char>> {
    match o {
        Some(s) => Some(s@),
        None => None,
    }
}

/// The view of an optional `i64`.
pub open spec fn opt_i64_view(o: Option<i64>) -> Option<int> {
    match o {
        Some(v) => Some(v as int),
        None => None,
    }
}

/// The view of an optional `i32`.
pub open spec fn opt_i32_view(o: Option<i32>) -> Option<int> {
    match o {
        Some(v) => Some(v as int),
        None => None,
    }
}

/// The view of an optional `u32`.
pub open spec fn opt_u32_view(o: Option<u32>) -> Option<int> {
    match o {
        Some(v) => Some(v as int),
        None => None,
    }
}

/// Workflow state of a task.
#[derive(Clone, Copy, Debug, PartialEq, Eq, Structural)]
pub enum TaskStatus {
    ToDo,
    InProgress,
    Done,
    Cancelled,
}

impl TaskStatus {
    /// The status label, as it is stored and displayed.
    pub fn label(&self) -> (r: &'static str)
        ensures
            r@ == match *self {
                TaskStatus::ToDo => "ToDo"@,
                TaskStatus::InProgress => "InProgress"@,
                TaskStatus::Done => "Done"@,
                TaskStatus::Cancelled => "Cancelled"@,
            },
    {
        match self {
            TaskStatus::ToDo => "ToDo",
            TaskStatus::InProgress => "InProgress",
            TaskStatus::Done => "Done",
            TaskStatus::Cancelled => "Cancelled",
        }
    }
}

/// Billing frequency of a resource.
#[derive(Clone, Copy, Debug, PartialEq, Eq, Structural)]
pub enum Frequency {
    Yearly,
    Monthly,
    Weekly,
    Daily,
    Hourly,
    Minutely,
    Secondly,
}

impl Frequency {
    /// The frequency label, as it is stored and displayed.
    pub fn label(&self) -> (r: &'static str)
        ensures
            r@ == match *self {
                Frequency::Yearly => "Yearly"@,
                Frequency::Monthly => "Monthly"@,
                Frequency::Weekly => "Weekly"@,
                Frequency::Daily => "Daily"@,
                Frequency::Hourly => "Hourly"@,
                Frequency::Minutely => "Minutely"@,
                Frequency::Secondly => "Secondly"@,
            },
    {
        match self {
            Frequency::Yearly => "Yearly",
            Frequency::Monthly => "Monthly",
            Frequency::Weekly => "Weekly",
            Frequency::Daily => "Daily",
            Frequency::Hourly => "Hourly",
            Frequency::Minutely => "Minutely",
            Frequency::Secondly => "Secondly",
        }
    }
}

/// A row of the tasks table.
#[derive(Clone, Debug, PartialEq)]
pub struct Task {
    pub task_id: i64,
    pub name: String,
    pub description: Option<String>,
    pub comment: Option<String>,
    pub status: TaskStatus,
}

/// Mathematical view of a [`Task`] row.
pub struct TaskView {
    pub task_id: int,
    pub name: Seq<char>,
    pub description: Option<Seq<char>>,
    pub comment: Option<Seq<char>>,
    pub status: TaskStatus,
}

impl View for Task {
    type V = TaskView;

    open spec fn view(&self) -> TaskView {
        TaskView {
            task_id: self.task_id as int,
            name: self.name@,
            description: opt_str_view(self.description),
            comment: opt_str_view(self.comment),
            status: self.status,
        }
    }
}

impl DeepView for Task {
    type V = TaskView;

    open spec fn deep_view(&self) -> TaskView {
        self.view()
    }
}

impl Task {
    /// The column names of the tasks table, in declaration order.
    pub fn fields() -> (r: [&'static str; 5])
        ensures
            r@.len() == 5,
            r@[0]@ == "task_id"@,
            r@[1]@ == "name"@,
            r@[2]@ == "description"@,
            r@[3]@ == "comment"@,
            r@[4]@ == "status"@,
    {
        ["task_id", "name", "description", "comment", "status"]
    }
}

/// A row of the tasks_baselines table: one task's schedule snapshot within
/// one baseline. The bounds are whatever the planner computed: a task whose
/// months were inferred from the defaults carries a start after its finish.
#[derive(Clone, Debug, PartialEq)]
pub struct TaskBaseline {
    pub task_baseline_id: i64,
    pub task_id: i64,
    pub baseline_id: i64,
    pub wbs: String,
    pub parent: Option<i64>,
    pub start: DateTime,
    pub start_timezone: String,
    pub finish: DateTime,
    pub finish_timezone: String,
}

/// Mathematical view of a [`TaskBaseline`] row.
pub struct TaskBaselineView {
    pub task_baseline_id: int,
    pub task_id: int,
    pub baseline_id: int,
    pub wbs: Seq<char>,
    pub parent: Option<int>,
    pub start: DateTime,
    pub start_timezone: Seq<char>,
    pub finish: DateTime,
    pub finish_timezone: Seq<char>,
}

impl View for TaskBaseline {
    type V = TaskBaselineView;

    open spec fn view(&self) -> TaskBaselineView {
        TaskBaselineView {
            task_baseline_id: self.task_baseline_id as int,
            task_id: self.task_id as int,
            baseline_id: self.baseline_id as int,
            wbs: self.wbs@,
            parent: opt_i64_view(self.parent),
            start: self.start,
            start_timezone: self.start_timezone@,
            finish: self.finish,
            finish_timezone: self.finish_timezone@,
        }
    }
}

impl DeepView for TaskBaseline {
    type V = TaskBaselineView;

    open spec fn deep_view(&self) -> TaskBaselineView {
        self.view()
    }
}

impl TaskBaseline {
    /// The column names of the tasks_baselines table, in declaration order.
    pub fn fields() -> (r: [&'static str; 9])
        ensures
            r@.len() == 9,
            r@[0]@ == "task_baseline_id"@,
            r@[1]@ == "task_id"@,
            r@[2]@ == "baseline_id"@,
            r@[3]@ == "wbs"@,
            r@[4]@ == "parent"@,
            r@[5]@ == "start"@,
            r@[6]@ == "start_timezone"@,
            r@[7]@ == "finish"@,
            r@[8]@ == "finish_timezone"@,
    {
        [
            "task_baseline_id",
            "task_id",
            "baseline_id",
            "wbs",
            "parent",
            "start",
            "start_timezone",
            "finish",
            "finish_timezone",
        ]
    }
}

/// A row of the baselines table: a named snapshot container. Seeded at
/// storage initialization; the import references it by id and never creates
/// one.
#[derive(Clone, Debug, PartialEq)]
pub struct Baseline {
    pub baseline_id: i64,
    pub name: String,
    pub description: Option<String>,
    pub comment: Option<String>,
    pub is_active: bool,
}

/// Mathematical view of a [`Baseline`] row.
pub struct BaselineView {
    pub baseline_id: int,
    pub name: Seq<char>,
    pub description: Option<Seq<char>>,
    pub comment: Option<Seq<char>>,
    pub is_active: bool,
}

impl View for Baseline {
    type V = BaselineView;

    open spec fn view(&self) -> BaselineView {
        BaselineView {
            baseline_id: self.baseline_id as int,
            name: self.name@,
            description: opt_str_view(self.description),
            comment: opt_str_view(self.comment),
            is_active: self.is_active,
        }
    }
}

impl DeepView for Baseline {
    type V = BaselineView;

    open spec fn deep_view(&self) -> BaselineView {
        self.view()
    }
}

impl Baseline {
    /// The column names of the baselines table, in declaration order.
    pub fn fields() -> (r: [&'static str; 5])
        ensures
            r@.len() == 5,
            r@[0]@ == "baseline_id"@,
            r@[1]@ == "name"@,
            r@[2]@ == "description"@,
            r@[3]@ == "comment"@,
            r@[4]@ == "is_active"@,
    {
        ["baseline_id", "name", "description", "comment", "is_active"]
    }
}

/// A row of the resource_types lookup table. Seeded once; the import only
/// reads it to resolve type names to ids.
#[derive(Clone, Debug, PartialEq)]
pub struct ResourceType {
    pub resource_type_id: i64,
    pub name: String,
    pub description: Option<String>,
    pub comment: Option<String>,
}

/// Mathematical view of a [`ResourceType`] row.
pub struct ResourceTypeView {
    pub resource_type_id: int,
    pub name: Seq<char>,
    pub description: Option<Seq<char>>,
    pub comment: Option<Seq<char>>,
}

impl View for ResourceType {
    type V = ResourceTypeView;

    open spec fn view(&self) -> ResourceTypeView {
        ResourceTypeView {
            resource_type_id: self.resource_type_id as int,
            name: self.name@,
            description: opt_str_view(self.description),
            comment: opt_str_view(self.comment),
        }
    }
}

impl DeepView for ResourceType {
    type V = ResourceTypeView;

    open spec fn deep_view(&self) -> ResourceTypeView {
        self.view()
    }
}

impl ResourceType {
    /// The column names of the resource_types table, in declaration order.
    pub fn fields() -> (r: [&'static str; 4])
        ensures
            r@.len() == 4,
            r@[0]@ == "resource_type_id"@,
            r@[1]@ == "name"@,
            r@[2]@ == "description"@,
            r@[3]@ == "comment"@,
    {
        ["resource_type_id", "name", "description", "comment"]
    }
}

/// A row of the resources table.
#[derive(Clone, Debug, PartialEq)]
pub struct Resource {
    pub resource_id: i64,
    pub name: String,
    pub resource_type_id: i64,
    pub description: Option<String>,
    pub comment: Option<String>,
    /// Fixed-point amount in a minor unit chosen by the caller.
    pub cost: Option<i64>,
    pub cost_currency: String,
    pub billing_frequency: Option<Frequency>,
    pub billing_interval: Option<i32>,
    pub availability: Option<String>,
    /// Fixed-point amount in a minor unit chosen by the caller.
    pub capacity: Option<i64>,
    pub capacity_unit: Option<String>,
    pub is_active: bool,
}

/// Mathematical view of a [`Resource`] row.
pub struct ResourceView {
    pub resource_id: int,
    pub name: Seq<char>,
    pub resource_type_id: int,
    pub description: Option<Seq<char>>,
    pub comment: Option<Seq<char>>,
    pub cost: Option<int>,
    pub cost_currency: Seq<char>,
    pub billing_frequency: Option<Frequency>,
    pub billing_interval: Option<int>,
    pub availability: Option<Seq<char>>,
    pub capacity: Option<int>,
    pub capacity_unit: Option<Seq<char>>,
    pub is_active: bool,
}

impl View for Resource {
    type V = ResourceView;

    open spec fn view(&self) -> ResourceView {
        ResourceView {
            resource_id: self.resource_id as int,
            name: self.name@,
            resource_type_id: self.resource_type_id as int,
            description: opt_str_view(self.description),
            comment: opt_str_view(self.comment),
            cost: opt_i64_view(self.cost),
            cost_currency: self.cost_currency@,
            billing_frequency: self.billing_frequency,
            billing_interval: opt_i32_view(self.billing_interval),
            availability: opt_str_view(self.availability),
            capacity: opt_i64_view(self.capacity),
            capacity_unit: opt_str_view(self.capacity_unit),
            is_active: self.is_active,
        }
    }
}

impl DeepView for Resource {
    type V = ResourceView;

    open spec fn deep_view(&self) -> ResourceView {
        self.view()
    }
}

impl Resource {
    /// The column names of the resources table, in declaration order.
    pub fn fields() -> (r: [&'static str; 13])
        ensures
            r@.len() == 13,
            r@[0]@ == "resource_id"@,
            r@[1]@ == "name"@,
            r@[2]@ == "resource_type_id"@,
            r@[3]@ == "description"@,
            r@[4]@ == "comment"@,
            r@[5]@ == "cost"@,
            r@[6]@ == "cost_currency"@,
            r@[7]@ == "billing_frequency"@,
            r@[8]@ == "billing_interval"@,
            r@[9]@ == "availability"@,
            r@[10]@ == "capacity"@,
            r@[11]@ == "capacity_unit"@,
            r@[12]@ == "is_active"@,
    {
        [
            "resource_id",
            "name",
            "resource_type_id",
            "description",
            "comment",
            "cost",
            "cost_currency",
            "billing_frequency",
            "billing_interval",
            "availability",
            "capacity",
            "capacity_unit",
            "is_active",
        ]
    }
}

/// A row of the resources_baselines table: a resource allocated to a task
/// within a baseline.
#[derive(Clone, Debug, PartialEq)]
pub struct ResourceBaseline {
    pub resource_baseline_id: i64,
    pub resource_id: i64,
    pub baseline_id: i64,
    pub task_id: i64,
    /// Fixed-point amount in a minor unit chosen by the caller.
    pub capacity_allocated: Option<i64>,
}

/// Mathematical view of a [`ResourceBaseline`] row.
pub struct ResourceBaselineView {
    pub resource_baseline_id: int,
    pub resource_id: int,
    pub baseline_id: int,
    pub task_id: int,
    pub capacity_allocated: Option<int>,
}

impl View for ResourceBaseline {
    type V = ResourceBaselineView;

    open spec fn view(&self) -> ResourceBaselineView {
        ResourceBaselineView {
            resource_baseline_id: self.resource_baseline_id as int,
            resource_id: self.resource_id as int,
            baseline_id: self.baseline_id as int,
            task_id: self.task_id as int,
            capacity_allocated: opt_i64_view(self.capacity_allocated),
        }
    }
}

impl DeepView for ResourceBaseline {
    type V = ResourceBaselineView;

    open spec fn deep_view(&self) -> ResourceBaselineView {
        self.view()
    }
}

/// A row of the config table: a string key with an optional string value.
#[derive(Clone, Debug, PartialEq)]
pub struct Config {
    pub config_id: i64,
    pub config_key: String,
    pub config_value: Option<String>,
    pub description: Option<String>,
}

/// Mathematical view of a [`Config`] row.
pub struct ConfigView {
    pub config_id: int,
    pub config_key: Seq<char>,
    pub config_value: Option<Seq<char>>,
    pub description: Option<Seq<char>>,
}

impl View for Config {
    type V = ConfigView;

    open spec fn view(&self) -> ConfigView {
        ConfigView {
            config_id: self.config_id as int,
            config_key: self.config_key@,
            config_value: opt_str_view(self.config_value),
            description: opt_str_view(self.description),
        }
    }
}

impl DeepView for Config {
    type V = ConfigView;

    open spec fn deep_view(&self) -> ConfigView {
        self.view()
    }
}

impl Config {
    /// The value as a string, if the row carries one.
    pub fn value_as_string(&self) -> (r: Option<String>)
        ensures
            r == self.config_value,
    {
        clone_opt_string(&self.config_value)
    }

    /// The value parsed as a signed 64-bit integer: `None` when the row
    /// carries no value or the value is not a decimal integer in range.
    pub fn value_as_i64(&self) -> (r: Option<i64>)
        ensures
            r == match self@.config_value {
                Some(v) => spec_parse_i64(v),
                None => None::<i64>,
            },
    {
        match &self.config_value {
            Some(v) => parse_i64(v.as_str()),
            None => None,
        }
    }
}

/// One resource allocation joined with its resource and task summaries, as
/// read endpoints report it.
#[derive(Clone, Debug, PartialEq)]
pub struct ResourceAllocation {
    pub resource_baseline_id: i64,
    pub baseline_id: i64,
    pub resource_id: i64,
    pub task_id: i64,
    pub resource_summary: Option<String>,
    pub task_summary: Option<String>,
    /// Fixed-point amount in a minor unit chosen by the caller.
    pub capacity_allocated: Option<i64>,
    /// Fixed-point amount in a minor unit chosen by the caller.
    pub capacity: Option<i64>,
    pub capacity_unit: Option<String>,
}

impl ResourceAllocation {
    /// The column names of the allocation report, in declaration order.
    pub fn fields() -> (r: [&'static str; 9])
        ensures
            r@.len() == 9,
            r@[0]@ == "resource_baseline_id"@,
            r@[1]@ == "baseline_id"@,
            r@[2]@ == "resource_id"@,
            r@[3]@ == "task_id"@,
            r@[4]@ == "resource_summary"@,
            r@[5]@ == "task_summary"@,
            r@[6]@ == "capacity_allocated"@,
            r@[7]@ == "capacity"@,
            r@[8]@ == "capacity_unit"@,
    {
        [
            "resource_baseline_id",
            "baseline_id",
            "resource_id",
            "task_id",
            "resource_summary",
            "task_summary",
            "capacity_allocated",
            "capacity",
            "capacity_unit",
        ]
    }
}

/// A task's schedule summary within a baseline, as read endpoints report it.
#[derive(Clone, Debug, PartialEq)]
pub struct TaskDetails {
    pub id: i64,
    pub wbs: String,
    pub parent: i64,
    pub begin_month: i32,
    pub end_month: i32,
}

/// A member of the project team.
#[derive(Clone, Debug, PartialEq)]
pub struct TeamMember {
    pub user_id: i64,
    pub user_name: String,
    pub user_last_name: String,
    pub position: Option<String>,
    pub comment: Option<String>,
}

} // verus!
