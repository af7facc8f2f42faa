//! The task record sent to the service, and the people it can refer to.

use vstd::prelude::*;
use crate::clock::{DateTime, local_now};
use crate::text::{push_str, push_signed, signed_decimal};

verus! {

/// A member of staff a task can be assigned to.
#[derive(Clone, Debug)]
pub struct Staff {
    pub id: i32,
    pub name: String,
}

impl Staff {
    /// How a staff member is shown in a list: `name [id]`.
    pub fn label(&self) -> (r: String)
        ensures
            r@ == self.name@ + " ["@ + signed_decimal(self.id as int) + "]"@,
    {
        let mut s = String::new();
        push_str(&mut s, self.name.as_str());
        push_str(&mut s, " [");
        push_signed(&mut s, self.id as i64);
        push_str(&mut s, "]");
        s
    }
}

/// A customer or prospect a task can refer to.
#[derive(Clone, Debug)]
pub struct Customer {
    pub id: i32,
    pub nom: String,
    pub name2: String,
    pub prospect: bool,
}

impl Customer {
    /// How a customer is shown: both names, then whether it is a prospect or
    /// a client.
    pub fn label(&self) -> (r: String)
        ensures
            r@ == self.nom@ + " "@ + self.name2@ + " ["@ + (if self.prospect {
                "Prospect"@
            } else {
                "Client"@
            }) + "]"@,
    {
        let mut s = String::new();
        push_str(&mut s, self.nom.as_str());
        push_str(&mut s, " ");
        push_str(&mut s, self.name2.as_str());
        push_str(&mut s, " [");
        if self.prospect {
            push_str(&mut s, "Prospect");
        } else {
            push_str(&mut s, "Client");
        }
        push_str(&mut s, "]");
        s
    }
}

#[derive(Clone, Copy, Debug, PartialEq, Eq, Structural)]
pub enum TaskPriority {
    Low,
    Normal,
    High,
    Urgent,
}

#[derive(Clone, Copy, Debug, PartialEq, Eq, Structural)]
pub enum TaskStatus {
    Ongoing,
    Closed,
}

impl TaskStatus {
    /// The status as the operator reads it.
    pub fn label(&self) -> (r: &'static str)
        ensures
            r@ == (match self {
                TaskStatus::Ongoing => "En cours"@,
                TaskStatus::Closed => "Terminé"@,
            }),
    {
        match self {
            TaskStatus::Ongoing => "En cours",
            TaskStatus::Closed => "Terminé",
        }
    }
}

#[derive(Clone, Copy, Debug, PartialEq, Eq, Structural)]
pub enum TaskType {
    CustomerCall,
    Technical,
    Administrative,
    Reminder,
}

impl TaskType {
    pub open spec fn spec_code(self) -> u8 {
        match self {
            TaskType::CustomerCall => 1,
            TaskType::Technical => 2,
            TaskType::Administrative => 3,
            TaskType::Reminder => 4,
        }
    }

    /// The number the service knows this kind of task by.
    pub fn code(self) -> (r: u8)
        ensures
            r == self.spec_code(),
    {
        match self {
            TaskType::CustomerCall => 1,
            TaskType::Technical => 2,
            TaskType::Administrative => 3,
            TaskType::Reminder => 4,
        }
    }
}

/// The staff member a new task is assigned to until told otherwise.
pub const DEFAULT_ASSIGNED_STAFF: i32 = 8;

/// A task as the service receives it.
#[derive(Debug)]
pub struct Task {
    pub fk_type: u8,
    pub fk_assigned_staff: Option<i32>,
    pub fk_assigned_group: Option<i32>,
    pub fk_customer: Option<i32>,
    pub fk_contract: Option<i32>,
    pub title: String,
    pub description: String,
    pub due_date: DateTime,
    pub work_time: Option<String>,
    pub estimated_time: Option<String>,
    pub priority: TaskPriority,
    pub status: TaskStatus,
}

impl Task {
    /// A task of the given kind, title and description, due at `now`, with
    /// the default assignee, normal priority and ongoing status.
    pub fn new_at(task_type: TaskType, title: String, description: String, now: DateTime) -> (r:
        Task)
        ensures
            r.fk_type == task_type.spec_code(),
            r.fk_assigned_staff == Some(DEFAULT_ASSIGNED_STAFF),
            r.fk_assigned_group is None,
            r.fk_customer is None,
            r.fk_contract is None,
            r.title@ == title@,
            r.description@ == description@,
            r.due_date == now,
            r.work_time is None,
            r.estimated_time is None,
            r.priority == TaskPriority::Normal,
            r.status == TaskStatus::Ongoing,
    {
        Task {
            fk_type: task_type.code(),
            fk_assigned_staff: Some(DEFAULT_ASSIGNED_STAFF),
            fk_assigned_group: None,
            fk_customer: None,
            fk_contract: None,
            title,
            description,
            due_date: now,
            work_time: None,
            estimated_time: None,
            priority: TaskPriority::Normal,
            status: TaskStatus::Ongoing,
        }
    }

    /// A task as `new_at` makes it, due at the local time of the call.
    pub fn new(task_type: TaskType, title: String, description: String) -> (r: Task)
        ensures
            r.fk_type == task_type.spec_code(),
            r.fk_assigned_staff == Some(DEFAULT_ASSIGNED_STAFF),
            r.fk_assigned_group is None,
            r.fk_customer is None,
            r.fk_contract is None,
            r.title@ == title@,
            r.description@ == description@,
            r.due_date.wf(),
            r.work_time is None,
            r.estimated_time is None,
            r.priority == TaskPriority::Normal,
            r.status == TaskStatus::Ongoing,
    {
        Task::new_at(task_type, title, description, local_now())
    }

    /// Whether two tasks hold the same values in every field but `due_date`.
    pub open spec fn same_but_due_date(self, other: Task) -> bool {
        &&& self.fk_type == other.fk_type
        &&& self.fk_assigned_staff == other.fk_assigned_staff
        &&& self.fk_assigned_group == other.fk_assigned_group
        &&& self.fk_customer == other.fk_customer
        &&& self.fk_contract == other.fk_contract
        &&& self.title@ == other.title@
        &&& self.description@ == other.description@
        &&& self.work_time == other.work_time
        &&& self.estimated_time == other.estimated_time
        &&& self.priority == other.priority
        &&& self.status == other.status
    }

    /// Whether two tasks agree on kind, group, contract, title, description
    /// and estimated time.
    pub open spec fn same_ids_and_text(self, other: Task) -> bool {
        &&& self.fk_type == other.fk_type
        &&& self.fk_assigned_group == other.fk_assigned_group
        &&& self.fk_contract == other.fk_contract
        &&& self.title@ == other.title@
        &&& self.description@ == other.description@
        &&& self.estimated_time == other.estimated_time
    }

    pub fn with_due_date(self, due_date: DateTime) -> (r: Task)
        ensures
            r.due_date == due_date,
            r.same_but_due_date(self),
    {
        let mut t = self;
        t.due_date = due_date;
        t
    }

    pub fn with_work_time(self, work_time: Option<String>) -> (r: Task)
        ensures
            r.work_time == work_time,
            r.same_ids_and_text(self),
            r.fk_assigned_staff == self.fk_assigned_staff,
            r.fk_customer == self.fk_customer,
            r.due_date == self.due_date,
            r.priority == self.priority,
            r.status == self.status,
    {
        let mut t = self;
        t.work_time = work_time;
        t
    }

    pub fn with_priority(self, priority: TaskPriority) -> (r: Task)
        ensures
            r.priority == priority,
            r.same_ids_and_text(self),
            r.fk_assigned_staff == self.fk_assigned_staff,
            r.fk_customer == self.fk_customer,
            r.due_date == self.due_date,
            r.work_time == self.work_time,
            r.status == self.status,
    {
        let mut t = self;
        t.priority = priority;
        t
    }

    pub fn with_status(self, status: TaskStatus) -> (r: Task)
        ensures
            r.status == status,
            r.same_ids_and_text(self),
            r.fk_assigned_staff == self.fk_assigned_staff,
            r.fk_customer == self.fk_customer,
            r.due_date == self.due_date,
            r.work_time == self.work_time,
            r.priority == self.priority,
    {
        let mut t = self;
        t.status = status;
        t
    }

    pub fn with_estimated_time(self, estimated_time: Option<String>) -> (r: Task)
        ensures
            r.estimated_time == estimated_time,
            r.fk_type == self.fk_type,
            r.fk_assigned_group == self.fk_assigned_group,
            r.fk_contract == self.fk_contract,
            r.title@ == self.title@,
            r.description@ == self.description@,
            r.fk_assigned_staff == self.fk_assigned_staff,
            r.fk_customer == self.fk_customer,
            r.due_date == self.due_date,
            r.work_time == self.work_time,
            r.priority == self.priority,
            r.status == self.status,
    {
        let mut t = self;
        t.estimated_time = estimated_time;
        t
    }

    /// Assigns the task to `staff`, by id.
    pub fn with_assigned_staff(self, staff: Staff) -> (r: Task)
        ensures
            r.fk_assigned_staff == Some(staff.id),
            r.same_ids_and_text(self),
            r.fk_customer == self.fk_customer,
            r.due_date == self.due_date,
            r.work_time == self.work_time,
            r.priority == self.priority,
            r.status == self.status,
    {
        let mut t = self;
        t.fk_assigned_staff = Some(staff.id);
        t
    }

    /// Refers the task to `customer` by id, or to no customer.
    pub fn with_customer(self, customer: Option<Customer>) -> (r: Task)
        ensures
            r.fk_customer == (match customer {
                Some(c) => Some(c.id),
                None => None,
            }),
            r.same_ids_and_text(self),
            r.fk_assigned_staff == self.fk_assigned_staff,
            r.due_date == self.due_date,
            r.work_time == self.work_time,
            r.priority == self.priority,
            r.status == self.status,
    {
        let mut t = self;
        match customer {
            Some(c) => {
                t.fk_customer = Some(c.id);
            },
            None => {
                t.fk_customer = None;
            },
        }
        t
    }
}

} // verus!
