//! The task record: what the derivation reads of a task, as plain values.

use crate::timestamp::{has_room, is_representable, leaves_room, representable};
use vstd::prelude::*;

verus! {

/// The state of a task.
#[derive(Clone, Copy, Debug, PartialEq, Eq, Structural)]
pub enum Status {
    Pending,
    Completed,
    Deleted,
    Recurring,
}

/// The two relative attributes.
#[derive(Clone, Copy, Debug, PartialEq, Eq, Structural)]
pub enum AttributeName {
    Untilrel,
    Waitrel,
}

/// What a task holds under the name of a relative attribute.
#[derive(Debug, PartialEq, Eq)]
pub enum Attribute {
    /// The task has no such attribute.
    Absent,
    /// A text, which may spell a duration.
    Text(String),
    /// A value of another kind, such as a number, as it is written. Only a
    /// text can spell a duration.
    Other(String),
}

/// The mathematical value of an [`Attribute`].
pub enum AttributeModel {
    Absent,
    Text(Seq<char>),
    Other(Seq<char>),
}

impl View for Attribute {
    type V = AttributeModel;

    open spec fn view(&self) -> AttributeModel {
        match self {
            Attribute::Absent => AttributeModel::Absent,
            Attribute::Text(text) => AttributeModel::Text(text@),
            Attribute::Other(value) => AttributeModel::Other(value@),
        }
    }
}

impl Clone for Attribute {
    fn clone(&self) -> (copy: Attribute)
        ensures
            copy@ == self@,
    {
        match self {
            Attribute::Absent => Attribute::Absent,
            Attribute::Text(text) => Attribute::Text(text.clone()),
            Attribute::Other(value) => Attribute::Other(value.clone()),
        }
    }
}

/// The mathematical value of a [`TaskRecord`]: texts as sequences of
/// characters, instants as unbounded integers.
pub struct RecordModel {
    pub uuid: Seq<char>,
    pub status: Status,
    pub recur: Option<Seq<char>>,
    pub due: Option<int>,
    pub until: Option<int>,
    pub wait: Option<int>,
    pub untilrel: AttributeModel,
    pub waitrel: AttributeModel,
}

/// An optional timestamp as an optional integer.
pub open spec fn instant(t: Option<i64>) -> Option<int> {
    match t {
        Some(seconds) => Some(seconds as int),
        None => None,
    }
}

/// An optional text as an optional sequence of characters.
pub open spec fn rule(text: Option<String>) -> Option<Seq<char>> {
    match text {
        Some(t) => Some(t@),
        None => None,
    }
}

/// The dates of a record that can be held: each is an instant that can be
/// represented, and the due date is far enough from both ends of the range
/// for any offset to be applied to it.
pub open spec fn valid(m: RecordModel) -> bool {
    &&& m.due matches Some(t) ==> has_room(t)
    &&& m.until matches Some(t) ==> representable(t)
    &&& m.wait matches Some(t) ==> representable(t)
}

/// One task, as far as the derivation is concerned. Every record is
/// [`valid`].
#[derive(Debug, PartialEq, Eq)]
pub struct TaskRecord {
    uuid: String,
    status: Status,
    recur: Option<String>,
    due: Option<i64>,
    until: Option<i64>,
    wait: Option<i64>,
    untilrel: Attribute,
    waitrel: Attribute,
}

impl View for TaskRecord {
    type V = RecordModel;

    closed spec fn view(&self) -> RecordModel {
        RecordModel {
            uuid: self.uuid@,
            status: self.status,
            recur: rule(self.recur),
            due: instant(self.due),
            until: instant(self.until),
            wait: instant(self.wait),
            untilrel: self.untilrel@,
            waitrel: self.waitrel@,
        }
    }
}

impl TaskRecord {
    #[verifier::type_invariant]
    spec fn well_formed(self) -> bool {
        valid(self@)
    }

    /// Makes a record of the given values, if its dates can be held.
    pub fn new(
        uuid: String,
        status: Status,
        recur: Option<String>,
        due: Option<i64>,
        until: Option<i64>,
        wait: Option<i64>,
        untilrel: Attribute,
        waitrel: Attribute,
    ) -> (made: Option<TaskRecord>)
        ensures
            made is Some <==> valid(
                RecordModel {
                    uuid: uuid@,
                    status,
                    recur: rule(recur),
                    due: instant(due),
                    until: instant(until),
                    wait: instant(wait),
                    untilrel: untilrel@,
                    waitrel: waitrel@,
                },
            ),
            made matches Some(record) ==> record@ == (RecordModel {
                uuid: uuid@,
                status,
                recur: rule(recur),
                due: instant(due),
                until: instant(until),
                wait: instant(wait),
                untilrel: untilrel@,
                waitrel: waitrel@,
            }),
    {
        let due_fits = match due {
            Some(t) => leaves_room(t),
            None => true,
        };
        let until_fits = match until {
            Some(t) => is_representable(t),
            None => true,
        };
        let wait_fits = match wait {
            Some(t) => is_representable(t),
            None => true,
        };
        if due_fits && until_fits && wait_fits {
            Some(TaskRecord { uuid, status, recur, due, until, wait, untilrel, waitrel })
        } else {
            None
        }
    }

    pub fn uuid(&self) -> (id: &str)
        ensures
            id@ == self@.uuid,
    {
        self.uuid.as_str()
    }

    pub fn status(&self) -> (status: Status)
        ensures
            status == self@.status,
    {
        self.status
    }

    /// Whether the task carries a recurrence rule.
    pub fn has_recur(&self) -> (set: bool)
        ensures
            set == self@.recur.is_some(),
    {
        self.recur.is_some()
    }

    pub fn due(&self) -> (due: Option<i64>)
        ensures
            instant(due) == self@.due,
            due matches Some(t) ==> has_room(t as int),
    {
        proof {
            use_type_invariant(self);
        }
        self.due
    }

    pub fn until(&self) -> (until: Option<i64>)
        ensures
            instant(until) == self@.until,
            until matches Some(t) ==> representable(t as int),
    {
        proof {
            use_type_invariant(self);
        }
        self.until
    }

    pub fn wait(&self) -> (wait: Option<i64>)
        ensures
            instant(wait) == self@.wait,
            wait matches Some(t) ==> representable(t as int),
    {
        proof {
            use_type_invariant(self);
        }
        self.wait
    }

    pub fn untilrel(&self) -> (held: &Attribute)
        ensures
            held@ == self@.untilrel,
    {
        &self.untilrel
    }

    pub fn waitrel(&self) -> (held: &Attribute)
        ensures
            held@ == self@.waitrel,
    {
        &self.waitrel
    }

    /// The attribute held under `name`.
    pub fn attribute(&self, name: AttributeName) -> (held: &Attribute)
        ensures
            held@ == attribute_of(self@, name),
    {
        match name {
            AttributeName::Untilrel => &self.untilrel,
            AttributeName::Waitrel => &self.waitrel,
        }
    }

    /// Sets `until`, leaving everything else as it is.
    pub(crate) fn set_until(&mut self, t: i64)
        requires
            representable(t as int),
        ensures
            final(self)@ == (RecordModel { until: Some(t as int), ..old(self)@ }),
    {
        proof {
            use_type_invariant(&*self);
        }
        self.until = Some(t);
    }

    /// Sets `wait`, leaving everything else as it is.
    pub(crate) fn set_wait(&mut self, t: i64)
        requires
            representable(t as int),
        ensures
            final(self)@ == (RecordModel { wait: Some(t as int), ..old(self)@ }),
    {
        proof {
            use_type_invariant(&*self);
        }
        self.wait = Some(t);
    }
}

impl Clone for TaskRecord {
    fn clone(&self) -> (copy: TaskRecord)
        ensures
            copy@ == self@,
    {
        proof {
            use_type_invariant(self);
        }
        let recur = match &self.recur {
            Some(text) => Some(text.clone()),
            None => None,
        };
        TaskRecord {
            uuid: self.uuid.clone(),
            status: self.status,
            recur,
            due: self.due,
            until: self.until,
            wait: self.wait,
            untilrel: self.untilrel.clone(),
            waitrel: self.waitrel.clone(),
        }
    }
}

/// The attribute that a record holds under `name`.
pub open spec fn attribute_of(m: RecordModel, name: AttributeName) -> AttributeModel {
    match name {
        AttributeName::Untilrel => m.untilrel,
        AttributeName::Waitrel => m.waitrel,
    }
}

} // verus!
