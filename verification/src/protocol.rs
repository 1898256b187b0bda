//! What the table understands: a query on the secondary index, an
//! unconditional put, an update made of `SET` clauses, a delete by key, and
//! the faults it answers with.

use vstd::prelude::*;
use crate::model::{Attribute, TableWiki, WikiView};

verus! {

/// The test `attribute = value` on one record.
#[derive(Clone, Debug, PartialEq, Eq)]
pub struct Condition {
    pub attribute: Attribute,
    pub value: String,
}

pub struct ConditionView {
    pub attribute: Attribute,
    pub value: Seq<char>,
}

impl View for Condition {
    type V = ConditionView;

    open spec fn view(&self) -> ConditionView {
        ConditionView { attribute: self.attribute, value: self.value@ }
    }
}

impl DeepView for Condition {
    type V = ConditionView;

    open spec fn deep_view(&self) -> ConditionView {
        self@
    }
}

impl ConditionView {
    /// Whether `record` holds the condition's value under its attribute.
    pub open spec fn holds(self, record: WikiView) -> bool {
        record.get(self.attribute) == self.value
    }
}

impl Condition {
    /// Whether `record` holds the condition's value under its attribute.
    pub fn holds(&self, record: &TableWiki) -> (held: bool)
        ensures
            held == self@.holds(record@),
    {
        *record.attribute(self.attribute) == self.value
    }
}

/// A query on a secondary index: the key condition picks the records, the
/// filter, if there is one, is applied to what the key condition picked.
#[derive(Clone, Debug, PartialEq, Eq)]
pub struct QueryRequest {
    pub index: Attribute,
    pub key_condition: Condition,
    pub filter: Option<Condition>,
}

pub struct QueryView {
    pub index: Attribute,
    pub key_condition: ConditionView,
    pub filter: Option<ConditionView>,
}

impl View for QueryRequest {
    type V = QueryView;

    open spec fn view(&self) -> QueryView {
        QueryView {
            index: self.index,
            key_condition: self.key_condition@,
            filter: self.filter.deep_view(),
        }
    }
}

impl QueryView {
    /// Whether the query returns `record`: the key condition holds of it,
    /// and so does the filter, if there is one.
    pub open spec fn matches(self, record: WikiView) -> bool {
        &&& self.key_condition.holds(record)
        &&& match self.filter {
            Some(filter) => filter.holds(record),
            None => true,
        }
    }
}

/// An unconditional write of one whole record.
#[derive(Clone, Debug, PartialEq, Eq)]
pub struct PutRequest {
    pub item: TableWiki,
}

pub struct PutView {
    pub item: WikiView,
}

impl View for PutRequest {
    type V = PutView;

    open spec fn view(&self) -> PutView {
        PutView { item: self.item@ }
    }
}

/// One clause of an update expression: `SET attribute = value`.
#[derive(Clone, Debug, PartialEq, Eq)]
pub struct SetClause {
    pub attribute: Attribute,
    pub value: String,
}

pub struct SetClauseView {
    pub attribute: Attribute,
    pub value: Seq<char>,
}

impl View for SetClause {
    type V = SetClauseView;

    open spec fn view(&self) -> SetClauseView {
        SetClauseView { attribute: self.attribute, value: self.value@ }
    }
}

impl DeepView for SetClause {
    type V = SetClauseView;

    open spec fn deep_view(&self) -> SetClauseView {
        self@
    }
}

/// An update of the record under `id` by a list of `SET` clauses. With
/// `return_all_new` the table answers with the record as it is after the
/// update.
#[derive(Clone, Debug, PartialEq, Eq)]
pub struct UpdateRequest {
    pub id: String,
    pub sets: Vec<SetClause>,
    pub return_all_new: bool,
}

pub struct UpdateView {
    pub id: Seq<char>,
    pub sets: Seq<SetClauseView>,
    pub return_all_new: bool,
}

impl View for UpdateRequest {
    type V = UpdateView;

    open spec fn view(&self) -> UpdateView {
        UpdateView {
            id: self.id@,
            sets: self.sets.deep_view(),
            return_all_new: self.return_all_new,
        }
    }
}

/// The removal of the record under `id`.
#[derive(Clone, Debug, PartialEq, Eq)]
pub struct DeleteRequest {
    pub id: String,
}

pub struct DeleteView {
    pub id: Seq<char>,
}

impl View for DeleteRequest {
    type V = DeleteView;

    open spec fn view(&self) -> DeleteView {
        DeleteView { id: self.id@ }
    }
}

/// The kinds of fault that the table reports.
#[derive(Clone, Copy, Debug, PartialEq, Eq, Structural)]
pub enum StoreErrorKind {
    /// The addressed record does not exist.
    NotFound,
    /// A query was refused or failed.
    Query,
    /// A put, update or delete was refused or failed.
    Write,
    /// The table could not be reached.
    Unavailable,
}

/// A fault reported by the table, with the table's own words.
#[derive(Clone, Debug, PartialEq, Eq)]
pub struct StoreError {
    pub kind: StoreErrorKind,
    pub message: String,
}

pub struct StoreErrorView {
    pub kind: StoreErrorKind,
    pub message: Seq<char>,
}

impl View for StoreError {
    type V = StoreErrorView;

    open spec fn view(&self) -> StoreErrorView {
        StoreErrorView { kind: self.kind, message: self.message@ }
    }
}

/// The mathematical value of an answer of the table, or of what is made of
/// one: the view of what it carries, or the view of the fault.
pub open spec fn reply_view<T: DeepView>(reply: Result<T, StoreError>) -> Result<
    T::V,
    StoreErrorView,
> {
    match reply {
        Ok(value) => Ok(value.deep_view()),
        Err(fault) => Err(fault@),
    }
}

} // verus!
