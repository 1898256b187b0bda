//! What the table does with each request, stated on a sequence of records,
//! and a table in memory that does exactly that.
//!
//! The records stand in the order in which the index on `owner` returns
//! them. No two of them share an `id`.

use vstd::prelude::*;
use crate::model::{Attribute, TableWiki, WikiView};
use crate::protocol::{
    reply_view, DeleteRequest, PutRequest, QueryRequest, QueryView, SetClause, SetClauseView,
    StoreError, StoreErrorKind, StoreErrorView, UpdateRequest, UpdateView,
};

verus! {

/// No two records share an `id`.
pub open spec fn distinct_ids(records: Seq<WikiView>) -> bool {
    forall|i: int, j: int| 0 <= i < j < records.len() ==> records[i].id != records[j].id
}

/// Some record stands under `id`.
pub open spec fn holds_id(records: Seq<WikiView>, id: Seq<char>) -> bool {
    exists|i: int| 0 <= i < records.len() && (#[trigger] records[i]).id == id
}

/// The record under `id`, if there is one.
pub open spec fn record_of(records: Seq<WikiView>, id: Seq<char>) -> Option<WikiView> {
    if holds_id(records, id) {
        Some(records[choose|i: int| 0 <= i < records.len() && (#[trigger] records[i]).id == id])
    } else {
        None
    }
}

/// The table has one secondary index, on `owner`. It answers a query that
/// names this index and puts its key condition on the index's key.
pub open spec fn answerable(query: QueryView) -> bool {
    query.index == Attribute::Owner && query.key_condition.attribute == Attribute::Owner
}

/// The records that `query` returns, in the table's order.
pub open spec fn select(records: Seq<WikiView>, query: QueryView) -> Seq<WikiView> {
    records.filter(|record: WikiView| query.matches(record))
}

/// The fault that answers a query which the table cannot serve.
pub open spec fn query_refusal() -> StoreErrorView {
    StoreErrorView {
        kind: StoreErrorKind::Query,
        message: "the key condition must be on the key of the index named owner"@,
    }
}

/// The table's answer to `query`.
pub open spec fn query_answer(records: Seq<WikiView>, query: QueryView) -> Result<
    Seq<WikiView>,
    StoreErrorView,
> {
    if answerable(query) {
        Ok(select(records, query))
    } else {
        Err(query_refusal())
    }
}

/// The records after `item` was put: it stands in the place of the record
/// that had its `id`, or at the end where there was none.
pub open spec fn put_item(records: Seq<WikiView>, item: WikiView) -> Seq<WikiView> {
    if holds_id(records, item.id) {
        records.map_values(
            |record: WikiView|
                if record.id == item.id {
                    item
                } else {
                    record
                },
        )
    } else {
        records.push(item)
    }
}

/// The record after the clauses were applied, first to last.
pub open spec fn apply_sets(record: WikiView, sets: Seq<SetClauseView>) -> WikiView
    decreases sets.len(),
{
    if sets.len() == 0 {
        record
    } else {
        apply_sets(record, sets.drop_last()).set(sets.last().attribute, sets.last().value)
    }
}

/// The table takes an update expression in which no clause assigns the key
/// `id` and no two clauses assign the same attribute.
pub open spec fn acceptable(sets: Seq<SetClauseView>) -> bool {
    &&& forall|i: int| 0 <= i < sets.len() ==> (#[trigger] sets[i]).attribute != Attribute::Id
    &&& forall|i: int, j: int|
        0 <= i < j < sets.len() ==> (#[trigger] sets[i]).attribute != (#[trigger] sets[j]).attribute
}

/// The fault that answers an update expression which the table does not take.
pub open spec fn update_refusal() -> StoreErrorView {
    StoreErrorView {
        kind: StoreErrorKind::Write,
        message: "a clause assigns the key, or two clauses assign one attribute"@,
    }
}

/// The records with the clauses of `update` applied to the record under its
/// `id`. Where no record stands under it, nothing changes.
pub open spec fn update_item(records: Seq<WikiView>, update: UpdateView) -> Seq<WikiView> {
    records.map_values(
        |record: WikiView|
            if record.id == update.id {
                apply_sets(record, update.sets)
            } else {
                record
            },
    )
}

/// The records after `update` was handed to the table.
pub open spec fn after_update(records: Seq<WikiView>, update: UpdateView) -> Seq<WikiView> {
    if acceptable(update.sets) {
        update_item(records, update)
    } else {
        records
    }
}

/// The table's answer to `update`: the record as it is after the update
/// where that was asked for and the record exists, nothing where it was not
/// asked for or no record stands under the `id`.
pub open spec fn update_answer(records: Seq<WikiView>, update: UpdateView) -> Result<
    Option<WikiView>,
    StoreErrorView,
> {
    if !acceptable(update.sets) {
        Err(update_refusal())
    } else if update.return_all_new {
        Ok(record_of(update_item(records, update), update.id))
    } else {
        Ok(None)
    }
}

/// The records without the one under `id`.
pub open spec fn delete_item(records: Seq<WikiView>, id: Seq<char>) -> Seq<WikiView> {
    records.filter(|record: WikiView| record.id != id)
}

/// Filtering one record more either appends it or changes nothing.
proof fn lemma_filter_next<A>(s: Seq<A>, keep: spec_fn(A) -> bool, i: int)
    requires
        0 <= i < s.len(),
    ensures
        s.take(i + 1).filter(keep) == if keep(s[i]) {
            s.take(i).filter(keep).push(s[i])
        } else {
            s.take(i).filter(keep)
        },
{
    reveal(Seq::filter);
    assert(s.take(i + 1).drop_last() =~= s.take(i));
}

/// Clauses that do not assign `id` leave it as it was.
proof fn lemma_sets_keep_id(record: WikiView, sets: Seq<SetClauseView>)
    requires
        forall|i: int| 0 <= i < sets.len() ==> (#[trigger] sets[i]).attribute != Attribute::Id,
    ensures
        apply_sets(record, sets).id == record.id,
    decreases sets.len(),
{
    if sets.len() > 0 {
        lemma_sets_keep_id(record, sets.drop_last());
    }
}

/// A table in memory that treats each request as the functions above say.
pub struct Table {
    items: Vec<TableWiki>,
}

impl View for Table {
    type V = Seq<WikiView>;

    closed spec fn view(&self) -> Seq<WikiView> {
        self.items.deep_view()
    }
}

/// Whether the update expression is one that the table takes.
fn takes_sets(sets: &Vec<SetClause>) -> (ok: bool)
    ensures
        ok == acceptable(sets.deep_view()),
{
    let ghost clauses = sets.deep_view();
    let mut j: usize = 0;
    while j < sets.len()
        invariant
            j <= sets.len(),
            clauses == sets.deep_view(),
            forall|i: int| 0 <= i < j ==> (#[trigger] clauses[i]).attribute != Attribute::Id,
            forall|a: int, b: int|
                0 <= a < b < j ==> (#[trigger] clauses[a]).attribute != (
                #[trigger] clauses[b]).attribute,
        decreases sets.len() - j,
    {
        if sets[j].attribute == Attribute::Id {
            assert(clauses[j as int].attribute == Attribute::Id);
            return false;
        }
        let mut i: usize = 0;
        while i < j
            invariant
                i <= j < sets.len(),
                clauses == sets.deep_view(),
                forall|a: int| 0 <= a < i ==> (#[trigger] clauses[a]).attribute != clauses[j as int].attribute,
            decreases j - i,
        {
            if sets[i].attribute == sets[j].attribute {
                assert(clauses[i as int].attribute == clauses[j as int].attribute);
                return false;
            }
            i += 1;
        }
        j += 1;
    }
    true
}

/// Applies the clauses to `record`, first to last.
fn apply(record: TableWiki, sets: &Vec<SetClause>) -> (changed: TableWiki)
    ensures
        changed@ == apply_sets(record@, sets.deep_view()),
{
    let ghost clauses = sets.deep_view();
    let mut changed = record;
    let mut i: usize = 0;
    while i < sets.len()
        invariant
            i <= sets.len(),
            clauses == sets.deep_view(),
            changed@ == apply_sets(record@, clauses.take(i as int)),
        decreases sets.len() - i,
    {
        assert(clauses.take(i + 1).drop_last() =~= clauses.take(i as int));
        changed.set_attribute(sets[i].attribute, sets[i].value.clone());
        i += 1;
    }
    assert(clauses.take(sets.len() as int) =~= clauses);
    changed
}

impl Table {
    /// The table's invariant: no two records share an `id`.
    pub open spec fn wf(&self) -> bool {
        distinct_ids(self@)
    }

    /// A table without records.
    pub fn new() -> (table: Table)
        ensures
            table.wf(),
            table@ == Seq::<WikiView>::empty(),
    {
        let table = Table { items: Vec::new() };
        assert(table@ =~= Seq::<WikiView>::empty());
        table
    }

    /// The number of records.
    pub fn len(&self) -> (n: usize)
        ensures
            n == self@.len(),
    {
        self.items.len()
    }

    /// Where the record under `id` stands, if there is one.
    fn position(&self, id: &String) -> (at: Option<usize>)
        ensures
            match at {
                Some(k) => k < self@.len() && self@[k as int].id == id@,
                None => !holds_id(self@, id@),
            },
    {
        let mut k: usize = 0;
        while k < self.items.len()
            invariant
                k <= self.items.len(),
                forall|i: int| 0 <= i < k ==> (#[trigger] self@[i]).id != id@,
            decreases self.items.len() - k,
        {
            if self.items[k].id == *id {
                return Some(k);
            }
            k += 1;
        }
        None
    }

    /// Answers a query: the records that match it, in the table's order. A
    /// query that the table cannot serve is answered with a fault.
    pub fn query(&self, request: QueryRequest) -> (answer: Result<Vec<TableWiki>, StoreError>)
        ensures
            reply_view(answer) == query_answer(self@, request@),
    {
        if !(request.index == Attribute::Owner && request.key_condition.attribute
            == Attribute::Owner) {
            return Err(
                StoreError {
                    kind: StoreErrorKind::Query,
                    message: "the key condition must be on the key of the index named owner".to_owned(),
                },
            );
        }
        let mut found: Vec<TableWiki> = Vec::new();
        let mut i: usize = 0;
        assert(self@.take(0).filter(|record: WikiView| request@.matches(record)) =~= Seq::<
            WikiView,
        >::empty()) by {
            reveal(Seq::filter);
        }
        while i < self.items.len()
            invariant
                i <= self.items.len(),
                found.deep_view() == select(self@.take(i as int), request@),
            decreases self.items.len() - i,
        {
            proof {
                lemma_filter_next(self@, |record: WikiView| request@.matches(record), i as int);
            }
            let record = &self.items[i];
            let keep = request.key_condition.holds(record) && match &request.filter {
                Some(filter) => filter.holds(record),
                None => true,
            };
            if keep {
                let ghost before = found.deep_view();
                found.push(record.clone());
                assert(found.deep_view() =~= before.push(self@[i as int]));
            }
            i += 1;
        }
        assert(self@.take(self.items.len() as int) =~= self@);
        Ok(found)
    }

    /// Writes the request's record, in the place of the one that had its
    /// `id` or as a new one, and answers with the record written.
    pub fn put(&mut self, request: PutRequest) -> (answer: Result<TableWiki, StoreError>)
        requires
            old(self).wf(),
        ensures
            final(self).wf(),
            final(self)@ == put_item(old(self)@, request@.item),
            reply_view(answer) == Ok::<WikiView, StoreErrorView>(request@.item),
    {
        let written = request.item.clone();
        match self.position(&request.item.id) {
            Some(k) => {
                self.items.set(k, request.item);
            },
            None => {
                self.items.push(request.item);
            },
        }
        assert(self@ =~= put_item(old(self)@, request@.item));
        Ok(written)
    }

    /// Applies the request's clauses to the record under its `id` and
    /// answers with the record as it is then, where that was asked for. No
    /// record under the `id` is no fault: nothing changes and the answer
    /// holds no record. An update expression that the table does not take
    /// changes nothing and is answered with a fault.
    pub fn update(&mut self, request: UpdateRequest) -> (answer: Result<
        Option<TableWiki>,
        StoreError,
    >)
        requires
            old(self).wf(),
        ensures
            final(self).wf(),
            final(self)@ == after_update(old(self)@, request@),
            reply_view(answer) == update_answer(old(self)@, request@),
    {
        if !takes_sets(&request.sets) {
            return Err(
                StoreError {
                    kind: StoreErrorKind::Write,
                    message: "a clause assigns the key, or two clauses assign one attribute".to_owned(),
                },
            );
        }
        match self.position(&request.id) {
            Some(k) => {
                let changed = apply(self.items[k].clone(), &request.sets);
                let returned = changed.clone();
                proof {
                    lemma_sets_keep_id(old(self)@[k as int], request@.sets);
                }
                self.items.set(k, changed);
                assert(self@ =~= update_item(old(self)@, request@));
                assert(self@[k as int].id == request@.id);
                if request.return_all_new {
                    Ok(Some(returned))
                } else {
                    Ok(None)
                }
            },
            None => {
                assert(self@ =~= update_item(old(self)@, request@));
                Ok(None)
            },
        }
    }

    /// Removes the record under the request's `id`. No record under it is
    /// no fault.
    pub fn delete(&mut self, request: DeleteRequest) -> (answer: Result<(), StoreError>)
        requires
            old(self).wf(),
        ensures
            final(self).wf(),
            final(self)@ == delete_item(old(self)@, request@.id),
            answer is Ok,
    {
        let mut kept: Vec<TableWiki> = Vec::new();
        let mut i: usize = 0;
        let ghost stays = |record: WikiView| record.id != request@.id;
        assert(self@.take(0).filter(stays) =~= Seq::<WikiView>::empty()) by {
            reveal(Seq::filter);
        }
        while i < self.items.len()
            invariant
                i <= self.items.len(),
                self.wf(),
                stays == |record: WikiView| record.id != request@.id,
                kept.deep_view() == self@.take(i as int).filter(stays),
                distinct_ids(kept.deep_view()),
                forall|a: int, b: int|
                    0 <= a < kept.len() && i <= b < self@.len() ==> (#[trigger] kept.deep_view()[a]).id
                        != (#[trigger] self@[b]).id,
            decreases self.items.len() - i,
        {
            proof {
                lemma_filter_next(self@, stays, i as int);
            }
            if self.items[i].id != request.id {
                let ghost before = kept.deep_view();
                kept.push(self.items[i].clone());
                assert(kept.deep_view() =~= before.push(self@[i as int]));
            }
            i += 1;
        }
        assert(self@.take(self.items.len() as int) =~= self@);
        self.items = kept;
        Ok(())
    }
}

} // verus!
