//! What holds of the four operations taken together, on every table: a read
//! after a write sees what was written, and nothing else has changed.
//!
//! The laws are stated on the functions that the contracts of the adapter,
//! of the resolvers and of the table speak of.

use vstd::prelude::*;
use crate::adapter::{optional_set, owner_query, update_of, NewWikiView, PatchView};
use crate::model::{Attribute, WikiView};
use crate::protocol::{SetClauseView, StoreErrorKind, StoreErrorView};
use crate::resolver::{delete_reply, read_reply, update_reply, DeleteWikiOutput};
use crate::table::{
    acceptable, after_update, apply_sets, delete_item, distinct_ids, holds_id, put_item,
    query_answer, record_of, select, update_answer, update_item,
};

verus! {

/// The response to a read of `owner`, narrowed to `category` where one is
/// given, from a table that holds `records`.
pub open spec fn read(
    records: Seq<WikiView>,
    owner: Seq<char>,
    category: Option<Seq<char>>,
) -> Result<Option<Seq<WikiView>>, StoreErrorView> {
    read_reply(query_answer(records, owner_query(owner, category)))
}

/// Whether a read of `owner`, narrowed to `category` where one is given,
/// is to return `record`.
pub open spec fn wanted(record: WikiView, owner: Seq<char>, category: Option<Seq<char>>) -> bool {
    &&& record.owner == owner
    &&& match category {
        Some(category) => record.category == category,
        None => true,
    }
}

/// A read returns a listing, never a fault and never an absent value, and
/// the listing holds exactly the records of the owner: all of them where no
/// category is given, whatever their category, and those of the category
/// where one is given.
pub proof fn law_read_returns_the_owners_records(
    records: Seq<WikiView>,
    owner: Seq<char>,
    category: Option<Seq<char>>,
)
    ensures
        read(records, owner, category) matches Ok(Some(found)) && forall|record: WikiView|
            found.contains(record) <==> records.contains(record) && wanted(
                record,
                owner,
                category,
            ),
{
    let query = owner_query(owner, category);
    let keep = |record: WikiView| query.matches(record);
    let found = records.filter(keep);
    assert(read(records, owner, category) == Ok::<Option<Seq<WikiView>>, StoreErrorView>(
        Some(found),
    ));
    assert forall|record: WikiView| found.contains(record) implies records.contains(record)
        && wanted(record, owner, category) by {
        let i = choose|i: int| 0 <= i < found.len() && found[i] == record;
        records.lemma_filter_pred(keep, i);
        records.lemma_filter_contains_rev(keep, record);
    }
    assert forall|record: WikiView|
        records.contains(record) && wanted(record, owner, category) implies found.contains(
        record,
    ) by {
        let i = choose|i: int| 0 <= i < records.len() && records[i] == record;
        records.lemma_filter_contains(keep, i);
    }
}

/// A read with a category returns those records of the read without one
/// that have the category, and no others.
pub proof fn law_read_with_category_narrows(
    records: Seq<WikiView>,
    owner: Seq<char>,
    category: Seq<char>,
)
    ensures
        read(records, owner, Some(category)) matches Ok(Some(narrow)) && read(
            records,
            owner,
            None,
        ) matches Ok(Some(wide)) && forall|record: WikiView|
            narrow.contains(record) <==> wide.contains(record) && record.category == category,
{
    law_read_returns_the_owners_records(records, owner, Some(category));
    law_read_returns_the_owners_records(records, owner, None);
}

/// A read of an owner who has no record returns the empty listing.
pub proof fn law_read_without_records_is_empty(
    records: Seq<WikiView>,
    owner: Seq<char>,
    category: Option<Seq<char>>,
)
    requires
        forall|i: int| 0 <= i < records.len() ==> (#[trigger] records[i]).owner != owner,
    ensures
        read(records, owner, category) == Ok::<Option<Seq<WikiView>>, StoreErrorView>(
            Some(Seq::empty()),
        ),
{
    law_read_returns_the_owners_records(records, owner, category);
    let found = select(records, owner_query(owner, category));
    assert(read(records, owner, category) == Ok::<Option<Seq<WikiView>>, StoreErrorView>(
        Some(found),
    ));
    if found.len() > 0 {
        assert(found.contains(found[0]));
        assert(records.contains(found[0]));
        let i = choose|i: int| 0 <= i < records.len() && records[i] == found[0];
        assert(records[i].owner != owner);
    }
    assert(found =~= Seq::<WikiView>::empty());
}

/// Applying one list of clauses after another is applying the two lists
/// joined.
proof fn lemma_apply_joined(record: WikiView, first: Seq<SetClauseView>, then: Seq<SetClauseView>)
    ensures
        apply_sets(record, first + then) == apply_sets(apply_sets(record, first), then),
    decreases then.len(),
{
    if then.len() == 0 {
        assert(first + then =~= first);
    } else {
        assert((first + then).drop_last() =~= first + then.drop_last());
        lemma_apply_joined(record, first, then.drop_last());
    }
}

/// An optional assignment sets its attribute where it has a value and does
/// nothing where it has none.
proof fn lemma_apply_optional(record: WikiView, attribute: Attribute, value: Option<Seq<char>>)
    ensures
        apply_sets(record, optional_set(attribute, value)) == match value {
            Some(value) => record.set(attribute, value),
            None => record,
        },
{
    reveal_with_fuel(apply_sets, 2);
    match value {
        Some(v) => {
            let one = optional_set(attribute, value);
            assert(one.drop_last() =~= Seq::<SetClauseView>::empty());
        },
        None => {},
    }
}

/// The clauses built for a patch never assign `id` and never assign one
/// attribute twice.
proof fn lemma_patch_is_acceptable(patch: PatchView)
    ensures
        acceptable(patch.clauses()),
{
    let all = patch.clauses();
    assert forall|i: int| 0 <= i < all.len() implies (#[trigger] all[i]).attribute
        != Attribute::Id by {}
    assert forall|i: int, j: int| 0 <= i < j < all.len() implies (#[trigger] all[i]).attribute != (
    #[trigger] all[j]).attribute by {}
}

/// The clauses built for a patch are an update expression that the table
/// takes, and applied to a record they change the attributes that the patch
/// assigns and no others; `id` and `owner` are never among them.
pub proof fn law_patch_clauses(record: WikiView, patch: PatchView)
    ensures
        acceptable(patch.clauses()),
        apply_sets(record, patch.clauses()) == patch.applied_to(record),
        patch.applied_to(record).id == record.id,
        patch.applied_to(record).owner == record.owner,
{
    lemma_patch_is_acceptable(patch);
    let title = optional_set(Attribute::Title, patch.title);
    let text = optional_set(Attribute::Text, patch.text);
    let category = optional_set(Attribute::Category, patch.category);
    lemma_apply_joined(record, title + text, category);
    lemma_apply_joined(record, title, text);
    lemma_apply_optional(record, Attribute::Title, patch.title);
    lemma_apply_optional(apply_sets(record, title), Attribute::Text, patch.text);
    lemma_apply_optional(
        apply_sets(record, title + text),
        Attribute::Category,
        patch.category,
    );
}

/// After an update of an existing record, the record has the new value of
/// each attribute that the update names and the old value of every other
/// attribute, every other record is as it was, the response is the record
/// as it is now, and a read of the record's owner returns it so.
pub proof fn law_update_changes_what_it_names(records: Seq<WikiView>, k: int, patch: PatchView)
    requires
        distinct_ids(records),
        0 <= k < records.len(),
    ensures
        ({
            let update = update_of(records[k].id, patch);
            let after = after_update(records, update);
            let changed = patch.applied_to(records[k]);
            &&& after.len() == records.len()
            &&& after[k] == changed
            &&& forall|j: int| 0 <= j < records.len() && j != k ==> after[j] == records[j]
            &&& distinct_ids(after)
            &&& update_reply(update_answer(records, update)) == Ok::<
                Option<WikiView>,
                StoreErrorView,
            >(Some(changed))
            &&& read(after, records[k].owner, None) matches Ok(Some(found)) && found.contains(
                changed,
            )
        }),
{
    let update = update_of(records[k].id, patch);
    let after = after_update(records, update);
    let changed = patch.applied_to(records[k]);
    law_patch_clauses(records[k], patch);
    assert(after == update_item(records, update));
    assert(after[k] == changed);
    assert forall|j: int| 0 <= j < records.len() implies (#[trigger] after[j]).id
        == records[j].id by {
        if j != k {
            assert(records[j].id != records[k].id);
        }
    }
    assert(holds_id(after, update.id));
    assert(record_of(after, update.id) == Some(changed));
    let query = owner_query(records[k].owner, None);
    after.lemma_filter_contains(|record: WikiView| query.matches(record), k);
}

/// An update that names no attribute leaves every record as it was, and
/// its response is the record under the `id` as it was, or no record where
/// there is none.
pub proof fn law_update_without_assignments_changes_nothing(records: Seq<WikiView>, id: Seq<char>)
    ensures
        ({
            let nothing = PatchView { title: None, text: None, category: None };
            let update = update_of(id, nothing);
            &&& after_update(records, update) == records
            &&& update_reply(update_answer(records, update)) == Ok::<
                Option<WikiView>,
                StoreErrorView,
            >(record_of(records, id))
        }),
{
    let nothing = PatchView { title: None, text: None, category: None };
    let update = update_of(id, nothing);
    assert(update.sets =~= Seq::<SetClauseView>::empty());
    assert(update_item(records, update) =~= records);
}

/// An update of an `id` under which no record stands changes nothing, and
/// its response is no record: an absence, not a fault.
pub proof fn law_update_of_unknown_id_is_absent(
    records: Seq<WikiView>,
    id: Seq<char>,
    patch: PatchView,
)
    requires
        !holds_id(records, id),
    ensures
        after_update(records, update_of(id, patch)) == records,
        update_reply(update_answer(records, update_of(id, patch))) == Ok::<
            Option<WikiView>,
            StoreErrorView,
        >(None),
{
    let update = update_of(id, patch);
    lemma_patch_is_acceptable(patch);
    assert(update_item(records, update) =~= records);
}

/// After the removal of an `id`, no record stands under it, every other
/// record is still there, no two records share an `id` if none did before,
/// and no read returns a record with that `id`.
pub proof fn law_delete_removes_the_record(
    records: Seq<WikiView>,
    id: Seq<char>,
    owner: Seq<char>,
    category: Option<Seq<char>>,
)
    ensures
        !holds_id(delete_item(records, id), id),
        forall|record: WikiView|
            delete_item(records, id).contains(record) <==> records.contains(record) && record.id
                != id,
        distinct_ids(records) ==> distinct_ids(delete_item(records, id)),
        read(delete_item(records, id), owner, category) matches Ok(Some(found)) && forall|
            record: WikiView,
        |
            found.contains(record) ==> record.id != id,
{
    let stays = |record: WikiView| record.id != id;
    let after = records.filter(stays);
    assert forall|record: WikiView| after.contains(record) implies records.contains(record)
        && record.id != id by {
        let i = choose|i: int| 0 <= i < after.len() && after[i] == record;
        records.lemma_filter_pred(stays, i);
        records.lemma_filter_contains_rev(stays, record);
    }
    assert forall|record: WikiView| records.contains(record) && record.id != id implies after.contains(
        record,
    ) by {
        let i = choose|i: int| 0 <= i < records.len() && records[i] == record;
        records.lemma_filter_contains(stays, i);
    }
    if holds_id(after, id) {
        let i = choose|i: int| 0 <= i < after.len() && (#[trigger] after[i]).id == id;
        assert(after.contains(after[i]));
    }
    if distinct_ids(records) {
        lemma_filter_keeps_distinct(records, stays);
    }
    law_read_returns_the_owners_records(after, owner, category);
}

/// What is left of records with distinct `id`s has distinct `id`s.
proof fn lemma_filter_keeps_distinct(records: Seq<WikiView>, keep: spec_fn(WikiView) -> bool)
    requires
        distinct_ids(records),
    ensures
        distinct_ids(records.filter(keep)),
    decreases records.len(),
{
    reveal(Seq::filter);
    if records.len() > 0 {
        let rest = records.drop_last();
        let kept = rest.filter(keep);
        lemma_filter_keeps_distinct(rest, keep);
        assert forall|i: int| 0 <= i < kept.len() implies (#[trigger] kept[i]).id
            != records.last().id by {
            assert(kept.contains(kept[i]));
            rest.lemma_filter_contains_rev(keep, kept[i]);
            let j = choose|j: int| 0 <= j < rest.len() && rest[j] == kept[i];
            assert(records[j].id != records[records.len() - 1].id);
        }
    }
}

/// The removal of an `id` under which no record stands changes nothing, and
/// the response to a removal is success, also where the table reports that
/// it found no record.
pub proof fn law_delete_of_unknown_id_succeeds(
    records: Seq<WikiView>,
    id: Seq<char>,
    message: Seq<char>,
)
    requires
        !holds_id(records, id),
    ensures
        delete_item(records, id) == records,
        delete_reply(Ok(())) == Ok::<DeleteWikiOutput, StoreErrorView>(
            DeleteWikiOutput { success: true },
        ),
        delete_reply(Err(StoreErrorView { kind: StoreErrorKind::NotFound, message })) == Ok::<
            DeleteWikiOutput,
            StoreErrorView,
        >(DeleteWikiOutput { success: true }),
{
    lemma_filter_keeps_all(records, |record: WikiView| record.id != id);
}

/// A filter that every element passes changes nothing.
proof fn lemma_filter_keeps_all<A>(s: Seq<A>, keep: spec_fn(A) -> bool)
    requires
        forall|i: int| 0 <= i < s.len() ==> keep(#[trigger] s[i]),
    ensures
        s.filter(keep) == s,
    decreases s.len(),
{
    reveal(Seq::filter);
    if s.len() > 0 {
        lemma_filter_keeps_all(s.drop_last(), keep);
        assert(s.drop_last().push(s.last()) =~= s);
    }
}

/// After a record was created, it stands under its `id`, a read of its
/// owner returns it with every attribute as supplied, and no two records
/// share an `id` if none did before. Where the `id` was not in use, every
/// record that was there is still there, unchanged and in its place.
pub proof fn law_created_record_is_read_back(
    records: Seq<WikiView>,
    id: Seq<char>,
    fields: NewWikiView,
)
    requires
        distinct_ids(records),
    ensures
        ({
            let record = fields.with_id(id);
            let after = put_item(records, record);
            &&& distinct_ids(after)
            &&& record_of(after, id) == Some(record)
            &&& read(after, fields.owner, None) matches Ok(Some(found)) && found.contains(record)
            &&& !holds_id(records, id) ==> after == records.push(record)
        }),
{
    let record = fields.with_id(id);
    let after = put_item(records, record);
    let k = if holds_id(records, id) {
        choose|i: int| 0 <= i < records.len() && (#[trigger] records[i]).id == id
    } else {
        records.len() as int
    };
    assert(after[k] == record);
    assert forall|j: int| 0 <= j < after.len() implies (#[trigger] after[j]).id == (if j
        < records.len() {
        records[j].id
    } else {
        id
    }) by {}
    assert(holds_id(after, id));
    let query = owner_query(fields.owner, None);
    after.lemma_filter_contains(|record: WikiView| query.matches(record), k);
}

/// What an update expression with no attribute assigned twice leaves under
/// `attribute`: the value of the clause that assigns it, or the old value
/// where no clause does.
proof fn lemma_sets_value(record: WikiView, sets: Seq<SetClauseView>, attribute: Attribute)
    requires
        forall|i: int, j: int|
            0 <= i < j < sets.len() ==> (#[trigger] sets[i]).attribute != (
            #[trigger] sets[j]).attribute,
    ensures
        forall|i: int|
            0 <= i < sets.len() && (#[trigger] sets[i]).attribute == attribute ==> apply_sets(
                record,
                sets,
            ).get(attribute) == sets[i].value,
        (forall|i: int| 0 <= i < sets.len() ==> (#[trigger] sets[i]).attribute != attribute)
            ==> apply_sets(record, sets).get(attribute) == record.get(attribute),
    decreases sets.len(),
{
    if sets.len() > 0 {
        let rest = sets.drop_last();
        lemma_sets_value(record, rest, attribute);
        assert forall|i: int| 0 <= i < rest.len() implies #[trigger] rest[i] == sets[i] by {}
        if sets.last().attribute != attribute {
            assert forall|i: int|
                0 <= i < sets.len() && (#[trigger] sets[i]).attribute == attribute implies apply_sets(
                record,
                sets,
            ).get(attribute) == sets[i].value by {
                assert(rest[i] == sets[i]);
            }
        } else {
            assert forall|i: int| 0 <= i < rest.len() implies (#[trigger] rest[i]).attribute
                != attribute by {
                assert(rest[i] == sets[i]);
            }
        }
    }
}

/// The order of the clauses of an update expression does not matter: two
/// expressions that the table takes and that hold the same clauses leave
/// the same record.
pub proof fn law_clause_order_is_immaterial(
    record: WikiView,
    one: Seq<SetClauseView>,
    other: Seq<SetClauseView>,
)
    requires
        acceptable(one),
        acceptable(other),
        forall|clause: SetClauseView| one.contains(clause) <==> other.contains(clause),
    ensures
        apply_sets(record, one) == apply_sets(record, other),
{
    let left = apply_sets(record, one);
    let right = apply_sets(record, other);
    assert forall|attribute: Attribute| left.get(attribute) == right.get(attribute) by {
        lemma_sets_value(record, one, attribute);
        lemma_sets_value(record, other, attribute);
        if exists|i: int| 0 <= i < one.len() && (#[trigger] one[i]).attribute == attribute {
            let i = choose|i: int| 0 <= i < one.len() && (#[trigger] one[i]).attribute == attribute;
            assert(one.contains(one[i]));
            let j = choose|j: int| 0 <= j < other.len() && other[j] == one[i];
            assert(other[j].attribute == attribute);
        } else {
            assert forall|j: int| 0 <= j < other.len() implies (#[trigger] other[j]).attribute
                != attribute by {
                assert(other.contains(other[j]));
                let i = choose|i: int| 0 <= i < one.len() && one[i] == other[j];
                assert(one[i].attribute == other[j].attribute);
            }
        }
    }
    assert(left.get(Attribute::Id) == right.get(Attribute::Id));
    assert(left.get(Attribute::Owner) == right.get(Attribute::Owner));
    assert(left.get(Attribute::Text) == right.get(Attribute::Text));
    assert(left.get(Attribute::Title) == right.get(Attribute::Title));
    assert(left.get(Attribute::Category) == right.get(Attribute::Category));
}

} // verus!
