//! The store adapter: the one place that turns an intent on wiki records
//! (find by owner, create, change some attributes, delete) into a request in
//! the table's own terms.

use vstd::prelude::*;
use crate::model::{Attribute, TableWiki, WikiView};
use crate::protocol::{
    Condition, ConditionView, DeleteRequest, PutRequest, QueryRequest, QueryView, SetClause,
    SetClauseView, UpdateRequest, UpdateView,
};

verus! {

/// A record that has no identifier yet: what a caller supplies to have a
/// record created.
#[derive(Clone, Debug, PartialEq, Eq)]
pub struct NewWiki {
    pub title: String,
    pub owner: String,
    pub text: String,
    pub category: String,
}

pub struct NewWikiView {
    pub title: Seq<char>,
    pub owner: Seq<char>,
    pub text: Seq<char>,
    pub category: Seq<char>,
}

impl View for NewWiki {
    type V = NewWikiView;

    open spec fn view(&self) -> NewWikiView {
        NewWikiView {
            title: self.title@,
            owner: self.owner@,
            text: self.text@,
            category: self.category@,
        }
    }
}

impl NewWikiView {
    /// The full record that these attributes make under `id`.
    pub open spec fn with_id(self, id: Seq<char>) -> WikiView {
        WikiView {
            id,
            owner: self.owner,
            text: self.text,
            title: self.title,
            category: self.category,
        }
    }
}

/// The attributes that an update assigns. An attribute that is `None` is not
/// part of the update. A record's `id` and `owner` cannot be named.
#[derive(Clone, Debug, PartialEq, Eq)]
pub struct Patch {
    pub title: Option<String>,
    pub text: Option<String>,
    pub category: Option<String>,
}

pub struct PatchView {
    pub title: Option<Seq<char>>,
    pub text: Option<Seq<char>>,
    pub category: Option<Seq<char>>,
}

impl View for Patch {
    type V = PatchView;

    open spec fn view(&self) -> PatchView {
        PatchView {
            title: self.title.deep_view(),
            text: self.text.deep_view(),
            category: self.category.deep_view(),
        }
    }
}

/// The clause that assigns `value` to `attribute`, or no clause where there
/// is no value.
pub open spec fn optional_set(attribute: Attribute, value: Option<Seq<char>>) -> Seq<
    SetClauseView,
> {
    match value {
        Some(value) => seq![SetClauseView { attribute, value }],
        None => Seq::empty(),
    }
}

impl PatchView {
    /// One `SET` clause for each attribute that the patch assigns, and none
    /// for the others.
    pub open spec fn clauses(self) -> Seq<SetClauseView> {
        optional_set(Attribute::Title, self.title) + optional_set(Attribute::Text, self.text)
            + optional_set(Attribute::Category, self.category)
    }

    /// The record after the patch: each assigned attribute has its new
    /// value, every other attribute the value it had.
    pub open spec fn applied_to(self, record: WikiView) -> WikiView {
        WikiView {
            id: record.id,
            owner: record.owner,
            text: match self.text {
                Some(text) => text,
                None => record.text,
            },
            title: match self.title {
                Some(title) => title,
                None => record.title,
            },
            category: match self.category {
                Some(category) => category,
                None => record.category,
            },
        }
    }
}

/// The query for the records of `owner`: a key condition on the index named
/// for `owner`, and a filter on `category` where one is asked for.
pub open spec fn owner_query(owner: Seq<char>, category: Option<Seq<char>>) -> QueryView {
    QueryView {
        index: Attribute::Owner,
        key_condition: ConditionView { attribute: Attribute::Owner, value: owner },
        filter: match category {
            Some(category) => Some(
                ConditionView { attribute: Attribute::Category, value: category },
            ),
            None => None,
        },
    }
}

/// Builds the query for the records of `owner`, narrowed to `category` where
/// one is given. The table applies the filter to what the index lookup
/// found, so a filter saves no read on the index.
pub fn query_by_owner(owner: String, category: Option<String>) -> (request: QueryRequest)
    ensures
        request@ == owner_query(owner@, category.deep_view()),
{
    let key_condition = Condition { attribute: Attribute::Owner, value: owner };
    let filter = match category {
        Some(category) => Some(Condition { attribute: Attribute::Category, value: category }),
        None => None,
    };
    QueryRequest { index: Attribute::Owner, key_condition, filter }
}

/// Whether `c` is a character of the generator's alphabet, `0` to `9` and
/// `a` to `v`.
pub open spec fn is_id_char(c: char) -> bool {
    ('0' <= c && c <= '9') || ('a' <= c && c <= 'v')
}

/// Whether `id` has the shape of a generated identifier: 20 characters of
/// the generator's alphabet.
pub open spec fn is_generated_id(id: Seq<char>) -> bool {
    &&& id.len() == 20
    &&& forall|i: int| 0 <= i < id.len() ==> is_id_char(#[trigger] id[i])
}

/// Asks `xid::new` for an identifier and renders it with the `Display` impl
/// of `xid::Id`. Trusted, not proved: the text is 20 characters long, each
/// of them one of `0` to `9` or `a` to `v`. Nothing is claimed of which
/// identifier comes back: it is made of the clock, the machine, the process
/// and a counter. `xid::new` panics where the system clock stands before
/// the Unix epoch.
#[verifier::external_body]
fn new_id() -> (id: String)
    ensures
        is_generated_id(id@),
{
    xid::new().to_string()
}

/// Builds the write of the record that `fields` make under `id`. The write
/// is unconditional.
pub fn put_request(id: String, fields: NewWiki) -> (request: PutRequest)
    ensures
        request@.item == fields@.with_id(id@),
{
    PutRequest {
        item: TableWiki {
            id,
            owner: fields.owner,
            text: fields.text,
            title: fields.title,
            category: fields.category,
        },
    }
}

/// Builds the write of a new record: generates its identifier, then builds
/// the write of `fields` under it. The caller has no say in the identifier.
pub fn create(fields: NewWiki) -> (request: PutRequest)
    ensures
        is_generated_id(request@.item.id),
        request@.item == fields@.with_id(request@.item.id),
{
    let id = new_id();
    put_request(id, fields)
}

/// The update of the record under `id` by `patch`: the patch's clauses, and
/// the demand to have the record back as it is after the update, so that no
/// second trip to the table is needed.
pub open spec fn update_of(id: Seq<char>, patch: PatchView) -> UpdateView {
    UpdateView { id, sets: patch.clauses(), return_all_new: true }
}

/// Builds the update of the record under `id`: one `SET` clause for each
/// attribute that `patch` assigns, none for the others, and the demand to
/// have the record back as it is after the update.
pub fn update(id: String, patch: Patch) -> (request: UpdateRequest)
    ensures
        request@ == update_of(id@, patch@),
{
    let mut sets: Vec<SetClause> = Vec::new();
    if let Some(title) = patch.title {
        sets.push(SetClause { attribute: Attribute::Title, value: title });
    }
    assert(sets.deep_view() =~= optional_set(Attribute::Title, patch@.title));
    let ghost before_text = sets.deep_view();
    if let Some(text) = patch.text {
        sets.push(SetClause { attribute: Attribute::Text, value: text });
    }
    assert(sets.deep_view() =~= before_text + optional_set(Attribute::Text, patch@.text));
    let ghost before_category = sets.deep_view();
    if let Some(category) = patch.category {
        sets.push(SetClause { attribute: Attribute::Category, value: category });
    }
    assert(sets.deep_view() =~= before_category + optional_set(
        Attribute::Category,
        patch@.category,
    ));
    UpdateRequest { id, sets, return_all_new: true }
}

/// Builds the removal of the record under `id`.
pub fn delete(id: String) -> (request: DeleteRequest)
    ensures
        request@.id == id@,
{
    DeleteRequest { id }
}

} // verus!
