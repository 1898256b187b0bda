//! The four operations of the interface. Each comes in two halves, with the
//! round trip to the table between them: the first half turns the typed
//! arguments into the request to send, the second turns the table's answer
//! into the response. No half keeps any state.
//!
//! That an addressed record does not exist is never reported as a fault: it
//! becomes an empty listing, an absent record or a plain success. Every
//! other fault is handed on as it came.

use vstd::prelude::*;
use crate::adapter::{
    create, delete, is_generated_id, owner_query, query_by_owner, update, update_of, NewWiki,
    NewWikiView, Patch, PatchView,
};
use crate::model::{TableWiki, Wiki, WikiView};
use crate::protocol::{
    reply_view, DeleteRequest, PutRequest, QueryRequest, StoreError, StoreErrorKind,
    StoreErrorView, UpdateRequest,
};

verus! {

/// The reading operations.
pub struct Query;

/// The writing operations.
pub struct Mutation;

/// What a caller supplies to have a record created. All four attributes are
/// required; the identifier is not the caller's to choose.
#[derive(Clone, Debug, PartialEq, Eq)]
pub struct CreateWikiInput {
    pub title: String,
    pub owner: String,
    pub text: String,
    pub category: String,
}

impl View for CreateWikiInput {
    type V = NewWikiView;

    open spec fn view(&self) -> NewWikiView {
        NewWikiView {
            title: self.title@,
            owner: self.owner@,
            text: self.text@,
            category: self.category@,
        }
    }
}

/// What a caller supplies to have a record changed: its `id`, and a new
/// value for each attribute that is to change. An attribute left out keeps
/// its value; no attribute can be cleared, and `owner` cannot be named.
#[derive(Clone, Debug, PartialEq, Eq)]
pub struct UpdateWikiInput {
    pub id: String,
    pub title: Option<String>,
    pub text: Option<String>,
    pub category: Option<String>,
}

pub struct UpdateWikiInputView {
    pub id: Seq<char>,
    pub title: Option<Seq<char>>,
    pub text: Option<Seq<char>>,
    pub category: Option<Seq<char>>,
}

impl View for UpdateWikiInput {
    type V = UpdateWikiInputView;

    open spec fn view(&self) -> UpdateWikiInputView {
        UpdateWikiInputView {
            id: self.id@,
            title: self.title.deep_view(),
            text: self.text.deep_view(),
            category: self.category.deep_view(),
        }
    }
}

impl UpdateWikiInputView {
    /// The assignments that the caller supplied, and no others.
    pub open spec fn patch(self) -> PatchView {
        PatchView { title: self.title, text: self.text, category: self.category }
    }
}

/// The response to a delete.
#[derive(Clone, Copy, Debug, PartialEq, Eq, Structural)]
pub struct DeleteWikiOutput {
    pub success: bool,
}

impl DeepView for DeleteWikiOutput {
    type V = DeleteWikiOutput;

    open spec fn deep_view(&self) -> DeleteWikiOutput {
        *self
    }
}

/// The response to a read: the records found, which may be none. No record
/// under the owner is an empty listing, and so is the table's report that
/// it found nothing.
pub open spec fn read_reply(answer: Result<Seq<WikiView>, StoreErrorView>) -> Result<
    Option<Seq<WikiView>>,
    StoreErrorView,
> {
    match answer {
        Ok(records) => Ok(Some(records)),
        Err(fault) => if fault.kind == StoreErrorKind::NotFound {
            Ok(Some(Seq::empty()))
        } else {
            Err(fault)
        },
    }
}

/// The response to a create: the record written.
pub open spec fn create_reply(answer: Result<WikiView, StoreErrorView>) -> Result<
    Option<WikiView>,
    StoreErrorView,
> {
    match answer {
        Ok(record) => Ok(Some(record)),
        Err(fault) => Err(fault),
    }
}

/// The response to an update: the record as it is after the update, or no
/// record where none stands under the `id`.
pub open spec fn update_reply(answer: Result<Option<WikiView>, StoreErrorView>) -> Result<
    Option<WikiView>,
    StoreErrorView,
> {
    match answer {
        Ok(record) => Ok(record),
        Err(fault) => if fault.kind == StoreErrorKind::NotFound {
            Ok(None)
        } else {
            Err(fault)
        },
    }
}

/// The response to a delete: success, also where no record stood under the
/// `id`.
pub open spec fn delete_reply(answer: Result<(), StoreErrorView>) -> Result<
    DeleteWikiOutput,
    StoreErrorView,
> {
    match answer {
        Ok(_) => Ok(DeleteWikiOutput { success: true }),
        Err(fault) => if fault.kind == StoreErrorKind::NotFound {
            Ok(DeleteWikiOutput { success: true })
        } else {
            Err(fault)
        },
    }
}

/// Projects each record onto the interface's shape, in the order given.
fn project(items: Vec<TableWiki>) -> (wikis: Vec<Wiki>)
    ensures
        wikis.deep_view() == items.deep_view(),
{
    let mut wikis: Vec<Wiki> = Vec::new();
    let mut i: usize = 0;
    while i < items.len()
        invariant
            i <= items.len(),
            wikis.len() == i,
            forall|k: int| 0 <= k < i ==> (#[trigger] wikis@[k])@ == items@[k]@,
        decreases items.len() - i,
    {
        wikis.push(Wiki::from(items[i].clone()));
        i += 1;
    }
    assert(wikis.deep_view() =~= items.deep_view());
    wikis
}

impl Query {
    /// The request that finds the records of `owner`, narrowed to
    /// `category` where one is given.
    pub fn wiki(&self, owner: String, category: Option<String>) -> (request: QueryRequest)
        ensures
            request@ == owner_query(owner@, category.deep_view()),
    {
        query_by_owner(owner, category)
    }

    /// Turns the table's answer to the query into the response.
    pub fn wiki_reply(&self, answer: Result<Vec<TableWiki>, StoreError>) -> (reply: Result<
        Option<Vec<Wiki>>,
        StoreError,
    >)
        ensures
            reply_view(reply) == read_reply(reply_view(answer)),
    {
        match answer {
            Ok(items) => Ok(Some(project(items))),
            Err(fault) => {
                if fault.kind == StoreErrorKind::NotFound {
                    let none: Vec<Wiki> = Vec::new();
                    assert(none.deep_view() =~= Seq::<WikiView>::empty());
                    Ok(Some(none))
                } else {
                    Err(fault)
                }
            },
        }
    }
}

impl Mutation {
    /// The request that writes a new record with the attributes of `input`
    /// under an identifier generated for it.
    pub fn create_wiki(&self, input: CreateWikiInput) -> (request: PutRequest)
        ensures
            is_generated_id(request@.item.id),
            request@.item == input@.with_id(request@.item.id),
    {
        create(
            NewWiki {
                title: input.title,
                owner: input.owner,
                text: input.text,
                category: input.category,
            },
        )
    }

    /// Turns the table's answer to the write into the response.
    pub fn create_wiki_reply(&self, answer: Result<TableWiki, StoreError>) -> (reply: Result<
        Option<Wiki>,
        StoreError,
    >)
        ensures
            reply_view(reply) == create_reply(reply_view(answer)),
    {
        match answer {
            Ok(item) => Ok(Some(Wiki::from(item))),
            Err(fault) => Err(fault),
        }
    }

    /// The request that removes the record under `id`.
    pub fn delete_wiki(&self, id: String) -> (request: DeleteRequest)
        ensures
            request@.id == id@,
    {
        delete(id)
    }

    /// Turns the table's answer to the removal into the response.
    pub fn delete_wiki_reply(&self, answer: Result<(), StoreError>) -> (reply: Result<
        DeleteWikiOutput,
        StoreError,
    >)
        ensures
            reply_view(reply) == delete_reply(reply_view(answer)),
    {
        match answer {
            Ok(_) => Ok(DeleteWikiOutput { success: true }),
            Err(fault) => {
                if fault.kind == StoreErrorKind::NotFound {
                    Ok(DeleteWikiOutput { success: true })
                } else {
                    Err(fault)
                }
            },
        }
    }

    /// The request that changes the record under the input's `id`: one
    /// assignment for each attribute that the caller supplied.
    pub fn update_wiki(&self, input: UpdateWikiInput) -> (request: UpdateRequest)
        ensures
            request@ == update_of(input@.id, input@.patch()),
    {
        let patch = Patch { title: input.title, text: input.text, category: input.category };
        update(input.id, patch)
    }

    /// Turns the table's answer to the update into the response.
    pub fn update_wiki_reply(&self, answer: Result<Option<TableWiki>, StoreError>) -> (reply:
        Result<Option<Wiki>, StoreError>)
        ensures
            reply_view(reply) == update_reply(reply_view(answer)),
    {
        match answer {
            Ok(Some(item)) => Ok(Some(Wiki::from(item))),
            Ok(None) => Ok(None),
            Err(fault) => {
                if fault.kind == StoreErrorKind::NotFound {
                    Ok(None)
                } else {
                    Err(fault)
                }
            },
        }
    }
}

} // verus!
