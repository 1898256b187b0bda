//! The wiki record as the table holds it and as the interface returns it.

use vstd::prelude::*;

verus! {

/// The five attributes of a wiki record.
#[derive(Clone, Copy, Debug, PartialEq, Eq, Structural)]
pub enum Attribute {
    Id,
    Owner,
    Text,
    Title,
    Category,
}

impl Attribute {
    /// The attribute's name in the table.
    pub open spec fn spec_name(self) -> Seq<char> {
        match self {
            Attribute::Id => "id"@,
            Attribute::Owner => "owner"@,
            Attribute::Text => "text"@,
            Attribute::Title => "title"@,
            Attribute::Category => "category"@,
        }
    }

    /// The attribute's name in the table. The secondary index on `owner`
    /// carries the name of its attribute.
    pub fn name(self) -> (name: &'static str)
        ensures
            name@ == self.spec_name(),
    {
        match self {
            Attribute::Id => "id",
            Attribute::Owner => "owner",
            Attribute::Text => "text",
            Attribute::Title => "title",
            Attribute::Category => "category",
        }
    }
}

/// The mathematical value of a wiki record: its five attributes as sequences
/// of characters.
pub struct WikiView {
    pub id: Seq<char>,
    pub owner: Seq<char>,
    pub text: Seq<char>,
    pub title: Seq<char>,
    pub category: Seq<char>,
}

impl WikiView {
    /// The value that the record holds under `attribute`.
    pub open spec fn get(self, attribute: Attribute) -> Seq<char> {
        match attribute {
            Attribute::Id => self.id,
            Attribute::Owner => self.owner,
            Attribute::Text => self.text,
            Attribute::Title => self.title,
            Attribute::Category => self.category,
        }
    }

    /// The record with `value` under `attribute` and every other attribute
    /// as it was.
    pub open spec fn set(self, attribute: Attribute, value: Seq<char>) -> WikiView {
        match attribute {
            Attribute::Id => WikiView { id: value, ..self },
            Attribute::Owner => WikiView { owner: value, ..self },
            Attribute::Text => WikiView { text: value, ..self },
            Attribute::Title => WikiView { title: value, ..self },
            Attribute::Category => WikiView { category: value, ..self },
        }
    }
}

/// A wiki record in the table's own shape. `id` is the partition key.
#[derive(Debug, PartialEq, Eq)]
pub struct TableWiki {
    pub id: String,
    pub owner: String,
    pub text: String,
    pub title: String,
    pub category: String,
}

/// A wiki record as the interface returns it: the same five attributes.
#[derive(Clone, Debug, PartialEq, Eq)]
pub struct Wiki {
    pub id: String,
    pub owner: String,
    pub text: String,
    pub title: String,
    pub category: String,
}

impl View for TableWiki {
    type V = WikiView;

    open spec fn view(&self) -> WikiView {
        WikiView {
            id: self.id@,
            owner: self.owner@,
            text: self.text@,
            title: self.title@,
            category: self.category@,
        }
    }
}

impl DeepView for TableWiki {
    type V = WikiView;

    open spec fn deep_view(&self) -> WikiView {
        self@
    }
}

impl View for Wiki {
    type V = WikiView;

    open spec fn view(&self) -> WikiView {
        WikiView {
            id: self.id@,
            owner: self.owner@,
            text: self.text@,
            title: self.title@,
            category: self.category@,
        }
    }
}

impl DeepView for Wiki {
    type V = WikiView;

    open spec fn deep_view(&self) -> WikiView {
        self@
    }
}

impl Clone for TableWiki {
    fn clone(&self) -> (copy: TableWiki)
        ensures
            copy == *self,
    {
        TableWiki {
            id: self.id.clone(),
            owner: self.owner.clone(),
            text: self.text.clone(),
            title: self.title.clone(),
            category: self.category.clone(),
        }
    }
}

impl TableWiki {
    /// The value that the record holds under `attribute`.
    pub fn attribute(&self, attribute: Attribute) -> (value: &String)
        ensures
            value@ == self@.get(attribute),
    {
        match attribute {
            Attribute::Id => &self.id,
            Attribute::Owner => &self.owner,
            Attribute::Text => &self.text,
            Attribute::Title => &self.title,
            Attribute::Category => &self.category,
        }
    }

    /// Puts `value` under `attribute` and leaves every other attribute as it was.
    pub fn set_attribute(&mut self, attribute: Attribute, value: String)
        ensures
            final(self)@ == old(self)@.set(attribute, value@),
    {
        match attribute {
            Attribute::Id => { self.id = value; },
            Attribute::Owner => { self.owner = value; },
            Attribute::Text => { self.text = value; },
            Attribute::Title => { self.title = value; },
            Attribute::Category => { self.category = value; },
        }
    }
}

impl From<TableWiki> for Wiki {
    /// Projects a table record onto the interface's shape, attribute by
    /// attribute. The projection is total and loses nothing.
    fn from(item: TableWiki) -> (wiki: Wiki)
        ensures
            wiki@ == item@,
    {
        Wiki {
            id: item.id,
            owner: item.owner,
            text: item.text,
            title: item.title,
            category: item.category,
        }
    }
}

impl vstd::std_specs::convert::FromSpecImpl<TableWiki> for Wiki {
    open spec fn obeys_from_spec() -> bool {
        true
    }

    open spec fn from_spec(item: TableWiki) -> Wiki {
        Wiki {
            id: item.id,
            owner: item.owner,
            text: item.text,
            title: item.title,
            category: item.category,
        }
    }
}

} // verus!
