use wiki_api::adapter::{create, delete, put_request, query_by_owner, update, NewWiki, Patch};
use wiki_api::model::{Attribute, TableWiki, Wiki};
use wiki_api::protocol::{
    Condition, DeleteRequest, PutRequest, QueryRequest, SetClause, UpdateRequest,
};
use wiki_api::resolver::{Mutation, Query, UpdateWikiInput};

fn set(attribute: Attribute, value: &str) -> SetClause {
    SetClause { attribute, value: value.to_string() }
}

#[test]
fn attribute_names() {
    assert_eq!(Attribute::Id.name(), "id");
    assert_eq!(Attribute::Owner.name(), "owner");
    assert_eq!(Attribute::Text.name(), "text");
    assert_eq!(Attribute::Title.name(), "title");
    assert_eq!(Attribute::Category.name(), "category");
}

#[test]
fn record_attributes_are_read_and_set_one_by_one() {
    let mut record = TableWiki {
        id: "i".to_string(),
        owner: "o".to_string(),
        text: "x".to_string(),
        title: "t".to_string(),
        category: "c".to_string(),
    };
    assert_eq!(record.attribute(Attribute::Id), "i");
    assert_eq!(record.attribute(Attribute::Owner), "o");
    assert_eq!(record.attribute(Attribute::Text), "x");
    assert_eq!(record.attribute(Attribute::Title), "t");
    assert_eq!(record.attribute(Attribute::Category), "c");

    record.set_attribute(Attribute::Title, "T".to_string());
    assert_eq!(
        record,
        TableWiki {
            id: "i".to_string(),
            owner: "o".to_string(),
            text: "x".to_string(),
            title: "T".to_string(),
            category: "c".to_string(),
        }
    );
    record.set_attribute(Attribute::Id, "I".to_string());
    record.set_attribute(Attribute::Owner, "O".to_string());
    record.set_attribute(Attribute::Text, "X".to_string());
    record.set_attribute(Attribute::Category, "C".to_string());
    assert_eq!(
        record,
        TableWiki {
            id: "I".to_string(),
            owner: "O".to_string(),
            text: "X".to_string(),
            title: "T".to_string(),
            category: "C".to_string(),
        }
    );
    assert_eq!(record.clone(), record);
}

#[test]
fn table_record_projects_onto_the_interface_shape() {
    let record = TableWiki {
        id: "i".to_string(),
        owner: "o".to_string(),
        text: "x".to_string(),
        title: "t".to_string(),
        category: "c".to_string(),
    };
    let wiki: Wiki = record.into();
    assert_eq!(
        wiki,
        Wiki {
            id: "i".to_string(),
            owner: "o".to_string(),
            text: "x".to_string(),
            title: "t".to_string(),
            category: "c".to_string(),
        }
    );
}

#[test]
fn condition_holds_of_the_records_with_its_value() {
    let record = TableWiki {
        id: "i".to_string(),
        owner: "o".to_string(),
        text: "x".to_string(),
        title: "t".to_string(),
        category: "c".to_string(),
    };
    let on = |attribute: Attribute, value: &str| Condition { attribute, value: value.to_string() };
    assert!(on(Attribute::Owner, "o").holds(&record));
    assert!(!on(Attribute::Owner, "c").holds(&record));
    assert!(on(Attribute::Category, "c").holds(&record));
    assert!(!on(Attribute::Category, "").holds(&record));
    assert!(on(Attribute::Id, "i").holds(&record));
    assert!(!on(Attribute::Title, "T").holds(&record));
}

#[test]
fn query_by_owner_without_category() {
    let expected = QueryRequest {
        index: Attribute::Owner,
        key_condition: Condition { attribute: Attribute::Owner, value: "u1".to_string() },
        filter: None,
    };
    assert_eq!(query_by_owner("u1".to_string(), None), expected);
    assert_eq!(Query.wiki("u1".to_string(), None), expected);
    assert_eq!(expected.index.name(), "owner");
}

#[test]
fn query_by_owner_with_category() {
    let expected = QueryRequest {
        index: Attribute::Owner,
        key_condition: Condition { attribute: Attribute::Owner, value: "u1".to_string() },
        filter: Some(Condition { attribute: Attribute::Category, value: "c1".to_string() }),
    };
    assert_eq!(query_by_owner("u1".to_string(), Some("c1".to_string())), expected);
    assert_eq!(Query.wiki("u1".to_string(), Some("c1".to_string())), expected);
}

#[test]
fn put_request_holds_the_record_under_the_id_given() {
    let fields = NewWiki {
        title: "A".to_string(),
        owner: "u1".to_string(),
        text: "hello".to_string(),
        category: "c1".to_string(),
    };
    assert_eq!(
        put_request("9m4e2mr0ui3e8a215n4g".to_string(), fields),
        PutRequest {
            item: TableWiki {
                id: "9m4e2mr0ui3e8a215n4g".to_string(),
                owner: "u1".to_string(),
                text: "hello".to_string(),
                title: "A".to_string(),
                category: "c1".to_string(),
            },
        }
    );
}

#[test]
fn create_generates_the_id_and_keeps_the_fields() {
    let fields = || NewWiki {
        title: "A".to_string(),
        owner: "u1".to_string(),
        text: "hello".to_string(),
        category: "c1".to_string(),
    };
    let first = create(fields()).item;
    let second = create(fields()).item;
    for item in [&first, &second] {
        assert_eq!(item.id.len(), 20);
        assert!(item.id.chars().all(|c| matches!(c, '0'..='9' | 'a'..='v')));
        assert_eq!(item.title, "A");
        assert_eq!(item.owner, "u1");
        assert_eq!(item.text, "hello");
        assert_eq!(item.category, "c1");
    }
    assert_ne!(first.id, second.id);
}

#[test]
fn update_builds_one_clause_for_each_assigned_attribute() {
    let patch = |title: Option<&str>, text: Option<&str>, category: Option<&str>| Patch {
        title: title.map(|s| s.to_string()),
        text: text.map(|s| s.to_string()),
        category: category.map(|s| s.to_string()),
    };
    let request = |sets: Vec<SetClause>| UpdateRequest {
        id: "i".to_string(),
        sets,
        return_all_new: true,
    };
    assert_eq!(update("i".to_string(), patch(None, None, None)), request(vec![]));
    assert_eq!(
        update("i".to_string(), patch(Some("T"), None, None)),
        request(vec![set(Attribute::Title, "T")])
    );
    assert_eq!(
        update("i".to_string(), patch(None, Some("x"), None)),
        request(vec![set(Attribute::Text, "x")])
    );
    assert_eq!(
        update("i".to_string(), patch(None, None, Some("c"))),
        request(vec![set(Attribute::Category, "c")])
    );
    assert_eq!(
        update("i".to_string(), patch(Some("T"), None, Some("c"))),
        request(vec![set(Attribute::Title, "T"), set(Attribute::Category, "c")])
    );
    assert_eq!(
        update("i".to_string(), patch(Some("T"), Some("x"), Some("c"))),
        request(vec![
            set(Attribute::Title, "T"),
            set(Attribute::Text, "x"),
            set(Attribute::Category, "c"),
        ])
    );
}

#[test]
fn update_wiki_takes_only_the_supplied_fields() {
    let request = Mutation.update_wiki(UpdateWikiInput {
        id: "i".to_string(),
        title: None,
        text: Some("".to_string()),
        category: Some("c".to_string()),
    });
    assert_eq!(
        request,
        UpdateRequest {
            id: "i".to_string(),
            sets: vec![set(Attribute::Text, ""), set(Attribute::Category, "c")],
            return_all_new: true,
        }
    );
}

#[test]
fn delete_names_the_id() {
    assert_eq!(delete("i".to_string()), DeleteRequest { id: "i".to_string() });
    assert_eq!(Mutation.delete_wiki("".to_string()), DeleteRequest { id: "".to_string() });
}
