use wiki_api::model::{Attribute, TableWiki};
use wiki_api::protocol::{
    Condition, DeleteRequest, PutRequest, QueryRequest, SetClause, StoreError, StoreErrorKind,
    UpdateRequest,
};
use wiki_api::table::Table;

fn record(id: &str, owner: &str, category: &str) -> TableWiki {
    TableWiki {
        id: id.to_string(),
        owner: owner.to_string(),
        text: format!("text of {}", id),
        title: format!("title of {}", id),
        category: category.to_string(),
    }
}

fn on(attribute: Attribute, value: &str) -> Condition {
    Condition { attribute, value: value.to_string() }
}

fn set(attribute: Attribute, value: &str) -> SetClause {
    SetClause { attribute, value: value.to_string() }
}

fn by_owner(owner: &str) -> QueryRequest {
    QueryRequest { index: Attribute::Owner, key_condition: on(Attribute::Owner, owner), filter: None }
}

fn filled() -> Table {
    let mut table = Table::new();
    for item in [record("1", "u1", "c1"), record("2", "u2", "c1"), record("3", "u1", "c2")] {
        assert_eq!(table.put(PutRequest { item: item.clone() }), Ok(item));
    }
    table
}

#[test]
fn new_table_is_empty() {
    let table = Table::new();
    assert_eq!(table.len(), 0);
    assert_eq!(table.query(by_owner("u1")), Ok(vec![]));
}

#[test]
fn query_filters_what_the_key_condition_found() {
    let table = filled();
    assert_eq!(
        table.query(by_owner("u1")),
        Ok(vec![record("1", "u1", "c1"), record("3", "u1", "c2")])
    );
    let mut narrowed = by_owner("u1");
    narrowed.filter = Some(on(Attribute::Category, "c2"));
    assert_eq!(table.query(narrowed), Ok(vec![record("3", "u1", "c2")]));
    let mut by_title = by_owner("u1");
    by_title.filter = Some(on(Attribute::Title, "title of 1"));
    assert_eq!(table.query(by_title), Ok(vec![record("1", "u1", "c1")]));
    assert_eq!(table.query(by_owner("u3")), Ok(vec![]));
}

#[test]
fn query_on_another_index_or_key_is_refused() {
    let table = filled();
    let refusal = StoreError {
        kind: StoreErrorKind::Query,
        message: "the key condition must be on the key of the index named owner".to_string(),
    };
    let mut wrong_index = by_owner("u1");
    wrong_index.index = Attribute::Category;
    assert_eq!(table.query(wrong_index), Err(refusal.clone()));
    let mut wrong_key = by_owner("c1");
    wrong_key.key_condition.attribute = Attribute::Category;
    assert_eq!(table.query(wrong_key), Err(refusal));
}

#[test]
fn put_replaces_the_record_under_the_same_id() {
    let mut table = filled();
    let replacement = record("2", "u1", "c9");
    assert_eq!(table.put(PutRequest { item: replacement.clone() }), Ok(replacement.clone()));
    assert_eq!(table.len(), 3);
    assert_eq!(
        table.query(by_owner("u1")),
        Ok(vec![record("1", "u1", "c1"), replacement, record("3", "u1", "c2")])
    );
    assert_eq!(table.query(by_owner("u2")), Ok(vec![]));
}

#[test]
fn update_applies_the_clauses_and_returns_the_new_record() {
    let mut table = filled();
    let request = UpdateRequest {
        id: "3".to_string(),
        sets: vec![set(Attribute::Category, "c7"), set(Attribute::Title, "T")],
        return_all_new: true,
    };
    let mut expected = record("3", "u1", "c7");
    expected.title = "T".to_string();
    assert_eq!(table.update(request), Ok(Some(expected.clone())));
    assert_eq!(table.query(by_owner("u1")), Ok(vec![record("1", "u1", "c1"), expected]));
}

#[test]
fn update_may_move_a_record_to_another_owner() {
    let mut table = filled();
    let request = UpdateRequest {
        id: "2".to_string(),
        sets: vec![set(Attribute::Owner, "u1")],
        return_all_new: true,
    };
    assert_eq!(table.update(request), Ok(Some(record("2", "u1", "c1"))));
    assert_eq!(table.query(by_owner("u2")), Ok(vec![]));
}

#[test]
fn update_that_asks_for_nothing_back_returns_nothing() {
    let mut table = filled();
    let request = UpdateRequest {
        id: "1".to_string(),
        sets: vec![set(Attribute::Text, "new")],
        return_all_new: false,
    };
    assert_eq!(table.update(request), Ok(None));
    let mut expected = record("1", "u1", "c1");
    expected.text = "new".to_string();
    assert_eq!(table.query(by_owner("u1")), Ok(vec![expected, record("3", "u1", "c2")]));
}

#[test]
fn update_of_a_missing_id_changes_nothing() {
    let mut table = filled();
    let request = UpdateRequest {
        id: "4".to_string(),
        sets: vec![set(Attribute::Text, "new")],
        return_all_new: true,
    };
    assert_eq!(table.update(request), Ok(None));
    assert_eq!(table.len(), 3);
    assert_eq!(
        table.query(by_owner("u1")),
        Ok(vec![record("1", "u1", "c1"), record("3", "u1", "c2")])
    );
}

#[test]
fn update_of_the_key_or_of_one_attribute_twice_is_refused() {
    let mut table = filled();
    let refusal = StoreError {
        kind: StoreErrorKind::Write,
        message: "a clause assigns the key, or two clauses assign one attribute".to_string(),
    };
    let on_key = UpdateRequest {
        id: "1".to_string(),
        sets: vec![set(Attribute::Text, "new"), set(Attribute::Id, "9")],
        return_all_new: true,
    };
    assert_eq!(table.update(on_key), Err(refusal.clone()));
    let twice = UpdateRequest {
        id: "1".to_string(),
        sets: vec![
            set(Attribute::Text, "new"),
            set(Attribute::Title, "T"),
            set(Attribute::Text, "newer"),
        ],
        return_all_new: true,
    };
    assert_eq!(table.update(twice), Err(refusal));
    assert_eq!(
        table.query(by_owner("u1")),
        Ok(vec![record("1", "u1", "c1"), record("3", "u1", "c2")])
    );
}

#[test]
fn update_does_not_depend_on_the_order_of_its_clauses() {
    let clauses = [set(Attribute::Category, "c7"), set(Attribute::Title, "T"), set(Attribute::Text, "x")];
    let orders: [[usize; 3]; 6] = [[0, 1, 2], [0, 2, 1], [1, 0, 2], [1, 2, 0], [2, 0, 1], [2, 1, 0]];
    let expected = TableWiki {
        id: "1".to_string(),
        owner: "u1".to_string(),
        text: "x".to_string(),
        title: "T".to_string(),
        category: "c7".to_string(),
    };
    for order in orders {
        let mut table = filled();
        let request = UpdateRequest {
            id: "1".to_string(),
            sets: order.iter().map(|&i| clauses[i].clone()).collect(),
            return_all_new: true,
        };
        assert_eq!(table.update(request), Ok(Some(expected.clone())));
    }
}

#[test]
fn delete_removes_the_record_under_the_id() {
    let mut table = filled();
    assert_eq!(table.delete(DeleteRequest { id: "1".to_string() }), Ok(()));
    assert_eq!(table.len(), 2);
    assert_eq!(table.query(by_owner("u1")), Ok(vec![record("3", "u1", "c2")]));
    assert_eq!(table.delete(DeleteRequest { id: "1".to_string() }), Ok(()));
    assert_eq!(table.delete(DeleteRequest { id: "9".to_string() }), Ok(()));
    assert_eq!(table.len(), 2);
}
