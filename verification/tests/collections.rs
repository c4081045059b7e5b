use mongodb::bson::oid::ObjectId;
use mongodb::bson::Document;
use rustplatform::collections::{
    aggregate_step, create, create_step, delete, delete_step, read_step, update, update_step,
    CommandEvent, CreateAction, CreateState, DeleteAction, DeleteEvent, DeleteState, UpdateAction,
    UpdateEvent, UpdateState,
};
use rustplatform::model::{Descriptor, ValidationAction, ValidationLevel};

fn s(x: &str) -> String {
    x.to_string()
}

fn doc_with(key: &str, value: i32) -> Document {
    let mut d = Document::new();
    d.insert(key, value);
    d
}

fn descriptor(name: &str, schema_field: &str) -> Descriptor {
    Descriptor {
        id: ObjectId::parse_str("65a1b2c3d4e5f60718293a4b").unwrap(),
        name: s(name),
        created: 5,
        listrule: None,
        viewrule: Some(s("@request.auth.id != ''")),
        createrule: None,
        updaterule: None,
        deleterule: None,
        modified: None,
        schemas: doc_with(schema_field, 1),
    }
}

#[test]
fn read_keeps_values_and_skips_errors() {
    let mut found: Vec<i32> = Vec::new();
    let items: Vec<Result<i32, String>> = vec![Ok(1), Err(s("bad")), Ok(2), Ok(3), Err(s("x"))];
    for item in items {
        read_step(&mut found, item);
    }
    assert_eq!(found, vec![1, 2, 3]);
}

#[test]
fn aggregate_keeps_last_document_with_fields() {
    let items: Vec<Result<Document, String>> = vec![
        Ok(doc_with("a", 1)),
        Ok(doc_with("b", 2)),
        Ok(Document::new()),
        Err(s("cursor error")),
    ];
    let mut current = None;
    for item in items {
        current = aggregate_step(current, item);
    }
    assert_eq!(current, Some(doc_with("b", 2)));
}

#[test]
fn aggregate_of_empty_documents_is_none() {
    let mut current = None;
    for item in vec![Ok::<Document, String>(Document::new()), Err(s("e"))] {
        current = aggregate_step(current, item);
    }
    assert_eq!(current, None);
}

#[test]
fn create_registers_then_creates() {
    let (st, a) = create::<String>(descriptor("books", "title"));
    assert_eq!(
        a,
        CreateAction::RegisterDescriptor { name: s("books"), descriptor: descriptor("books", "title") }
    );
    let (st, a) = create_step(st, CommandEvent::<String>::Succeeded);
    assert_eq!(
        a,
        CreateAction::CreateCollection {
            name: s("books"),
            validator: doc_with("title", 1),
            action: ValidationAction::Error,
            level: ValidationLevel::Moderate,
        }
    );
    let (st, a) = create_step(st, CommandEvent::<String>::Succeeded);
    assert_eq!(a, CreateAction::Finish(Ok(())));
    assert_eq!(st, CreateState::Done);
}

#[test]
fn create_stops_at_first_failure() {
    let (st, _) = create::<String>(descriptor("books", "title"));
    let (st, a) = create_step(st, CommandEvent::Failed(s("denied")));
    assert_eq!(a, CreateAction::Finish(Err(s("denied"))));
    assert_eq!(st, CreateState::Done);
    let (st, _) = create::<String>(descriptor("books", "title"));
    let (st, _) = create_step(st, CommandEvent::<String>::Succeeded);
    let (_, a) = create_step(st, CommandEvent::Failed(s("exists")));
    assert_eq!(a, CreateAction::Finish(Err(s("exists"))));
}

#[test]
fn update_parses_the_descriptor_id() {
    let hex = "65a1b2c3d4e5f60718293a4B";
    let (st, a) = update::<String>(hex, descriptor("books", "title"));
    assert_eq!(
        a,
        UpdateAction::ReplaceDescriptor {
            id: ObjectId::parse_str(hex).unwrap(),
            replacement: descriptor("books", "title"),
        }
    );
    assert_eq!(
        a,
        UpdateAction::ReplaceDescriptor {
            id: ObjectId::parse_str("65a1b2c3d4e5f60718293a4b").unwrap(),
            replacement: descriptor("books", "title"),
        }
    );
    assert_eq!(
        st,
        UpdateState::AwaitPrevious { new_name: s("books"), schemas: doc_with("title", 1) }
    );
}

#[test]
fn update_renames_when_name_changes() {
    let (st, _) = update::<String>("65a1b2c3d4e5f60718293a4b", descriptor("novels", "author"));
    let (st, a) = update_step(st, UpdateEvent::<String>::Replaced(Some(s("books"))));
    assert_eq!(
        a,
        UpdateAction::RenameCollection { from: s("rustplatform.books"), to: s("rustplatform.novels") }
    );
    let (st, a) = update_step(st, UpdateEvent::<String>::Succeeded);
    assert_eq!(a, UpdateAction::SetValidator { name: s("novels"), validator: doc_with("author", 1) });
    let (st, a) = update_step(st, UpdateEvent::<String>::Succeeded);
    assert_eq!(a, UpdateAction::Finish(Ok(())));
    assert_eq!(st, UpdateState::Done);
}

#[test]
fn update_keeps_name_sets_validator() {
    let (st, _) = update::<String>("65a1b2c3d4e5f60718293a4b", descriptor("books", "isbn"));
    let (st, a) = update_step(st, UpdateEvent::<String>::Replaced(Some(s("books"))));
    assert_eq!(a, UpdateAction::SetValidator { name: s("books"), validator: doc_with("isbn", 1) });
    assert_eq!(st, UpdateState::AwaitValidator);
}

#[test]
fn update_of_missing_descriptor_does_nothing() {
    let (st, _) = update::<String>("65a1b2c3d4e5f60718293a4b", descriptor("books", "title"));
    let (st, a) = update_step(st, UpdateEvent::<String>::Replaced(None));
    assert_eq!(a, UpdateAction::Finish(Ok(())));
    assert_eq!(st, UpdateState::Done);
}

#[test]
fn update_failure_is_returned() {
    let (st, _) = update::<String>("65a1b2c3d4e5f60718293a4b", descriptor("novels", "title"));
    let (st, _) = update_step(st, UpdateEvent::<String>::Replaced(Some(s("books"))));
    let (_, a) = update_step(st, UpdateEvent::Failed(s("rename refused")));
    assert_eq!(a, UpdateAction::Finish(Err(s("rename refused"))));
}

#[test]
fn delete_drops_collection_and_reports_it() {
    let hex = "0123456789abcdef01234567";
    let (st, a) = delete(hex);
    assert_eq!(a, DeleteAction::DeleteDescriptor { id: ObjectId::parse_str(hex).unwrap() });
    let (st, a) = delete_step(st, DeleteEvent::Deleted(Some(s("books"))));
    assert_eq!(a, DeleteAction::DropCollection { name: s("books") });
    let (st, a) = delete_step(st, DeleteEvent::Dropped);
    assert_eq!(a, DeleteAction::Finish(Ok(s("deleted collection: books"))));
    assert_eq!(st, DeleteState::Done);
}

#[test]
fn delete_of_missing_descriptor_is_an_error() {
    let (st, _) = delete("0123456789abcdef01234567");
    let (_, a) = delete_step(st, DeleteEvent::Deleted(None));
    assert_eq!(a, DeleteAction::Finish(Err(s("Can't find collection"))));
}

#[test]
fn delete_failures_are_returned_as_text() {
    let (st, _) = delete("0123456789abcdef01234567");
    let (_, a) = delete_step(st, DeleteEvent::Failed(s("lookup failed")));
    assert_eq!(a, DeleteAction::Finish(Err(s("lookup failed"))));
    let (st, _) = delete("0123456789abcdef01234567");
    let (st, _) = delete_step(st, DeleteEvent::Deleted(Some(s("books"))));
    let (_, a) = delete_step(st, DeleteEvent::Failed(s("drop failed")));
    assert_eq!(a, DeleteAction::Finish(Err(s("drop failed"))));
}
