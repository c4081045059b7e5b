use vstd::prelude::*;

use mongodb::bson::oid::ObjectId;
use mongodb::bson::Document;

use crate::db_types::{
    copy_document, document_is_empty, document_keys, is_object_id_hex, object_id_from_hex,
    parse_object_id,
};
use crate::model::{Descriptor, ValidationAction, ValidationLevel};

verus! {

// ----------------------------------------------------------------------
// Reading the collection descriptors
// ----------------------------------------------------------------------

/// The values of the successful results, in order.
pub open spec fn ok_values<T, E>(items: Seq<Result<T, E>>) -> Seq<T> {
    items.filter_map(
        |r: Result<T, E>|
            match r {
                Ok(v) => Some(v),
                Err(_) => None,
            },
    )
}

/// What reading one more cursor result does to the values read so far.
pub open spec fn read_step_spec<T, E>(found: Seq<T>, item: Result<T, E>) -> Seq<T> {
    match item {
        Ok(v) => found.push(v),
        Err(_) => found,
    }
}

/// Takes one result of a descriptor cursor: a value is kept, an error is
/// skipped.
pub fn read_step<T, E>(found: &mut Vec<T>, item: Result<T, E>)
    ensures
        final(found)@ == read_step_spec(old(found)@, item),
{
    match item {
        Ok(v) => found.push(v),
        Err(_) => {},
    }
}

/// Reading a cursor result by result, starting from nothing, keeps exactly
/// the successful values, in cursor order.
pub proof fn lemma_read_keeps_ok_values<T, E>(items: Seq<Result<T, E>>)
    ensures
        items.fold_left(Seq::<T>::empty(), |acc: Seq<T>, r: Result<T, E>| read_step_spec(acc, r))
            == ok_values(items),
    decreases items.len(),
{
    if items.len() > 0 {
        lemma_read_keeps_ok_values(items.drop_last());
        match items.last() {
            Ok(v) => {
                assert(ok_values(items.drop_last()).push(v) =~= ok_values(items.drop_last())
                    + seq![v]);
            },
            Err(_) => {},
        }
    }
}

// ----------------------------------------------------------------------
// Aggregation results
// ----------------------------------------------------------------------

/// A document with at least one field.
pub open spec fn has_fields(doc: Document) -> bool {
    document_keys(doc).len() != 0
}

/// What taking one more aggregation result does to the document kept so far.
pub open spec fn aggregate_step_spec<E>(current: Option<Document>, item: Result<Document, E>) -> Option<Document> {
    match item {
        Ok(d) => if has_fields(d) {
            Some(d)
        } else {
            current
        },
        Err(_) => current,
    }
}

/// The last successful result that has a field, if any.
pub open spec fn last_with_fields<E>(items: Seq<Result<Document, E>>) -> Option<Document>
    decreases items.len(),
{
    if items.len() == 0 {
        None
    } else {
        match items.last() {
            Ok(d) => if has_fields(d) {
                Some(d)
            } else {
                last_with_fields(items.drop_last())
            },
            Err(_) => last_with_fields(items.drop_last()),
        }
    }
}

/// Takes one result of an aggregation cursor: a document with a field
/// replaces the one kept; an empty document or an error leaves it.
pub fn aggregate_step<E>(current: Option<Document>, item: Result<Document, E>) -> (next: Option<
    Document,
>)
    ensures
        next == aggregate_step_spec(current, item),
{
    match item {
        Ok(d) => {
            if !document_is_empty(&d) {
                Some(d)
            } else {
                current
            }
        },
        Err(_) => current,
    }
}

/// Taking an aggregation's results one by one, starting from nothing, keeps
/// the last result that has a field.
pub proof fn lemma_aggregate_keeps_last_with_fields<E>(items: Seq<Result<Document, E>>)
    ensures
        items.fold_left(
            None,
            |acc: Option<Document>, r: Result<Document, E>| aggregate_step_spec(acc, r),
        ) == last_with_fields(items),
    decreases items.len(),
{
    if items.len() > 0 {
        lemma_aggregate_keeps_last_with_fields(items.drop_last());
    }
}

// ----------------------------------------------------------------------
// Creating a collection
// ----------------------------------------------------------------------

/// The outcome of a database command.
#[derive(Debug, PartialEq)]
pub enum CommandEvent<E> {
    Succeeded,
    Failed(E),
}

/// Where a collection creation stands.
#[derive(Debug, PartialEq)]
pub enum CreateState {
    /// Waiting for the descriptor named `name`, whose schema is `schemas`, to
    /// be stored if absent.
    AwaitRegister { name: String, schemas: Document },
    /// Waiting for the collection itself to be created.
    AwaitCreate,
    Done,
}

/// What the caller must do next.
#[derive(Debug, PartialEq)]
pub enum CreateAction<E> {
    /// Upsert into the descriptors with the filter `{"name": name}` and the
    /// update `{"$setOnInsert": descriptor}`: the descriptor is stored only
    /// when none has that name.
    RegisterDescriptor { name: String, descriptor: Descriptor },
    /// Create the collection `name` with the validator `validator`, the
    /// validation action `action` and the validation level `level`.
    CreateCollection {
        name: String,
        validator: Document,
        action: ValidationAction,
        level: ValidationLevel,
    },
    Finish(Result<(), E>),
}

pub open spec fn create_transition<E>(
    s: CreateState,
    e: CommandEvent<E>,
    next: CreateState,
    act: CreateAction<E>,
) -> bool {
    match (s, e) {
        (CreateState::AwaitRegister { name, schemas }, CommandEvent::Succeeded) => {
            &&& next == CreateState::AwaitCreate
            &&& act == CreateAction::<E>::CreateCollection {
                name,
                validator: schemas,
                action: ValidationAction::Error,
                level: ValidationLevel::Moderate,
            }
        },
        (CreateState::AwaitCreate, CommandEvent::Succeeded) => {
            &&& next == CreateState::Done
            &&& act == CreateAction::<E>::Finish(Ok(()))
        },
        (CreateState::Done, _) => false,
        (_, CommandEvent::Failed(err)) => {
            &&& next == CreateState::Done
            &&& act == CreateAction::<E>::Finish(Err(err))
        },
    }
}

/// Creates the collection that `descriptor` describes: the first action
/// stores the descriptor under its name.
pub fn create<E>(descriptor: Descriptor) -> (res: (CreateState, CreateAction<E>))
    ensures
        res.0 == (CreateState::AwaitRegister {
            name: descriptor.name,
            schemas: descriptor.schemas,
        }),
        res.1 == (CreateAction::<E>::RegisterDescriptor { name: descriptor.name, descriptor }),
{
    let name = descriptor.name.clone();
    let schemas = copy_document(&descriptor.schemas);
    let key = descriptor.name.clone();
    (
        CreateState::AwaitRegister { name, schemas },
        CreateAction::RegisterDescriptor { name: key, descriptor },
    )
}

/// Advances a collection creation by the outcome of its last action.
pub fn create_step<E>(s: CreateState, e: CommandEvent<E>) -> (res: (CreateState, CreateAction<E>))
    requires
        !(s is Done),
    ensures
        create_transition(s, e, res.0, res.1),
{
    match e {
        CommandEvent::Failed(err) => (CreateState::Done, CreateAction::Finish(Err(err))),
        CommandEvent::Succeeded => match s {
            CreateState::AwaitRegister { name, schemas } => (
                CreateState::AwaitCreate,
                CreateAction::CreateCollection {
                    name,
                    validator: schemas,
                    action: ValidationAction::Error,
                    level: ValidationLevel::Moderate,
                },
            ),
            _ => (CreateState::Done, CreateAction::Finish(Ok(()))),
        },
    }
}

/// The collection is only created after its descriptor was stored; it is the
/// collection that descriptor names, validated by the descriptor's schema,
/// refusing invalid writes at the moderate level; any failure ends the
/// creation with that failure.
pub proof fn lemma_collection_created_after_descriptor<E>(
    descriptor: Descriptor,
    s: CreateState,
    e: CommandEvent<E>,
    next: CreateState,
    act: CreateAction<E>,
)
    requires
        s == (CreateState::AwaitRegister { name: descriptor.name, schemas: descriptor.schemas }),
        create_transition(s, e, next, act),
    ensures
        e == CommandEvent::<E>::Succeeded ==> act == (CreateAction::<E>::CreateCollection {
            name: descriptor.name,
            validator: descriptor.schemas,
            action: ValidationAction::Error,
            level: ValidationLevel::Moderate,
        }),
        e matches CommandEvent::Failed(err) ==> act == CreateAction::<E>::Finish(Err(err)),
        next == CreateState::Done <==> act is Finish,
{
}

/// Every creation step: a collection is only created from the state that
/// waits for its descriptor, and an answer ends the creation.
pub proof fn lemma_create_collection_only_after_register<E>(
    s: CreateState,
    e: CommandEvent<E>,
    next: CreateState,
    act: CreateAction<E>,
)
    requires
        create_transition(s, e, next, act),
    ensures
        act matches CreateAction::CreateCollection { name, validator, .. } ==> (s
            == CreateState::AwaitRegister { name, schemas: validator } && e
            == CommandEvent::<E>::Succeeded),
        next == CreateState::Done <==> act is Finish,
{
}

// ----------------------------------------------------------------------
// Updating a collection
// ----------------------------------------------------------------------

/// Database that holds the collections.
pub open spec fn database_name() -> Seq<char> {
    "rustplatform"@
}

/// Full name of a collection for a rename command.
pub open spec fn qualified_name(name: Seq<char>) -> Seq<char> {
    database_name() + "."@ + name
}

fn qualify(name: &String) -> (full: String)
    ensures
        full@ == qualified_name(name@),
{
    let mut full = String::from_str("rustplatform.");
    full.append(name.as_str());
    proof {
        assert("rustplatform."@ =~= database_name() + "."@) by {
            reveal_strlit("rustplatform.");
            reveal_strlit("rustplatform");
            reveal_strlit(".");
        }
    }
    full
}

/// The outcome of an update's action.
#[derive(Debug, PartialEq)]
pub enum UpdateEvent<E> {
    /// The descriptor was replaced; the name it had before, or `None` when no
    /// descriptor has the id.
    Replaced(Option<String>),
    Succeeded,
    Failed(E),
}

/// Where a collection update stands.
#[derive(Debug, PartialEq)]
pub enum UpdateState {
    /// Waiting for the descriptor to be replaced by one named `new_name`
    /// whose schema is `schemas`.
    AwaitPrevious { new_name: String, schemas: Document },
    /// Waiting for the collection to be renamed to `new_name`.
    AwaitRename { new_name: String, schemas: Document },
    /// Waiting for the validator of the collection to be set.
    AwaitValidator,
    Done,
}

/// What the caller must do next.
#[derive(Debug, PartialEq)]
pub enum UpdateAction<E> {
    /// Update the descriptor `id` with `{"$set": replacement}` and report the
    /// descriptor as it was before.
    ReplaceDescriptor { id: ObjectId, replacement: Descriptor },
    /// Rename the collection `from` to `to` (full names), in the admin
    /// database, without dropping an existing target.
    RenameCollection { from: String, to: String },
    /// Set the validator of the collection `name` to `validator`.
    SetValidator { name: String, validator: Document },
    Finish(Result<(), E>),
}

pub open spec fn update_transition<E>(
    s: UpdateState,
    e: UpdateEvent<E>,
    next: UpdateState,
    act: UpdateAction<E>,
) -> bool {
    match s {
        UpdateState::AwaitPrevious { new_name, schemas } => match e {
            UpdateEvent::Replaced(None) => {
                &&& next == UpdateState::Done
                &&& act == UpdateAction::<E>::Finish(Ok(()))
            },
            UpdateEvent::Replaced(Some(old_name)) => if old_name@ != new_name@ {
                &&& next == UpdateState::AwaitRename { new_name, schemas }
                &&& act matches UpdateAction::RenameCollection { from, to } && from@
                    == qualified_name(old_name@) && to@ == qualified_name(new_name@)
            } else {
                &&& next == UpdateState::AwaitValidator
                &&& act == UpdateAction::<E>::SetValidator { name: new_name, validator: schemas }
            },
            UpdateEvent::Failed(err) => {
                &&& next == UpdateState::Done
                &&& act == UpdateAction::<E>::Finish(Err(err))
            },
            UpdateEvent::Succeeded => false,
        },
        UpdateState::AwaitRename { new_name, schemas } => match e {
            UpdateEvent::Succeeded => {
                &&& next == UpdateState::AwaitValidator
                &&& act == UpdateAction::<E>::SetValidator { name: new_name, validator: schemas }
            },
            UpdateEvent::Failed(err) => {
                &&& next == UpdateState::Done
                &&& act == UpdateAction::<E>::Finish(Err(err))
            },
            UpdateEvent::Replaced(_) => false,
        },
        UpdateState::AwaitValidator => match e {
            UpdateEvent::Succeeded => {
                &&& next == UpdateState::Done
                &&& act == UpdateAction::<E>::Finish(Ok(()))
            },
            UpdateEvent::Failed(err) => {
                &&& next == UpdateState::Done
                &&& act == UpdateAction::<E>::Finish(Err(err))
            },
            UpdateEvent::Replaced(_) => false,
        },
        UpdateState::Done => false,
    }
}

pub open spec fn update_event_fits<E>(s: UpdateState, e: UpdateEvent<E>) -> bool {
    match s {
        UpdateState::AwaitPrevious { .. } => !(e is Succeeded),
        UpdateState::AwaitRename { .. } => !(e is Replaced),
        UpdateState::AwaitValidator => !(e is Replaced),
        UpdateState::Done => false,
    }
}

/// Updates the collection whose descriptor has the id `id` (24 hex digits)
/// to `new_document`: the first action replaces the descriptor's fields.
pub fn update<E>(id: &str, new_document: Descriptor) -> (res: (UpdateState, UpdateAction<E>))
    requires
        is_object_id_hex(id@),
    ensures
        res.0 == (UpdateState::AwaitPrevious {
            new_name: new_document.name,
            schemas: new_document.schemas,
        }),
        res.1 == (UpdateAction::<E>::ReplaceDescriptor {
            id: object_id_from_hex(id@),
            replacement: new_document,
        }),
{
    match parse_object_id(id) {
        Ok(oid) => {
            let new_name = new_document.name.clone();
            let schemas = copy_document(&new_document.schemas);
            (
                UpdateState::AwaitPrevious { new_name, schemas },
                UpdateAction::ReplaceDescriptor { id: oid, replacement: new_document },
            )
        },
        Err(_) => {
            proof {
                assert(false);
            }
            unreached()
        },
    }
}

/// Advances a collection update by the outcome of its last action.
pub fn update_step<E>(s: UpdateState, e: UpdateEvent<E>) -> (res: (UpdateState, UpdateAction<E>))
    requires
        update_event_fits(s, e),
    ensures
        update_transition(s, e, res.0, res.1),
{
    match s {
        UpdateState::AwaitPrevious { new_name, schemas } => match e {
            UpdateEvent::Replaced(None) => (UpdateState::Done, UpdateAction::Finish(Ok(()))),
            UpdateEvent::Replaced(Some(old_name)) => {
                if old_name == new_name {
                    (
                        UpdateState::AwaitValidator,
                        UpdateAction::SetValidator { name: new_name, validator: schemas },
                    )
                } else {
                    let from = qualify(&old_name);
                    let to = qualify(&new_name);
                    (
                        UpdateState::AwaitRename { new_name, schemas },
                        UpdateAction::RenameCollection { from, to },
                    )
                }
            },
            UpdateEvent::Failed(err) => (UpdateState::Done, UpdateAction::Finish(Err(err))),
            UpdateEvent::Succeeded => {
                proof {
                    assert(false);
                }
                unreached()
            },
        },
        UpdateState::AwaitRename { new_name, schemas } => match e {
            UpdateEvent::Succeeded => (
                UpdateState::AwaitValidator,
                UpdateAction::SetValidator { name: new_name, validator: schemas },
            ),
            UpdateEvent::Failed(err) => (UpdateState::Done, UpdateAction::Finish(Err(err))),
            UpdateEvent::Replaced(_) => {
                proof {
                    assert(false);
                }
                unreached()
            },
        },
        UpdateState::AwaitValidator => match e {
            UpdateEvent::Succeeded => (UpdateState::Done, UpdateAction::Finish(Ok(()))),
            UpdateEvent::Failed(err) => (UpdateState::Done, UpdateAction::Finish(Err(err))),
            UpdateEvent::Replaced(_) => {
                proof {
                    assert(false);
                }
                unreached()
            },
        },
        UpdateState::Done => {
            proof {
                assert(false);
            }
            unreached()
        },
    }
}

/// The name and schema the collection gets, while an update waits for them.
pub open spec fn pending(s: UpdateState) -> Option<(String, Document)> {
    match s {
        UpdateState::AwaitPrevious { new_name, schemas } => Some((new_name, schemas)),
        UpdateState::AwaitRename { new_name, schemas } => Some((new_name, schemas)),
        _ => None,
    }
}

/// A collection is renamed exactly when the replaced descriptor had another
/// name than the new one, from its old full name to its new full name; the
/// validator is only ever set on the collection of the new name, to the new
/// descriptor's schema, and the pending name and schema never change.
pub proof fn lemma_rename_only_on_name_change<E>(
    s: UpdateState,
    e: UpdateEvent<E>,
    next: UpdateState,
    act: UpdateAction<E>,
)
    requires
        update_transition(s, e, next, act),
    ensures
        act is RenameCollection <==> (s is AwaitPrevious && (e matches UpdateEvent::Replaced(
            Some(old_name),
        ) && old_name@ != pending(s).unwrap().0@)),
        act matches UpdateAction::RenameCollection { from, to } ==> (e matches UpdateEvent::Replaced(Some(old_name)) && from@ == qualified_name(old_name@) && to@ == qualified_name(
            pending(s).unwrap().0@,
        )),
        act matches UpdateAction::SetValidator { name, validator } ==> pending(s) == Some(
            (name, validator),
        ),
        pending(next) is Some ==> pending(next) == pending(s),
        next == UpdateState::Done <==> act is Finish,
{
}

// ----------------------------------------------------------------------
// Deleting a collection
// ----------------------------------------------------------------------

/// Where a collection deletion stands.
#[derive(Debug, PartialEq)]
pub enum DeleteState {
    /// Waiting for the descriptor to be removed.
    AwaitDelete,
    /// Waiting for the collection `name` to be dropped.
    AwaitDrop { name: String },
    Done,
}

/// What the caller must do next.
#[derive(Debug, PartialEq)]
pub enum DeleteAction {
    /// Remove the descriptor `id` and report it.
    DeleteDescriptor { id: ObjectId },
    /// Drop the collection `name`.
    DropCollection { name: String },
    Finish(Result<String, String>),
}

/// The outcome of a deletion's action.
#[derive(Debug, PartialEq)]
pub enum DeleteEvent {
    /// The descriptor was removed; its name, or `None` when no descriptor has
    /// the id.
    Deleted(Option<String>),
    Dropped,
    /// A database call failed; the error's text.
    Failed(String),
}

pub open spec fn delete_event_fits(s: DeleteState, e: DeleteEvent) -> bool {
    match s {
        DeleteState::AwaitDelete => !(e is Dropped),
        DeleteState::AwaitDrop { .. } => !(e is Deleted),
        DeleteState::Done => false,
    }
}

pub open spec fn delete_transition(
    s: DeleteState,
    e: DeleteEvent,
    next: DeleteState,
    act: DeleteAction,
) -> bool {
    match s {
        DeleteState::AwaitDelete => match e {
            DeleteEvent::Deleted(Some(name)) => {
                &&& next == DeleteState::AwaitDrop { name }
                &&& act == DeleteAction::DropCollection { name }
            },
            DeleteEvent::Deleted(None) => {
                &&& next == DeleteState::Done
                &&& act matches DeleteAction::Finish(Err(m)) && m@ == "Can't find collection"@
            },
            DeleteEvent::Failed(t) => {
                &&& next == DeleteState::Done
                &&& act == DeleteAction::Finish(Err(t))
            },
            DeleteEvent::Dropped => false,
        },
        DeleteState::AwaitDrop { name } => match e {
            DeleteEvent::Dropped => {
                &&& next == DeleteState::Done
                &&& act matches DeleteAction::Finish(Ok(m)) && m@ == "deleted collection: "@
                    + name@
            },
            DeleteEvent::Failed(t) => {
                &&& next == DeleteState::Done
                &&& act == DeleteAction::Finish(Err(t))
            },
            DeleteEvent::Deleted(_) => false,
        },
        DeleteState::Done => false,
    }
}

/// Deletes the collection whose descriptor has the id `id` (24 hex digits):
/// the first action removes the descriptor.
pub fn delete(id: &str) -> (res: (DeleteState, DeleteAction))
    requires
        is_object_id_hex(id@),
    ensures
        res.0 == DeleteState::AwaitDelete,
        res.1 == (DeleteAction::DeleteDescriptor { id: object_id_from_hex(id@) }),
{
    match parse_object_id(id) {
        Ok(oid) => (DeleteState::AwaitDelete, DeleteAction::DeleteDescriptor { id: oid }),
        Err(_) => {
            proof {
                assert(false);
            }
            unreached()
        },
    }
}

/// Advances a collection deletion by the outcome of its last action.
pub fn delete_step(s: DeleteState, e: DeleteEvent) -> (res: (DeleteState, DeleteAction))
    requires
        delete_event_fits(s, e),
    ensures
        delete_transition(s, e, res.0, res.1),
{
    match s {
        DeleteState::AwaitDelete => match e {
            DeleteEvent::Deleted(Some(name)) => {
                let n = name.clone();
                (DeleteState::AwaitDrop { name }, DeleteAction::DropCollection { name: n })
            },
            DeleteEvent::Deleted(None) => (
                DeleteState::Done,
                DeleteAction::Finish(Err(String::from_str("Can't find collection"))),
            ),
            DeleteEvent::Failed(t) => (DeleteState::Done, DeleteAction::Finish(Err(t))),
            DeleteEvent::Dropped => {
                proof {
                    assert(false);
                }
                unreached()
            },
        },
        DeleteState::AwaitDrop { name } => match e {
            DeleteEvent::Dropped => {
                let mut m = String::from_str("deleted collection: ");
                m.append(name.as_str());
                (DeleteState::Done, DeleteAction::Finish(Ok(m)))
            },
            DeleteEvent::Failed(t) => (DeleteState::Done, DeleteAction::Finish(Err(t))),
            DeleteEvent::Deleted(_) => {
                proof {
                    assert(false);
                }
                unreached()
            },
        },
        DeleteState::Done => {
            proof {
                assert(false);
            }
            unreached()
        },
    }
}

/// A collection is only dropped after its descriptor was removed, and it is
/// the collection that descriptor named; a deletion only reports success
/// after that drop succeeded, naming that collection.
pub proof fn lemma_drop_only_after_descriptor_removed(
    s: DeleteState,
    e: DeleteEvent,
    next: DeleteState,
    act: DeleteAction,
)
    requires
        delete_transition(s, e, next, act),
    ensures
        act matches DeleteAction::DropCollection { name } ==> (s == DeleteState::AwaitDelete && e
            == DeleteEvent::Deleted(Some(name))),
        act matches DeleteAction::Finish(Ok(m)) ==> (s matches DeleteState::AwaitDrop { name } && e
            == DeleteEvent::Dropped && m@ == "deleted collection: "@ + name@),
        next == DeleteState::Done <==> act is Finish,
{
}

/// Reading one cursor result keeps everything read so far, in order, and
/// appends the value of a success; an error adds nothing.
pub proof fn lemma_read_step_appends<T, E>(found: Seq<T>, item: Result<T, E>)
    ensures
        item matches Ok(v) ==> (read_step_spec(found, item).len() == found.len() + 1
            && read_step_spec(found, item)[found.len() as int] == v && read_step_spec(
            found,
            item,
        ).subrange(0, found.len() as int) == found),
        item is Err ==> read_step_spec(found, item) == found,
{
    if let Ok(v) = item {
        assert(found.push(v).subrange(0, found.len() as int) =~= found);
    }
}

/// The successful values of a sequence of results grow by one value for a
/// success and not at all for an error, starting from none.
pub proof fn lemma_ok_values_grow<T, E>(items: Seq<Result<T, E>>, item: Result<T, E>)
    ensures
        ok_values(Seq::<Result<T, E>>::empty()) == Seq::<T>::empty(),
        item matches Ok(v) ==> ok_values(items.push(item)) == ok_values(items).push(v),
        item is Err ==> ok_values(items.push(item)) == ok_values(items),
{
    assert(items.push(item).drop_last() =~= items);
    assert(items.push(item).last() == item);
    if let Ok(v) = item {
        assert(ok_values(items) + seq![v] =~= ok_values(items).push(v));
    }
}

/// Taking one aggregation result: a successful document with a field is
/// kept, replacing what was kept; an empty document or an error keeps what
/// was kept.
pub proof fn lemma_aggregate_step_keeps_latest<E>(current: Option<Document>, item: Result<Document, E>)
    ensures
        item matches Ok(d) ==> (document_keys(d).len() != 0 ==> aggregate_step_spec(current, item)
            == Some(d)),
        item matches Ok(d) ==> (document_keys(d).len() == 0 ==> aggregate_step_spec(current, item)
            == current),
        item is Err ==> aggregate_step_spec(current, item) == current,
{
}

/// The document kept from an aggregation is a successful result with a field
/// such that no later result is a success with a field; when nothing is kept,
/// no result is a success with a field.
pub proof fn lemma_last_with_fields_is_last<E>(items: Seq<Result<Document, E>>)
    ensures
        last_with_fields(items) matches Some(d) ==> exists|i: int|
            0 <= i < items.len() && #[trigger] items[i] == Ok::<Document, E>(d) && document_keys(d).len()
                != 0 && forall|j: int|
                i < j < items.len() ==> !(match #[trigger] items[j] {
                    Ok(dj) => document_keys(dj).len() != 0,
                    Err(_) => false,
                }),
        last_with_fields(items) is None ==> forall|j: int|
            0 <= j < items.len() ==> !(match #[trigger] items[j] {
                Ok(dj) => document_keys(dj).len() != 0,
                Err(_) => false,
            }),
    decreases items.len(),
{
    if items.len() > 0 {
        let rest = items.drop_last();
        lemma_last_with_fields_is_last(rest);
        let n = items.len() - 1;
        assert forall|j: int| 0 <= j < n implies items[j] == rest[j] by {}
        match items.last() {
            Ok(d) => {
                if document_keys(d).len() != 0 {
                    assert(items[n] == Ok::<Document, E>(d));
                    return;
                }
            },
            Err(_) => {},
        }
        if let Some(d) = last_with_fields(rest) {
            let i = choose|i: int|
                0 <= i < rest.len() && #[trigger] rest[i] == Ok::<Document, E>(d) && document_keys(d).len()
                    != 0 && forall|j: int|
                    i < j < rest.len() ==> !(match #[trigger] rest[j] {
                        Ok(dj) => document_keys(dj).len() != 0,
                        Err(_) => false,
                    });
            assert(items[i] == Ok::<Document, E>(d));
            assert forall|j: int| i < j < items.len() implies !(match #[trigger] items[j] {
                Ok(dj) => document_keys(dj).len() != 0,
                Err(_) => false,
            }) by {
                if j < n {
                    assert(items[j] == rest[j]);
                }
            }
        } else {
            assert forall|j: int| 0 <= j < items.len() implies !(match #[trigger] items[j] {
                Ok(dj) => document_keys(dj).len() != 0,
                Err(_) => false,
            }) by {
                if j < n {
                    assert(items[j] == rest[j]);
                }
            }
        }
    }
}

/// Every failure of a creation step ends it with exactly that failure, and
/// the creation only succeeds after the collection itself was created.
pub proof fn lemma_create_answers<E>(
    s: CreateState,
    e: CommandEvent<E>,
    next: CreateState,
    act: CreateAction<E>,
)
    requires
        create_transition(s, e, next, act),
    ensures
        e matches CommandEvent::Failed(err) ==> (next == CreateState::Done && act
            == CreateAction::<E>::Finish(Err(err))),
        s == CreateState::AwaitCreate ==> (e == CommandEvent::<E>::Succeeded ==> (next
            == CreateState::Done && act == CreateAction::<E>::Finish(Ok(())))),
        act == CreateAction::<E>::Finish(Ok(())) ==> (s == CreateState::AwaitCreate && e
            == CommandEvent::<E>::Succeeded),
{
}

/// The full name of a collection is the database name, a dot, and the name.
pub proof fn lemma_qualified_name(name: Seq<char>)
    ensures
        qualified_name(name) == "rustplatform."@ + name,
        qualified_name(name).len() == name.len() + 13,
        qualified_name(name).subrange(13, qualified_name(name).len() as int) == name,
{
    reveal_strlit("rustplatform.");
    reveal_strlit("rustplatform");
    reveal_strlit(".");
    assert("rustplatform."@ =~= database_name() + "."@);
    assert(qualified_name(name).subrange(13, qualified_name(name).len() as int) =~= name);
}

/// What every outcome of an update leads to: a failure at any step ends the
/// update with exactly that failure; a missing descriptor ends it with
/// success and nothing else; a replaced descriptor of the same name has the
/// new schema set as the collection's validator; one of another name has
/// its collection renamed first; the update only succeeds once the validator
/// was set, or when there was no descriptor.
pub proof fn lemma_update_answers<E>(
    s: UpdateState,
    e: UpdateEvent<E>,
    next: UpdateState,
    act: UpdateAction<E>,
)
    requires
        update_transition(s, e, next, act),
    ensures
        e matches UpdateEvent::Failed(err) ==> (next == UpdateState::Done && act
            == UpdateAction::<E>::Finish(Err(err))),
        s is AwaitPrevious ==> (e == UpdateEvent::<E>::Replaced(None) ==> (next == UpdateState::Done
            && act == UpdateAction::<E>::Finish(Ok(())))),
        s matches UpdateState::AwaitPrevious { new_name, schemas } ==> (e matches UpdateEvent::Replaced(Some(old)) ==> (old@ == new_name@ ==> (next == UpdateState::AwaitValidator
            && act == UpdateAction::<E>::SetValidator { name: new_name, validator: schemas }))),
        s matches UpdateState::AwaitPrevious { new_name, schemas } ==> (e matches UpdateEvent::Replaced(Some(old)) ==> (old@ != new_name@ ==> {
            &&& next == UpdateState::AwaitRename { new_name, schemas }
            &&& act matches UpdateAction::RenameCollection { from, to }
            &&& from@ == "rustplatform."@ + old@
            &&& to@ == "rustplatform."@ + new_name@
        })),
        s matches UpdateState::AwaitRename { new_name, schemas } ==> (e == UpdateEvent::<E>::Succeeded ==> (next == UpdateState::AwaitValidator && act == UpdateAction::<E>::SetValidator {
            name: new_name,
            validator: schemas,
        })),
        s == UpdateState::AwaitValidator ==> (e == UpdateEvent::<E>::Succeeded ==> (next
            == UpdateState::Done && act == UpdateAction::<E>::Finish(Ok(())))),
        act == UpdateAction::<E>::Finish(Ok(())) ==> ((s == UpdateState::AwaitValidator && e
            == UpdateEvent::<E>::Succeeded) || (s is AwaitPrevious && e == UpdateEvent::<
            E,
        >::Replaced(None))),
{
    if let UpdateEvent::Replaced(Some(old)) = e {
        lemma_qualified_name(old@);
    }
    if let UpdateState::AwaitPrevious { new_name, .. } = s {
        lemma_qualified_name(new_name@);
    }
}

/// What every outcome of a deletion leads to: a failure at any step ends it
/// with exactly that error text; a missing descriptor with "Can't find
/// collection"; a removed descriptor has its collection dropped; a drop ends
/// it with success naming the dropped collection.
pub proof fn lemma_delete_answers(s: DeleteState, e: DeleteEvent, next: DeleteState, act: DeleteAction)
    requires
        delete_transition(s, e, next, act),
    ensures
        e matches DeleteEvent::Failed(t) ==> (next == DeleteState::Done && act
            == DeleteAction::Finish(Err(t))),
        s is AwaitDelete ==> (e == DeleteEvent::Deleted(None) ==> {
            &&& next == DeleteState::Done
            &&& act matches DeleteAction::Finish(Err(m))
            &&& m@ == "Can't find collection"@
        }),
        s is AwaitDelete ==> (e matches DeleteEvent::Deleted(Some(name)) ==> (next
            == DeleteState::AwaitDrop { name } && act == DeleteAction::DropCollection { name })),
        s matches DeleteState::AwaitDrop { name } ==> (e == DeleteEvent::Dropped ==> {
            &&& next == DeleteState::Done
            &&& act matches DeleteAction::Finish(Ok(m))
            &&& m@ == "deleted collection: "@ + name@
        }),
{
}

} // verus!
