use mongo_indexed::metadata::IndexMetadataView;
use mongo_indexed::provision::{plan, request, start, step_failed};
use mongo_indexed::{
    collection, collection_with_name, derive_indexed, provision, AnnotationKind, Error,
    FieldAnnotation, FieldDefinition, IndexKind, IndexMetadata, IndexStep, IndexTarget, Indexed,
    Payload, Progress, Provisioning, TypeDefinition,
};
use mongodb::bson::Document;
use mongodb::IndexModel;

type DbError = mongodb::error::Error;

fn strings(items: &[&str]) -> Vec<String> {
    items.iter().map(|s| s.to_string()).collect()
}

fn document(entries: &[(&str, i32)]) -> Document {
    let mut document = Document::new();
    for (key, direction) in entries {
        document.insert(*key, *direction);
    }
    document
}

fn bundle() -> IndexMetadata {
    IndexMetadata {
        collection_name: "users".to_string(),
        indexes: strings(&["username", "profile.city"]),
        unique_indexes: strings(&["email"]),
        sparse_indexes: strings(&["nickname"]),
        doc_indexes: vec![document(&[("a", 1), ("b", -1)])],
        unique_doc_indexes: vec![document(&[("username", 1), ("email", 1)])],
        sparse_doc_indexes: vec![document(&[("c", 1)]), document(&[("d", 1)])],
    }
}

fn paths_only(indexes: &[&str], unique_indexes: &[&str], sparse_indexes: &[&str]) -> IndexMetadata {
    IndexMetadata {
        collection_name: "accounts".to_string(),
        indexes: strings(indexes),
        unique_indexes: strings(unique_indexes),
        sparse_indexes: strings(sparse_indexes),
        doc_indexes: Vec::new(),
        unique_doc_indexes: Vec::new(),
        sparse_doc_indexes: Vec::new(),
    }
}

fn field(kind: IndexKind, path: &str) -> IndexStep {
    IndexStep { kind, target: IndexTarget::Field(path.to_string()) }
}

fn shaped(kind: IndexKind, entries: &[(&str, i32)]) -> IndexStep {
    IndexStep { kind, target: IndexTarget::Document(document(entries)) }
}

/// A stand-in for a collection: it keeps the indexes it was asked for by
/// name, takes a repeated request for the same index as done, and refuses a
/// request whose name is taken by an index with other keys or options.
struct FakeCollection {
    indexes: Vec<(String, Document, Option<bool>, Option<bool>)>,
    calls: Vec<IndexModel>,
    refuse_call: Option<usize>,
}

impl FakeCollection {
    fn new() -> Self {
        FakeCollection { indexes: Vec::new(), calls: Vec::new(), refuse_call: None }
    }

    fn refusing_call(number: usize) -> Self {
        FakeCollection { indexes: Vec::new(), calls: Vec::new(), refuse_call: Some(number) }
    }

    fn create_index(&mut self, model: IndexModel) -> Result<(), DbError> {
        self.calls.push(model.clone());
        if self.refuse_call == Some(self.calls.len()) {
            return Err(DbError::custom(format!("refused call {}", self.calls.len())));
        }
        let parts: Vec<String> =
            model.keys.iter().map(|(key, value)| format!("{key}_{value}")).collect();
        let name = parts.join("_");
        let unique = model.options.as_ref().and_then(|options| options.unique);
        let sparse = model.options.as_ref().and_then(|options| options.sparse);
        for (taken, keys, is_unique, is_sparse) in &self.indexes {
            if *taken == name {
                if *keys == model.keys && *is_unique == unique && *is_sparse == sparse {
                    return Ok(());
                }
                return Err(DbError::custom(format!("conflict on {name}")));
            }
        }
        self.indexes.push((name, model.keys, unique, sparse));
        Ok(())
    }
}

fn drive(collection: &mut FakeCollection, run: Provisioning) -> Result<String, Error<DbError>> {
    let mut progress = run.progress;
    loop {
        match progress {
            Progress::Ready => return Ok(run.collection_name),
            Progress::Create(pending) => match collection.create_index(pending.request()) {
                Ok(()) => progress = pending.created(),
                Err(err) => return Err(pending.failed(err)),
            },
        }
    }
}

fn message(err: &DbError) -> String {
    err.get_custom::<String>().cloned().unwrap_or_default()
}

#[test]
fn plan_goes_through_the_six_groups_in_order() {
    let steps = plan(&bundle());
    assert_eq!(
        steps,
        vec![
            field(IndexKind::Plain, "username"),
            field(IndexKind::Plain, "profile.city"),
            field(IndexKind::Unique, "email"),
            field(IndexKind::Sparse, "nickname"),
            shaped(IndexKind::Plain, &[("a", 1), ("b", -1)]),
            shaped(IndexKind::Unique, &[("username", 1), ("email", 1)]),
            shaped(IndexKind::Sparse, &[("c", 1)]),
            shaped(IndexKind::Sparse, &[("d", 1)]),
        ]
    );
}

#[test]
fn plan_of_an_empty_bundle_is_empty() {
    assert_eq!(plan(&paths_only(&[], &[], &[])), Vec::new());
}

#[test]
fn without_the_flag_no_call_is_made() {
    let run = provision("users", &bundle(), false);
    assert_eq!(run.collection_name, "users");
    assert!(matches!(run.progress, Progress::Ready));
    let mut collection = FakeCollection::refusing_call(1);
    let handle = drive(&mut collection, provision("users", &bundle(), false));
    assert_eq!(handle.unwrap(), "users");
    assert_eq!(collection.calls.len(), 0);
}

#[test]
fn with_the_flag_every_index_is_requested_in_order() {
    let mut collection = FakeCollection::new();
    let handle = drive(&mut collection, provision("people", &bundle(), true));
    assert_eq!(handle.unwrap(), "people");
    assert_eq!(collection.calls.len(), 8);
    let keys: Vec<Document> = collection.calls.iter().map(|model| model.keys.clone()).collect();
    assert_eq!(
        keys,
        vec![
            document(&[("username", 1)]),
            document(&[("profile.city", 1)]),
            document(&[("email", 1)]),
            document(&[("nickname", 1)]),
            document(&[("a", 1), ("b", -1)]),
            document(&[("username", 1), ("email", 1)]),
            document(&[("c", 1)]),
            document(&[("d", 1)]),
        ]
    );
    let flags: Vec<(Option<bool>, Option<bool>)> = collection
        .calls
        .iter()
        .map(|model| match &model.options {
            Some(options) => (options.unique, options.sparse),
            None => (None, None),
        })
        .collect();
    let plain = (None, None);
    let unique = (Some(true), None);
    let sparse = (None, Some(true));
    assert_eq!(flags, vec![plain, plain, unique, sparse, plain, unique, sparse, sparse]);
    let with_options: Vec<bool> =
        collection.calls.iter().map(|model| model.options.is_some()).collect();
    assert_eq!(with_options, vec![false, false, true, true, false, true, true, true]);
}

#[test]
fn an_empty_bundle_is_ready_at_once() {
    let run = provision("empty", &paths_only(&[], &[], &[]), true);
    assert!(matches!(run.progress, Progress::Ready));
    assert!(matches!(start(Vec::new()), Progress::Ready));
}

#[test]
fn provisioning_twice_succeeds_both_times() {
    let mut collection = FakeCollection::new();
    assert_eq!(drive(&mut collection, provision("users", &bundle(), true)).unwrap(), "users");
    assert_eq!(collection.indexes.len(), 8);
    assert_eq!(drive(&mut collection, provision("users", &bundle(), true)).unwrap(), "users");
    assert_eq!(collection.indexes.len(), 8);
    assert_eq!(collection.calls.len(), 16);
}

#[test]
fn a_drifted_definition_fails_with_its_path() {
    let mut collection = FakeCollection::new();
    let declared = paths_only(&["username"], &["email"], &[]);
    assert!(drive(&mut collection, provision("users", &declared, true)).is_ok());
    assert!(drive(&mut collection, provision("users", &declared, true)).is_ok());
    let drifted = paths_only(&["username", "email"], &[], &["nickname"]);
    let outcome = drive(&mut collection, provision("users", &drifted, true));
    match outcome {
        Err(Error::IndexFailed { index, err }) => {
            assert_eq!(index, "email");
            assert_eq!(message(&err), "conflict on email_1");
        }
        other => panic!("expected the plain index on email to fail, got {other:?}"),
    }
    assert_eq!(collection.calls.len(), 2 + 2 + 2);
    assert_eq!(collection.indexes.len(), 2);
}

#[test]
fn third_of_five_calls_fails_and_ends_the_run() {
    let declared = paths_only(&["a", "b"], &["c", "d"], &["e"]);
    assert_eq!(plan(&declared).len(), 5);
    let mut collection = FakeCollection::refusing_call(3);
    let outcome = drive(&mut collection, provision("users", &declared, true));
    match outcome {
        Err(Error::UniqueIndexFailed { index, err }) => {
            assert_eq!(index, "c");
            assert_eq!(message(&err), "refused call 3");
        }
        other => panic!("expected the unique index on c to fail, got {other:?}"),
    }
    assert_eq!(collection.calls.len(), 3);
    assert_eq!(collection.indexes.len(), 2);
    assert_eq!(collection.calls[2].keys, document(&[("c", 1)]));
}

#[test]
fn each_call_can_be_the_one_that_fails() {
    let total = plan(&bundle()).len();
    for failing in 1..=total {
        let mut collection = FakeCollection::refusing_call(failing);
        let outcome = drive(&mut collection, provision("users", &bundle(), true));
        assert!(outcome.is_err());
        assert_eq!(collection.calls.len(), failing);
        assert_eq!(collection.indexes.len(), failing - 1);
    }
}

#[test]
fn pending_run_counts_its_steps() {
    let run = provision("users", &paths_only(&["a"], &["b"], &[]), true);
    let Progress::Create(first) = run.progress else { panic!("a request is due") };
    assert_eq!(first.completed(), 0);
    assert_eq!(first.total(), 2);
    assert_eq!(*first.step(), field(IndexKind::Plain, "a"));
    let Progress::Create(second) = first.created() else { panic!("a request is due") };
    assert_eq!(second.completed(), 1);
    assert_eq!(second.total(), 2);
    assert_eq!(*second.step(), field(IndexKind::Unique, "b"));
    assert_eq!(second.request().keys, document(&[("b", 1)]));
    assert!(matches!(second.created(), Progress::Ready));
}

#[test]
fn failed_reports_the_pending_step() {
    let run = provision("users", &paths_only(&[], &[], &["nick"]), true);
    let Progress::Create(pending) = run.progress else { panic!("a request is due") };
    match pending.failed("down") {
        Error::SparseIndexFailed { index, err } => {
            assert_eq!(index, "nick");
            assert_eq!(err, "down");
        }
        other => panic!("unexpected error: {other:?}"),
    }
}

#[test]
fn every_kind_of_step_has_its_error() {
    let shape: &[(&str, i32)] = &[("a", 1)];
    assert!(matches!(
        step_failed(&field(IndexKind::Plain, "p"), 1),
        Error::IndexFailed { index, err: 1 } if index == "p"
    ));
    assert!(matches!(
        step_failed(&field(IndexKind::Unique, "u"), 2),
        Error::UniqueIndexFailed { index, err: 2 } if index == "u"
    ));
    assert!(matches!(
        step_failed(&field(IndexKind::Sparse, "s"), 3),
        Error::SparseIndexFailed { index, err: 3 } if index == "s"
    ));
    assert!(matches!(
        step_failed(&shaped(IndexKind::Plain, shape), 4),
        Error::DocIndexFailed { err: 4 }
    ));
    assert!(matches!(
        step_failed(&shaped(IndexKind::Unique, shape), 5),
        Error::UniqueDocIndexFailed { err: 5 }
    ));
    assert!(matches!(
        step_failed(&shaped(IndexKind::Sparse, shape), 6),
        Error::SparseDocIndexFailed { err: 6 }
    ));
}

#[test]
fn error_tells_kind_path_and_cause() {
    let error = step_failed(&field(IndexKind::Unique, "inner.id"), "down");
    assert_eq!(error.kind(), IndexKind::Unique);
    assert_eq!(error.index(), Some("inner.id"));
    assert_eq!(*error.source(), "down");
    let error = step_failed(&shaped(IndexKind::Sparse, &[("a", 1)]), 17);
    assert_eq!(error.kind(), IndexKind::Sparse);
    assert_eq!(error.index(), None);
    assert_eq!(*error.source(), 17);
    let error = step_failed(&field(IndexKind::Plain, "a"), ());
    assert_eq!((error.kind(), error.index()), (IndexKind::Plain, Some("a")));
    let error = step_failed(&field(IndexKind::Sparse, "b"), ());
    assert_eq!((error.kind(), error.index()), (IndexKind::Sparse, Some("b")));
    let error = step_failed(&shaped(IndexKind::Plain, &[("a", 1)]), ());
    assert_eq!((error.kind(), error.index()), (IndexKind::Plain, None));
    let error = step_failed(&shaped(IndexKind::Unique, &[("a", 1)]), ());
    assert_eq!((error.kind(), error.index()), (IndexKind::Unique, None));
}

#[test]
fn request_of_each_kind_of_step() {
    let model = request(&field(IndexKind::Plain, "a"));
    assert_eq!(model.keys, document(&[("a", 1)]));
    assert!(model.options.is_none());
    let model = request(&field(IndexKind::Unique, "a"));
    assert_eq!(model.keys, document(&[("a", 1)]));
    assert_eq!(model.options.unwrap().unique, Some(true));
    let model = request(&field(IndexKind::Sparse, "a"));
    assert_eq!(model.options.unwrap().sparse, Some(true));
    let model = request(&shaped(IndexKind::Plain, &[("x", -1), ("y", 1)]));
    assert_eq!(model.keys, document(&[("x", -1), ("y", 1)]));
    assert!(model.options.is_none());
    let model = request(&shaped(IndexKind::Unique, &[("x", -1)]));
    assert_eq!(model.keys, document(&[("x", -1)]));
    let options = model.options.unwrap();
    assert_eq!((options.unique, options.sparse), (Some(true), None));
    let model = request(&shaped(IndexKind::Sparse, &[("x", -1)]));
    let options = model.options.unwrap();
    assert_eq!((options.unique, options.sparse), (None, Some(true)));
}

struct User;

impl User {
    fn definition() -> TypeDefinition {
        TypeDefinition::record(
            "User",
            vec![
                FieldDefinition::named("id"),
                FieldDefinition::named("username").annotated(FieldAnnotation::Index),
                FieldDefinition::named("email").annotated(FieldAnnotation::Index),
            ],
        )
        .annotated(
            AnnotationKind::UniqueDocIndex,
            Payload::Document(document(&[("username", 1), ("email", 1)])),
        )
        .annotated(AnnotationKind::CollectionName, Payload::Text("users".to_string()))
    }

    fn metadata() -> IndexMetadata {
        derive_indexed(&Self::definition()).expect("the definition of User is well formed")
    }
}

impl Indexed for User {
    fn declared() -> IndexMetadataView {
        unreachable!("only contracts speak of the declared bundle")
    }

    fn default_collection_name() -> String {
        Self::metadata().collection_name
    }

    fn indexes() -> Vec<String> {
        Self::metadata().indexes
    }

    fn unique_indexes() -> Vec<String> {
        Self::metadata().unique_indexes
    }

    fn sparse_indexes() -> Vec<String> {
        Self::metadata().sparse_indexes
    }

    fn doc_indexes() -> Vec<Document> {
        Self::metadata().doc_indexes
    }

    fn unique_doc_indexes() -> Vec<Document> {
        Self::metadata().unique_doc_indexes
    }

    fn sparse_doc_indexes() -> Vec<Document> {
        Self::metadata().sparse_doc_indexes
    }
}

#[test]
fn collection_uses_the_default_name_and_the_declared_indexes() {
    let mut fake = FakeCollection::new();
    let handle = drive(&mut fake, collection::<User>(true));
    assert_eq!(handle.unwrap(), "users");
    let keys: Vec<Document> = fake.calls.iter().map(|model| model.keys.clone()).collect();
    assert_eq!(
        keys,
        vec![
            document(&[("username", 1)]),
            document(&[("email", 1)]),
            document(&[("username", 1), ("email", 1)]),
        ]
    );
    assert!(fake.calls[0].options.is_none());
    assert!(fake.calls[1].options.is_none());
    assert_eq!(fake.calls[2].options.as_ref().unwrap().unique, Some(true));
}

#[test]
fn collection_with_name_uses_the_given_name() {
    let mut fake = FakeCollection::new();
    let handle = drive(&mut fake, collection_with_name::<User>("archive", true));
    assert_eq!(handle.unwrap(), "archive");
    assert_eq!(fake.calls.len(), 3);
}

#[test]
fn collection_without_the_flag_makes_no_call() {
    let run = collection::<User>(false);
    assert_eq!(run.collection_name, "users");
    assert!(matches!(run.progress, Progress::Ready));
    let run = collection_with_name::<User>("archive", false);
    assert_eq!(run.collection_name, "archive");
    assert!(matches!(run.progress, Progress::Ready));
}
