//! The provisioning engine: which index creation requests a collection
//! needs, in which order, and what follows from the database's answers.
//!
//! The engine does not talk to the database. It hands out one request at a
//! time; the caller sends it and reports whether the index was created.

use crate::definition::IndexKind;
use crate::document::document_entries;
use crate::error::{Error, Failure};
use crate::index::{
    create_index, create_index_from_doc, create_sparse_index, create_sparse_index_from_doc,
    create_unique_index, create_unique_index_from_doc, field_keys, index_keys, is_kind,
};
use crate::metadata::{texts, IndexMetadata, IndexMetadataView, Indexed};
use mongodb::bson::Document;
use mongodb::IndexModel;
use vstd::prelude::*;
use vstd::string::*;

verus! {

/// What an index is built on.
#[derive(Clone, Debug, PartialEq)]
pub enum IndexTarget {
    /// A single field, by its path.
    Field(String),
    /// The fields that a document names.
    Document(Document),
}

/// One index to create.
#[derive(Clone, Debug, PartialEq)]
pub struct IndexStep {
    pub kind: IndexKind,
    pub target: IndexTarget,
}

/// The mathematical content of an [`IndexTarget`].
pub enum TargetView {
    Field(Seq<char>),
    Document(Document),
}

/// The mathematical content of an [`IndexStep`].
pub struct StepView {
    pub kind: IndexKind,
    pub target: TargetView,
}

impl View for IndexTarget {
    type V = TargetView;

    open spec fn view(&self) -> TargetView {
        match *self {
            IndexTarget::Field(path) => TargetView::Field(path@),
            IndexTarget::Document(document) => TargetView::Document(document),
        }
    }
}

impl View for IndexStep {
    type V = StepView;

    open spec fn view(&self) -> StepView {
        StepView { kind: self.kind, target: self.target@ }
    }
}

/// The content of each step of a sequence.
pub open spec fn steps_view(steps: Seq<IndexStep>) -> Seq<StepView> {
    steps.map_values(|step: IndexStep| step@)
}

/// One step of the given kind for each field path, in order.
pub open spec fn field_steps(paths: Seq<Seq<char>>, kind: IndexKind) -> Seq<StepView> {
    paths.map_values(|path: Seq<char>| StepView { kind, target: TargetView::Field(path) })
}

/// One step of the given kind for each document, in order.
pub open spec fn document_steps(documents: Seq<Document>, kind: IndexKind) -> Seq<StepView> {
    documents.map_values(
        |document: Document| StepView { kind, target: TargetView::Document(document) },
    )
}

/// The indexes that a bundle asks for, in the order in which they are
/// created: plain, unique and sparse field paths, then plain, unique and
/// sparse documents, each group in the bundle's own order.
pub open spec fn plan_of(metadata: IndexMetadataView) -> Seq<StepView> {
    field_steps(metadata.indexes, IndexKind::Plain) + field_steps(
        metadata.unique_indexes,
        IndexKind::Unique,
    ) + field_steps(metadata.sparse_indexes, IndexKind::Sparse) + document_steps(
        metadata.doc_indexes,
        IndexKind::Plain,
    ) + document_steps(metadata.unique_doc_indexes, IndexKind::Unique) + document_steps(
        metadata.sparse_doc_indexes,
        IndexKind::Sparse,
    )
}

/// Appends one step of the given kind for each field path.
fn push_field_steps(paths: &Vec<String>, kind: IndexKind, steps: &mut Vec<IndexStep>)
    ensures
        steps_view(final(steps)@) == steps_view(old(steps)@) + field_steps(texts(paths@), kind),
{
    let ghost before = steps_view(steps@);
    let ghost added = field_steps(texts(paths@), kind);
    let mut i: usize = 0;
    assert(steps_view(steps@) =~= before + added.take(0));
    while i < paths.len()
        invariant
            i <= paths.len(),
            added == field_steps(texts(paths@), kind),
            steps_view(steps@) == before + added.take(i as int),
        decreases paths.len() - i,
    {
        let ghost prior = steps@;
        let step = IndexStep { kind, target: IndexTarget::Field(paths[i].clone()) };
        steps.push(step);
        proof {
            assert(added[i as int] == step@);
            assert(steps_view(steps@) =~= steps_view(prior).push(step@));
            assert(added.take(i + 1) =~= added.take(i as int).push(step@));
        }
        i += 1;
    }
    assert(added.take(paths.len() as int) =~= added);
}

/// Appends one step of the given kind for each document.
fn push_document_steps(documents: &Vec<Document>, kind: IndexKind, steps: &mut Vec<IndexStep>)
    ensures
        steps_view(final(steps)@) == steps_view(old(steps)@) + document_steps(documents@, kind),
{
    let ghost before = steps_view(steps@);
    let ghost added = document_steps(documents@, kind);
    let mut i: usize = 0;
    assert(steps_view(steps@) =~= before + added.take(0));
    while i < documents.len()
        invariant
            i <= documents.len(),
            added == document_steps(documents@, kind),
            steps_view(steps@) == before + added.take(i as int),
        decreases documents.len() - i,
    {
        let ghost prior = steps@;
        let step = IndexStep { kind, target: IndexTarget::Document(documents[i].clone()) };
        steps.push(step);
        proof {
            assert(added[i as int] == step@);
            assert(steps_view(steps@) =~= steps_view(prior).push(step@));
            assert(added.take(i + 1) =~= added.take(i as int).push(step@));
        }
        i += 1;
    }
    assert(added.take(documents.len() as int) =~= added);
}

/// The indexes that a bundle asks for, in the order in which they are
/// created.
pub fn plan(metadata: &IndexMetadata) -> (steps: Vec<IndexStep>)
    ensures
        steps_view(steps@) == plan_of(metadata@),
{
    let mut steps: Vec<IndexStep> = Vec::new();
    assert(steps_view(steps@) =~= Seq::empty());
    push_field_steps(&metadata.indexes, IndexKind::Plain, &mut steps);
    push_field_steps(&metadata.unique_indexes, IndexKind::Unique, &mut steps);
    push_field_steps(&metadata.sparse_indexes, IndexKind::Sparse, &mut steps);
    push_document_steps(&metadata.doc_indexes, IndexKind::Plain, &mut steps);
    push_document_steps(&metadata.unique_doc_indexes, IndexKind::Unique, &mut steps);
    push_document_steps(&metadata.sparse_doc_indexes, IndexKind::Sparse, &mut steps);
    assert(steps_view(steps@) =~= plan_of(metadata@));
    steps
}

/// Whether a model is the creation request of a step: it has the options of
/// the step's kind, and its keys are the step's document or, for a field
/// path, the path alone in ascending direction.
pub open spec fn is_request_for(model: IndexModel, step: StepView) -> bool {
    &&& is_kind(model, step.kind)
    &&& match step.target {
        TargetView::Field(path) => document_entries(index_keys(model)) == field_keys(path),
        TargetView::Document(document) => index_keys(model) == document,
    }
}

/// The creation request of a step.
pub fn request(step: &IndexStep) -> (model: IndexModel)
    ensures
        is_request_for(model, step@),
{
    match &step.target {
        IndexTarget::Field(path) => match step.kind {
            IndexKind::Plain => create_index(path.as_str()),
            IndexKind::Unique => create_unique_index(path.as_str()),
            IndexKind::Sparse => create_sparse_index(path.as_str()),
        },
        IndexTarget::Document(document) => match step.kind {
            IndexKind::Plain => create_index_from_doc(document.clone()),
            IndexKind::Unique => create_unique_index_from_doc(document.clone()),
            IndexKind::Sparse => create_sparse_index_from_doc(document.clone()),
        },
    }
}

/// What is reported when the database refuses a step: the step's kind, its
/// field path where it has one, and the database's error.
pub open spec fn failure<E>(step: StepView, err: E) -> Failure<E> {
    Failure {
        kind: step.kind,
        index: match step.target {
            TargetView::Field(path) => Some(path),
            TargetView::Document(_) => None,
        },
        err,
    }
}

/// The error for a step that the database refused with `err`.
pub fn step_failed<E>(step: &IndexStep, err: E) -> (error: Error<E>)
    ensures
        error@ == failure(step@, err),
{
    match &step.target {
        IndexTarget::Field(path) => match step.kind {
            IndexKind::Plain => Error::IndexFailed { index: path.clone(), err },
            IndexKind::Unique => Error::UniqueIndexFailed { index: path.clone(), err },
            IndexKind::Sparse => Error::SparseIndexFailed { index: path.clone(), err },
        },
        IndexTarget::Document(_) => match step.kind {
            IndexKind::Plain => Error::DocIndexFailed { err },
            IndexKind::Unique => Error::UniqueDocIndexFailed { err },
            IndexKind::Sparse => Error::SparseDocIndexFailed { err },
        },
    }
}

/// A provisioning run that waits for the database's answer to one creation
/// request. The requests before it were all answered with success.
#[derive(Debug)]
pub struct Pending {
    steps: Vec<IndexStep>,
    cursor: usize,
}

/// Where a provisioning run stands.
#[derive(Debug)]
pub enum Progress {
    /// The next creation request is to be sent.
    Create(Pending),
    /// Nothing is left to create: the collection is ready for use.
    Ready,
}

/// The mathematical content of a [`Progress`].
pub enum ProgressView {
    /// The step at `position` of `plan` is to be created next.
    Create { plan: Seq<StepView>, position: nat },
    Ready,
}

/// Where a run stands once the first `position` steps of `plan` are created.
pub open spec fn progress_at(plan: Seq<StepView>, position: nat) -> ProgressView {
    if position < plan.len() {
        ProgressView::Create { plan, position }
    } else {
        ProgressView::Ready
    }
}

impl View for Progress {
    type V = ProgressView;

    open spec fn view(&self) -> ProgressView {
        match *self {
            Progress::Create(pending) => ProgressView::Create {
                plan: pending.plan(),
                position: pending.position(),
            },
            Progress::Ready => ProgressView::Ready,
        }
    }
}

/// Where a run over the given steps stands once the first `cursor` of them
/// are created.
fn progress_from(steps: Vec<IndexStep>, cursor: usize) -> (progress: Progress)
    ensures
        progress@ == progress_at(steps_view(steps@), cursor as nat),
{
    if cursor < steps.len() {
        Progress::Create(Pending { steps, cursor })
    } else {
        Progress::Ready
    }
}

impl Pending {
    #[verifier::type_invariant]
    spec fn in_plan(self) -> bool {
        self.cursor < self.steps@.len()
    }

    /// All the steps of the run, in order.
    pub closed spec fn plan(self) -> Seq<StepView> {
        steps_view(self.steps@)
    }

    /// How many steps of the plan are created already; the step at this
    /// position is the one that is waited for.
    pub closed spec fn position(self) -> nat {
        self.cursor as nat
    }

    /// The step that is waited for.
    pub fn step(&self) -> (step: &IndexStep)
        ensures
            self.position() < self.plan().len(),
            step@ == self.plan()[self.position() as int],
    {
        proof {
            use_type_invariant(self);
        }
        &self.steps[self.cursor]
    }

    /// How many steps of the plan are created already.
    pub fn completed(&self) -> (count: usize)
        ensures
            count == self.position(),
            count < self.plan().len(),
    {
        proof {
            use_type_invariant(self);
        }
        self.cursor
    }

    /// How many steps the plan has in all.
    pub fn total(&self) -> (count: usize)
        ensures
            count == self.plan().len(),
            count > self.position(),
    {
        proof {
            use_type_invariant(self);
        }
        self.steps.len()
    }

    /// The creation request to send to the database.
    pub fn request(&self) -> (model: IndexModel)
        ensures
            self.position() < self.plan().len(),
            is_request_for(model, self.plan()[self.position() as int]),
    {
        request(self.step())
    }

    /// The database created the index: the run goes on with the next step,
    /// or is done after the last.
    pub fn created(self) -> (next: Progress)
        ensures
            next@ == progress_at(self.plan(), self.position() + 1),
    {
        proof {
            use_type_invariant(&self);
            assert(self.steps@.len() == self.steps.len());
        }
        progress_from(self.steps, self.cursor + 1)
    }

    /// The database refused the index: the run ends with the error for this
    /// step, and no further request is made.
    pub fn failed<E>(self, err: E) -> (error: Error<E>)
        ensures
            self.position() < self.plan().len(),
            error@ == failure(self.plan()[self.position() as int], err),
    {
        step_failed(self.step(), err)
    }
}

/// The start of a run over the given steps.
pub fn start(steps: Vec<IndexStep>) -> (progress: Progress)
    ensures
        progress@ == progress_at(steps_view(steps@), 0),
{
    progress_from(steps, 0)
}

/// A collection to open, with the run that creates its indexes.
#[derive(Debug)]
pub struct Provisioning {
    /// The name of the collection.
    pub collection_name: String,
    /// Where the creation of the indexes stands.
    pub progress: Progress,
}

/// Starts provisioning the named collection with the indexes of a bundle.
///
/// Without `should_create_indexes` the collection is ready at once and no
/// request is ever made.
pub fn provision(
    collection_name: &str,
    metadata: &IndexMetadata,
    should_create_indexes: bool,
) -> (run: Provisioning)
    ensures
        run.collection_name@ == collection_name@,
        should_create_indexes ==> run.progress@ == progress_at(plan_of(metadata@), 0),
        !should_create_indexes ==> run.progress@ == ProgressView::Ready,
{
    let progress = if should_create_indexes {
        start(plan(metadata))
    } else {
        Progress::Ready
    };
    Provisioning { collection_name: String::from_str(collection_name), progress }
}

/// What a type declares, gathered into a bundle under the given collection
/// name.
fn gather<T: Indexed>(collection_name: String) -> (metadata: IndexMetadata)
    ensures
        metadata.collection_name == collection_name,
        plan_of(metadata@) == plan_of(T::declared()),
{
    IndexMetadata {
        collection_name,
        indexes: T::indexes(),
        unique_indexes: T::unique_indexes(),
        sparse_indexes: T::sparse_indexes(),
        doc_indexes: T::doc_indexes(),
        unique_doc_indexes: T::unique_doc_indexes(),
        sparse_doc_indexes: T::sparse_doc_indexes(),
    }
}

/// Starts provisioning the named collection with the indexes that `T`
/// declares.
///
/// Without `should_create_index` the type is not asked for its indexes and
/// the collection is ready at once.
pub fn collection_with_name<T: Indexed>(
    coll_name: &str,
    should_create_index: bool,
) -> (run: Provisioning)
    ensures
        run.collection_name@ == coll_name@,
        should_create_index ==> run.progress@ == progress_at(plan_of(T::declared()), 0),
        !should_create_index ==> run.progress@ == ProgressView::Ready,
{
    if should_create_index {
        let metadata = gather::<T>(String::from_str(coll_name));
        provision(coll_name, &metadata, true)
    } else {
        Provisioning { collection_name: String::from_str(coll_name), progress: Progress::Ready }
    }
}

/// Starts provisioning the collection that `T` names as its default, with
/// the indexes that `T` declares.
pub fn collection<T: Indexed>(should_create_index: bool) -> (run: Provisioning)
    ensures
        run.collection_name@ == T::declared().collection_name,
        should_create_index ==> run.progress@ == progress_at(plan_of(T::declared()), 0),
        !should_create_index ==> run.progress@ == ProgressView::Ready,
{
    let name = T::default_collection_name();
    collection_with_name::<T>(name.as_str(), should_create_index)
}

/// How a run went: which creation requests were made, and how the run
/// ended, if it did.
pub struct RunView<E> {
    /// The steps whose requests reached the database, in the order made.
    pub requested: Seq<StepView>,
    /// `Some(Ok(()))` once the collection is ready, `Some(Err(..))` once a
    /// request failed, `None` while an answer is waited for.
    pub end: Option<Result<(), Failure<E>>>,
}

/// The run from `progress` on of a caller that sends each request it is
/// handed and reports the answer with [`Pending::created`] or
/// [`Pending::failed`], where the database answers the requests in turn with
/// `answers`: `None` for an index that it created, `Some(err)` for one that
/// it refused with `err`.
pub open spec fn run_from<E>(progress: ProgressView, answers: Seq<Option<E>>) -> RunView<E>
    decreases answers.len(),
{
    match progress {
        ProgressView::Ready => RunView { requested: Seq::empty(), end: Some(Ok(())) },
        ProgressView::Create { plan, position } => {
            if answers.len() == 0 {
                RunView { requested: Seq::empty(), end: None }
            } else {
                let step = plan[position as int];
                match answers[0] {
                    Some(err) => RunView { requested: seq![step], end: Some(Err(failure(step, err))) },
                    None => {
                        let rest = run_from(
                            progress_at(plan, position + 1),
                            answers.drop_first(),
                        );
                        RunView { requested: seq![step] + rest.requested, end: rest.end }
                    },
                }
            }
        },
    }
}

/// A run in which the database creates every index that is left makes one
/// request for each of them, in order, and ends with the collection ready.
pub proof fn lemma_run_succeeds<E>(plan: Seq<StepView>, position: nat, answers: Seq<Option<E>>)
    requires
        position <= plan.len(),
        answers.len() >= plan.len() - position,
        forall|i: int| 0 <= i < plan.len() - position ==> answers[i] is None,
    ensures
        run_from(progress_at(plan, position), answers) == (RunView::<E> {
            requested: plan.skip(position as int),
            end: Some(Ok(())),
        }),
    decreases plan.len() - position,
{
    if position < plan.len() {
        lemma_run_succeeds(plan, position + 1, answers.drop_first());
        assert(seq![plan[position as int]] + plan.skip(position as int + 1) =~= plan.skip(
            position as int,
        ));
    } else {
        assert(plan.skip(position as int) =~= Seq::empty());
    }
}

/// Fail fast: where the database creates the next `ahead` indexes and
/// refuses the one after them, exactly these `ahead + 1` steps are
/// requested, in order, the run ends with the error of the refused step,
/// which carries the database's error, and the steps behind it are never
/// requested, whatever the further answers would have been.
pub proof fn lemma_run_fails_fast<E>(
    plan: Seq<StepView>,
    position: nat,
    answers: Seq<Option<E>>,
    ahead: nat,
    err: E,
)
    requires
        position + ahead < plan.len(),
        ahead < answers.len(),
        forall|i: int| 0 <= i < ahead ==> answers[i] is None,
        answers[ahead as int] == Some(err),
    ensures
        run_from(progress_at(plan, position), answers) == (RunView {
            requested: plan.subrange(position as int, position as int + ahead + 1),
            end: Some(Err(failure(plan[(position + ahead) as int], err))),
        }),
        run_from(progress_at(plan, position), answers).requested.len() == ahead + 1,
    decreases ahead,
{
    if ahead > 0 {
        lemma_run_fails_fast(plan, position + 1, answers.drop_first(), (ahead - 1) as nat, err);
        let first = position as int;
        assert(seq![plan[first]] + plan.subrange(first + 1, first + ahead + 1) =~= plan.subrange(
            first,
            first + ahead + 1,
        ));
    } else {
        assert(seq![plan[position as int]] =~= plan.subrange(position as int, position as int + 1));
    }
}

/// Without the flag no request reaches the database: a run that is ready
/// makes no request, whatever the database would answer.
pub proof fn lemma_ready_makes_no_call<E>(answers: Seq<Option<E>>)
    ensures
        run_from(ProgressView::Ready, answers) == (RunView::<E> {
            requested: Seq::empty(),
            end: Some(Ok(())),
        }),
{
}

} // verus!
