use crate::error::{Error, ErrorView};
use crate::services::dispatcher::{
    conflict_message, outcome_of, outcome_view, planned, process_resource, reported_name,
    resource_outcome, CreateResponse, CreateResponseView, Manifest, ManifestView, ResourceKind,
    CONFLICT,
};
use crate::services::splitter::{count_non_empty, views, Document, DocumentView};
use crate::text::texts;
use vstd::prelude::*;

verus! {

/// What the engine does with one document.
pub enum Step {
    /// The document is empty and leaves no trace in the result.
    Skip,
    /// The document is refused without a call to the control plane.
    Reject(Error),
    /// The document is submitted to the control plane.
    Submit(Manifest),
}

/// The mathematical value of a [`Step`].
pub enum StepView {
    Skip,
    Reject(ErrorView),
    Submit(ManifestView),
}

impl View for Step {
    type V = StepView;

    open spec fn view(&self) -> StepView {
        match self {
            Step::Skip => StepView::Skip,
            Step::Reject(e) => StepView::Reject(e@),
            Step::Submit(manifest) => StepView::Submit(manifest@),
        }
    }
}

/// The views of `steps`, in order.
pub open spec fn step_views(steps: Seq<Step>) -> Seq<StepView> {
    steps.map_values(|step: Step| step@)
}

/// What the engine does with `document`.
///
/// An empty document is skipped. Any other is submitted as the manifest, or
/// refused with the error, that the dispatcher plans for it.
pub open spec fn step_for(document: DocumentView) -> StepView {
    if document.null {
        StepView::Skip
    } else {
        match planned(document) {
            Ok(manifest) => StepView::Submit(manifest),
            Err(e) => StepView::Reject(e),
        }
    }
}

/// Whether `step` is what the engine does with `document`.
pub open spec fn step_fits(document: DocumentView, step: StepView) -> bool {
    step == step_for(document)
}

/// Whether `steps` is a plan for `documents`: one step for each document, in
/// order, each fitting its document.
pub open spec fn plan_fits(documents: Seq<DocumentView>, steps: Seq<StepView>) -> bool {
    &&& steps.len() == documents.len()
    &&& forall|i: int| 0 <= i < documents.len() ==> step_fits(documents[i], #[trigger] steps[i])
}

/// Decides what the engine does with one document.
pub fn plan_document(document: &Document) -> (step: Step)
    ensures
        step_fits(document@, step@),
{
    if document.is_null() {
        Step::Skip
    } else {
        match process_resource(document) {
            Ok(manifest) => Step::Submit(manifest),
            Err(e) => Step::Reject(e),
        }
    }
}

/// Decides what the engine does with each document of a text.
pub fn plan_documents(documents: &Vec<Document>) -> (steps: Vec<Step>)
    ensures
        plan_fits(views(documents@), step_views(steps@)),
{
    let mut steps: Vec<Step> = Vec::new();
    let mut i: usize = 0;
    while i < documents.len()
        invariant
            i <= documents.len(),
            steps.len() == i,
            forall|j: int| 0 <= j < i ==> step_fits(documents@[j]@, #[trigger] steps@[j]@),
        decreases documents.len() - i,
    {
        let step = plan_document(&documents[i]);
        steps.push(step);
        i += 1;
    }
    steps
}

/// The aggregate of one request: the success entries and the failure
/// entries, each in document order.
#[derive(Debug)]
pub struct ApplyResult {
    pub success: Vec<String>,
    pub failure: Vec<String>,
}

/// The mathematical value of an [`ApplyResult`].
pub struct ApplyResultView {
    pub success: Seq<Seq<char>>,
    pub failure: Seq<Seq<char>>,
}

impl ApplyResultView {
    /// The result without any entry.
    pub open spec fn empty() -> ApplyResultView {
        ApplyResultView { success: Seq::empty(), failure: Seq::empty() }
    }

    /// The result with one more entry: a success or a failure.
    pub open spec fn with(self, outcome: Result<Seq<char>, ErrorView>) -> ApplyResultView {
        match outcome {
            Ok(text) => ApplyResultView { success: self.success.push(text), failure: self.failure },
            Err(e) => ApplyResultView {
                success: self.success,
                failure: self.failure.push(e.message()),
            },
        }
    }

    /// The number of entries.
    pub open spec fn len(self) -> nat {
        self.success.len() + self.failure.len()
    }
}

impl View for ApplyResult {
    type V = ApplyResultView;

    open spec fn view(&self) -> ApplyResultView {
        ApplyResultView { success: texts(self.success@), failure: texts(self.failure@) }
    }
}

impl ApplyResult {
    /// The result without any entry.
    pub fn new() -> (result: ApplyResult)
        ensures
            result@ == ApplyResultView::empty(),
    {
        let result = ApplyResult { success: Vec::new(), failure: Vec::new() };
        assert(result@.success =~= Seq::empty());
        assert(result@.failure =~= Seq::empty());
        result
    }

    /// Adds the entry for one outcome: the text of a success to the
    /// successes, the message of an error to the failures.
    pub fn push(&mut self, outcome: Result<String, Error>)
        ensures
            final(self)@ == old(self)@.with(outcome_view(outcome)),
    {
        match outcome {
            Ok(text) => {
                self.success.push(text);
                assert(texts(self.success@) =~= texts(old(self).success@).push(text@));
            },
            Err(e) => {
                let text = e.message();
                self.failure.push(text);
                assert(texts(self.failure@) =~= texts(old(self).failure@).push(e@.message()));
            },
        }
    }
}

/// The number of steps in `steps` that submit a manifest.
pub open spec fn submissions(steps: Seq<StepView>) -> nat
    decreases steps.len(),
{
    if steps.len() == 0 {
        0
    } else {
        submissions(steps.drop_last()) + if steps.last() is Submit {
            1nat
        } else {
            0nat
        }
    }
}

/// The place of the first step at or after `from` that submits a manifest,
/// or the length of `steps` where there is none.
pub open spec fn next_submission(steps: Seq<StepView>, from: int) -> int
    decreases steps.len() - from,
{
    if from < 0 || from >= steps.len() {
        steps.len() as int
    } else if steps[from] is Submit {
        from
    } else {
        next_submission(steps, from + 1)
    }
}

/// The result of running `steps` against a control plane that answers the
/// submissions, in order, with `responses`.
///
/// A skipped step adds nothing, a refused one its error, a submitted one the
/// outcome of its response. A submission that has no response adds nothing.
pub open spec fn aggregate(
    steps: Seq<StepView>,
    responses: Seq<CreateResponseView>,
) -> ApplyResultView
    decreases steps.len(),
{
    if steps.len() == 0 {
        ApplyResultView::empty()
    } else {
        let before = aggregate(steps.drop_last(), responses);
        match steps.last() {
            StepView::Skip => before,
            StepView::Reject(e) => before.with(Err(e)),
            StepView::Submit(manifest) => {
                let turn = submissions(steps.drop_last()) as int;
                if turn < responses.len() {
                    before.with(outcome_of(manifest, responses[turn]))
                } else {
                    before
                }
            },
        }
    }
}

/// The first `n + 1` steps are the first `n` steps and then step `n`.
proof fn lemma_take_next(steps: Seq<StepView>, n: int)
    requires
        0 <= n < steps.len(),
    ensures
        steps.take(n + 1).drop_last() == steps.take(n),
        steps.take(n + 1).last() == steps[n],
{
    assert(steps.take(n + 1).drop_last() =~= steps.take(n));
}

/// Drives one request through its plan.
///
/// The engine holds the plan, the entries recorded so far, and its place in
/// the plan. It rests either at a step that submits a manifest, which is
/// then [`pending`](ApplyEngine::pending) until its response is
/// [`record`](ApplyEngine::record)ed, or at the end of the plan.
pub struct ApplyEngine {
    steps: Vec<Step>,
    cursor: usize,
    result: ApplyResult,
    answered: Ghost<Seq<CreateResponseView>>,
}

impl ApplyEngine {
    #[verifier::type_invariant]
    spec fn inv(&self) -> bool {
        &&& self.cursor <= self.steps.len()
        &&& self.cursor < self.steps.len() ==> self.steps@[self.cursor as int] is Submit
        &&& self.answered@.len() == submissions(step_views(self.steps@).take(self.cursor as int))
        &&& self.result@ == aggregate(
            step_views(self.steps@).take(self.cursor as int),
            self.answered@,
        )
    }

    /// The plan that the engine holds, step by step.
    pub closed spec fn plan(&self) -> Seq<Step> {
        self.steps@
    }

    /// The plan that the engine runs.
    pub open spec fn steps(&self) -> Seq<StepView> {
        step_views(self.plan())
    }

    /// The responses recorded so far, in order.
    pub closed spec fn answered(&self) -> Seq<CreateResponseView> {
        self.answered@
    }

    /// The number of steps that are settled: the engine's place in the plan.
    pub closed spec fn position(&self) -> int {
        self.cursor as int
    }

    /// Whether every step of the plan is settled.
    pub open spec fn done(&self) -> bool {
        self.position() == self.steps().len()
    }

    /// Whether the engine is where its responses put it: its place lies
    /// within the plan, and the submissions before that place are as many as
    /// the responses recorded.
    pub open spec fn on_track(&self) -> bool {
        &&& 0 <= self.position() <= self.steps().len()
        &&& self.answered().len() == submissions(self.steps().take(self.position()))
    }

    /// Settles the steps from `cursor` on that need no response, and stops at
    /// the first that submits a manifest.
    fn settle(
        steps: &Vec<Step>,
        cursor: usize,
        result: &mut ApplyResult,
        Ghost(answered): Ghost<Seq<CreateResponseView>>,
    ) -> (rest: usize)
        requires
            cursor <= steps.len(),
            answered.len() == submissions(step_views(steps@).take(cursor as int)),
            old(result)@ == aggregate(step_views(steps@).take(cursor as int), answered),
        ensures
            rest == next_submission(step_views(steps@), cursor as int),
            cursor <= rest <= steps.len(),
            rest < steps.len() ==> steps@[rest as int] is Submit,
            answered.len() == submissions(step_views(steps@).take(rest as int)),
            final(result)@ == aggregate(step_views(steps@).take(rest as int), answered),
    {
        let mut at = cursor;
        while at < steps.len()
            invariant
                cursor <= at <= steps.len(),
                next_submission(step_views(steps@), cursor as int) == next_submission(
                    step_views(steps@),
                    at as int,
                ),
                answered.len() == submissions(step_views(steps@).take(at as int)),
                result@ == aggregate(step_views(steps@).take(at as int), answered),
            decreases steps.len() - at,
        {
            proof {
                lemma_take_next(step_views(steps@), at as int);
            }
            match &steps[at] {
                Step::Skip => {},
                Step::Reject(e) => {
                    let text = e.message();
                    result.failure.push(text);
                    assert(texts(result.failure@) =~= aggregate(
                        step_views(steps@).take(at as int),
                        answered,
                    ).failure.push(e@.message()));
                },
                Step::Submit(_) => {
                    return at;
                },
            }
            at += 1;
        }
        at
    }

    /// An engine at the start of `steps`, with nothing answered yet.
    pub fn new(steps: Vec<Step>) -> (engine: ApplyEngine)
        ensures
            engine.plan() == steps@,
            engine.answered() == Seq::<CreateResponseView>::empty(),
            engine.position() == next_submission(step_views(steps@), 0),
            engine.on_track(),
    {
        let mut result = ApplyResult::new();
        let ghost answered = Seq::<CreateResponseView>::empty();
        assert(step_views(steps@).take(0) =~= Seq::empty());
        let cursor = Self::settle(&steps, 0, &mut result, Ghost(answered));
        ApplyEngine { steps, cursor, result, answered: Ghost(answered) }
    }

    /// The manifest that waits for the control plane, or `None` where the
    /// plan is done.
    pub fn pending(&self) -> (manifest: Option<&Manifest>)
        ensures
            self.on_track(),
            match manifest {
                Some(manifest) => !self.done() && self.plan()[self.position()] == Step::Submit(
                    *manifest,
                ),
                None => self.done(),
            },
    {
        proof {
            use_type_invariant(self);
        }
        if self.cursor < self.steps.len() {
            match &self.steps[self.cursor] {
                Step::Submit(manifest) => Some(manifest),
                _ => None,
            }
        } else {
            None
        }
    }

    /// Records the control plane's response to the pending manifest, and
    /// moves on to the next manifest to submit or to the end of the plan.
    /// Where nothing is pending the response is dropped.
    pub fn record(self, response: CreateResponse) -> (next: ApplyEngine)
        ensures
            next.plan() == self.plan(),
            self.done() ==> next.answered() == self.answered() && next.position()
                == self.position(),
            !self.done() ==> next.answered() == self.answered().push(response@)
                && next.position() == next_submission(self.steps(), self.position() + 1),
            next.on_track(),
    {
        proof {
            use_type_invariant(&self);
        }
        let ghost before = self.answered@;
        let ghost place = self.cursor as int;
        let ApplyEngine { steps, cursor, result, answered: _ } = self;
        if cursor >= steps.len() {
            return ApplyEngine { steps, cursor, result, answered: Ghost(before) };
        }
        let mut result = result;
        let ghost after = before.push(response@);
        proof {
            lemma_take_next(step_views(steps@), place);
            lemma_more_responses(step_views(steps@).take(place), before, response@);
        }
        match &steps[cursor] {
            Step::Submit(manifest) => {
                let outcome = resource_outcome(manifest, response);
                result.push(outcome);
            },
            _ => {},
        }
        let cursor = Self::settle(&steps, cursor + 1, &mut result, Ghost(after));
        ApplyEngine { steps, cursor, result, answered: Ghost(after) }
    }

    /// The entries recorded so far: the result of the steps that are
    /// settled, with the responses that were recorded.
    pub fn finish(self) -> (result: ApplyResult)
        ensures
            self.on_track(),
            result@ == aggregate(self.steps().take(self.position()), self.answered()),
            self.done() ==> result@ == aggregate(self.steps(), self.answered()),
    {
        proof {
            use_type_invariant(&self);
            assert(self.done() ==> self.steps().take(self.position()) =~= self.steps());
        }
        self.result
    }
}

/// A response beyond those that the submissions of `steps` use changes
/// nothing.
proof fn lemma_more_responses(
    steps: Seq<StepView>,
    responses: Seq<CreateResponseView>,
    response: CreateResponseView,
)
    requires
        submissions(steps) <= responses.len(),
    ensures
        aggregate(steps, responses.push(response)) == aggregate(steps, responses),
    decreases steps.len(),
{
    if steps.len() > 0 {
        lemma_more_responses(steps.drop_last(), responses, response);
    }
}

/// A plan for some documents is, without its last step, a plan for the
/// documents without the last.
proof fn lemma_plan_without_last(documents: Seq<DocumentView>, steps: Seq<StepView>)
    requires
        plan_fits(documents, steps),
        documents.len() > 0,
    ensures
        plan_fits(documents.drop_last(), steps.drop_last()),
        step_fits(documents.last(), steps.last()),
{
    assert forall|i: int| 0 <= i < documents.drop_last().len() implies step_fits(
        documents.drop_last()[i],
        #[trigger] steps.drop_last()[i],
    ) by {
        assert(step_fits(documents[i], steps[i]));
    }
}

/// Every document that is not empty leaves exactly one entry: where each
/// submission of a plan got its response, the successes and the failures
/// together are as many as the documents that are not empty.
pub proof fn lemma_every_document_is_counted(
    documents: Seq<DocumentView>,
    steps: Seq<StepView>,
    responses: Seq<CreateResponseView>,
)
    requires
        plan_fits(documents, steps),
        submissions(steps) <= responses.len(),
    ensures
        aggregate(steps, responses).len() == count_non_empty(documents),
    decreases steps.len(),
{
    if steps.len() > 0 {
        lemma_plan_without_last(documents, steps);
        lemma_every_document_is_counted(documents.drop_last(), steps.drop_last(), responses);
    }
}

/// What the first `n` steps of a plan have recorded stays as it is, and in
/// its place, whatever the later steps add.
pub proof fn lemma_entries_stay(
    steps: Seq<StepView>,
    responses: Seq<CreateResponseView>,
    n: int,
)
    requires
        0 <= n <= steps.len(),
    ensures
        aggregate(steps.take(n), responses).success.is_prefix_of(
            aggregate(steps, responses).success,
        ),
        aggregate(steps.take(n), responses).failure.is_prefix_of(
            aggregate(steps, responses).failure,
        ),
    decreases steps.len(),
{
    if n == steps.len() {
        assert(steps.take(n) =~= steps);
    } else {
        assert(steps.drop_last().take(n) =~= steps.take(n));
        lemma_entries_stay(steps.drop_last(), responses, n);
    }
}

/// A document of a kind that the dispatcher does not create is refused with
/// [`ErrorView::UnsupportedKind`], whatever stands before or after it: its
/// step adds that failure and nothing else, and the failure keeps its place
/// in the result of the whole plan.
pub proof fn lemma_unsupported_kind_is_recorded(
    documents: Seq<DocumentView>,
    steps: Seq<StepView>,
    responses: Seq<CreateResponseView>,
    i: int,
    kind: Seq<char>,
)
    requires
        plan_fits(documents, steps),
        0 <= i < documents.len(),
        !documents[i].null,
        documents[i].kind == Some(kind),
        ResourceKind::recognized(kind) is None,
    ensures
        steps[i] == StepView::Reject(ErrorView::UnsupportedKind(kind)),
        aggregate(steps.take(i + 1), responses) == aggregate(steps.take(i), responses).with(
            Err(ErrorView::UnsupportedKind(kind)),
        ),
        ({
            let place = aggregate(steps.take(i), responses).failure.len() as int;
            &&& place < aggregate(steps, responses).failure.len()
            &&& aggregate(steps, responses).failure[place] == "UnsupportedKind: "@ + kind
        }),
{
    assert(step_fits(documents[i], steps[i]));
    lemma_take_next(steps, i);
    lemma_entries_stay(steps, responses, i + 1);
    let place = aggregate(steps.take(i), responses).failure.len() as int;
    assert(aggregate(steps.take(i + 1), responses).failure[place] == "UnsupportedKind: "@ + kind);
}

/// A submission that the control plane answers with a conflict adds a
/// failure that says the resource already exists, and no success.
pub proof fn lemma_conflict_is_recorded_as_failure(
    steps: Seq<StepView>,
    responses: Seq<CreateResponseView>,
    i: int,
    manifest: ManifestView,
    message: Seq<char>,
)
    requires
        0 <= i < steps.len(),
        steps[i] == StepView::Submit(manifest),
        submissions(steps.take(i)) < responses.len(),
        responses[submissions(steps.take(i)) as int] == (CreateResponseView::ApiError {
            code: CONFLICT,
            message,
        }),
    ensures
        aggregate(steps.take(i + 1), responses).success == aggregate(
            steps.take(i),
            responses,
        ).success,
        aggregate(steps.take(i + 1), responses).failure == aggregate(
            steps.take(i),
            responses,
        ).failure.push(conflict_message(manifest.kind, reported_name(manifest))),
{
    lemma_take_next(steps, i);
}

} // verus!
