//! The orchestration state: the current phase and the queue of prompts that
//! await validation in it.

use crate::phase::GenerationPhase;
use crate::text::{same_text, string_views};
use vstd::prelude::*;

verus! {

/// A prompt of the current phase, with the outcome of its validation.
#[derive(Debug)]
pub struct PromptRecord {
    /// The name of the template directory of the phase the prompt belongs to.
    pub phase: String,
    pub name: String,
    pub content: String,
    /// Where the prompt came from. The library only compares it.
    pub path: String,
    /// Whether validation has been attempted, whatever it found.
    pub validated: bool,
    /// What validation found wrong, in the order of the checks.
    pub errors: Vec<String>,
}

/// The mathematical model of a `PromptRecord`.
pub struct PromptRecordView {
    pub phase: Seq<char>,
    pub name: Seq<char>,
    pub content: Seq<char>,
    pub path: Seq<char>,
    pub validated: bool,
    pub errors: Seq<Seq<char>>,
}

impl View for PromptRecord {
    type V = PromptRecordView;

    open spec fn view(&self) -> PromptRecordView {
        PromptRecordView {
            phase: self.phase@,
            name: self.name@,
            content: self.content@,
            path: self.path@,
            validated: self.validated,
            errors: string_views(self.errors@),
        }
    }
}

impl PromptRecordView {
    /// A prompt on which validation has not been attempted.
    pub open spec fn fresh(
        phase: Seq<char>,
        name: Seq<char>,
        content: Seq<char>,
        path: Seq<char>,
    ) -> PromptRecordView {
        PromptRecordView { phase, name, content, path, validated: false, errors: Seq::empty() }
    }

    /// The prompt after a validation attempt that found `errors`.
    pub open spec fn attempted(self, errors: Seq<Seq<char>>) -> PromptRecordView {
        PromptRecordView { validated: true, errors, ..self }
    }
}

/// The models of a sequence of records.
pub open spec fn record_views(q: Seq<PromptRecord>) -> Seq<PromptRecordView> {
    Seq::new(q.len(), |i: int| q[i]@)
}

/// Validation has been attempted on every record of `q`.
pub open spec fn all_validated(q: Seq<PromptRecordView>) -> bool {
    forall|i: int| 0 <= i < q.len() ==> (#[trigger] q[i]).validated
}

/// `i` is the place of the earliest record of `q` on which validation has not
/// been attempted.
pub open spec fn first_pending(q: Seq<PromptRecordView>, i: int) -> bool {
    &&& 0 <= i < q.len()
    &&& !q[i].validated
    &&& forall|j: int| 0 <= j < i ==> (#[trigger] q[j]).validated
}

/// `i` is the place of the earliest record of `q` that came from `path` and on
/// which validation has not been attempted.
pub open spec fn first_pending_from(q: Seq<PromptRecordView>, path: Seq<char>, i: int) -> bool {
    &&& 0 <= i < q.len()
    &&& !q[i].validated
    &&& q[i].path == path
    &&& forall|j: int| 0 <= j < i ==> (#[trigger] q[j]).validated || q[j].path != path
}

/// No record of `q` that came from `path` awaits validation.
pub open spec fn none_pending_from(q: Seq<PromptRecordView>, path: Seq<char>) -> bool {
    forall|j: int| 0 <= j < q.len() ==> (#[trigger] q[j]).validated || q[j].path != path
}

/// The phase may advance: the queue is not empty and validation has been
/// attempted on every record, whether or not it passed.
pub open spec fn ready_to_advance(q: Seq<PromptRecordView>) -> bool {
    q.len() > 0 && all_validated(q)
}

/// The state that the orchestration driver owns.
#[derive(Debug)]
pub struct AppState {
    /// While this is `false` a tick does nothing.
    pub generation_active: bool,
    pub current_phase: GenerationPhase,
    /// The prompts of the current phase, in the order in which they were queued.
    pub prompt_validation_queue: Vec<PromptRecord>,
}

/// The mathematical model of an `AppState`.
pub struct AppStateView {
    pub generation_active: bool,
    pub current_phase: GenerationPhase,
    pub queue: Seq<PromptRecordView>,
}

impl View for AppState {
    type V = AppStateView;

    open spec fn view(&self) -> AppStateView {
        AppStateView {
            generation_active: self.generation_active,
            current_phase: self.current_phase,
            queue: record_views(self.prompt_validation_queue@),
        }
    }
}

impl AppState {
    /// The state before generation starts: inactive, in the first phase, with
    /// nothing queued.
    pub fn new() -> (state: AppState)
        ensures
            !state@.generation_active,
            state@.current_phase == GenerationPhase::Design,
            state@.queue.len() == 0,
    {
        AppState {
            generation_active: false,
            current_phase: GenerationPhase::first(),
            prompt_validation_queue: Vec::new(),
        }
    }

    /// Queues a prompt for validation, behind those already queued.
    pub fn add_prompt_to_validate(
        &mut self,
        phase: String,
        name: String,
        content: String,
        path: String,
    )
        ensures
            final(self)@ == (AppStateView {
                queue: old(self)@.queue.push(
                    PromptRecordView::fresh(phase@, name@, content@, path@),
                ),
                ..old(self)@
            }),
    {
        let record = PromptRecord {
            phase,
            name,
            content,
            path,
            validated: false,
            errors: Vec::new(),
        };
        assert(record@.errors =~= Seq::<Seq<char>>::empty());
        self.prompt_validation_queue.push(record);
        assert(self@.queue =~= old(self)@.queue.push(record@));
    }

    /// The place of the earliest record on which validation has not been
    /// attempted, if there is one.
    pub fn next_pending_index(&self) -> (found: Option<usize>)
        ensures
            match found {
                Some(i) => first_pending(self@.queue, i as int),
                None => all_validated(self@.queue),
            },
    {
        let n = self.prompt_validation_queue.len();
        let mut i: usize = 0;
        while i < n
            invariant
                i <= n,
                n == self.prompt_validation_queue.len(),
                forall|j: int| 0 <= j < i ==> (#[trigger] self@.queue[j]).validated,
            decreases n - i,
        {
            if !self.prompt_validation_queue[i].validated {
                return Some(i);
            }
            i += 1;
        }
        None
    }

    /// The earliest record on which validation has not been attempted, if there
    /// is one.
    pub fn get_next_prompt_to_validate(&self) -> (found: Option<&PromptRecord>)
        ensures
            match found {
                Some(record) => exists|i: int|
                    first_pending(self@.queue, i) && self.prompt_validation_queue@[i] == *record,
                None => all_validated(self@.queue),
            },
    {
        match self.next_pending_index() {
            Some(i) => Some(&self.prompt_validation_queue[i]),
            None => None,
        }
    }

    /// Records a validation attempt on the record at `index`: it counts as
    /// validated from now on and carries `errors`.
    pub(crate) fn mark_validated_at(&mut self, index: usize, errors: Vec<String>)
        requires
            index < old(self).prompt_validation_queue.len(),
        ensures
            final(self)@ == (AppStateView {
                queue: old(self)@.queue.update(
                    index as int,
                    old(self)@.queue[index as int].attempted(string_views(errors@)),
                ),
                ..old(self)@
            }),
    {
        let mut record = self.prompt_validation_queue.remove(index);
        record.validated = true;
        record.errors = errors;
        self.prompt_validation_queue.insert(index, record);
        assert(self@.queue =~= old(self)@.queue.update(
            index as int,
            old(self)@.queue[index as int].attempted(string_views(errors@)),
        ));
    }

    /// Records a validation attempt on the earliest record that came from
    /// `path` and has not been validated yet. Tells whether there was one;
    /// where there was none, nothing changes.
    pub fn mark_prompt_validated(&mut self, path: &str, errors: Vec<String>) -> (marked: bool)
        ensures
            marked ==> exists|i: int|
                first_pending_from(old(self)@.queue, path@, i) && final(self)@ == (AppStateView {
                    queue: old(self)@.queue.update(
                        i,
                        old(self)@.queue[i].attempted(string_views(errors@)),
                    ),
                    ..old(self)@
                }),
            !marked ==> none_pending_from(old(self)@.queue, path@) && final(self)@ == old(self)@,
    {
        let n = self.prompt_validation_queue.len();
        let mut i: usize = 0;
        while i < n
            invariant
                i <= n,
                n == self.prompt_validation_queue.len(),
                *self == *old(self),
                forall|j: int|
                    0 <= j < i ==> (#[trigger] self@.queue[j]).validated || self@.queue[j].path
                        != path@,
            decreases n - i,
        {
            if !self.prompt_validation_queue[i].validated && same_text(
                self.prompt_validation_queue[i].path.as_str(),
                path,
            ) {
                assert(first_pending_from(old(self)@.queue, path@, i as int));
                self.mark_validated_at(i, errors);
                return true;
            }
            i += 1;
        }
        false
    }

    /// Whether the phase may advance: the queue is not empty and validation has
    /// been attempted on every record.
    pub fn can_advance(&self) -> (r: bool)
        ensures
            r == ready_to_advance(self@.queue),
    {
        if self.prompt_validation_queue.len() == 0 {
            return false;
        }
        match self.next_pending_index() {
            Some(i) => false,
            None => true,
        }
    }

    /// Moves to the next phase in the fixed order and empties the queue. From
    /// the last phase there is nowhere to go: the phase stays.
    pub fn advance_phase(&mut self)
        requires
            ready_to_advance(old(self)@.queue),
        ensures
            final(self)@ == (AppStateView {
                current_phase: old(self)@.current_phase.successor(),
                queue: Seq::empty(),
                ..old(self)@
            }),
    {
        self.current_phase = self.current_phase.next();
        self.prompt_validation_queue.clear();
        assert(self@.queue =~= Seq::<PromptRecordView>::empty());
    }
}

} // verus!
