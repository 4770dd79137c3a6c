//! The orchestration tick and the state around it.
//!
//! A driver calls `process_generation_queue` as often as it likes and tells it
//! the time. The tick decides; the driver does what the outcome asks for
//! (writing a prompt that passed, listing and reading the templates of a new
//! phase) and hands what it found to `queue_phase_prompts`.

use crate::phase::GenerationPhase;
use crate::rate_limiter::{RateLimiter, DEFAULT_MIN_DELAY_MS};
use crate::state::{all_validated, first_pending, ready_to_advance, AppState, AppStateView};
use crate::templates::{listing_records, placeholder_record};
use crate::validation::{prompt_errors, validate_prompt};
use vstd::prelude::*;

verus! {

/// The request that is in flight.
#[derive(Debug, Clone)]
pub struct GenerationTask {
    pub phase: GenerationPhase,
    pub prompt_name: String,
    /// When the request was started, on the driver's clock.
    pub started_at: u64,
}

/// How far the construction of the generation client has come.
#[derive(Debug, Clone, Copy, PartialEq, Eq, Structural)]
pub enum GeneratorState {
    NotInitialized,
    Initializing,
    Ready,
}

/// What the driver keeps beside the orchestration state: the state of the
/// generation client, the request in flight and the rate limiter.
#[derive(Debug, Clone)]
pub struct GenerationPipeline {
    pub generator: GeneratorState,
    pub current_task: Option<GenerationTask>,
    pub rate_limiter: RateLimiter,
}

impl GenerationPipeline {
    /// A pipeline with no client, no request in flight and a limiter with the
    /// default minimum delay.
    pub fn new() -> (pipeline: GenerationPipeline)
        ensures
            pipeline.generator == GeneratorState::NotInitialized,
            pipeline.current_task is None,
            pipeline.rate_limiter == (RateLimiter {
                last_request: None,
                min_delay_ms: DEFAULT_MIN_DELAY_MS,
            }),
    {
        GenerationPipeline {
            generator: GeneratorState::NotInitialized,
            current_task: None,
            rate_limiter: RateLimiter::new(DEFAULT_MIN_DELAY_MS),
        }
    }

    /// Asks for leave to construct the generation client. Leave is given once:
    /// while a construction is in flight, and after one has succeeded, the
    /// answer is no and nothing changes.
    pub fn begin_initialization(&mut self) -> (granted: bool)
        ensures
            granted == (old(self).generator == GeneratorState::NotInitialized),
            granted ==> *final(self) == (GenerationPipeline {
                generator: GeneratorState::Initializing,
                ..*old(self)
            }),
            !granted ==> *final(self) == *old(self),
    {
        if self.generator == GeneratorState::NotInitialized {
            self.generator = GeneratorState::Initializing;
            true
        } else {
            false
        }
    }

    /// Ends the construction in flight: the client is ready where it was
    /// `constructed`, and missing as before where it was not. Tells whether the
    /// client is ready afterwards. With no construction in flight nothing
    /// changes.
    pub fn initialize_generator(&mut self, constructed: bool) -> (ready: bool)
        ensures
            old(self).generator == GeneratorState::Initializing ==> *final(self)
                == (GenerationPipeline {
                generator: if constructed {
                    GeneratorState::Ready
                } else {
                    GeneratorState::NotInitialized
                },
                ..*old(self)
            }),
            old(self).generator != GeneratorState::Initializing ==> *final(self) == *old(self),
            ready == (final(self).generator == GeneratorState::Ready),
    {
        if self.generator == GeneratorState::Initializing {
            if constructed {
                self.generator = GeneratorState::Ready;
            } else {
                self.generator = GeneratorState::NotInitialized;
            }
        }
        self.generator == GeneratorState::Ready
    }

    /// Whether the rate limiter lets a request pass at `now_ms`.
    pub fn can_make_request(&self, now_ms: u64) -> (allowed: bool)
        ensures
            allowed == self.rate_limiter.permits(now_ms),
    {
        self.rate_limiter.can_make_request(now_ms)
    }

    /// Records that a request is made at `now_ms`.
    pub fn mark_request_made(&mut self, now_ms: u64)
        ensures
            *final(self) == (GenerationPipeline {
                rate_limiter: old(self).rate_limiter.marked(now_ms),
                ..*old(self)
            }),
    {
        self.rate_limiter.mark_request_made(now_ms);
    }
}

impl Default for GenerationPipeline {
    fn default() -> (pipeline: GenerationPipeline)
        ensures
            pipeline.generator == GeneratorState::NotInitialized,
            pipeline.current_task is None,
            pipeline.rate_limiter == (RateLimiter {
                last_request: None,
                min_delay_ms: DEFAULT_MIN_DELAY_MS,
            }),
    {
        GenerationPipeline::new()
    }
}

/// What a tick did, and so what is left for the driver to do.
#[derive(Debug, Clone, Copy, PartialEq, Eq)]
pub enum TickOutcome {
    /// Nothing: generation is not active, the rate limiter said no, or the
    /// queue is empty.
    Idle,
    /// Validation was attempted on the record at `index`. Where it `passed`, the
    /// driver writes the prompt to the place for validated prompts.
    Validated { index: usize, passed: bool },
    /// Every queued prompt had been attempted: the phase moved on from `from`
    /// to `to` and the queue was emptied. Unless `to` is the last phase, a
    /// request was recorded and the driver now fetches the templates of `to`.
    Advanced { from: GenerationPhase, to: GenerationPhase },
}

/// Generation is active and the limiter lets a request pass at `now_ms`.
pub open spec fn tick_enabled(limiter: RateLimiter, state: AppStateView, now_ms: u64) -> bool {
    state.generation_active && limiter.permits(now_ms)
}

/// The result of a tick: the limiter and the state after it, and its outcome.
pub struct TickResult {
    pub limiter: RateLimiter,
    pub state: AppStateView,
    pub outcome: TickOutcome,
}

/// What one tick at `now_ms` does to `limiter` and `state`.
///
/// Where the tick is not enabled: nothing. Else, where a record awaits validation, the
/// earliest such record is validated and nothing more. Else, where the queue is
/// not empty, the phase advances, the queue is emptied, and a request is
/// recorded unless the new phase is the last. Else nothing.
pub open spec fn tick(limiter: RateLimiter, state: AppStateView, now_ms: u64) -> TickResult {
    if !tick_enabled(limiter, state, now_ms) {
        TickResult { limiter, state, outcome: TickOutcome::Idle }
    } else if !all_validated(state.queue) {
        let i = choose|i: int| first_pending(state.queue, i);
        let errors = prompt_errors(state.queue[i].content);
        TickResult {
            limiter,
            state: AppStateView {
                queue: state.queue.update(i, state.queue[i].attempted(errors)),
                ..state
            },
            outcome: TickOutcome::Validated { index: i as usize, passed: errors.len() == 0 },
        }
    } else if state.queue.len() > 0 {
        let to = state.current_phase.successor();
        TickResult {
            limiter: if to.terminal() {
                limiter
            } else {
                limiter.marked(now_ms)
            },
            state: AppStateView { current_phase: to, queue: Seq::empty(), ..state },
            outcome: TickOutcome::Advanced { from: state.current_phase, to },
        }
    } else {
        TickResult { limiter, state, outcome: TickOutcome::Idle }
    }
}

/// Opens the generation of the current phase: records a request at `now_ms`
/// and names the template directory to fetch from, if the phase has one.
pub fn start_phase_generation(
    pipeline: &mut GenerationPipeline,
    app_state: &AppState,
    now_ms: u64,
) -> (directory: Option<&'static str>)
    ensures
        *final(pipeline) == (GenerationPipeline {
            rate_limiter: old(pipeline).rate_limiter.marked(now_ms),
            ..*old(pipeline)
        }),
        match directory {
            Some(name) => app_state.current_phase.directory() == Some(name@),
            None => app_state.current_phase.directory() is None,
        },
{
    pipeline.mark_request_made(now_ms);
    app_state.current_phase.template_directory()
}

/// One tick of the orchestration at `now_ms`: does at most one thing, as
/// `tick` says, and reports it. Safe to call at any rate.
pub fn process_generation_queue(
    pipeline: &mut GenerationPipeline,
    app_state: &mut AppState,
    now_ms: u64,
) -> (outcome: TickOutcome)
    ensures
        *final(pipeline) == (GenerationPipeline {
            rate_limiter: tick(old(pipeline).rate_limiter, old(app_state)@, now_ms).limiter,
            ..*old(pipeline)
        }),
        final(app_state)@ == tick(old(pipeline).rate_limiter, old(app_state)@, now_ms).state,
        outcome == tick(old(pipeline).rate_limiter, old(app_state)@, now_ms).outcome,
{
    if !app_state.generation_active || !pipeline.can_make_request(now_ms) {
        return TickOutcome::Idle;
    }
    match app_state.next_pending_index() {
        Some(index) => {
            proof {
                let q = app_state@.queue;
                let i = choose|i: int| first_pending(q, i);
                assert(first_pending(q, index as int));
                assert(!q[index as int].validated);
                assert(i == index) by {
                    if i < index {
                        assert(q[i].validated);
                    } else if index < i {
                        assert(q[index as int].validated);
                    }
                }
            }
            let errors = validate_prompt(app_state.prompt_validation_queue[index].content.as_str());
            let passed = errors.len() == 0;
            app_state.mark_validated_at(index, errors);
            return TickOutcome::Validated { index, passed };
        },
        None => {},
    }
    if app_state.prompt_validation_queue.len() > 0 {
        let from = app_state.current_phase;
        app_state.advance_phase();
        let to = app_state.current_phase;
        if !to.is_terminal() {
            let _ = start_phase_generation(pipeline, app_state, now_ms);
        }
        return TickOutcome::Advanced { from, to };
    }
    TickOutcome::Idle
}

/// A tick that is not enabled changes nothing.
pub proof fn lemma_disabled_tick_is_idle(limiter: RateLimiter, state: AppStateView, now_ms: u64)
    requires
        !tick_enabled(limiter, state, now_ms),
    ensures
        tick(limiter, state, now_ms) == (TickResult { limiter, state, outcome: TickOutcome::Idle }),
{
}

/// An enabled tick validates the earliest record that awaits validation, and
/// that one only: the record counts as validated afterwards, whatever the
/// errors, and it passed exactly when there are none. The phase, the other
/// records and the limiter stay as they are.
pub proof fn lemma_tick_validates_earliest(
    limiter: RateLimiter,
    state: AppStateView,
    now_ms: u64,
    i: int,
)
    requires
        tick_enabled(limiter, state, now_ms),
        first_pending(state.queue, i),
    ensures
        tick(limiter, state, now_ms) == (TickResult {
            limiter,
            state: AppStateView {
                queue: state.queue.update(
                    i,
                    state.queue[i].attempted(prompt_errors(state.queue[i].content)),
                ),
                ..state
            },
            outcome: TickOutcome::Validated {
                index: i as usize,
                passed: prompt_errors(state.queue[i].content).len() == 0,
            },
        }),
        tick(limiter, state, now_ms).state.queue[i].validated,
{
    let q = state.queue;
    let j = choose|j: int| first_pending(q, j);
    assert(!q[i].validated);
    assert(j == i) by {
        if j < i {
            assert(q[j].validated);
        } else if i < j {
            assert(q[i].validated);
        }
    }
}

/// The phase advances exactly when the tick is enabled, the queue is not empty
/// and validation has been attempted on every record, whether or not it
/// passed. The tick then moves to the next phase of the fixed order and leaves
/// the queue empty. A single record that awaits validation holds the phase
/// where it is.
pub proof fn lemma_advance_rule(limiter: RateLimiter, state: AppStateView, now_ms: u64)
    ensures
        tick(limiter, state, now_ms).outcome is Advanced <==> tick_enabled(limiter, state, now_ms)
            && ready_to_advance(state.queue),
        tick_enabled(limiter, state, now_ms) && ready_to_advance(state.queue) ==> {
            &&& tick(limiter, state, now_ms).state.current_phase
                == state.current_phase.successor()
            &&& tick(limiter, state, now_ms).state.queue.len() == 0
            &&& tick(limiter, state, now_ms).outcome == (TickOutcome::Advanced {
                from: state.current_phase,
                to: state.current_phase.successor(),
            })
        },
        !(tick_enabled(limiter, state, now_ms) && ready_to_advance(state.queue)) ==> tick(
            limiter,
            state,
            now_ms,
        ).state.current_phase == state.current_phase,
{
}

/// After an advance into a phase that is not the last, the limiter lets no
/// further request pass before its minimum delay is over: the next phase
/// cannot be opened at once.
pub proof fn lemma_advance_records_request(limiter: RateLimiter, state: AppStateView, now_ms: u64)
    requires
        tick_enabled(limiter, state, now_ms),
        ready_to_advance(state.queue),
        !state.current_phase.successor().terminal(),
    ensures
        tick(limiter, state, now_ms).limiter == limiter.marked(now_ms),
        limiter.min_delay_ms > 0 ==> !tick_enabled(
            tick(limiter, state, now_ms).limiter,
            tick(limiter, state, now_ms).state,
            now_ms,
        ),
{
}

/// A phase whose template source lists nothing still gets something to
/// validate: after the advance into it and the queueing of the empty listing,
/// the queue holds the placeholder of the phase and nothing else.
pub proof fn lemma_empty_phase_gets_placeholder(
    limiter: RateLimiter,
    state: AppStateView,
    now_ms: u64,
    generated_path: Seq<char>,
)
    requires
        tick_enabled(limiter, state, now_ms),
        ready_to_advance(state.queue),
        !state.current_phase.successor().terminal(),
    ensures
        tick(limiter, state, now_ms).state.current_phase.directory() is Some,
        tick(limiter, state, now_ms).state.queue + listing_records(
            tick(limiter, state, now_ms).state.current_phase.directory()->0,
            Some(Seq::empty()),
            generated_path,
        ) == seq![
            placeholder_record(
                tick(limiter, state, now_ms).state.current_phase.directory()->0,
                generated_path,
            ),
        ],
{
    let after = tick(limiter, state, now_ms).state;
    let dir = after.current_phase.directory()->0;
    assert(after.queue + listing_records(dir, Some(Seq::empty()), generated_path) =~= seq![
        placeholder_record(dir, generated_path),
    ]);
}

} // verus!
