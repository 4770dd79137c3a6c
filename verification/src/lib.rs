//! The core of a multi-phase content generator: the phase state machine, its
//! validation queue, the validation engine for prompts and the rate limiter for
//! requests to the generation service.

pub mod error;
pub mod phase;
pub mod pipeline;
pub mod rate_limiter;
pub mod state;
pub mod templates;
pub mod text;
pub mod types;
pub mod validation;

pub use error::GeneratorError;
pub use phase::GenerationPhase;
pub use pipeline::{
    process_generation_queue, start_phase_generation, GenerationPipeline, GenerationTask,
    GeneratorState, TickOutcome,
};
pub use rate_limiter::RateLimiter;
pub use state::{AppState, PromptRecord};
pub use templates::{queue_phase_prompts, QueueOutcome, TemplateFile, TemplateListing};
pub use types::{GameInfo, GeneratedArtifact, GenerationOptions};
pub use validation::validate_prompt;
