use game_generator::phase::GenerationPhase;
use game_generator::pipeline::{
    process_generation_queue, start_phase_generation, GenerationPipeline, GenerationTask,
    GeneratorState, TickOutcome,
};
use game_generator::state::{AppState, PromptRecord};
use game_generator::templates::{
    placeholder_prompt, queue_phase_prompts, QueueOutcome, TemplateFile, TemplateListing,
};
use game_generator::types::{GameInfo, GeneratedArtifact, GenerationOptions};

fn valid_prompt() -> String {
    "x".repeat(60) + "{{ game_name }}"
}

fn record(name: &str, validated: bool, errors: Vec<String>) -> PromptRecord {
    PromptRecord {
        phase: "01_design".to_string(),
        name: name.to_string(),
        content: valid_prompt(),
        path: format!("prompts/01_design/{}.jinja", name),
        validated,
        errors,
    }
}

fn active_state() -> AppState {
    let mut state = AppState::new();
    state.generation_active = true;
    state
}

#[test]
fn new_state_is_inactive_in_the_first_phase() {
    let state = AppState::new();
    assert!(!state.generation_active);
    assert_eq!(state.current_phase, GenerationPhase::Design);
    assert!(state.prompt_validation_queue.is_empty());
    assert!(!state.can_advance());
    assert!(state.get_next_prompt_to_validate().is_none());
}

#[test]
fn new_pipeline_allows_a_request() {
    let pipeline = GenerationPipeline::new();
    assert_eq!(pipeline.generator, GeneratorState::NotInitialized);
    assert!(pipeline.current_task.is_none());
    assert_eq!(pipeline.rate_limiter.min_delay_ms, 1000);
    assert!(pipeline.can_make_request(0));
    let other = GenerationPipeline::default();
    assert_eq!(other.rate_limiter.last_request, None);
}

#[test]
fn pipeline_refuses_right_after_a_request_and_allows_after_the_delay() {
    let mut pipeline = GenerationPipeline::new();
    assert!(pipeline.can_make_request(10));
    pipeline.mark_request_made(10);
    assert!(!pipeline.can_make_request(10));
    assert!(!pipeline.can_make_request(1009));
    assert!(pipeline.can_make_request(1010));
}

#[test]
fn generator_is_initialized_once() {
    let mut pipeline = GenerationPipeline::new();
    assert!(!pipeline.initialize_generator(true));
    assert_eq!(pipeline.generator, GeneratorState::NotInitialized);
    assert!(pipeline.begin_initialization());
    assert_eq!(pipeline.generator, GeneratorState::Initializing);
    assert!(!pipeline.begin_initialization());
    assert!(!pipeline.initialize_generator(false));
    assert_eq!(pipeline.generator, GeneratorState::NotInitialized);
    assert!(pipeline.begin_initialization());
    assert!(pipeline.initialize_generator(true));
    assert_eq!(pipeline.generator, GeneratorState::Ready);
    assert!(!pipeline.begin_initialization());
    assert!(pipeline.initialize_generator(false));
    assert_eq!(pipeline.generator, GeneratorState::Ready);
}

#[test]
fn task_records_what_is_in_flight() {
    let mut pipeline = GenerationPipeline::new();
    pipeline.current_task = Some(GenerationTask {
        phase: GenerationPhase::WorldGeneration,
        prompt_name: "map".to_string(),
        started_at: 42,
    });
    pipeline.mark_request_made(42);
    let task = pipeline.current_task.clone().unwrap();
    assert_eq!(task.phase, GenerationPhase::WorldGeneration);
    assert_eq!(task.prompt_name, "map");
    assert_eq!(task.started_at, 42);
}

#[test]
fn tick_does_nothing_while_generation_is_inactive() {
    let mut pipeline = GenerationPipeline::new();
    let mut state = AppState::new();
    state.prompt_validation_queue.push(record("a", false, vec![]));
    assert_eq!(process_generation_queue(&mut pipeline, &mut state, 0), TickOutcome::Idle);
    assert!(!state.prompt_validation_queue[0].validated);
    assert_eq!(state.current_phase, GenerationPhase::Design);
}

#[test]
fn tick_does_nothing_while_the_limiter_refuses() {
    let mut pipeline = GenerationPipeline::new();
    let mut state = active_state();
    state.prompt_validation_queue.push(record("a", false, vec![]));
    pipeline.mark_request_made(100);
    assert_eq!(process_generation_queue(&mut pipeline, &mut state, 1099), TickOutcome::Idle);
    assert!(!state.prompt_validation_queue[0].validated);
    assert_eq!(
        process_generation_queue(&mut pipeline, &mut state, 1100),
        TickOutcome::Validated { index: 0, passed: true }
    );
    assert!(state.prompt_validation_queue[0].validated);
    assert_eq!(pipeline.rate_limiter.last_request, Some(100));
}

#[test]
fn tick_does_nothing_on_an_empty_queue() {
    let mut pipeline = GenerationPipeline::new();
    let mut state = active_state();
    assert_eq!(process_generation_queue(&mut pipeline, &mut state, 0), TickOutcome::Idle);
    assert_eq!(state.current_phase, GenerationPhase::Design);
    assert_eq!(pipeline.rate_limiter.last_request, None);
}

#[test]
fn tick_validates_one_record_at_a_time_in_queue_order() {
    let mut pipeline = GenerationPipeline::new();
    let mut state = active_state();
    state.add_prompt_to_validate(
        "01_design".to_string(),
        "good".to_string(),
        valid_prompt(),
        "p/good".to_string(),
    );
    state.add_prompt_to_validate(
        "01_design".to_string(),
        "bad".to_string(),
        "".to_string(),
        "p/bad".to_string(),
    );
    assert_eq!(state.get_next_prompt_to_validate().unwrap().name, "good");
    assert_eq!(
        process_generation_queue(&mut pipeline, &mut state, 1),
        TickOutcome::Validated { index: 0, passed: true }
    );
    assert!(state.prompt_validation_queue[0].validated);
    assert!(state.prompt_validation_queue[0].errors.is_empty());
    assert!(!state.prompt_validation_queue[1].validated);
    assert_eq!(state.get_next_prompt_to_validate().unwrap().name, "bad");
    assert!(!state.can_advance());

    assert_eq!(
        process_generation_queue(&mut pipeline, &mut state, 2),
        TickOutcome::Validated { index: 1, passed: false }
    );
    assert!(state.prompt_validation_queue[1].validated);
    assert_eq!(
        state.prompt_validation_queue[1].errors,
        vec![
            "Prompt is empty".to_string(),
            "Prompt seems too short".to_string(),
            "No template variables or logic found".to_string(),
        ]
    );
    assert_eq!(state.prompt_validation_queue[1].content, "");
    assert_eq!(state.prompt_validation_queue[1].path, "p/bad");
    assert_eq!(state.current_phase, GenerationPhase::Design);
    assert!(state.get_next_prompt_to_validate().is_none());
    assert!(state.can_advance());
}

#[test]
fn three_attempted_records_let_the_phase_advance() {
    let mut pipeline = GenerationPipeline::new();
    let mut state = active_state();
    state.prompt_validation_queue.push(record("a", true, vec![]));
    state.prompt_validation_queue.push(record("b", true, vec!["Prompt is empty".to_string()]));
    state.prompt_validation_queue.push(record("c", true, vec![]));
    assert!(state.can_advance());
    let outcome = process_generation_queue(&mut pipeline, &mut state, 7);
    assert_eq!(
        outcome,
        TickOutcome::Advanced { from: GenerationPhase::Design, to: GenerationPhase::StyleGuide }
    );
    assert_eq!(state.current_phase, GenerationPhase::StyleGuide);
    assert!(state.prompt_validation_queue.is_empty());
    assert_eq!(pipeline.rate_limiter.last_request, Some(7));
    assert!(state.generation_active);
}

#[test]
fn one_record_that_awaits_validation_holds_the_phase() {
    let mut pipeline = GenerationPipeline::new();
    let mut state = active_state();
    state.prompt_validation_queue.push(record("a", true, vec![]));
    state.prompt_validation_queue.push(record("b", false, vec![]));
    state.prompt_validation_queue.push(record("c", true, vec![]));
    assert!(!state.can_advance());
    let outcome = process_generation_queue(&mut pipeline, &mut state, 7);
    assert_eq!(outcome, TickOutcome::Validated { index: 1, passed: true });
    assert_eq!(state.current_phase, GenerationPhase::Design);
    assert_eq!(state.prompt_validation_queue.len(), 3);
    assert_eq!(pipeline.rate_limiter.last_request, None);
}

#[test]
fn advance_phase_moves_on_and_empties_the_queue() {
    let mut state = active_state();
    state.prompt_validation_queue.push(record("a", true, vec!["x".to_string()]));
    assert!(state.can_advance());
    state.advance_phase();
    assert_eq!(state.current_phase, GenerationPhase::StyleGuide);
    assert!(state.prompt_validation_queue.is_empty());
    assert!(!state.can_advance());
}

#[test]
fn mark_prompt_validated_finds_the_record_by_its_path() {
    let mut state = active_state();
    state.prompt_validation_queue.push(record("a", false, vec![]));
    state.prompt_validation_queue.push(record("b", false, vec![]));
    state.prompt_validation_queue.push(record("b", false, vec![]));
    assert!(state.mark_prompt_validated("prompts/01_design/b.jinja", vec!["e".to_string()]));
    assert!(!state.prompt_validation_queue[0].validated);
    assert!(state.prompt_validation_queue[1].validated);
    assert_eq!(state.prompt_validation_queue[1].errors, vec!["e".to_string()]);
    assert_eq!(state.prompt_validation_queue[1].name, "b");
    assert!(!state.prompt_validation_queue[2].validated);
    assert!(state.mark_prompt_validated("prompts/01_design/b.jinja", vec![]));
    assert!(state.prompt_validation_queue[2].validated);
    assert!(!state.mark_prompt_validated("prompts/01_design/b.jinja", vec![]));
    assert!(!state.mark_prompt_validated("elsewhere", vec![]));
    assert_eq!(state.prompt_validation_queue.len(), 3);
    assert_eq!(state.get_next_prompt_to_validate().unwrap().name, "a");
}

#[test]
fn start_phase_generation_records_the_request_and_names_the_directory() {
    let mut pipeline = GenerationPipeline::new();
    let mut state = active_state();
    state.current_phase = GenerationPhase::AiSystems;
    assert_eq!(start_phase_generation(&mut pipeline, &state, 33), Some("04_ai_systems"));
    assert_eq!(pipeline.rate_limiter.last_request, Some(33));
    state.current_phase = GenerationPhase::Packaging;
    assert_eq!(start_phase_generation(&mut pipeline, &state, 44), None);
    assert_eq!(pipeline.rate_limiter.last_request, Some(44));
}

#[test]
fn phase_without_templates_gets_one_placeholder() {
    let mut pipeline = GenerationPipeline::new();
    let mut state = active_state();
    state.prompt_validation_queue.push(record("a", true, vec![]));
    let outcome = process_generation_queue(&mut pipeline, &mut state, 0);
    assert_eq!(
        outcome,
        TickOutcome::Advanced { from: GenerationPhase::Design, to: GenerationPhase::StyleGuide }
    );
    let dir = state.current_phase.template_directory().unwrap();
    let queued = queue_phase_prompts(
        &mut state,
        dir,
        &TemplateListing::Found(vec![]),
        "generated/02_style/main.jinja",
    );
    assert_eq!(queued, QueueOutcome::Placeholder);
    assert_eq!(state.prompt_validation_queue.len(), 1);
    let placeholder = &state.prompt_validation_queue[0];
    assert_eq!(placeholder.phase, "02_style");
    assert_eq!(placeholder.name, "main");
    assert_eq!(placeholder.path, "generated/02_style/main.jinja");
    assert!(!placeholder.validated);
    assert!(placeholder.errors.is_empty());
    assert_eq!(
        placeholder.content,
        "{% comment %}Auto-generated placeholder for phase: 02_style{% endcomment %}\n{{ game_name }}\n{{ genre }}\n"
    );
    assert!(placeholder.content.contains("{{ game_name }}"));
    assert!(placeholder.content.contains("{{ genre }}"));
}

#[test]
fn placeholder_passes_the_basic_checks_and_lets_the_phase_advance() {
    let mut pipeline = GenerationPipeline::new();
    let mut state = active_state();
    state.current_phase = GenerationPhase::StyleGuide;
    queue_phase_prompts(&mut state, "02_style", &TemplateListing::Found(vec![]), "g/main");
    let outcome = process_generation_queue(&mut pipeline, &mut state, 0);
    assert!(matches!(outcome, TickOutcome::Validated { index: 0, .. }));
    let errors = &state.prompt_validation_queue[0].errors;
    assert!(!errors.contains(&"Prompt is empty".to_string()));
    assert!(!errors.contains(&"Prompt seems too short".to_string()));
    assert!(!errors.contains(&"No template variables or logic found".to_string()));
    assert!(errors.iter().all(|e| e.starts_with("MinJinja parse error: ")));
    let outcome = process_generation_queue(&mut pipeline, &mut state, 1);
    assert_eq!(
        outcome,
        TickOutcome::Advanced {
            from: GenerationPhase::StyleGuide,
            to: GenerationPhase::WorldGeneration
        }
    );
}

#[test]
fn placeholder_prompt_names_the_phase() {
    assert_eq!(
        placeholder_prompt("09_integration"),
        "{% comment %}Auto-generated placeholder for phase: 09_integration{% endcomment %}\n{{ game_name }}\n{{ genre }}\n"
    );
}

#[test]
fn listed_templates_are_queued_in_order() {
    let mut state = active_state();
    state.prompt_validation_queue.push(record("kept", true, vec![]));
    let listing = TemplateListing::Found(vec![
        TemplateFile {
            path: "t/03_world/map.jinja".to_string(),
            stem: Some("map".to_string()),
            content: Some("map text".to_string()),
        },
        TemplateFile {
            path: "t/03_world/broken.jinja".to_string(),
            stem: Some("broken".to_string()),
            content: None,
        },
        TemplateFile {
            path: "t/03_world/..".to_string(),
            stem: None,
            content: Some("nameless".to_string()),
        },
    ]);
    let outcome = queue_phase_prompts(&mut state, "03_world", &listing, "unused");
    assert_eq!(outcome, QueueOutcome::Queued { count: 2 });
    let queue = &state.prompt_validation_queue;
    assert_eq!(queue.len(), 3);
    assert_eq!(queue[0].name, "kept");
    assert_eq!(queue[1].phase, "03_world");
    assert_eq!(queue[1].name, "map");
    assert_eq!(queue[1].content, "map text");
    assert_eq!(queue[1].path, "t/03_world/map.jinja");
    assert!(!queue[1].validated);
    assert!(queue[1].errors.is_empty());
    assert_eq!(queue[2].name, "unknown");
    assert_eq!(queue[2].content, "nameless");
    assert_eq!(queue[2].path, "t/03_world/..");
}

#[test]
fn templates_that_cannot_be_read_leave_the_queue_empty() {
    let mut state = active_state();
    let listing = TemplateListing::Found(vec![TemplateFile {
        path: "t/x".to_string(),
        stem: Some("x".to_string()),
        content: None,
    }]);
    assert_eq!(
        queue_phase_prompts(&mut state, "05_assets", &listing, "g"),
        QueueOutcome::Queued { count: 0 }
    );
    assert!(state.prompt_validation_queue.is_empty());
}

#[test]
fn failed_listing_queues_nothing() {
    let mut state = active_state();
    assert_eq!(
        queue_phase_prompts(&mut state, "05_assets", &TemplateListing::Failed, "g"),
        QueueOutcome::Unavailable
    );
    assert!(state.prompt_validation_queue.is_empty());
}

#[test]
fn run_reaches_packaging_and_stops_there() {
    let mut pipeline = GenerationPipeline::new();
    let mut state = active_state();
    queue_phase_prompts(&mut state, "01_design", &TemplateListing::Found(vec![]), "g");
    let mut now = 0u64;
    let mut advanced = Vec::new();
    let mut ticks = 0;
    while state.current_phase != GenerationPhase::Packaging {
        ticks += 1;
        assert!(ticks < 1000);
        now += 1000;
        match process_generation_queue(&mut pipeline, &mut state, now) {
            TickOutcome::Advanced { from, to } => {
                assert_eq!(from.next(), to);
                assert!(state.prompt_validation_queue.is_empty());
                advanced.push(to);
                if let Some(dir) = to.template_directory() {
                    assert_eq!(pipeline.rate_limiter.last_request, Some(now));
                    queue_phase_prompts(&mut state, dir, &TemplateListing::Found(vec![]), "g");
                }
            }
            TickOutcome::Validated { index, .. } => assert_eq!(index, 0),
            TickOutcome::Idle => panic!("the tick was enabled and the queue was not empty"),
        }
    }
    assert_eq!(advanced.len(), 9);
    assert_eq!(advanced[8], GenerationPhase::Packaging);
    let marked = pipeline.rate_limiter.last_request;
    assert!(marked.unwrap() < now);
    assert_eq!(process_generation_queue(&mut pipeline, &mut state, now + 5000), TickOutcome::Idle);
    assert_eq!(state.current_phase, GenerationPhase::Packaging);
    assert_eq!(pipeline.rate_limiter.last_request, marked);
}

#[test]
fn front_end_data_holds_what_it_is_given() {
    let info = GameInfo {
        name: "Tides".to_string(),
        tagline: "Sail".to_string(),
        description: "A sea".to_string(),
        genre: "rpg".to_string(),
        setting: "islands".to_string(),
        art_style: "pixel".to_string(),
    };
    assert_eq!(info.clone().genre, "rpg");
    let options = GenerationOptions {
        include_voice_acting: false,
        include_orchestral_music: true,
        target_playtime_hours: 12,
        difficulty_options: vec!["easy".to_string()],
        accessibility_features: vec![],
    };
    assert_eq!(options.clone().target_playtime_hours, 12);
    let artifact = GeneratedArtifact {
        artifact_type: "image".to_string(),
        name: "logo".to_string(),
        path: None,
        preview: Some("aGk=".to_string()),
    };
    assert_eq!(artifact.clone().preview, Some("aGk=".to_string()));
}
