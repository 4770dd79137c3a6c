//! Filling the queue of a phase from what the template source returned, or
//! with a placeholder where it returned nothing.

use crate::state::{AppState, AppStateView, PromptRecordView};
use crate::text::{
    has_substring, lemma_bytes_at_least_chars, lemma_trimmed_keeps_start, occurs_at, option_view,
};
use crate::validation::{emptiness_errors, length_errors, presence_errors};
use vstd::prelude::*;
use vstd::string::StringExecFns;

verus! {

/// A template that the template source listed for a phase.
#[derive(Debug)]
pub struct TemplateFile {
    pub path: String,
    /// The file name of `path` without its extension, where it has one.
    pub stem: Option<String>,
    /// The text of the template; `None` where it could not be read.
    pub content: Option<String>,
}

/// The mathematical model of a `TemplateFile`.
pub struct TemplateFileView {
    pub path: Seq<char>,
    pub stem: Option<Seq<char>>,
    pub content: Option<Seq<char>>,
}

impl View for TemplateFile {
    type V = TemplateFileView;

    open spec fn view(&self) -> TemplateFileView {
        TemplateFileView {
            path: self.path@,
            stem: option_view(self.stem),
            content: option_view(self.content),
        }
    }
}

/// What the template source answered for a phase.
#[derive(Debug)]
pub enum TemplateListing {
    /// The templates of the phase, in the order of the source. May be empty.
    Found(Vec<TemplateFile>),
    /// The source could not list the phase.
    Failed,
}

impl View for TemplateListing {
    type V = Option<Seq<TemplateFileView>>;

    open spec fn view(&self) -> Option<Seq<TemplateFileView>> {
        match self {
            TemplateListing::Found(files) => Some(Seq::new(files@.len(), |i: int| files@[i]@)),
            TemplateListing::Failed => None,
        }
    }
}

/// What `queue_phase_prompts` did.
#[derive(Debug, Clone, Copy, PartialEq, Eq)]
pub enum QueueOutcome {
    /// The templates that could be read were queued: `count` of them.
    Queued { count: usize },
    /// The source had no template: one placeholder was queued.
    Placeholder,
    /// The source could not list the phase: nothing was queued.
    Unavailable,
}

/// The name of a prompt whose file has the stem `stem`.
pub open spec fn record_name(stem: Option<Seq<char>>) -> Seq<char> {
    match stem {
        Some(name) => name,
        None => "unknown"@,
    }
}

/// The text of the placeholder for the phase with the directory `dir`: a
/// comment that names the phase, then the two standard variables, one to a
/// line.
pub open spec fn placeholder_text(dir: Seq<char>) -> Seq<char> {
    "{% comment %}Auto-generated placeholder for phase: "@ + dir + "{% endcomment %}\n"@
        + "{{ game_name }}"@ + "\n"@ + "{{ genre }}"@ + "\n"@
}

/// The placeholder record of the phase with the directory `dir`.
pub open spec fn placeholder_record(dir: Seq<char>, path: Seq<char>) -> PromptRecordView {
    PromptRecordView::fresh(dir, "main"@, placeholder_text(dir), path)
}

/// The records of the templates among `files` that could be read, in order.
pub open spec fn template_records(dir: Seq<char>, files: Seq<TemplateFileView>) -> Seq<
    PromptRecordView,
>
    decreases files.len(),
{
    if files.len() == 0 {
        Seq::empty()
    } else {
        let file = files.last();
        template_records(dir, files.drop_last()) + match file.content {
            Some(content) => seq![
                PromptRecordView::fresh(dir, record_name(file.stem), content, file.path),
            ],
            None => Seq::empty(),
        }
    }
}

/// The records that a listing adds to the queue: nothing where the listing
/// failed, the readable templates where there are templates, and one
/// placeholder where there are none.
pub open spec fn listing_records(
    dir: Seq<char>,
    listing: Option<Seq<TemplateFileView>>,
    generated_path: Seq<char>,
) -> Seq<PromptRecordView> {
    match listing {
        None => Seq::empty(),
        Some(files) => if files.len() > 0 {
            template_records(dir, files)
        } else {
            seq![placeholder_record(dir, generated_path)]
        },
    }
}

/// Builds the text of the placeholder for the phase with the directory
/// `phase_dir`.
pub fn placeholder_prompt(phase_dir: &str) -> (text: String)
    ensures
        text@ == placeholder_text(phase_dir@),
{
    let mut text = String::from_str("{% comment %}Auto-generated placeholder for phase: ");
    text.append(phase_dir);
    text.append("{% endcomment %}\n");
    text.append("{{ game_name }}");
    text.append("\n");
    text.append("{{ genre }}");
    text.append("\n");
    text
}

/// Queues the prompts of the phase with the directory `phase_dir`, behind those
/// already queued. Each template that could be read becomes a record on which
/// validation has not been attempted, named by its stem, or `unknown` where it
/// has none. A listing without templates gives one placeholder record named
/// `main` that came from `generated_path`. A failed listing gives nothing.
pub fn queue_phase_prompts(
    app_state: &mut AppState,
    phase_dir: &str,
    listing: &TemplateListing,
    generated_path: &str,
) -> (outcome: QueueOutcome)
    ensures
        final(app_state)@ == (AppStateView {
            queue: old(app_state)@.queue + listing_records(phase_dir@, listing@, generated_path@),
            ..old(app_state)@
        }),
        outcome == match listing@ {
            None => QueueOutcome::Unavailable,
            Some(files) => if files.len() > 0 {
                QueueOutcome::Queued { count: template_records(phase_dir@, files).len() as usize }
            } else {
                QueueOutcome::Placeholder
            },
        },
{
    match listing {
        TemplateListing::Failed => {
            assert(app_state@.queue + Seq::<PromptRecordView>::empty() =~= app_state@.queue);
            QueueOutcome::Unavailable
        },
        TemplateListing::Found(files) => {
            let n = files.len();
            if n == 0 {
                app_state.add_prompt_to_validate(
                    String::from_str(phase_dir),
                    String::from_str("main"),
                    placeholder_prompt(phase_dir),
                    String::from_str(generated_path),
                );
                assert(app_state@.queue =~= old(app_state)@.queue + seq![
                    placeholder_record(phase_dir@, generated_path@),
                ]);
                return QueueOutcome::Placeholder;
            }
            let ghost views = listing@->0;
            let mut count: usize = 0;
            let mut i: usize = 0;
            assert(views.take(0) =~= Seq::<TemplateFileView>::empty());
            assert(app_state@.queue + Seq::<PromptRecordView>::empty() =~= app_state@.queue);
            while i < n
                invariant
                    i <= n,
                    n == files.len(),
                    views == Seq::new(files@.len(), |k: int| files@[k]@),
                    count <= i,
                    count == template_records(phase_dir@, views.take(i as int)).len(),
                    app_state@ == (AppStateView {
                        queue: old(app_state)@.queue + template_records(
                            phase_dir@,
                            views.take(i as int),
                        ),
                        ..old(app_state)@
                    }),
                decreases n - i,
            {
                let file = &files[i];
                let ghost done = template_records(phase_dir@, views.take(i as int));
                assert(views.take(i + 1).drop_last() =~= views.take(i as int));
                assert(views.take(i + 1).last() == file@);
                match &file.content {
                    Some(content) => {
                        let name = match &file.stem {
                            Some(stem) => stem.clone(),
                            None => String::from_str("unknown"),
                        };
                        app_state.add_prompt_to_validate(
                            String::from_str(phase_dir),
                            name,
                            content.clone(),
                            file.path.clone(),
                        );
                        count += 1;
                        assert(app_state@.queue =~= old(app_state)@.queue + (done + seq![
                            PromptRecordView::fresh(
                                phase_dir@,
                                record_name(file@.stem),
                                content@,
                                file@.path,
                            ),
                        ]));
                    },
                    None => {
                        assert(done + Seq::<PromptRecordView>::empty() =~= done);
                    },
                }
                i += 1;
            }
            assert(views.take(n as int) =~= views);
            QueueOutcome::Queued { count }
        },
    }
}

/// A listing without templates adds exactly one record to the queue: the
/// placeholder of the phase, on which validation has not been attempted.
pub proof fn lemma_empty_listing_gives_placeholder(dir: Seq<char>, generated_path: Seq<char>)
    ensures
        listing_records(dir, Some(Seq::empty()), generated_path) == seq![
            placeholder_record(dir, generated_path),
        ],
        !placeholder_record(dir, generated_path).validated,
        placeholder_record(dir, generated_path).phase == dir,
{
}

/// The placeholder names the two standard variables, `game_name` and `genre`.
pub proof fn lemma_placeholder_names_variables(dir: Seq<char>)
    ensures
        has_substring(placeholder_text(dir), "{{ game_name }}"@),
        has_substring(placeholder_text(dir), "{{ genre }}"@),
{
    let head = "{% comment %}Auto-generated placeholder for phase: "@ + dir
        + "{% endcomment %}\n"@;
    let name = "{{ game_name }}"@;
    let genre = "{{ genre }}"@;
    let text = placeholder_text(dir);
    let at_name = head.len() as int;
    let at_genre = (head + name + "\n"@).len() as int;
    assert(text.subrange(at_name, at_name + name.len()) =~= name);
    assert(occurs_at(text, name, at_name));
    assert(text.subrange(at_genre, at_genre + genre.len()) =~= genre);
    assert(occurs_at(text, genre, at_genre));
}

/// The placeholder is not empty, not too short, and holds template syntax: it
/// passes the three basic checks, whatever the phase.
pub proof fn lemma_placeholder_passes_basic_checks(dir: Seq<char>)
    ensures
        emptiness_errors(placeholder_text(dir)).len() == 0,
        length_errors(placeholder_text(dir)).len() == 0,
        presence_errors(placeholder_text(dir)).len() == 0,
{
    let text = placeholder_text(dir);
    reveal_strlit("{% comment %}Auto-generated placeholder for phase: ");
    reveal_strlit("{{ game_name }}");
    reveal_strlit("{{");
    assert(text[0] == '{');
    lemma_trimmed_keeps_start(text);
    lemma_bytes_at_least_chars(text);
    lemma_placeholder_names_variables(dir);
    let at = choose|i: int| occurs_at(text, "{{ game_name }}"@, i);
    assert(text.subrange(at, at + 2) =~= text.subrange(at, at + 15).subrange(0, 2));
    assert("{{ game_name }}"@.subrange(0, 2) =~= "{{"@);
    assert(occurs_at(text, "{{"@, at));
}

} // verus!
