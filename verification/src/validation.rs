//! The validation engine: from the text of a prompt to its ordered list of
//! validation errors.
//!
//! All checks run on every prompt and none hides another. The errors come in
//! the order of the checks: emptiness, minimum length, template syntax present,
//! template grammar, fence balance, Rust blocks, TOML blocks.

use crate::text::{
    char_count, chars_of, contains, count_char, count_matches, decimal, extend, has_substring,
    line_seq, match_count, matches_at, option_view, push_decimal, push_string, seq_views,
    split_lines, string_of, string_views, trim_bounds, trimmed,
};
use vstd::prelude::*;
use vstd::string::StringExecFns;

verus! {

/// What the template engine's parser reports for the template `source`
/// registered under `name`: `None` where it compiles, else the text of the error.
pub uninterp spec fn template_syntax_error(name: Seq<char>, source: Seq<char>) -> Option<Seq<char>>;

/// Whether `text` parses as a TOML document.
pub uninterp spec fn toml_document_parses(text: Seq<char>) -> bool;

/// Calls `minijinja::Environment::add_template` on a fresh environment. The
/// parser's verdict depends on `name` and `source` alone; the result is `None`
/// where the template compiles and the displayed error where it does not.
#[verifier::external_body]
fn template_error(name: &str, source: &str) -> (r: Option<String>)
    ensures
        option_view(r) == template_syntax_error(name@, source@),
{
    let mut env = minijinja::Environment::new();
    match env.add_template(name, source) {
        Ok(()) => None,
        Err(e) => Some(e.to_string()),
    }
}

/// Calls `toml::Value`'s `FromStr::from_str` through `str::parse`. It parses
/// `text` as a TOML document and depends on `text` alone; the result tells
/// whether it succeeded.
#[verifier::external_body]
fn toml_parses(text: &str) -> (ok: bool)
    ensures
        ok == toml_document_parses(text@),
{
    text.parse::<toml::Value>().is_ok()
}

/// A prompt shorter than this many bytes is reported as too short.
pub const MIN_PROMPT_BYTES: usize = 50;

/// The name under which a prompt is handed to the template parser.
pub open spec fn template_name() -> Seq<char> {
    "test"@
}

/// The marker that opens and closes a code block.
pub open spec fn fence() -> Seq<char> {
    "```"@
}

/// The fence lines that open a Rust block.
pub open spec fn rust_labels() -> Seq<Seq<char>> {
    seq!["```rust"@, "```rs"@]
}

/// The fence lines that open a TOML block.
pub open spec fn toml_labels() -> Seq<Seq<char>> {
    seq!["```toml"@]
}

pub open spec fn empty_message() -> Seq<char> {
    "Prompt is empty"@
}

pub open spec fn short_message() -> Seq<char> {
    "Prompt seems too short"@
}

pub open spec fn no_template_message() -> Seq<char> {
    "No template variables or logic found"@
}

pub open spec fn template_message(detail: Seq<char>) -> Seq<char> {
    "MinJinja parse error: "@ + detail
}

pub open spec fn unclosed_message() -> Seq<char> {
    "Unclosed code block detected"@
}

pub open spec fn braces_message(open: nat, close: nat) -> Seq<char> {
    "Unbalanced braces in Rust code block: "@ + decimal(open) + " open, "@ + decimal(close)
        + " close"@
}

pub open spec fn toml_message() -> Seq<char> {
    "Invalid TOML in code block"@
}

/// The state of the line scanner: whether a block is open, the body gathered
/// for it so far, and the bodies of the blocks closed so far.
pub struct Scan {
    pub open: bool,
    pub body: Seq<char>,
    pub closed: Seq<Seq<char>>,
}

/// The scanner before the first line.
pub open spec fn scan_start() -> Scan {
    Scan { open: false, body: Seq::empty(), closed: Seq::empty() }
}

/// One step of the scanner. A line that trims to one of `labels` opens a block
/// and starts its body afresh, also inside an open block. A line that trims to
/// the bare fence closes the open block. Any other line inside an open block
/// joins the body, followed by a line feed.
pub open spec fn scan_line(st: Scan, line: Seq<char>, labels: Seq<Seq<char>>) -> Scan {
    let t = trimmed(line);
    if labels.contains(t) {
        Scan { open: true, body: Seq::empty(), closed: st.closed }
    } else if t == fence() && st.open {
        Scan { open: false, body: Seq::empty(), closed: st.closed.push(st.body) }
    } else if st.open {
        Scan { open: true, body: st.body + line + seq!['\n'], closed: st.closed }
    } else {
        st
    }
}

/// The scanner after all of `lines`.
pub open spec fn scan(lines: Seq<Seq<char>>, labels: Seq<Seq<char>>) -> Scan
    decreases lines.len(),
{
    if lines.len() == 0 {
        scan_start()
    } else {
        scan_line(scan(lines.drop_last(), labels), lines.last(), labels)
    }
}

/// The bodies of the closed blocks of `content` that one of `labels` opens, in
/// order. A block still open at the end of the text is not among them.
pub open spec fn fenced_bodies(content: Seq<char>, labels: Seq<Seq<char>>) -> Seq<Seq<char>> {
    scan(line_seq(content), labels).closed
}

/// One error for each body whose counts of `{` and `}` differ, in order.
pub open spec fn brace_errors(bodies: Seq<Seq<char>>) -> Seq<Seq<char>>
    decreases bodies.len(),
{
    if bodies.len() == 0 {
        Seq::empty()
    } else {
        let open = char_count(bodies.last(), '{');
        let close = char_count(bodies.last(), '}');
        brace_errors(bodies.drop_last()) + if open != close {
            seq![braces_message(open, close)]
        } else {
            Seq::empty()
        }
    }
}

/// One error for each outcome that is `false`.
pub open spec fn toml_errors(outcomes: Seq<bool>) -> Seq<Seq<char>>
    decreases outcomes.len(),
{
    if outcomes.len() == 0 {
        Seq::empty()
    } else {
        toml_errors(outcomes.drop_last()) + if !outcomes.last() {
            seq![toml_message()]
        } else {
            Seq::empty()
        }
    }
}

pub open spec fn emptiness_errors(content: Seq<char>) -> Seq<Seq<char>> {
    if trimmed(content).len() == 0 {
        seq![empty_message()]
    } else {
        Seq::empty()
    }
}

pub open spec fn length_errors(content: Seq<char>) -> Seq<Seq<char>> {
    if vstd::utf8::encode_utf8(content).len() < MIN_PROMPT_BYTES {
        seq![short_message()]
    } else {
        Seq::empty()
    }
}

pub open spec fn presence_errors(content: Seq<char>) -> Seq<Seq<char>> {
    if !has_substring(content, "{{"@) && !has_substring(content, "{%"@) {
        seq![no_template_message()]
    } else {
        Seq::empty()
    }
}

pub open spec fn grammar_errors(template_error: Option<Seq<char>>) -> Seq<Seq<char>> {
    match template_error {
        Some(detail) => seq![template_message(detail)],
        None => Seq::empty(),
    }
}

pub open spec fn fence_errors(content: Seq<char>) -> Seq<Seq<char>> {
    if match_count(content, fence()) % 2 != 0 {
        seq![unclosed_message()]
    } else {
        Seq::empty()
    }
}

/// The errors of `content`, given what the template parser said of it and, for
/// each closed TOML block in order, whether its body parsed.
pub open spec fn validation_errors(
    content: Seq<char>,
    template_error: Option<Seq<char>>,
    toml_outcomes: Seq<bool>,
) -> Seq<Seq<char>> {
    emptiness_errors(content) + length_errors(content) + presence_errors(content) + grammar_errors(
        template_error,
    ) + fence_errors(content) + brace_errors(fenced_bodies(content, rust_labels())) + toml_errors(
        toml_outcomes,
    )
}

/// For each body, whether it parses as a TOML document.
pub open spec fn toml_outcomes(bodies: Seq<Seq<char>>) -> Seq<bool> {
    Seq::new(bodies.len(), |i: int| toml_document_parses(bodies[i]))
}

/// The errors of `content`.
pub open spec fn prompt_errors(content: Seq<char>) -> Seq<Seq<char>> {
    validation_errors(
        content,
        template_syntax_error(template_name(), content),
        toml_outcomes(fenced_bodies(content, toml_labels())),
    )
}

/// Decides whether `line[a..b]` is one of `labels`.
fn is_label(line: &Vec<char>, a: usize, b: usize, labels: &Vec<Vec<char>>) -> (r: bool)
    requires
        a <= b <= line.len(),
    ensures
        r == seq_views(labels@).contains(line@.subrange(a as int, b as int)),
{
    let ghost t = line@.subrange(a as int, b as int);
    let n = labels.len();
    let mut i: usize = 0;
    while i < n
        invariant
            i <= n,
            n == labels.len(),
            a <= b <= line.len(),
            t == line@.subrange(a as int, b as int),
            forall|j: int| 0 <= j < i ==> seq_views(labels@)[j] != t,
        decreases n - i,
    {
        if labels[i].len() == b - a && matches_at(line, &labels[i], a) {
            assert(seq_views(labels@)[i as int] == t);
            return true;
        }
        i += 1;
    }
    false
}

/// Gathers the bodies of the closed blocks among `lines` that one of `labels`
/// opens.
pub fn fenced_blocks(lines: &Vec<Vec<char>>, labels: &Vec<Vec<char>>) -> (closed: Vec<Vec<char>>)
    ensures
        seq_views(closed@) == scan(seq_views(lines@), seq_views(labels@)).closed,
{
    let bare = chars_of("```");
    let n = lines.len();
    let mut open = false;
    let mut body: Vec<char> = Vec::new();
    let mut closed: Vec<Vec<char>> = Vec::new();
    let mut i: usize = 0;
    assert(seq_views(lines@).take(0) =~= Seq::<Seq<char>>::empty());
    assert(seq_views(closed@) =~= Seq::<Seq<char>>::empty());
    while i < n
        invariant
            i <= n,
            n == lines.len(),
            bare@ == fence(),
            scan(seq_views(lines@).take(i as int), seq_views(labels@)) == (Scan {
                open,
                body: body@,
                closed: seq_views(closed@),
            }),
        decreases n - i,
    {
        let line = &lines[i];
        proof {
            let upto = seq_views(lines@).take(i + 1);
            assert(upto.drop_last() =~= seq_views(lines@).take(i as int));
            assert(upto.last() == line@);
        }
        let (a, b) = trim_bounds(line);
        if is_label(line, a, b, labels) {
            open = true;
            body = Vec::new();
        } else if open && b - a == bare.len() && matches_at(line, &bare, a) {
            let ghost before = seq_views(closed@);
            open = false;
            closed.push(body);
            body = Vec::new();
            assert(seq_views(closed@) =~= before.push(closed@.last()@));
        } else if open {
            let ghost before = body@;
            extend(&mut body, line);
            body.push('\n');
            assert(body@ =~= before + line@ + seq!['\n']);
        }
        i += 1;
    }
    assert(seq_views(lines@).take(n as int) =~= seq_views(lines@));
    closed
}

/// Builds the error for a Rust block with `open` opening and `close` closing
/// braces.
pub fn braces_error(open: usize, close: usize) -> (message: String)
    ensures
        message@ == braces_message(open as nat, close as nat),
{
    let mut text = chars_of("Unbalanced braces in Rust code block: ");
    push_decimal(&mut text, open);
    let middle = chars_of(" open, ");
    extend(&mut text, &middle);
    push_decimal(&mut text, close);
    let tail = chars_of(" close");
    extend(&mut text, &tail);
    string_of(&text)
}

/// Appends to `errors` the brace error of each of `bodies` that has one.
pub fn push_brace_errors(errors: &mut Vec<String>, bodies: &Vec<Vec<char>>)
    ensures
        string_views(final(errors)@) == string_views(old(errors)@) + brace_errors(
            seq_views(bodies@),
        ),
{
    let n = bodies.len();
    let mut i: usize = 0;
    assert(seq_views(bodies@).take(0) =~= Seq::<Seq<char>>::empty());
    assert(string_views(errors@) + Seq::<Seq<char>>::empty() =~= string_views(errors@));
    while i < n
        invariant
            i <= n,
            n == bodies.len(),
            string_views(errors@) == string_views(old(errors)@) + brace_errors(
                seq_views(bodies@).take(i as int),
            ),
        decreases n - i,
    {
        let ghost upto = seq_views(bodies@).take(i + 1);
        let ghost done = brace_errors(seq_views(bodies@).take(i as int));
        assert(upto.drop_last() =~= seq_views(bodies@).take(i as int));
        assert(upto.last() == bodies@[i as int]@);
        let open = count_char(&bodies[i], '{');
        let close = count_char(&bodies[i], '}');
        if open != close {
            let message = braces_error(open, close);
            push_string(errors, message);
            assert(string_views(errors@) =~= string_views(old(errors)@) + (done + seq![
                braces_message(open as nat, close as nat),
            ]));
        } else {
            assert(done + Seq::<Seq<char>>::empty() =~= done);
        }
        i += 1;
    }
    assert(seq_views(bodies@).take(n as int) =~= seq_views(bodies@));
}

/// Appends to `errors` one TOML error for each of `outcomes` that is `false`.
pub fn push_toml_errors(errors: &mut Vec<String>, outcomes: &Vec<bool>)
    ensures
        string_views(final(errors)@) == string_views(old(errors)@) + toml_errors(outcomes@),
{
    let n = outcomes.len();
    let mut i: usize = 0;
    assert(string_views(errors@) + Seq::<Seq<char>>::empty() =~= string_views(errors@));
    while i < n
        invariant
            i <= n,
            n == outcomes.len(),
            string_views(errors@) == string_views(old(errors)@) + toml_errors(
                outcomes@.take(i as int),
            ),
        decreases n - i,
    {
        let ghost done = toml_errors(outcomes@.take(i as int));
        assert(outcomes@.take(i + 1).drop_last() =~= outcomes@.take(i as int));
        if !outcomes[i] {
            push_string(errors, String::from_str("Invalid TOML in code block"));
            assert(string_views(errors@) =~= string_views(old(errors)@) + (done + seq![
                toml_message(),
            ]));
        } else {
            assert(done + Seq::<Seq<char>>::empty() =~= done);
        }
        i += 1;
    }
    assert(outcomes@.take(n as int) =~= outcomes@);
}

/// Lists the errors of `content`, given what the template parser said of it
/// and, for each closed TOML block in order, whether its body parsed.
pub fn collect_errors(
    content: &str,
    template_error: Option<String>,
    toml_outcomes: &Vec<bool>,
) -> (errors: Vec<String>)
    ensures
        string_views(errors@) == validation_errors(
            content@,
            option_view(template_error),
            toml_outcomes@,
        ),
{
    let text = chars_of(content);
    let mut errors: Vec<String> = Vec::new();
    assert(string_views(errors@) =~= Seq::<Seq<char>>::empty());

    let (a, b) = trim_bounds(&text);
    if a == b {
        push_string(&mut errors, String::from_str("Prompt is empty"));
    }
    assert(string_views(errors@) =~= emptiness_errors(content@));

    if content.as_bytes().len() < MIN_PROMPT_BYTES {
        push_string(&mut errors, String::from_str("Prompt seems too short"));
    }
    assert(string_views(errors@) =~= emptiness_errors(content@) + length_errors(content@));

    let variable = chars_of("{{");
    let logic = chars_of("{%");
    if !contains(&text, &variable) && !contains(&text, &logic) {
        push_string(&mut errors, String::from_str("No template variables or logic found"));
    }
    assert(string_views(errors@) =~= emptiness_errors(content@) + length_errors(content@)
        + presence_errors(content@));

    match template_error {
        Some(detail) => {
            let mut message = String::from_str("MinJinja parse error: ");
            message.append(detail.as_str());
            push_string(&mut errors, message);
        },
        None => {},
    }
    assert(string_views(errors@) =~= emptiness_errors(content@) + length_errors(content@)
        + presence_errors(content@) + grammar_errors(option_view(template_error)));

    let marker = chars_of("```");
    if count_matches(&text, &marker) % 2 != 0 {
        push_string(&mut errors, String::from_str("Unclosed code block detected"));
    }
    assert(string_views(errors@) =~= emptiness_errors(content@) + length_errors(content@)
        + presence_errors(content@) + grammar_errors(option_view(template_error)) + fence_errors(
        content@,
    ));

    let lines = split_lines(&text);
    let mut labels: Vec<Vec<char>> = Vec::new();
    labels.push(chars_of("```rust"));
    labels.push(chars_of("```rs"));
    assert(seq_views(labels@) =~= rust_labels());
    let bodies = fenced_blocks(&lines, &labels);
    push_brace_errors(&mut errors, &bodies);
    push_toml_errors(&mut errors, toml_outcomes);
    errors
}

/// Extracts the bodies of the closed TOML blocks of `content`, in order.
pub fn toml_blocks(content: &str) -> (bodies: Vec<String>)
    ensures
        string_views(bodies@) == fenced_bodies(content@, toml_labels()),
{
    let text = chars_of(content);
    let lines = split_lines(&text);
    let mut labels: Vec<Vec<char>> = Vec::new();
    labels.push(chars_of("```toml"));
    assert(seq_views(labels@) =~= toml_labels());
    let found = fenced_blocks(&lines, &labels);
    let n = found.len();
    let mut bodies: Vec<String> = Vec::new();
    let mut i: usize = 0;
    while i < n
        invariant
            i <= n,
            n == found.len(),
            bodies.len() == i,
            forall|j: int| 0 <= j < i ==> bodies@[j]@ == found@[j]@,
        decreases n - i,
    {
        bodies.push(string_of(&found[i]));
        i += 1;
    }
    assert(string_views(bodies@) =~= seq_views(found@));
    bodies
}

/// Validates the text of a prompt: lists its errors, in the order of the
/// checks. The prompt is valid exactly when the list is empty.
pub fn validate_prompt(content: &str) -> (errors: Vec<String>)
    ensures
        string_views(errors@) == prompt_errors(content@),
{
    let template = template_error("test", content);
    let bodies = toml_blocks(content);
    let n = bodies.len();
    let mut outcomes: Vec<bool> = Vec::new();
    let mut i: usize = 0;
    while i < n
        invariant
            i <= n,
            n == bodies.len(),
            outcomes.len() == i,
            forall|j: int| 0 <= j < i ==> outcomes@[j] == toml_document_parses(bodies@[j]@),
        decreases n - i,
    {
        outcomes.push(toml_parses(bodies[i].as_str()));
        i += 1;
    }
    assert(outcomes@ =~= toml_outcomes(string_views(bodies@)));
    collect_errors(content, template, &outcomes)
}

/// `content` passes every check, given what the template parser said of it and
/// whether the bodies of its TOML blocks parsed.
pub open spec fn passes(
    content: Seq<char>,
    template_error: Option<Seq<char>>,
    toml_outcomes: Seq<bool>,
) -> bool {
    &&& trimmed(content).len() > 0
    &&& vstd::utf8::encode_utf8(content).len() >= MIN_PROMPT_BYTES
    &&& (has_substring(content, "{{"@) || has_substring(content, "{%"@))
    &&& template_error is None
    &&& match_count(content, fence()) % 2 == 0
    &&& forall|k: int|
        0 <= k < fenced_bodies(content, rust_labels()).len() ==> char_count(
            #[trigger] fenced_bodies(content, rust_labels())[k],
            '{',
        ) == char_count(fenced_bodies(content, rust_labels())[k], '}')
    &&& forall|k: int| 0 <= k < toml_outcomes.len() ==> #[trigger] toml_outcomes[k]
}

/// An element of a concatenation is an element of one of its parts.
pub proof fn lemma_concat_contains<A>(a: Seq<A>, b: Seq<A>, x: A)
    ensures
        (a + b).contains(x) <==> a.contains(x) || b.contains(x),
{
    if a.contains(x) {
        let i = choose|i: int| 0 <= i < a.len() && a[i] == x;
        assert((a + b)[i] == x);
    }
    if b.contains(x) {
        let i = choose|i: int| 0 <= i < b.len() && b[i] == x;
        assert((a + b)[a.len() + i] == x);
    }
    if (a + b).contains(x) {
        let i = choose|i: int| 0 <= i < (a + b).len() && (a + b)[i] == x;
        if i < a.len() {
            assert(a[i] == x);
        } else {
            assert(b[i - a.len()] == x);
        }
    }
}

/// The brace errors are those of the bodies whose brace counts differ: there
/// are none exactly when every body is balanced, and a message is among them
/// exactly when it is the message of some unbalanced body.
pub proof fn lemma_brace_errors(bodies: Seq<Seq<char>>, x: Seq<char>)
    ensures
        brace_errors(bodies).len() == 0 <==> forall|k: int|
            0 <= k < bodies.len() ==> char_count(#[trigger] bodies[k], '{') == char_count(
                bodies[k],
                '}',
            ),
        brace_errors(bodies).contains(x) <==> exists|k: int|
            0 <= k < bodies.len() && char_count(#[trigger] bodies[k], '{') != char_count(
                bodies[k],
                '}',
            ) && x == braces_message(char_count(bodies[k], '{'), char_count(bodies[k], '}')),
    decreases bodies.len(),
{
    if bodies.len() > 0 {
        let front = bodies.drop_last();
        let last = bodies.last();
        let open = char_count(last, '{');
        let close = char_count(last, '}');
        let tail = if open != close {
            seq![braces_message(open, close)]
        } else {
            Seq::<Seq<char>>::empty()
        };
        lemma_brace_errors(front, x);
        lemma_concat_contains(brace_errors(front), tail, x);
        assert(forall|k: int| 0 <= k < front.len() ==> front[k] == bodies[k]);
        assert(bodies[bodies.len() - 1] == last);
        if brace_errors(bodies).contains(x) {
            if brace_errors(front).contains(x) {
                let k = choose|k: int|
                    0 <= k < front.len() && char_count(#[trigger] front[k], '{') != char_count(
                        front[k],
                        '}',
                    ) && x == braces_message(char_count(front[k], '{'), char_count(front[k], '}'));
                assert(bodies[k] == front[k]);
            } else {
                assert(tail.contains(x));
                assert(tail[0] == x);
            }
        }
        if exists|k: int|
            0 <= k < bodies.len() && char_count(#[trigger] bodies[k], '{') != char_count(
                bodies[k],
                '}',
            ) && x == braces_message(char_count(bodies[k], '{'), char_count(bodies[k], '}')) {
            let k = choose|k: int|
                0 <= k < bodies.len() && char_count(#[trigger] bodies[k], '{') != char_count(
                    bodies[k],
                    '}',
                ) && x == braces_message(char_count(bodies[k], '{'), char_count(bodies[k], '}'));
            if k < front.len() {
                assert(front[k] == bodies[k]);
            } else {
                assert(tail[0] == x);
            }
        }
    }
}

/// The TOML errors are one message for each failed outcome: there are none
/// exactly when every outcome is `true`, and they hold nothing but that message.
pub proof fn lemma_toml_errors(outcomes: Seq<bool>, x: Seq<char>)
    ensures
        toml_errors(outcomes).len() == 0 <==> forall|k: int|
            0 <= k < outcomes.len() ==> #[trigger] outcomes[k],
        toml_errors(outcomes).contains(x) <==> x == toml_message() && exists|k: int|
            0 <= k < outcomes.len() && !#[trigger] outcomes[k],
    decreases outcomes.len(),
{
    if outcomes.len() > 0 {
        let front = outcomes.drop_last();
        let tail = if !outcomes.last() {
            seq![toml_message()]
        } else {
            Seq::<Seq<char>>::empty()
        };
        lemma_toml_errors(front, x);
        lemma_concat_contains(toml_errors(front), tail, x);
        assert(forall|k: int| 0 <= k < front.len() ==> front[k] == outcomes[k]);
        if toml_errors(outcomes).contains(x) {
            if toml_errors(front).contains(x) {
                let k = choose|k: int| 0 <= k < front.len() && !#[trigger] front[k];
                assert(!outcomes[k]);
            } else {
                assert(tail.contains(x));
                assert(tail[0] == x);
                assert(!outcomes[outcomes.len() - 1]);
            }
        }
        if x == toml_message() && exists|k: int| 0 <= k < outcomes.len() && !#[trigger] outcomes[k] {
            let k = choose|k: int| 0 <= k < outcomes.len() && !#[trigger] outcomes[k];
            if k < front.len() {
                assert(!front[k]);
            } else {
                assert(tail[0] == x);
            }
        }
    }
}

/// A prompt has no errors exactly when it passes every check.
pub proof fn lemma_valid_iff_no_errors(
    content: Seq<char>,
    template_error: Option<Seq<char>>,
    toml_outcomes: Seq<bool>,
)
    ensures
        validation_errors(content, template_error, toml_outcomes).len() == 0 <==> passes(
            content,
            template_error,
            toml_outcomes,
        ),
{
    lemma_brace_errors(fenced_bodies(content, rust_labels()), Seq::empty());
    lemma_toml_errors(toml_outcomes, Seq::empty());
}

/// The empty prompt fails the three basic checks, whatever else is found: its
/// errors start with the empty, the too short and the no template message.
pub proof fn lemma_empty_prompt(template_error: Option<Seq<char>>, toml_outcomes: Seq<bool>)
    ensures
        validation_errors(Seq::empty(), template_error, toml_outcomes).len() >= 3,
        validation_errors(Seq::empty(), template_error, toml_outcomes).subrange(0, 3) == seq![
            empty_message(),
            short_message(),
            no_template_message(),
        ],
{
    let content = Seq::<char>::empty();
    reveal_strlit("{{");
    reveal_strlit("{%");
    assert(!has_substring(content, "{{"@));
    assert(!has_substring(content, "{%"@));
    let head = emptiness_errors(content) + length_errors(content) + presence_errors(content);
    assert(head =~= seq![empty_message(), short_message(), no_template_message()]);
    let all = validation_errors(content, template_error, toml_outcomes);
    assert(all.subrange(0, 3) =~= head);
}

/// The messages are told apart by their first three characters.
proof fn lemma_message_heads()
    ensures
        empty_message().len() > 2 && empty_message()[0] == 'P',
        short_message().len() > 2 && short_message()[0] == 'P',
        no_template_message().len() > 2 && no_template_message()[0] == 'N',
        unclosed_message().len() > 2 && unclosed_message()[0] == 'U' && unclosed_message()[2]
            == 'c',
        toml_message().len() > 2 && toml_message()[0] == 'I',
        forall|detail: Seq<char>| #[trigger]
            template_message(detail).len() > 2 && template_message(detail)[0] == 'M',
        forall|open: nat, close: nat| #[trigger]
            braces_message(open, close).len() > 2 && braces_message(open, close)[0] == 'U'
                && braces_message(open, close)[2] == 'b',
{
    reveal_strlit("Prompt is empty");
    reveal_strlit("Prompt seems too short");
    reveal_strlit("No template variables or logic found");
    reveal_strlit("Unclosed code block detected");
    reveal_strlit("Invalid TOML in code block");
    reveal_strlit("MinJinja parse error: ");
    reveal_strlit("Unbalanced braces in Rust code block: ");
}

/// An odd number of fence markers is reported as an unclosed code block, and
/// nothing else is.
pub proof fn lemma_unclosed_reported(
    content: Seq<char>,
    template_error: Option<Seq<char>>,
    toml_outcomes: Seq<bool>,
)
    ensures
        validation_errors(content, template_error, toml_outcomes).contains(unclosed_message())
            <==> match_count(content, fence()) % 2 != 0,
{
    let x = unclosed_message();
    let bodies = fenced_bodies(content, rust_labels());
    lemma_message_heads();
    lemma_brace_errors(bodies, x);
    lemma_toml_errors(toml_outcomes, x);
    let a1 = emptiness_errors(content);
    let a2 = a1 + length_errors(content);
    let a3 = a2 + presence_errors(content);
    let a4 = a3 + grammar_errors(template_error);
    let a5 = a4 + fence_errors(content);
    let a6 = a5 + brace_errors(bodies);
    lemma_concat_contains(a1, length_errors(content), x);
    lemma_concat_contains(a2, presence_errors(content), x);
    lemma_concat_contains(a3, grammar_errors(template_error), x);
    lemma_concat_contains(a4, fence_errors(content), x);
    lemma_concat_contains(a5, brace_errors(bodies), x);
    lemma_concat_contains(a6, toml_errors(toml_outcomes), x);
    if a1.contains(x) {
        assert(a1[0] == x);
    }
    if length_errors(content).contains(x) {
        assert(length_errors(content)[0] == x);
    }
    if presence_errors(content).contains(x) {
        assert(presence_errors(content)[0] == x);
    }
    if grammar_errors(template_error).contains(x) {
        assert(grammar_errors(template_error)[0] == x);
    }
    if match_count(content, fence()) % 2 != 0 {
        assert(fence_errors(content)[0] == x);
    }
}

/// Every closed Rust block whose counts of `{` and `}` differ is reported with
/// exactly those counts.
pub proof fn lemma_unbalanced_reported(
    content: Seq<char>,
    template_error: Option<Seq<char>>,
    toml_outcomes: Seq<bool>,
    k: int,
)
    requires
        0 <= k < fenced_bodies(content, rust_labels()).len(),
        char_count(fenced_bodies(content, rust_labels())[k], '{') != char_count(
            fenced_bodies(content, rust_labels())[k],
            '}',
        ),
    ensures
        validation_errors(content, template_error, toml_outcomes).contains(
            braces_message(
                char_count(fenced_bodies(content, rust_labels())[k], '{'),
                char_count(fenced_bodies(content, rust_labels())[k], '}'),
            ),
        ),
{
    let bodies = fenced_bodies(content, rust_labels());
    let x = braces_message(char_count(bodies[k], '{'), char_count(bodies[k], '}'));
    lemma_brace_errors(bodies, x);
    let a5 = emptiness_errors(content) + length_errors(content) + presence_errors(content)
        + grammar_errors(template_error) + fence_errors(content);
    lemma_concat_contains(a5, brace_errors(bodies), x);
    lemma_concat_contains(a5 + brace_errors(bodies), toml_errors(toml_outcomes), x);
}

/// A TOML block whose body does not parse is reported as invalid TOML, and
/// nothing else is: where every body parses there is no such error.
pub proof fn lemma_invalid_toml_reported(
    content: Seq<char>,
    template_error: Option<Seq<char>>,
    toml_outcomes: Seq<bool>,
)
    ensures
        validation_errors(content, template_error, toml_outcomes).contains(toml_message())
            <==> exists|k: int| 0 <= k < toml_outcomes.len() && !#[trigger] toml_outcomes[k],
{
    let x = toml_message();
    let bodies = fenced_bodies(content, rust_labels());
    lemma_message_heads();
    lemma_brace_errors(bodies, x);
    lemma_toml_errors(toml_outcomes, x);
    let a1 = emptiness_errors(content);
    let a2 = a1 + length_errors(content);
    let a3 = a2 + presence_errors(content);
    let a4 = a3 + grammar_errors(template_error);
    let a5 = a4 + fence_errors(content);
    let a6 = a5 + brace_errors(bodies);
    lemma_concat_contains(a1, length_errors(content), x);
    lemma_concat_contains(a2, presence_errors(content), x);
    lemma_concat_contains(a3, grammar_errors(template_error), x);
    lemma_concat_contains(a4, fence_errors(content), x);
    lemma_concat_contains(a5, brace_errors(bodies), x);
    lemma_concat_contains(a6, toml_errors(toml_outcomes), x);
    if a1.contains(x) {
        assert(a1[0] == x);
    }
    if length_errors(content).contains(x) {
        assert(length_errors(content)[0] == x);
    }
    if presence_errors(content).contains(x) {
        assert(presence_errors(content)[0] == x);
    }
    if grammar_errors(template_error).contains(x) {
        assert(grammar_errors(template_error)[0] == x);
    }
    if fence_errors(content).contains(x) {
        assert(fence_errors(content)[0] == x);
    }
}

/// In the errors of a prompt, a TOML block is reported exactly when the body of
/// some closed TOML block of the prompt does not parse as a TOML document.
pub proof fn lemma_prompt_toml_reported(content: Seq<char>)
    ensures
        prompt_errors(content).contains(toml_message()) <==> exists|k: int|
            0 <= k < fenced_bodies(content, toml_labels()).len() && !toml_document_parses(
                #[trigger] fenced_bodies(content, toml_labels())[k],
            ),
{
    let bodies = fenced_bodies(content, toml_labels());
    let outcomes = toml_outcomes(bodies);
    lemma_invalid_toml_reported(
        content,
        template_syntax_error(template_name(), content),
        outcomes,
    );
    if exists|k: int| 0 <= k < outcomes.len() && !#[trigger] outcomes[k] {
        let k = choose|k: int| 0 <= k < outcomes.len() && !#[trigger] outcomes[k];
        assert(!toml_document_parses(bodies[k]));
    }
    if exists|k: int| 0 <= k < bodies.len() && !toml_document_parses(#[trigger] bodies[k]) {
        let k = choose|k: int| 0 <= k < bodies.len() && !toml_document_parses(#[trigger] bodies[k]);
        assert(!outcomes[k]);
    }
}

} // verus!
