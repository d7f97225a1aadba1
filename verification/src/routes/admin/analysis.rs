//! The automated analysis of a question's answers.
use vstd::prelude::*;

use crate::policies::answers::{answer_access, AnswerAccessView};
use crate::policies::automated_analysis::{analysis_allowed, AUTOMATED_ANALYSIS_REASON};
use crate::policies::context::{listed, AccessReason, AccessReasonView, PolicyContext, PolicyContextView};
use crate::policies::{AnswerAccessPolicy, AutomatedAnalysisPolicy};
use crate::text::{decimal_string, join, replace, replaced, seq_join, u64_to_string, views};

verus! {

/// Sent alongside the lecture material and the anonymized, consenting-student
/// answers for a single `<lec>/<question_id>`.
pub const ANALYSIS_PROMPT: &'static str = r#"You are helping a course instructor analyze student responses to a single discussion
question from a class meeting, so they can prepare for the next lecture and identify
where the class is confused or engaged.

## Lecture material
Title: {LECTURE_TITLE}

{PAPER_TEXT}

## Question asked to students
{QUESTION_PROMPT}

## Student answers
Each answer is from a different, anonymized student. Do not try to guess who wrote
what, and do not comment on writing quality, grammar, or English proficiency.

{ANSWERS_LIST}

## Your task
Using the lecture material above as the source of truth, analyze the answers and
produce a report with these sections, in this order: Common themes, Misconceptions
or gaps, Notable answers, Suggested follow-ups.

- Common themes: the 3-6 most recurring ideas or talking points across answers.
  For each, note roughly how many students touched on it (e.g. "~8/20") and
  include 1-2 short verbatim quotes as evidence.

- Misconceptions or gaps: places where multiple students' answers disagree with,
  oversimplify, or miss something in the lecture material. Be specific about what
  the material actually says vs. what students wrote. If you're not confident
  something is actually wrong (vs. just a different valid framing), say so rather
  than asserting it.

- Notable answers: 1-3 answers that show unusually deep engagement, an
  interesting question, or a perspective not covered by the material. Refer to
  them only by their anonymized label (e.g. "Student 7").

- Suggested follow-ups: 2-4 concrete things the instructor could address or
  clarify in the next class based on the above.

If there are too few answers (fewer than ~5) to draw reliable conclusions about
"common" themes, say so explicitly instead of overgeneralizing from a couple of
responses. Ground every claim in the actual answer text -- quote or closely
paraphrase rather than inventing sentiment. If an answer is blank or off-topic,
ignore it rather than commenting on the student.

## Output format
Respond with a single HTML fragment only -- no markdown, no code fences, no
<html>/<head>/<body> wrapper, and no commentary before or after it. Use <h3> for
each of the four section headings, <p> for prose, <ul>/<li> for the theme and
follow-up lists, and <strong> or <em> for emphasis. This fragment gets inserted
directly into an existing admin page, so it must be valid, self-contained HTML."#;

pub const PAPER_TEXT: &'static str = "The paper is attached as a PDF document.";

/// One answer of the list: numbered from 1, quoted.
pub open spec fn student_line(i: int, answer: Seq<char>) -> Seq<char> {
    "Student "@ + decimal_string((i + 1) as nat) + ": \""@ + answer + "\""@
}

/// The answers as the prompt lists them, one per line.
pub open spec fn answers_list_of(answers: Seq<Seq<char>>) -> Seq<char> {
    seq_join(Seq::new(answers.len(), |i: int| student_line(i, answers[i])), "\n"@)
}

/// The prompt: the template with its four placeholders filled in turn.
pub open spec fn analysis_prompt_of(lec: u64, question: Seq<char>, answers: Seq<Seq<char>>) -> Seq<char> {
    replaced(
        replaced(
            replaced(
                replaced(ANALYSIS_PROMPT@, "{LECTURE_TITLE}"@, "Lecture "@ + decimal_string(lec as nat)),
                "{PAPER_TEXT}"@,
                PAPER_TEXT@,
            ),
            "{QUESTION_PROMPT}"@,
            question,
        ),
        "{ANSWERS_LIST}"@,
        answers_list_of(answers),
    )
}

pub fn answers_list(answers: &Vec<String>) -> (r: String)
    ensures
        r@ == answers_list_of(views(answers@)),
{
    let ghost av = views(answers@);
    let ghost lines = Seq::new(av.len(), |i: int| student_line(i, av[i]));
    let mut out: Vec<String> = Vec::new();
    let mut i: usize = 0;
    while i < answers.len()
        invariant
            i <= answers@.len(),
            av == views(answers@),
            lines == Seq::new(av.len(), |i: int| student_line(i, av[i])),
            views(out@) == lines.take(i as int),
        decreases answers@.len() - i,
    {
        let mut line = String::new();
        line.append("Student ");
        line.append(u64_to_string(i as u64 + 1).as_str());
        line.append(": \"");
        line.append(answers[i].as_str());
        line.append("\"");
        let ghost before = views(out@);
        let ghost lv = line@;
        out.push(line);
        assert(views(out@) =~= before.push(lv));
        assert(lines.take(i + 1) =~= lines.take(i as int).push(lv));
        i = i + 1;
    }
    assert(lines.take(answers@.len() as int) =~= lines);
    join(&out, "\n")
}

/// The prompt for the answers to a question of lecture `lec`.
pub fn analysis_prompt(lec: u64, question: &str, answers: &Vec<String>) -> (r: String)
    ensures
        r@ == analysis_prompt_of(lec, question@, views(answers@)),
{
    proof {
        reveal_strlit("{LECTURE_TITLE}");
        reveal_strlit("{PAPER_TEXT}");
        reveal_strlit("{QUESTION_PROMPT}");
        reveal_strlit("{ANSWERS_LIST}");
    }
    let mut title = String::new();
    title.append("Lecture ");
    title.append(u64_to_string(lec).as_str());
    let p1 = replace(ANALYSIS_PROMPT, "{LECTURE_TITLE}", title.as_str());
    let p2 = replace(p1.as_str(), "{PAPER_TEXT}", PAPER_TEXT);
    let p3 = replace(p2.as_str(), "{QUESTION_PROMPT}", question);
    let list = answers_list(answers);
    replace(p3.as_str(), "{ANSWERS_LIST}", list.as_str())
}

/// Every one of `consents` is true.
pub open spec fn all_consented(consents: Seq<bool>) -> bool {
    forall|i: int| 0 <= i < consents.len() ==> consents[i]
}

/// Whether the analysis may read the answers of these students: their joined
/// rule (all consented) must let this viewer release them for the automated
/// analysis. With no answers there is nothing to guard.
pub fn analysis_may_run(context: &PolicyContext, consents: &Vec<bool>) -> (r: bool)
    ensures
        r == (consents@.len() == 0 || analysis_allowed(
            all_consented(consents@),
            context@,
            AccessReasonView::Custom(Some(AUTOMATED_ANALYSIS_REASON@)),
        )),
{
    if consents.len() == 0 {
        return true;
    }
    let mut joined = AutomatedAnalysisPolicy::new(consents[0]);
    assert(all_consented(consents@.take(1)) == consents@[0]) by {
        assert(consents@.take(1)[0] == consents@[0]);
    }
    let mut i: usize = 1;
    while i < consents.len()
        invariant
            1 <= i <= consents@.len(),
            joined@ == all_consented(consents@.take(i as int)),
        decreases consents@.len() - i,
    {
        let mut next = AutomatedAnalysisPolicy::new(consents[i]);
        joined.simple_join_direct(&mut next);
        assert(all_consented(consents@.take(i + 1)) == (all_consented(consents@.take(i as int)) && consents@[i as int])) by {
            let t = consents@.take(i + 1);
            if all_consented(consents@.take(i as int)) && consents@[i as int] {
                assert forall|k: int| 0 <= k < t.len() implies t[k] by {
                    if k < i {
                        assert(t[k] == consents@.take(i as int)[k]);
                    }
                }
            }
            if all_consented(t) {
                assert(t[i as int] == consents@[i as int]);
                assert forall|k: int| 0 <= k < i implies consents@.take(i as int)[k] by {
                    assert(t[k] == consents@.take(i as int)[k]);
                }
            }
        }
        i = i + 1;
    }
    assert(consents@.take(consents@.len() as int) =~= consents@);
    let reason = AccessReason::Custom(Some(AUTOMATED_ANALYSIS_REASON.to_owned()));
    joined.simple_check(context, &reason)
}

/// The policy of the analysis text: no owner and no lecture, so only the
/// admins may read it.
pub fn analysis_result_policy() -> (r: AnswerAccessPolicy)
    ensures
        r@ == (AnswerAccessView { owner: None, lec_id: None }),
{
    AnswerAccessPolicy::new(None, None)
}

/// What the analysis page shows: the lecture and question asked about, and
/// the analysis once one has run.
pub struct AnalysisRender {
    pub lec_id: u64,
    pub question_id: u64,
    pub result: Option<String>,
}

/// The setup form, with no analysis run yet. Its form submits to the same
/// address, which runs the analysis.
pub fn analysis(lec: u8, question_id: u64) -> (r: AnalysisRender)
    ensures
        r.lec_id == lec as u64,
        r.question_id == question_id,
        r.result is None,
{
    AnalysisRender { lec_id: lec as u64, question_id, result: None }
}

/// The question's text: that of the first question found under its id, or
/// empty if there is none.
pub open spec fn question_text_of(rows: Seq<Seq<char>>) -> Seq<char> {
    if rows.len() > 0 {
        rows[0]
    } else {
        Seq::empty()
    }
}

pub fn question_text(rows: &Vec<String>) -> (r: String)
    ensures
        r@ == question_text_of(views(rows@)),
{
    if rows.len() > 0 {
        rows[0].clone()
    } else {
        String::new()
    }
}

/// The messages endpoint the analysis is requested from.
pub const ANALYSIS_ENDPOINT: &'static str = "https://api.anthropic.com/v1/messages";

/// The API version sent in the `anthropic-version` header.
pub const ANALYSIS_API_VERSION: &'static str = "2023-06-01";

/// The longest reply asked for, in tokens.
pub const ANALYSIS_MAX_TOKENS: u64 = 4096;

/// One request for an analysis: a single round trip, no streaming. The user
/// message holds the paper (a document fetched from `paper_url`) and then the
/// prompt as text; `api_key` goes in the `x-api-key` header.
pub struct AnalysisRequest {
    pub api_key: String,
    pub model: String,
    pub max_tokens: u64,
    pub paper_url: String,
    pub prompt: String,
}

/// The request for the consenting students' `answers` to the question found
/// in `question_rows`, asked in lecture `lec`, put to `model`.
pub fn analysis_request(
    api_key: &str,
    model: &str,
    paper_url: &str,
    lec: u8,
    question_rows: &Vec<String>,
    answers: &Vec<String>,
) -> (r: AnalysisRequest)
    ensures
        r.api_key@ == api_key@,
        r.model@ == model@,
        r.max_tokens == ANALYSIS_MAX_TOKENS,
        r.paper_url@ == paper_url@,
        r.prompt@ == analysis_prompt_of(
            lec as u64,
            question_text_of(views(question_rows@)),
            views(answers@),
        ),
{
    let question = question_text(question_rows);
    let prompt = analysis_prompt(lec as u64, question.as_str(), answers);
    AnalysisRequest {
        api_key: api_key.to_owned(),
        model: model.to_owned(),
        max_tokens: ANALYSIS_MAX_TOKENS,
        paper_url: paper_url.to_owned(),
        prompt,
    }
}

pub open spec fn opt_views(blocks: Seq<Option<String>>) -> Seq<Option<Seq<char>>> {
    blocks.map_values(|b: Option<String>| match b {
        Some(t) => Some(t@),
        None => None,
    })
}

/// The text of the reply's content blocks, in order, with nothing between
/// them; a block without text adds nothing.
pub open spec fn blocks_text(blocks: Seq<Option<Seq<char>>>) -> Seq<char>
    decreases blocks.len(),
{
    if blocks.len() == 0 {
        Seq::empty()
    } else {
        blocks_text(blocks.drop_last()) + match blocks.last() {
            Some(t) => t,
            None => Seq::empty(),
        }
    }
}

/// The analysis a reply carries: the text of its content blocks, or empty text
/// when the reply has no content list.
pub open spec fn reply_text_of(content: Option<Seq<Option<Seq<char>>>>) -> Seq<char> {
    match content {
        Some(blocks) => blocks_text(blocks),
        None => Seq::empty(),
    }
}

pub open spec fn content_view(content: Option<Vec<Option<String>>>) -> Option<Seq<Option<Seq<char>>>> {
    match content {
        Some(blocks) => Some(opt_views(blocks@)),
        None => None,
    }
}

pub fn analysis_text(content: &Option<Vec<Option<String>>>) -> (r: String)
    ensures
        r@ == reply_text_of(content_view(*content)),
{
    match content {
        None => String::new(),
        Some(blocks) => {
            let ghost bv = opt_views(blocks@);
            let mut out = String::new();
            let mut i: usize = 0;
            while i < blocks.len()
                invariant
                    i <= blocks@.len(),
                    bv == opt_views(blocks@),
                    out@ == blocks_text(bv.take(i as int)),
                decreases blocks@.len() - i,
            {
                assert(bv.take(i + 1).drop_last() =~= bv.take(i as int));
                match &blocks[i] {
                    Some(t) => {
                        out.append(t.as_str());
                    },
                    None => {
                        assert(out@ + Seq::<char>::empty() =~= out@);
                    },
                }
                i = i + 1;
            }
            assert(bv.take(blocks@.len() as int) =~= bv);
            out
        },
    }
}

/// The page after an analysis has run: the reply's text as the result. The
/// text is guarded by the rule with no owner and no lecture, so the page is
/// shown (`Some`) exactly when that rule lets the viewer read it.
pub fn analysis_submitted(
    context: &PolicyContext,
    lec: u8,
    question_id: u64,
    content: &Option<Vec<Option<String>>>,
) -> (r: Option<AnalysisRender>)
    ensures
        r is Some == answer_access(AnswerAccessView { owner: None, lec_id: None }, context@),
        r matches Some(page) ==> {
            &&& page.lec_id == lec as u64
            &&& page.question_id == question_id
            &&& page.result matches Some(t) && t@ == reply_text_of(content_view(*content))
        },
{
    let policy = analysis_result_policy();
    if !policy.simple_check(context, &AccessReason::Other) {
        return None;
    }
    Some(AnalysisRender { lec_id: lec as u64, question_id, result: Some(analysis_text(content)) })
}

/// The analysis text may be read exactly by a signed-in admin.
pub proof fn lemma_analysis_result_admins_only(ctx: PolicyContextView)
    ensures
        answer_access(AnswerAccessView { owner: None, lec_id: None }, ctx) <==> (ctx.user matches Some(u)
            && listed(ctx.admins, u)),
{
}

} // verus!
