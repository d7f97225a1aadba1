//! The admin's automated analysis of a question's answers.
use websubmit_boxed::policies::{AccessReason, PolicyContext};
use websubmit_boxed::routes::admin::analysis::{
    analysis, analysis_may_run, analysis_prompt, analysis_request, analysis_result_policy,
    analysis_submitted, analysis_text, answers_list, question_text, ANALYSIS_MAX_TOKENS,
    ANALYSIS_PROMPT, PAPER_TEXT,
};

const ADMIN: &str = "admin@bu.edu";
const ALEX: &str = "alex@brown.edu";

fn ctx(user: &str) -> PolicyContext {
    PolicyContext {
        user: Some(user.to_string()),
        admins: vec![ADMIN.to_string()],
        managers: vec![],
        presenters: vec![(1, ALEX.to_string())],
    }
}

#[test]
fn the_setup_form_has_no_result_yet() {
    let page = analysis(7, 21);
    assert_eq!((page.lec_id, page.question_id), (7, 21));
    assert!(page.result.is_none());
}

#[test]
fn answers_are_numbered_and_quoted_one_per_line() {
    let answers = vec!["first".to_string(), "second \"quoted\"".to_string()];
    assert_eq!(
        answers_list(&answers),
        "Student 1: \"first\"\nStudent 2: \"second \"quoted\"\""
    );
    assert_eq!(answers_list(&vec![]), "");
}

#[test]
fn the_prompt_fills_in_every_placeholder() {
    let prompt = analysis_prompt(3, "What is a PCon?", &vec!["A box.".to_string()]);
    let expected = ANALYSIS_PROMPT
        .replace("{LECTURE_TITLE}", "Lecture 3")
        .replace("{PAPER_TEXT}", PAPER_TEXT)
        .replace("{QUESTION_PROMPT}", "What is a PCon?")
        .replace("{ANSWERS_LIST}", "Student 1: \"A box.\"");
    assert_eq!(prompt, expected);
    assert!(prompt.contains("Title: Lecture 3\n"));
    assert!(prompt.contains("The paper is attached as a PDF document."));
    assert!(!prompt.contains("{ANSWERS_LIST}"));
}

#[test]
fn the_question_is_the_first_one_found() {
    assert_eq!(question_text(&vec!["Why?".to_string(), "How?".to_string()]), "Why?");
    assert_eq!(question_text(&vec![]), "");
}

#[test]
fn the_request_carries_the_key_paper_and_prompt() {
    let req = analysis_request(
        "key-1",
        "a-model",
        "https://example.org/paper.pdf",
        4,
        &vec!["Why?".to_string()],
        &vec!["Because.".to_string()],
    );
    assert_eq!(req.api_key, "key-1");
    assert_eq!(req.model, "a-model");
    assert_eq!(req.max_tokens, ANALYSIS_MAX_TOKENS);
    assert_eq!(req.max_tokens, 4096);
    assert_eq!(req.paper_url, "https://example.org/paper.pdf");
    assert_eq!(req.prompt, analysis_prompt(4, "Why?", &vec!["Because.".to_string()]));
}

#[test]
fn the_reply_text_joins_the_text_blocks() {
    let blocks = Some(vec![Some("<h3>".to_string()), None, Some("Themes</h3>".to_string())]);
    assert_eq!(analysis_text(&blocks), "<h3>Themes</h3>");
    assert_eq!(analysis_text(&None), "");
    assert_eq!(analysis_text(&Some(vec![])), "");
    let page = analysis_submitted(&ctx(ADMIN), 2, 5, &blocks).unwrap();
    assert_eq!((page.lec_id, page.question_id), (2, 5));
    assert_eq!(page.result, Some("<h3>Themes</h3>".to_string()));
    // The analysis is for admins only, presenters included.
    assert!(analysis_submitted(&ctx(ALEX), 2, 5, &blocks).is_none());
}

#[test]
fn the_analysis_runs_for_an_admin_on_consenting_answers_only() {
    assert!(analysis_may_run(&ctx(ADMIN), &vec![true, true]));
    assert!(!analysis_may_run(&ctx(ADMIN), &vec![true, false]));
    assert!(!analysis_may_run(&ctx(ALEX), &vec![true]));
    // With nothing to read there is nothing to guard.
    assert!(analysis_may_run(&ctx(ALEX), &vec![]));
}

#[test]
fn the_analysis_is_for_admins_only() {
    let p = analysis_result_policy();
    assert!(p.simple_check(&ctx(ADMIN), &AccessReason::Other));
    assert!(!p.simple_check(&ctx(ALEX), &AccessReason::Other));
}
