//! A lecture's questions: answering them and seeing one's answers again.
use vstd::prelude::*;

use crate::models::{question_rule_list, question_rules, QuestionWithAnswerModel};
use crate::policies::answers::{rules_check, rules_visible};
use crate::config::Config;
use crate::policies::context::{PolicyContext, PolicyContextView};
use crate::sort::{sort_by_key, sorted_by_key, with_key, SortKey};
use crate::text::{decimal_string, seq_join, u64_to_string, views, join};

verus! {

/// One question of a lecture with the viewer's answer, if they gave one.
pub struct QuestionJoinAnswerRow {
    pub id: u64,
    pub question_num: u64,
    pub prompt: String,
    pub answer: Option<String>,
}

impl SortKey for QuestionJoinAnswerRow {
    open spec fn sort_key(&self) -> u64 {
        self.id
    }

    fn key(&self) -> (k: u64) {
        self.id
    }
}

/// A row of the answer form read from a row of the `questions_with_answers`
/// view: the question's id, number and prompt, and the paired user's answer.
pub open spec fn form_row(m: QuestionWithAnswerModel) -> QuestionJoinAnswerRow {
    QuestionJoinAnswerRow { id: m.id, question_num: m.question_number, prompt: m.question, answer: m.answer }
}

pub open spec fn form_rows(rows: Seq<QuestionWithAnswerModel>) -> Seq<QuestionJoinAnswerRow> {
    rows.map_values(|m: QuestionWithAnswerModel| form_row(m))
}

/// The answer form from the lecture's rows of the `questions_with_answers`
/// view (its questions, each paired with the viewer's answer or none):
/// refused (`None`) unless the answers' joined rule lets the viewer read
/// them; else the rows in the order of their ids, rows of equal id in the
/// order given.
pub fn questions(context: &PolicyContext, rows: &Vec<QuestionWithAnswerModel>) -> (r: Option<
    Vec<QuestionJoinAnswerRow>,
>)
    ensures
        r is Some == questions_visible_for(rows@, context@),
        r matches Some(v) ==> {
            &&& sorted_by_key(v@)
            &&& v@.to_multiset() == form_rows(rows@).to_multiset()
            &&& v@.len() == rows@.len()
            &&& forall|k: u64| #[trigger] with_key(v@, k) == with_key(form_rows(rows@), k)
            &&& forall|i: int|
                0 <= i < v@.len() ==> exists|j: int|
                    0 <= j < rows@.len() && (#[trigger] v@[i]).id == rows@[j].id && v@[i].question_num
                        == rows@[j].question_number && v@[i].prompt == rows@[j].question && v@[i].answer
                        == rows@[j].answer
        },
{
    if !questions_visible(context, rows) {
        return None;
    }
    let mut form: Vec<QuestionJoinAnswerRow> = Vec::new();
    let mut i: usize = 0;
    while i < rows.len()
        invariant
            i <= rows@.len(),
            form@ == form_rows(rows@).take(i as int),
        decreases rows@.len() - i,
    {
        let m = &rows[i];
        let answer = match &m.answer {
            Some(a) => Some(a.clone()),
            None => None,
        };
        let ghost before = form@;
        form.push(QuestionJoinAnswerRow { id: m.id, question_num: m.question_number, prompt: m.question.clone(), answer });
        assert(form@ =~= form_rows(rows@).take(i + 1));
        i = i + 1;
    }
    assert(form_rows(rows@).take(rows@.len() as int) =~= form_rows(rows@));
    let sorted = sort_by_key(form);
    proof {
        broadcast use vstd::seq_lib::group_to_multiset_ensures;
        let f = form_rows(rows@);
        lemma_form_rows_carry_their_rows(rows@);
        assert forall|i: int| 0 <= i < sorted@.len() implies exists|j: int|
            0 <= j < rows@.len() && (#[trigger] sorted@[i]).id == rows@[j].id && sorted@[i].question_num
                == rows@[j].question_number && sorted@[i].prompt == rows@[j].question && sorted@[i].answer
                == rows@[j].answer by {
            let x = sorted@[i];
            assert(sorted@.contains(x));
            assert(sorted@.to_multiset().count(x) > 0);
            assert(f.to_multiset().count(x) > 0);
            assert(f.contains(x));
            let j = choose|j: int| 0 <= j < f.len() && f[j] == x;
            assert(x.question_num == rows@[j].question_number);
        }
    }
    Some(sorted)
}

/// Each form row is read from the view row at its place: same id, the
/// question's own number (not its id), its prompt, and the paired user's
/// answer.
pub proof fn lemma_form_rows_carry_their_rows(rows: Seq<QuestionWithAnswerModel>)
    ensures
        form_rows(rows).len() == rows.len(),
        forall|i: int| 0 <= i < rows.len() ==> {
            &&& (#[trigger] form_rows(rows)[i]).id == rows[i].id
            &&& form_rows(rows)[i].question_num == rows[i].question_number
            &&& form_rows(rows)[i].prompt == rows[i].question
            &&& form_rows(rows)[i].answer == rows[i].answer
        },
{
}

/// The key of an answer: the author's email and the question id, joined by a
/// dash.
pub open spec fn answer_key(email: Seq<char>, question_id: u64) -> Seq<char> {
    email + "-"@ + decimal_string(question_id as nat)
}

pub fn answer_id(email: &str, question_id: u64) -> (r: String)
    ensures
        r@ == answer_key(email@, question_id),
{
    let mut r = email.to_owned();
    r.append("-");
    r.append(u64_to_string(question_id).as_str());
    r
}

/// A row written to `answers` (the submission time is added when it is
/// stored).
pub struct AnswerWrite {
    pub id: String,
    pub email: String,
    pub lec: u64,
    pub question_id: u64,
    pub answer: String,
}

/// The mail that tells the staff about a submission.
pub struct AnswerNotice {
    pub reply_to: String,
    pub recipients: Vec<String>,
    pub subject: String,
    pub text: String,
}

/// What submitting answers does: one row per answer, replacing any earlier
/// answer by the same user to the same question, and (when emails are on) a
/// mail to the staff.
pub struct Submission {
    pub writes: Vec<AnswerWrite>,
    pub notice: Option<AnswerNotice>,
    /// Where the student goes next: the lecture list.
    pub location: String,
}

pub open spec fn answer_entry(a: (u64, Seq<char>)) -> Seq<char> {
    "Question "@ + decimal_string(a.0 as nat) + ":\n"@ + a.1
}

/// The body of the staff mail: each answer under its question number,
/// separated by a rule.
pub open spec fn answer_log_of(answers: Seq<(u64, Seq<char>)>) -> Seq<char> {
    seq_join(answers.map_values(|a: (u64, Seq<char>)| answer_entry(a)), "\n-----\n"@)
}

pub open spec fn answers_view(answers: Seq<(u64, String)>) -> Seq<(u64, Seq<char>)> {
    answers.map_values(|a: (u64, String)| (a.0, a.1@))
}

pub open spec fn submission_subject(class: Seq<char>, lec: u64) -> Seq<char> {
    class + " meeting "@ + decimal_string(lec as nat) + " questions"@
}

pub fn answer_log(answers: &Vec<(u64, String)>) -> (r: String)
    ensures
        r@ == answer_log_of(answers_view(answers@)),
{
    let ghost av = answers_view(answers@);
    let mut entries: Vec<String> = Vec::new();
    let mut i: usize = 0;
    while i < answers.len()
        invariant
            i <= answers@.len(),
            av == answers_view(answers@),
            views(entries@) == av.take(i as int).map_values(|a: (u64, Seq<char>)| answer_entry(a)),
        decreases answers@.len() - i,
    {
        let mut e = String::new();
        e.append("Question ");
        e.append(u64_to_string(answers[i].0).as_str());
        e.append(":\n");
        e.append(answers[i].1.as_str());
        let ghost before = views(entries@);
        let ghost ev = e@;
        entries.push(e);
        assert(views(entries@) =~= before.push(ev));
        assert(av.take(i + 1).map_values(|a: (u64, Seq<char>)| answer_entry(a)) =~= av.take(
            i as int,
        ).map_values(|a: (u64, Seq<char>)| answer_entry(a)).push(ev));
        i = i + 1;
    }
    assert(av.take(answers@.len() as int) =~= av);
    join(&entries, "\n-----\n")
}

/// Submits `answers` (question id and text) for lecture `lec` as `user`.
pub fn questions_submit(user: &str, lec: u64, answers: &Vec<(u64, String)>, config: &Config) -> (r:
    Submission)
    ensures
        r.writes@.len() == answers@.len(),
        forall|i: int|
            0 <= i < answers@.len() ==> {
                let w = #[trigger] r.writes@[i];
                &&& w.id@ == answer_key(user@, answers@[i].0)
                &&& w.email@ == user@
                &&& w.lec == lec
                &&& w.question_id == answers@[i].0
                &&& w.answer@ == answers@[i].1@
            },
        r.notice is Some == config@.send_emails,
        r.location@ == "/leclist"@,
        r.notice matches Some(n) ==> {
            &&& n.reply_to@ == user@
            &&& views(n.recipients@) == config@.staff
            &&& n.subject@ == submission_subject(config@.class, lec)
            &&& n.text@ == answer_log_of(answers_view(answers@))
        },
{
    let mut writes: Vec<AnswerWrite> = Vec::new();
    let mut i: usize = 0;
    while i < answers.len()
        invariant
            i <= answers@.len(),
            writes@.len() == i,
            forall|k: int|
                0 <= k < i ==> {
                    let w = #[trigger] writes@[k];
                    &&& w.id@ == answer_key(user@, answers@[k].0)
                    &&& w.email@ == user@
                    &&& w.lec == lec
                    &&& w.question_id == answers@[k].0
                    &&& w.answer@ == answers@[k].1@
                },
        decreases answers@.len() - i,
    {
        let question_id = answers[i].0;
        writes.push(
            AnswerWrite {
                id: answer_id(user, question_id),
                email: user.to_owned(),
                lec,
                question_id,
                answer: answers[i].1.clone(),
            },
        );
        i = i + 1;
    }
    let notice = if config.send_emails {
        let mut subject = config.class.clone();
        subject.append(" meeting ");
        subject.append(u64_to_string(lec).as_str());
        subject.append(" questions");
        let mut recipients: Vec<String> = Vec::new();
        let mut k: usize = 0;
        while k < config.staff.len()
            invariant
                k <= config.staff@.len(),
                views(recipients@) == views(config.staff@).take(k as int),
            decreases config.staff@.len() - k,
        {
            let ghost before = views(recipients@);
            let s = config.staff[k].clone();
            let ghost sv = s@;
            recipients.push(s);
            assert(views(recipients@) =~= before.push(sv));
            assert(views(config.staff@).take(k + 1) =~= views(config.staff@).take(k as int).push(sv));
            k = k + 1;
        }
        assert(views(config.staff@).take(config.staff@.len() as int) =~= views(config.staff@));
        Some(
            AnswerNotice {
                reply_to: user.to_owned(),
                recipients,
                subject,
                text: answer_log(answers),
            },
        )
    } else {
        None
    };
    Submission { writes, notice, location: "/leclist".to_owned() }
}

/// The answer form may be shown to the viewer: the answers on it are guarded
/// by their rows' joined rule (each row by its paired user, for its lecture).
pub open spec fn questions_visible_for(rows: Seq<QuestionWithAnswerModel>, ctx: PolicyContextView) -> bool {
    rules_visible(question_rules(rows), ctx)
}

/// Checks the rule of the answers the form shows, for the viewer.
pub fn questions_visible(context: &PolicyContext, rows: &Vec<QuestionWithAnswerModel>) -> (r: bool)
    ensures
        r == questions_visible_for(rows@, context@),
{
    rules_check(context, &question_rule_list(rows))
}

} // verus!
