//! Reading the rows of the lecture and question tables and views.
use websubmit_boxed::models::{
    ConsentedAnswerModel, LectureModel, LectureWithQuestionCountsModel, QuestionModel,
    QuestionWithAnswerModel,
};
use websubmit_boxed::row::SqlValue;

fn t(s: &str) -> SqlValue {
    SqlValue::Bytes(s.to_string())
}

#[test]
fn lecture_rows_read_their_id_label_and_count() {
    let l = LectureModel::from_row(&vec![SqlValue::UInt(1), t("Lecture 1")]).unwrap();
    assert_eq!((l.id, l.label.as_str()), (1, "Lecture 1"));
    let c = LectureWithQuestionCountsModel::from_row(&vec![t("+2"), t("Lecture 2"), SqlValue::Int(0)]).unwrap();
    assert_eq!((c.id, c.label.as_str(), c.u_c), (2, "Lecture 2", 0));
    assert!(LectureModel::from_row(&vec![SqlValue::Null, t("x")]).is_none());
    assert!(LectureWithQuestionCountsModel::from_row(&vec![t("18446744073709551616"), t("x"), SqlValue::Int(0)]).is_none());
    assert_eq!(
        LectureModel::from_row(&vec![t("18446744073709551615"), t("x")]).unwrap().id,
        u64::MAX
    );
    assert_eq!(LectureModel::from_row(&vec![t("-0"), t("x")]).unwrap().id, 0);
    assert!(LectureModel::from_row(&vec![t("-1"), t("x")]).is_none());
    assert!(LectureModel::from_row(&vec![t(""), t("x")]).is_none());
}

#[test]
fn question_rows_read_their_four_columns() {
    let q = QuestionModel::from_row(&vec![SqlValue::UInt(5), SqlValue::UInt(3), SqlValue::UInt(1), t("Why?")]).unwrap();
    assert_eq!((q.id, q.lecture_id, q.question_number, q.question.as_str()), (5, 3, 1, "Why?"));
    // A surplus column is ignored.
    assert!(QuestionModel::from_row(&vec![SqlValue::UInt(5), SqlValue::UInt(3), SqlValue::UInt(1), t("Why?"), SqlValue::Null]).is_some());
}

#[test]
fn an_unanswered_question_row_has_no_answer_side() {
    let mut row = vec![SqlValue::UInt(5), SqlValue::UInt(3), SqlValue::UInt(1), t("Why?"), t("alex@brown.edu")];
    row.extend((0..6).map(|_| SqlValue::Null));
    let q = QuestionWithAnswerModel::from_row(&row).unwrap();
    assert_eq!(q.user_email, "alex@brown.edu");
    assert!(q.answer.is_none() && q.answer_id.is_none() && q.lec.is_none() && q.submitted_at.is_none());

    let mut answered = row.clone();
    answered[5] = t("alex@brown.edu-5");
    answered[7] = SqlValue::UInt(3);
    answered[9] = t("Because.");
    let a = QuestionWithAnswerModel::from_row(&answered).unwrap();
    assert_eq!(a.answer.as_deref(), Some("Because."));
    assert_eq!(a.lec, Some(3));
    assert_eq!(a.answer_id.as_deref(), Some("alex@brown.edu-5"));

    row.pop();
    assert!(QuestionWithAnswerModel::from_row(&row).is_none());
}

#[test]
fn consented_answer_rows_read_the_consent_flag() {
    let a = ConsentedAnswerModel::from_row(&vec![t("Yes."), SqlValue::Int(1), SqlValue::UInt(2), SqlValue::UInt(4)]).unwrap();
    assert!(a.consent);
    assert_eq!((a.answer.as_str(), a.lec, a.question_id), ("Yes.", 2, 4));
    assert!(ConsentedAnswerModel::from_row(&vec![t("Yes."), SqlValue::Null, SqlValue::UInt(2), SqlValue::UInt(4)]).is_none());
}
