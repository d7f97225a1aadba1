//! Adding a lecture, its admin page, and editing its title and presenters.
use vstd::prelude::*;

pub use crate::models::QuestionModel;
use crate::sort::{sort_by_key, sorted_by_key, with_key, SortKey};
use crate::text::{decimal_string, join, seq_join, split, split_char, trim, trimmed, u64_to_string, views};

verus! {

impl SortKey for QuestionModel {
    open spec fn sort_key(&self) -> u64 {
        self.question_number
    }

    fn key(&self) -> (k: u64) {
        self.question_number
    }
}

/// A lecture's admin page.
pub struct LectureAdminPage {
    /// The lecture's label, or empty if there is no such lecture.
    pub title: String,
    /// The presenters' emails, comma separated.
    pub presenters: String,
    /// The lecture's questions by question number.
    pub questions: Vec<QuestionModel>,
}

/// The admin page of a lecture from its `lectures` rows' labels, its
/// presenters' emails and its questions.
pub fn lec(labels: &Vec<String>, presenter_emails: &Vec<String>, questions: Vec<QuestionModel>) -> (r:
    LectureAdminPage)
    ensures
        r.title@ == (if labels@.len() > 0 { labels@[0]@ } else { Seq::<char>::empty() }),
        r.presenters@ == seq_join(views(presenter_emails@), ","@),
        sorted_by_key(r.questions@),
        r.questions@.to_multiset() == questions@.to_multiset(),
        r.questions@.len() == questions@.len(),
        forall|k: u64| #[trigger] with_key(r.questions@, k) == with_key(questions@, k),
{
    let title = if labels.len() > 0 {
        labels[0].clone()
    } else {
        String::new()
    };
    LectureAdminPage {
        title,
        presenters: join(presenter_emails, ","),
        questions: sort_by_key(questions),
    }
}

/// Keeps the non-empty strings of `s`, in order.
pub open spec fn non_empty(s: Seq<Seq<char>>) -> Seq<Seq<char>>
    decreases s.len(),
{
    if s.len() == 0 {
        Seq::empty()
    } else if s.last().len() == 0 {
        non_empty(s.drop_last())
    } else {
        non_empty(s.drop_last()).push(s.last())
    }
}

/// The presenters named by the edit form: comma separated, each trimmed,
/// blank entries dropped.
pub open spec fn presenter_list(text: Seq<char>) -> Seq<Seq<char>> {
    non_empty(split_char(text, ',').map_values(|p: Seq<char>| trimmed(p)))
}

/// Reads the comma separated presenter list of the edit form.
/// Every presenter read is non-empty and holds no comma.
pub fn parse_presenters(text: &str) -> (r: Vec<String>)
    ensures
        views(r@) == presenter_list(text@),
        forall|k: int| 0 <= k < r@.len() ==> (#[trigger] r@[k])@.len() > 0 && !r@[k]@.contains(','),
{
    proof {
        lemma_split_pieces_have_no_sep(text@, ',');
    }
    let parts = split(text, ',');
    assert forall|j: int| 0 <= j < parts@.len() implies !(#[trigger] parts@[j])@.contains(',') by {
        assert(views(parts@)[j] == parts@[j]@);
    }
    let ghost tv = views(parts@).map_values(|p: Seq<char>| trimmed(p));
    let mut out: Vec<String> = Vec::new();
    let mut i: usize = 0;
    while i < parts.len()
        invariant
            i <= parts@.len(),
            tv == views(parts@).map_values(|p: Seq<char>| trimmed(p)),
            views(out@) == non_empty(tv.take(i as int)),
            views(parts@) == split_char(text@, ','),
            forall|j: int| 0 <= j < parts@.len() ==> !(#[trigger] parts@[j])@.contains(','),
            forall|k: int| 0 <= k < out@.len() ==> (#[trigger] out@[k])@.len() > 0 && !out@[k]@.contains(','),
        decreases parts@.len() - i,
    {
        assert(tv.take(i + 1).drop_last() =~= tv.take(i as int));
        let t = trim(parts[i].as_str());
        assert(t@ == tv[i as int]);
        proof {
            let p = parts@[i as int]@;
            assert(!p.contains(','));
            let (a, b) = choose|a: int, b: int| 0 <= a <= b <= p.len() && t@ == p.subrange(a, b);
            if t@.contains(',') {
                let j = choose|j: int| 0 <= j < t@.len() && t@[j] == ',';
                assert(p[a + j] == ',');
            }
        }
        if !t.as_str().is_empty() {
            let ghost before = views(out@);
            let ghost t_v = t@;
            out.push(t);
            assert(views(out@) =~= before.push(t_v));
        }
        i = i + 1;
    }
    assert(tv.take(parts@.len() as int) =~= tv);
    out
}

/// Where the lecture admin pages redirect after a change.
pub open spec fn lecture_admin_path(num: u8) -> Seq<char> {
    "/admin/lec/"@ + decimal_string(num as nat)
}

pub fn lecture_admin_location(num: u8) -> (r: String)
    ensures
        r@ == lecture_admin_path(num),
{
    let mut r = String::new();
    r.append("/admin/lec/");
    r.append(u64_to_string(num as u64).as_str());
    r
}

/// A new lecture, and where to go next (the lecture list).
pub struct LectureInsert {
    pub id: u64,
    pub label: String,
    pub location: String,
}

pub fn lec_add_submit(lec_id: u8, lec_label: String) -> (r: LectureInsert)
    ensures
        r.id == lec_id,
        r.label@ == lec_label@,
        r.location@ == "/leclist"@,
{
    LectureInsert { id: lec_id as u64, label: lec_label, location: "/leclist".to_owned() }
}

/// An edit of a lecture: its new label, the presenters that replace the old
/// ones wholesale, and where to go next.
pub struct LectureEdit {
    pub lecture_id: u64,
    pub label: String,
    pub presenters: Vec<String>,
    pub location: String,
}

pub fn lec_edit_submit(num: u8, lec_name: String, lec_presenters: &str) -> (r: LectureEdit)
    ensures
        r.lecture_id == num,
        r.label@ == lec_name@,
        views(r.presenters@) == presenter_list(lec_presenters@),
        forall|k: int| 0 <= k < r.presenters@.len() ==> (#[trigger] r.presenters@[k])@.len() > 0 && !r.presenters@[k]@.contains(','),
        r.location@ == lecture_admin_path(num),
{
    LectureEdit {
        lecture_id: num as u64,
        label: lec_name,
        presenters: parse_presenters(lec_presenters),
        location: lecture_admin_location(num),
    }
}

proof fn lemma_split_pieces_have_no_sep(s: Seq<char>, c: char)
    ensures
        forall|j: int| 0 <= j < split_char(s, c).len() ==> !(#[trigger] split_char(s, c)[j]).contains(c),
    decreases s.len(),
{
    if s.len() > 0 {
        lemma_split_pieces_have_no_sep(s.drop_last(), c);
        let prev = split_char(s.drop_last(), c);
        crate::text::lemma_split_char_nonempty(s.drop_last(), c);
        if s.last() != c {
            let last = prev.last().push(s.last());
            assert(!prev.last().contains(c));
            assert forall|i: int| 0 <= i < last.len() implies last[i] != c by {
                if i < prev.last().len() {
                    assert(last[i] == prev.last()[i]);
                }
            }
        }
    }
}

} // verus!
