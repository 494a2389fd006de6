use vstd::prelude::*;
use chrono::Datelike;
use crate::date::Date;
use crate::recurrence::{Recurrence, rec_of, rec_text};
use crate::recurrence::lemma_rec_text_round_trip;
use crate::tags::{TagSeq, tags_view, find_tag, drop_tag, tag_value, without_tag};
use crate::tags::{lemma_drop_absent, lemma_find_after_drop};

verus! {

/// The priority of a task that has none; `0` stands for `A`, `25` for `Z`.
pub const LOWEST_PRIORITY: u8 = 26;

/// The fields that the plain todo.txt grammar reads and writes.
#[derive(Clone, Debug, PartialEq, Eq)]
pub struct BaseTask {
    pub subject: String,
    pub priority: u8,
    pub create_date: Option<Date>,
    pub finish_date: Option<Date>,
    pub finished: bool,
    pub threshold_date: Option<Date>,
    pub due_date: Option<Date>,
    pub contexts: Vec<String>,
    pub projects: Vec<String>,
    pub hashtags: Vec<String>,
    pub tags: Vec<(String, String)>,
}

pub struct BaseView {
    pub subject: Seq<char>,
    pub priority: u8,
    pub create_date: Option<Date>,
    pub finish_date: Option<Date>,
    pub finished: bool,
    pub threshold_date: Option<Date>,
    pub due_date: Option<Date>,
    pub contexts: Seq<Seq<char>>,
    pub projects: Seq<Seq<char>>,
    pub hashtags: Seq<Seq<char>>,
    pub tags: TagSeq,
}

pub open spec fn words_view(v: Seq<String>) -> Seq<Seq<char>> {
    v.map_values(|s: String| s@)
}

pub open spec fn opt_valid(d: Option<Date>) -> bool {
    d matches Some(x) ==> x.valid()
}

impl View for BaseTask {
    type V = BaseView;

    open spec fn view(&self) -> BaseView {
        BaseView {
            subject: self.subject@,
            priority: self.priority,
            create_date: self.create_date,
            finish_date: self.finish_date,
            finished: self.finished,
            threshold_date: self.threshold_date,
            due_date: self.due_date,
            contexts: words_view(self.contexts@),
            projects: words_view(self.projects@),
            hashtags: words_view(self.hashtags@),
            tags: tags_view(self.tags@),
        }
    }
}

impl BaseView {
    /// Every date names an existing day.
    pub open spec fn wf(self) -> bool {
        opt_valid(self.create_date) && opt_valid(self.finish_date) && opt_valid(
            self.threshold_date,
        ) && opt_valid(self.due_date)
    }
}

/// Relies on chrono::Local::now: the local date, which names an existing day.
#[verifier::external_body]
fn today() -> (r: Date)
    ensures
        r.valid(),
{
    let d = chrono::Local::now().date_naive();
    Date { year: d.year(), month: d.month(), day: d.day() }
}

/// What the todo.txt grammar reads from a line; `None` where it refuses it.
pub uninterp spec fn base_of(line: Seq<char>) -> Option<BaseView>;

/// The line the todo.txt grammar writes for the fields.
pub uninterp spec fn base_line(b: BaseView) -> Seq<char>;

/// Relies on todo_txt::Task::from_str, the todo.txt grammar, whose dates are
/// chrono dates and so name existing days.
#[verifier::external_body]
fn parse_base(line: &str) -> (r: Option<BaseTask>)
    ensures
        match r {
            Some(b) => base_of(line@) == Some(b@) && b@.wf(),
            None => base_of(line@) is None,
        },
{
    let t = <todo_txt::Task as std::str::FromStr>::from_str(line).ok()?;
    let d = |d: Option<todo_txt::Date>| d.map(|d| Date { year: d.year(), month: d.month(), day: d.day() });
    Some(BaseTask {
        subject: t.subject, priority: t.priority, finished: t.finished,
        create_date: d(t.create_date), finish_date: d(t.finish_date),
        threshold_date: d(t.threshold_date), due_date: d(t.due_date),
        contexts: t.contexts, projects: t.projects, hashtags: t.hashtags,
        tags: t.tags.into_iter().collect(),
    })
}

/// Relies on todo_txt::Task's `Display`, the todo.txt grammar's writer.
/// chrono::NaiveDate::from_ymd_opt accepts every valid date.
#[verifier::external_body]
fn render_base(b: &BaseTask) -> (r: String)
    requires
        b@.wf(),
    ensures
        r@ == base_line(b@),
{
    let d = |d: Option<Date>| d.map(|d| todo_txt::Date::from_ymd_opt(d.year, d.month, d.day).unwrap());
    todo_txt::Task {
        subject: b.subject.clone(), priority: b.priority, finished: b.finished,
        create_date: d(b.create_date), finish_date: d(b.finish_date),
        threshold_date: d(b.threshold_date), due_date: d(b.due_date),
        contexts: b.contexts.clone(), projects: b.projects.clone(), hashtags: b.hashtags.clone(),
        tags: b.tags.iter().cloned().collect(),
    }.to_string()
}

/// A reference to the free text attached to a task: the name of the file
/// that holds it.
#[derive(Clone, Debug, PartialEq, Eq)]
pub enum Note {
    Absent,
    File(String),
}

/// The base grammar refused the line.
#[derive(Clone, Copy, Debug, PartialEq, Eq, Structural)]
pub struct ParseError;

/// A to-do item: the todo.txt fields, a note, a recurrence rule and a flag.
#[derive(Clone, Debug, PartialEq, Eq)]
pub struct Task {
    pub base: BaseTask,
    /// Position given by the list that holds the task; never written out.
    pub id: usize,
    pub note: Note,
    pub recurrence: Option<Recurrence>,
    pub flagged: bool,
}

pub struct TaskView {
    pub base: BaseView,
    pub id: usize,
    pub note: Option<Seq<char>>,
    pub recurrence: Option<Recurrence>,
    pub flagged: bool,
}

impl View for Task {
    type V = TaskView;

    open spec fn view(&self) -> TaskView {
        TaskView {
            base: self.base@,
            id: self.id,
            note: match self.note {
                Note::Absent => None,
                Note::File(f) => Some(f@),
            },
            recurrence: self.recurrence,
            flagged: self.flagged,
        }
    }
}

impl TaskView {
    /// Dates name existing days and the recurrence has a one-digit count.
    pub open spec fn wf(self) -> bool {
        self.base.wf() && (self.recurrence matches Some(r) ==> r.valid())
    }
}

/// The fields of a task made with no arguments.
pub open spec fn empty_base() -> BaseView {
    BaseView {
        subject: Seq::empty(),
        priority: LOWEST_PRIORITY,
        create_date: None,
        finish_date: None,
        finished: false,
        threshold_date: None,
        due_date: None,
        contexts: Seq::empty(),
        projects: Seq::empty(),
        hashtags: Seq::empty(),
        tags: Seq::empty(),
    }
}

/// The task marked as done on `today`.
pub open spec fn completed(t: TaskView, today: Date) -> TaskView {
    TaskView { base: BaseView { finished: true, finish_date: Some(today), ..t.base }, ..t }
}

/// The task marked as not done.
pub open spec fn uncompleted(t: TaskView) -> TaskView {
    TaskView { base: BaseView { finished: false, finish_date: None, ..t.base }, ..t }
}

/// The task that the fields `b` read from a line give, the note living in
/// the tag named `nt`. The tags `nt`, `rec` and `f` are taken out of the
/// mapping; a `rec` value that is no rule gives no recurrence.
pub open spec fn decoded(b: BaseView, nt: Seq<char>) -> TaskView {
    let t1 = drop_tag(b.tags, nt);
    let t2 = drop_tag(t1, "rec"@);
    TaskView {
        base: BaseView { tags: drop_tag(t2, "f"@), ..b },
        id: 0,
        note: find_tag(b.tags, nt),
        recurrence: match find_tag(t1, "rec"@) {
            Some(v) => rec_of(v),
            None => None,
        },
        flagged: find_tag(t2, "f"@) is Some,
    }
}

pub open spec fn note_text(note: Option<Seq<char>>, nt: Seq<char>) -> Seq<char> {
    match note {
        Some(n) => " "@ + nt + ":"@ + n,
        None => Seq::empty(),
    }
}

pub open spec fn rec_part(r: Option<Recurrence>) -> Seq<char> {
    match r {
        Some(r) => " rec:"@ + rec_text(r),
        None => Seq::empty(),
    }
}

pub open spec fn flag_text(f: bool) -> Seq<char> {
    if f {
        " f:1"@
    } else {
        Seq::empty()
    }
}

/// The line of a task: the base fields, then note, recurrence and flag.
pub open spec fn line_of(t: TaskView, nt: Seq<char>) -> Seq<char> {
    base_line(t.base) + note_text(t.note, nt) + rec_part(t.recurrence) + flag_text(t.flagged)
}

impl Task {
    /// An empty task: no subject, no priority, no dates, no tags.
    pub fn new() -> (r: Task)
        ensures
            r@ == (TaskView {
                base: empty_base(),
                id: 0,
                note: None,
                recurrence: None,
                flagged: false,
            }),
    {
        let r = Task {
            base: BaseTask {
                subject: String::new(),
                priority: LOWEST_PRIORITY,
                create_date: None,
                finish_date: None,
                finished: false,
                threshold_date: None,
                due_date: None,
                contexts: Vec::new(),
                projects: Vec::new(),
                hashtags: Vec::new(),
                tags: Vec::new(),
            },
            id: 0,
            note: Note::Absent,
            recurrence: None,
            flagged: false,
        };
        assert(r@.base.contexts =~= Seq::empty());
        assert(r@.base.projects =~= Seq::empty());
        assert(r@.base.hashtags =~= Seq::empty());
        assert(r@.base.tags =~= Seq::empty());
        r
    }

    /// Marks the task as done on `today`.
    pub fn complete_on(&mut self, today: Date)
        ensures
            final(self)@ == completed(old(self)@, today),
    {
        self.base.finished = true;
        self.base.finish_date = Some(today);
    }

    /// Marks the task as done today, by the local clock.
    pub fn complete(&mut self)
        ensures
            final(self).base.finish_date matches Some(d) && d.valid() && final(self)@
                == completed(old(self)@, d),
    {
        let d = today();
        self.complete_on(d);
    }

    /// Marks the task as not done and forgets its completion date.
    pub fn uncomplete(&mut self)
        ensures
            final(self)@ == uncompleted(old(self)@),
    {
        self.base.finished = false;
        self.base.finish_date = None;
    }

    /// Builds a task from the fields read from a line: the tags `note_tag`,
    /// `rec` and `f` become the note, the recurrence and the flag, and leave
    /// the mapping. The tag removed for the note is the one that was read.
    pub fn from_base(base: BaseTask, note_tag: &str) -> (r: Task)
        ensures
            r@ == decoded(base@, note_tag@),
    {
        let nk = String::from_str(note_tag);
        let rk = String::from_str("rec");
        let fk = String::from_str("f");
        proof {
            reveal_strlit("rec");
            reveal_strlit("f");
        }
        let note = match tag_value(&base.tags, &nk) {
            Some(v) => Note::File(v),
            None => Note::Absent,
        };
        let t1 = without_tag(&base.tags, &nk);
        let recurrence = match tag_value(&t1, &rk) {
            Some(v) => Recurrence::parse(v.as_str()),
            None => None,
        };
        let t2 = without_tag(&t1, &rk);
        let flagged = tag_value(&t2, &fk).is_some();
        let t3 = without_tag(&t2, &fk);
        let BaseTask {
            subject,
            priority,
            create_date,
            finish_date,
            finished,
            threshold_date,
            due_date,
            contexts,
            projects,
            hashtags,
            tags: _,
        } = base;
        Task {
            base: BaseTask {
                subject,
                priority,
                create_date,
                finish_date,
                finished,
                threshold_date,
                due_date,
                contexts,
                projects,
                hashtags,
                tags: t3,
            },
            id: 0,
            note,
            recurrence,
            flagged,
        }
    }

    /// Reads a task from a line, the note living in the tag `note_tag`.
    /// Fails exactly where the todo.txt grammar refuses the line.
    pub fn from_str(line: &str, note_tag: &str) -> (r: Result<Task, ParseError>)
        ensures
            match base_of(line@) {
                Some(b) => r is Ok && r->Ok_0@ == decoded(b, note_tag@) && r->Ok_0@.wf(),
                None => r is Err,
            },
    {
        match parse_base(line) {
            Some(b) => {
                let t = Task::from_base(b, note_tag);
                Ok(t)
            },
            None => Err(ParseError),
        }
    }

    /// Writes the task as a line, the note in the tag `note_tag`.
    pub fn to_line(&self, note_tag: &str) -> (r: String)
        requires
            self@.wf(),
        ensures
            r@ == line_of(self@, note_tag@),
    {
        let mut r = render_base(&self.base);
        proof {
            reveal_strlit(" ");
            reveal_strlit(":");
            reveal_strlit(" rec:");
            reveal_strlit(" f:1");
        }
        let ghost s0 = r@;
        match &self.note {
            Note::File(n) => {
                r.append(" ");
                r.append(note_tag);
                r.append(":");
                r.append(n.as_str());
            },
            Note::Absent => {},
        }
        assert(r@ =~= s0 + note_text(self@.note, note_tag@));
        let ghost s1 = r@;
        match &self.recurrence {
            Some(rec) => {
                r.append(" rec:");
                let text = rec.to_text();
                r.append(text.as_str());
            },
            None => {},
        }
        assert(r@ =~= s1 + rec_part(self@.recurrence));
        let ghost s2 = r@;
        if self.flagged {
            r.append(" f:1");
        }
        assert(r@ =~= s2 + flag_text(self@.flagged));
        r
    }
}

/// A line whose tags include none of `nt`, `rec` and `f` is written back,
/// once read, exactly as the todo.txt grammar writes its fields.
pub proof fn lemma_plain_line_round_trip(line: Seq<char>, nt: Seq<char>)
    requires
        base_of(line) is Some,
        find_tag(base_of(line)->Some_0.tags, nt) is None,
        find_tag(base_of(line)->Some_0.tags, "rec"@) is None,
        find_tag(base_of(line)->Some_0.tags, "f"@) is None,
    ensures
        line_of(decoded(base_of(line)->Some_0, nt), nt) == base_line(base_of(line)->Some_0),
{
    let b = base_of(line)->Some_0;
    lemma_drop_absent(b.tags, nt);
    lemma_drop_absent(b.tags, "rec"@);
    lemma_drop_absent(b.tags, "f"@);
    let t = decoded(b, nt);
    assert(t.base == b);
    assert(line_of(t, nt) =~= base_line(b));
}

/// The line of a flagged task ends with ` f:1`.
pub proof fn lemma_flag_written(t: TaskView, nt: Seq<char>)
    requires
        t.flagged,
    ensures
        line_of(t, nt).len() >= 4,
        line_of(t, nt).subrange(line_of(t, nt).len() - 4, line_of(t, nt).len() as int)
            == " f:1"@,
{
    reveal_strlit(" f:1");
    let l = line_of(t, nt);
    let head = base_line(t.base) + note_text(t.note, nt) + rec_part(t.recurrence);
    assert(l == head + " f:1"@);
    assert(l.subrange(l.len() - 4, l.len() as int) =~= " f:1"@);
}

/// Fields read with an `f` tag give a flagged task, unless the note lives
/// in the tag `f`.
pub proof fn lemma_flag_read(b: BaseView, nt: Seq<char>)
    requires
        find_tag(b.tags, "f"@) is Some,
        nt != "f"@,
    ensures
        decoded(b, nt).flagged,
{
    reveal_strlit("rec");
    reveal_strlit("f");
    assert("rec"@.len() != "f"@.len());
    lemma_find_after_drop(b.tags, nt, "f"@);
    lemma_find_after_drop(drop_tag(b.tags, nt), "rec"@, "f"@);
}

/// Fields read with the tag `rec` holding the text of a rule give that
/// rule back, unless the note lives in the tag `rec`.
pub proof fn lemma_recurrence_round_trip(b: BaseView, nt: Seq<char>, r: Recurrence)
    requires
        r.valid(),
        find_tag(b.tags, "rec"@) == Some(rec_text(r)),
        nt != "rec"@,
    ensures
        decoded(b, nt).recurrence == Some(r),
{
    lemma_find_after_drop(b.tags, nt, "rec"@);
    lemma_rec_text_round_trip(r);
}

/// Completing then uncompleting a task leaves it not done, with no
/// completion date, whatever its state before.
pub proof fn lemma_complete_uncomplete(t: TaskView, today: Date)
    ensures
        !uncompleted(completed(t, today)).base.finished,
        uncompleted(completed(t, today)).base.finish_date is None,
        uncompleted(completed(t, today)) == uncompleted(t),
{
}

} // verus!
