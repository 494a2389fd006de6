use vstd::prelude::*;
use std::cmp::Ordering;
use crate::date::{Date, opt_date_lt};
use crate::task::{Task, TaskView};

verus! {

/// Lexicographic order on texts, by code point.
pub open spec fn text_lt(a: Seq<char>, b: Seq<char>) -> bool
    decreases a.len(),
{
    if a.len() == 0 {
        b.len() > 0
    } else if b.len() == 0 {
        false
    } else if a[0] != b[0] {
        a[0] < b[0]
    } else {
        text_lt(a.drop_first(), b.drop_first())
    }
}

/// Two tasks share due date, priority and subject.
pub open spec fn same_rank(a: TaskView, b: TaskView) -> bool {
    a.base.due_date == b.base.due_date && a.base.priority == b.base.priority && a.base.subject
        == b.base.subject
}

/// `a` sorts before `b`: by due date (none first), then by priority (`A`
/// before `B`, no priority last), then by subject.
pub open spec fn task_lt(a: TaskView, b: TaskView) -> bool {
    opt_date_lt(a.base.due_date, b.base.due_date) || (a.base.due_date == b.base.due_date && (
    a.base.priority < b.base.priority || (a.base.priority == b.base.priority && text_lt(
        a.base.subject,
        b.base.subject,
    ))))
}

pub proof fn lemma_text_lt_irreflexive(a: Seq<char>)
    ensures
        !text_lt(a, a),
    decreases a.len(),
{
    if a.len() > 0 {
        lemma_text_lt_irreflexive(a.drop_first());
    }
}

pub proof fn lemma_text_lt_transitive(a: Seq<char>, b: Seq<char>, c: Seq<char>)
    requires
        text_lt(a, b),
        text_lt(b, c),
    ensures
        text_lt(a, c),
    decreases a.len(),
{
    if a.len() > 0 && a[0] == b[0] && b[0] == c[0] {
        lemma_text_lt_transitive(a.drop_first(), b.drop_first(), c.drop_first());
    }
}

/// Two different texts are ordered one way, and only one.
pub proof fn lemma_text_lt_total(a: Seq<char>, b: Seq<char>)
    ensures
        a != b ==> (text_lt(a, b) || text_lt(b, a)),
        !(text_lt(a, b) && text_lt(b, a)),
    decreases a.len(),
{
    if a.len() > 0 && b.len() > 0 {
        lemma_text_lt_total(a.drop_first(), b.drop_first());
        if a[0] == b[0] && a != b {
            assert(a =~= seq![a[0]] + a.drop_first());
            assert(b =~= seq![b[0]] + b.drop_first());
        }
    } else if a.len() == 0 && b.len() == 0 {
        assert(a =~= b);
    }
}

/// Compares two texts by code point.
pub fn compare_text(a: &str, b: &str) -> (r: Ordering)
    ensures
        (r == Ordering::Less) == text_lt(a@, b@),
        (r == Ordering::Equal) == (a@ == b@),
        (r == Ordering::Greater) == text_lt(b@, a@),
{
    proof {
        lemma_text_lt_total(a@, b@);
        lemma_text_lt_irreflexive(a@);
    }
    let la = a.unicode_len();
    let lb = b.unicode_len();
    let mut i: usize = 0;
    assert(a@.subrange(0, la as int) =~= a@);
    assert(b@.subrange(0, lb as int) =~= b@);
    while i < la && i < lb && a.get_char(i) == b.get_char(i)
        invariant
            i <= la,
            i <= lb,
            la == a@.len(),
            lb == b@.len(),
            text_lt(a@, b@) == text_lt(a@.subrange(i as int, la as int), b@.subrange(i as int, lb as int)),
            text_lt(b@, a@) == text_lt(b@.subrange(i as int, lb as int), a@.subrange(i as int, la as int)),
            a@.subrange(0, i as int) == b@.subrange(0, i as int),
        decreases la - i,
    {
        assert(a@.subrange(i as int, la as int).drop_first() =~= a@.subrange(i as int + 1, la as int));
        assert(b@.subrange(i as int, lb as int).drop_first() =~= b@.subrange(i as int + 1, lb as int));
        assert(a@.subrange(0, i as int + 1) =~= a@.subrange(0, i as int).push(a@[i as int]));
        assert(b@.subrange(0, i as int + 1) =~= b@.subrange(0, i as int).push(b@[i as int]));
        i = i + 1;
    }
    if i == la && i == lb {
        assert(a@ =~= b@);
        Ordering::Equal
    } else if i == la {
        Ordering::Less
    } else if i == lb {
        Ordering::Greater
    } else if a.get_char(i) < b.get_char(i) {
        Ordering::Less
    } else {
        Ordering::Greater
    }
}

fn compare_due(a: &Option<Date>, b: &Option<Date>) -> (r: Ordering)
    ensures
        (r == Ordering::Less) == opt_date_lt(*a, *b),
        (r == Ordering::Equal) == (*a == *b),
        (r == Ordering::Greater) == opt_date_lt(*b, *a),
{
    match (a, b) {
        (None, None) => Ordering::Equal,
        (None, Some(_)) => Ordering::Less,
        (Some(_), None) => Ordering::Greater,
        (Some(x), Some(y)) => {
            if x.is_before(y) {
                Ordering::Less
            } else if y.is_before(x) {
                Ordering::Greater
            } else {
                Ordering::Equal
            }
        },
    }
}

impl Task {
    /// Where the task sorts against `other`: by due date, then priority,
    /// then subject. Other fields play no part.
    pub fn cmp(&self, other: &Task) -> (r: Ordering)
        ensures
            (r == Ordering::Less) == task_lt(self@, other@),
            (r == Ordering::Equal) == same_rank(self@, other@),
            (r == Ordering::Greater) == task_lt(other@, self@),
    {
        match compare_due(&self.base.due_date, &other.base.due_date) {
            Ordering::Less => Ordering::Less,
            Ordering::Greater => Ordering::Greater,
            Ordering::Equal => {
                if self.base.priority < other.base.priority {
                    Ordering::Less
                } else if self.base.priority > other.base.priority {
                    Ordering::Greater
                } else {
                    compare_text(self.base.subject.as_str(), other.base.subject.as_str())
                }
            },
        }
    }

    /// `cmp`, as an option that is always present.
    pub fn partial_cmp(&self, other: &Task) -> (r: Option<Ordering>)
        ensures
            r == Some(self.cmp_spec(other)),
    {
        Some(self.cmp(other))
    }

    pub open spec fn cmp_spec(&self, other: &Task) -> Ordering {
        if task_lt(self@, other@) {
            Ordering::Less
        } else if same_rank(self@, other@) {
            Ordering::Equal
        } else {
            Ordering::Greater
        }
    }
}

/// The order of tasks is transitive.
pub proof fn lemma_order_transitive(a: TaskView, b: TaskView, c: TaskView)
    requires
        task_lt(a, b),
        task_lt(b, c),
    ensures
        task_lt(a, c),
{
    if a.base.due_date == b.base.due_date && b.base.due_date == c.base.due_date
        && a.base.priority == b.base.priority && b.base.priority == c.base.priority {
        lemma_text_lt_transitive(a.base.subject, b.base.subject, c.base.subject);
    }
}

/// Tasks of the same due date, priority and subject sort as equal, whatever
/// their other fields; and no task sorts before itself.
pub proof fn lemma_order_same_rank(a: TaskView, b: TaskView)
    requires
        same_rank(a, b),
    ensures
        !task_lt(a, b),
        !task_lt(b, a),
{
    lemma_text_lt_irreflexive(a.base.subject);
}

/// With the same due date, priority `A` sorts before priority `B`.
pub proof fn lemma_higher_priority_first(a: TaskView, b: TaskView)
    requires
        a.base.due_date == b.base.due_date,
        a.base.priority == 0,
        b.base.priority == 1,
    ensures
        task_lt(a, b),
{
}

} // verus!
