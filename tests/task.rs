use effitask_task::date::Date;
use effitask_task::task::{Note, Task, LOWEST_PRIORITY};
use effitask_task::recurrence::{Period, Recurrence};
use std::cmp::Ordering;
use std::str::FromStr;

fn parse(line: &str) -> Task {
    Task::from_str(line, "note").unwrap()
}

fn has_tag(t: &Task, key: &str) -> bool {
    t.base.tags.iter().any(|(k, _)| k == key)
}

fn date(y: i32, m: u32, d: u32) -> Date {
    Date::new(y, m, d).unwrap()
}

#[test]
fn new_task_is_empty() {
    let t = Task::new();
    assert_eq!(t.id, 0);
    assert_eq!(t.note, Note::Absent);
    assert_eq!(t.recurrence, None);
    assert!(!t.flagged);
    assert!(!t.base.finished);
    assert_eq!(t.base.finish_date, None);
    assert_eq!(t.base.priority, LOWEST_PRIORITY);
    assert_eq!(t.base.subject, "");
    assert!(t.base.tags.is_empty());
    assert_eq!(t.to_line("note"), "");
}

#[test]
fn complete_sets_flag_and_date() {
    let mut t = parse("buy milk");
    t.complete_on(date(2024, 3, 5));
    assert!(t.base.finished);
    assert_eq!(t.base.finish_date, Some(date(2024, 3, 5)));
    t.complete_on(date(2024, 3, 6));
    assert_eq!(t.base.finish_date, Some(date(2024, 3, 6)));
}

#[test]
fn complete_stamps_a_date() {
    let mut t = parse("buy milk");
    t.complete();
    assert!(t.base.finished);
    let d = t.base.finish_date.unwrap();
    assert!(Date::new(d.year, d.month, d.day).is_some());
    assert!(t.to_line("note").starts_with("x "));
    t.uncomplete();
    assert!(!t.base.finished);
    assert_eq!(t.base.finish_date, None);
}

#[test]
fn complete_then_uncomplete() {
    for line in ["buy milk", "x 2024-01-02 2024-01-01 buy milk"] {
        let mut t = parse(line);
        t.complete_on(date(2024, 3, 5));
        t.uncomplete();
        assert!(!t.base.finished);
        assert_eq!(t.base.finish_date, None);
        t.uncomplete();
        assert!(!t.base.finished);
        assert_eq!(t.base.finish_date, None);
    }
}

#[test]
fn plain_line_round_trip() {
    let line = "(A) 2024-01-02 call mom +family @phone due:2024-02-01 key:val";
    let t = parse(line);
    let expected = todo_txt::Task::from_str(line).unwrap().to_string();
    assert_eq!(t.to_line("note"), expected);
    assert_eq!(t.note, Note::Absent);
    assert_eq!(t.recurrence, None);
    assert!(!t.flagged);
    assert_eq!(t.base.priority, 0);
    assert_eq!(t.base.due_date, Some(date(2024, 2, 1)));
    assert_eq!(t.base.create_date, Some(date(2024, 1, 2)));
    assert_eq!(t.base.tags, vec![("key".to_string(), "val".to_string())]);
}

#[test]
fn flag_is_read_and_written() {
    let t = parse("water plants f:1");
    assert!(t.flagged);
    assert!(!has_tag(&t, "f"));
    let line = t.to_line("note");
    assert!(line.ends_with(" f:1"));
    assert_eq!(line, "water plants f:1");
    assert!(parse(&line).flagged);

    let mut u = Task::new();
    u.base.subject = "call".to_string();
    u.flagged = true;
    assert_eq!(u.to_line("note"), "call f:1");
    assert!(parse(&u.to_line("note")).flagged);
}

#[test]
fn flag_value_is_ignored() {
    let t = parse("water plants f:0");
    assert!(t.flagged);
}

#[test]
fn recurrence_round_trip() {
    let t = parse("pay rent rec:+1m");
    let r = Recurrence { num: 1, period: Period::Month, strict: true };
    assert_eq!(t.recurrence, Some(r));
    assert!(!has_tag(&t, "rec"));
    let line = t.to_line("note");
    assert_eq!(line, "pay rent rec:+1m");
    assert_eq!(parse(&line).recurrence, Some(r));

    let mut u = Task::new();
    u.base.subject = "run".to_string();
    let r = Recurrence { num: 3, period: Period::Day, strict: false };
    u.recurrence = Some(r);
    assert_eq!(u.to_line("note"), "run rec:3d");
    assert_eq!(parse(&u.to_line("note")).recurrence, Some(r));
}

#[test]
fn bad_recurrence_is_dropped() {
    let t = Task::from_str("pay rent rec:badvalue", "note").unwrap();
    assert_eq!(t.recurrence, None);
    assert!(!has_tag(&t, "rec"));
    assert_eq!(t.to_line("note"), "pay rent");
}

#[test]
fn note_is_read_and_written() {
    let t = parse("read book note:book.txt");
    assert_eq!(t.note, Note::File("book.txt".to_string()));
    assert!(!has_tag(&t, "note"));
    assert_eq!(t.to_line("note"), "read book note:book.txt");
}

#[test]
fn configured_note_tag_is_removed() {
    let t = Task::from_str("read book n:book.txt note:other", "n").unwrap();
    assert_eq!(t.note, Note::File("book.txt".to_string()));
    assert!(!has_tag(&t, "n"));
    assert!(has_tag(&t, "note"));
    assert_eq!(t.to_line("n"), "read book note:other n:book.txt");
}

#[test]
fn all_extensions_in_fixed_order() {
    let t = parse("task f:1 rec:2w note:a.txt");
    assert_eq!(t.to_line("note"), "task note:a.txt rec:2w f:1");
    assert!(t.base.tags.is_empty());
}

#[test]
fn ordering_by_due_date_first() {
    let a = parse("(C) a due:2024-01-01");
    let b = parse("(A) b due:2024-02-01");
    let none = parse("(A) c");
    assert_eq!(a.cmp(&b), Ordering::Less);
    assert_eq!(b.cmp(&a), Ordering::Greater);
    assert_eq!(none.cmp(&a), Ordering::Less);
    assert_eq!(a.partial_cmp(&b), Some(Ordering::Less));
}

#[test]
fn higher_priority_sorts_first() {
    let a = parse("(A) same due:2024-01-01");
    let b = parse("(B) same due:2024-01-01");
    let none = parse("same due:2024-01-01");
    assert_eq!(a.cmp(&b), Ordering::Less);
    assert_eq!(b.cmp(&a), Ordering::Greater);
    assert_eq!(b.cmp(&none), Ordering::Less);
}

#[test]
fn ordering_is_transitive_and_ignores_extras() {
    let a = parse("(A) alpha");
    let b = parse("(A) beta");
    let c = parse("(A) gamma");
    assert_eq!(a.cmp(&b), Ordering::Less);
    assert_eq!(b.cmp(&c), Ordering::Less);
    assert_eq!(a.cmp(&c), Ordering::Less);
    let mut d = parse("(A) alpha f:1 rec:1d");
    d.id = 7;
    d.note = Note::File("x".to_string());
    assert_eq!(a.cmp(&d), Ordering::Equal);
    assert_eq!(d.cmp(&a), Ordering::Equal);
    assert_eq!(a.cmp(&a), Ordering::Equal);
}

#[test]
fn subject_order_is_by_code_point() {
    let a = parse("Zebra");
    let b = parse("apple");
    let c = parse("apple pie");
    assert_eq!(a.cmp(&b), Ordering::Less);
    assert_eq!(b.cmp(&c), Ordering::Less);
    assert_eq!(c.cmp(&b), Ordering::Greater);
}

#[test]
fn markup_escapes_url_only() {
    let t = parse("see http://x.com & go");
    assert_eq!(t.markup_subject(), "see <a href=\"http://x.com\">http://x.com</a> & go");
    let u = parse("see http://x.com?a=1&b=2 & go");
    assert_eq!(
        u.markup_subject(),
        "see <a href=\"http://x.com?a=1&amp;b=2\">http://x.com?a=1&amp;b=2</a> & go"
    );
    assert_eq!(u.base.subject, "see http://x.com?a=1&b=2 & go");
}

#[test]
fn markup_emphasizes_tags() {
    let t = parse("@home +urgent task");
    assert_eq!(t.markup_subject(), "<b>@home</b> <b>+urgent</b> task");
    let u = parse("mail a@b.c and x+y");
    assert_eq!(u.markup_subject(), "mail a@b.c and x+y");
}
