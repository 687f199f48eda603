use search::matching::str_contains_ci;
use search::task::{filter_tasks, record_matches, Task};

fn task(id: &str, title: &str, description: &str) -> Task {
    Task { id: id.to_string(), title: title.to_string(), description: description.to_string() }
}

#[test]
fn contains_plain_substring() {
    assert!(str_contains_ci("Buy milk", "milk"));
    assert!(str_contains_ci("Buy milk", "Buy"));
    assert!(str_contains_ci("Buy milk", "y m"));
}

#[test]
fn contains_is_case_insensitive() {
    assert!(str_contains_ci("Buy milk", "MILK"));
    assert!(str_contains_ci("BUY MILK", "milk"));
    assert!(str_contains_ci("Buy Milk", "bUy MiLk"));
}

#[test]
fn contains_rejects_absent_text() {
    assert!(!str_contains_ci("Write report", "milk"));
    assert!(!str_contains_ci("", "milk"));
    assert!(!str_contains_ci("mil", "milk"));
}

#[test]
fn empty_needle_is_contained_everywhere() {
    assert!(str_contains_ci("", ""));
    assert!(str_contains_ci("anything", ""));
}

#[test]
fn non_ascii_text_is_matched_verbatim() {
    assert!(str_contains_ci("Grüße aus Wien", "grüße"));
    assert!(!str_contains_ci("grösser", "GRÖSSER"));
}

#[test]
fn record_matches_title_or_description() {
    let t = task("1", "Buy milk", "groceries");
    assert!(record_matches(&t, "milk"));
    assert!(record_matches(&t, "GROCER"));
    assert!(!record_matches(&t, "report"));
}

#[test]
fn filter_keeps_matches_in_order() {
    let tasks = vec![
        task("1", "Buy milk", "groceries"),
        task("2", "Write report", "quarterly"),
        task("3", "Milk the cows", "farm"),
    ];
    let kept = filter_tasks(&tasks, "milk");
    assert_eq!(kept.len(), 2);
    assert_eq!(kept[0].id, "1");
    assert_eq!(kept[1].id, "3");
}

#[test]
fn filter_with_empty_query_keeps_everything() {
    let tasks = vec![
        task("1", "Buy milk", "groceries"),
        task("2", "Write report", "quarterly"),
    ];
    let kept = filter_tasks(&tasks, "");
    assert_eq!(kept.len(), 2);
    assert_eq!(kept[0].id, "1");
    assert_eq!(kept[1].id, "2");
}

#[test]
fn filter_on_permuted_store_matches_same_records() {
    let one = vec![
        task("1", "Buy milk", "groceries"),
        task("2", "Write report", "quarterly"),
        task("3", "Milk the cows", "farm"),
    ];
    let other = vec![
        task("3", "Milk the cows", "farm"),
        task("1", "Buy milk", "groceries"),
        task("2", "Write report", "quarterly"),
    ];
    let mut ids_one: Vec<String> =
        filter_tasks(&one, "milk").iter().map(|t| t.id.clone()).collect();
    let mut ids_other: Vec<String> =
        filter_tasks(&other, "milk").iter().map(|t| t.id.clone()).collect();
    ids_one.sort();
    ids_other.sort();
    assert_eq!(ids_one, ids_other);
}
