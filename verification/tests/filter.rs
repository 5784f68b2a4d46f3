use prompts::chars::{chars_of, label_of, labels_of, repeat_char, string_of};
use prompts::filter::{
    contains_filter, filter_positions, is_match, simple_filter, starts_with, FilterPolicy,
};
use prompts::input::InputBuffer;

fn labels(items: &[&str]) -> Vec<Vec<char>> {
    items.iter().map(|s| s.chars().collect()).collect()
}

fn q(s: &str) -> Vec<char> {
    s.chars().collect()
}

#[test]
fn string_of_gives_the_characters_in_order() {
    assert_eq!(string_of(&vec!['a', 'b', 'c']), "abc");
    assert_eq!(string_of(&vec![]), "");
    assert_eq!(string_of(&vec!['é', '✔']), "é✔");
}

#[test]
fn chars_of_gives_the_characters_in_order() {
    assert_eq!(chars_of("abc"), vec!['a', 'b', 'c']);
    assert_eq!(chars_of(""), Vec::<char>::new());
    assert_eq!(chars_of("é✔"), vec!['é', '✔']);
}

#[test]
fn repeat_char_repeats() {
    assert_eq!(repeat_char('*', 3), "***");
    assert_eq!(repeat_char('*', 0), "");
}

#[test]
fn labels_come_from_display() {
    assert_eq!(label_of(&42), vec!['4', '2']);
    assert_eq!(labels_of(&vec!["ab", "c"]), vec![vec!['a', 'b'], vec!['c']]);
    assert_eq!(labels_of(&Vec::<String>::new()), Vec::<Vec<char>>::new());
}

#[test]
fn prefix_match() {
    assert!(starts_with(&q("qu"), &q("quick")));
    assert!(starts_with(&q(""), &q("quick")));
    assert!(starts_with(&q("quick"), &q("quick")));
    assert!(!starts_with(&q("quicker"), &q("quick")));
    assert!(!starts_with(&q("ui"), &q("quick")));
    assert!(!starts_with(&q("Q"), &q("quick")));
    assert!(starts_with(&q(""), &q("")));
}

#[test]
fn substring_match() {
    assert!(contains_filter(&q("ui"), &q("quick")));
    assert!(contains_filter(&q("ck"), &q("quick")));
    assert!(contains_filter(&q("q"), &q("quick")));
    assert!(contains_filter(&q(""), &q("quick")));
    assert!(contains_filter(&q(""), &q("")));
    assert!(contains_filter(&q("quick"), &q("quick")));
    assert!(!contains_filter(&q("qk"), &q("quick")));
    assert!(!contains_filter(&q("quickk"), &q("quick")));
    assert!(contains_filter(&q("aab"), &q("aaab")));
}

#[test]
fn policy_picks_the_match() {
    assert!(is_match(FilterPolicy::Contains, &q("ui"), &q("quick")));
    assert!(!is_match(FilterPolicy::Prefix, &q("ui"), &q("quick")));
}

#[test]
fn simple_filter_keeps_prefix_matches_in_order() {
    let words = labels(&["The", "quick", "brown", "fox", "jumps", "over", "the", "lazy", "dog"]);
    assert_eq!(simple_filter(&q("t"), &words), vec![6]);
    assert_eq!(simple_filter(&q("T"), &words), vec![0]);
    assert_eq!(simple_filter(&q("x"), &words), Vec::<usize>::new());
    assert_eq!(simple_filter(&q("o"), &words), vec![5]);
}

#[test]
fn contains_policy_keeps_substring_matches_in_order() {
    let words = labels(&["The", "quick", "brown", "fox", "jumps", "over", "the", "lazy", "dog"]);
    assert_eq!(filter_positions(FilterPolicy::Contains, &q("o"), &words), vec![2, 3, 5, 8]);
    assert_eq!(filter_positions(FilterPolicy::Contains, &q("he"), &words), vec![0, 6]);
}

#[test]
fn empty_query_keeps_everything() {
    let words = labels(&["a", "", "b", "a"]);
    assert_eq!(simple_filter(&q(""), &words), vec![0, 1, 2, 3]);
    assert_eq!(filter_positions(FilterPolicy::Contains, &q(""), &words), vec![0, 1, 2, 3]);
    assert_eq!(simple_filter(&q(""), &Vec::new()), Vec::<usize>::new());
}

#[test]
fn filter_keeps_duplicates_apart() {
    let words = labels(&["ab", "ab", "b", "ab"]);
    assert_eq!(simple_filter(&q("a"), &words), vec![0, 1, 3]);
}

#[test]
fn filtering_twice_changes_nothing() {
    let words = labels(&["apple", "apricot", "banana", "avocado"]);
    let once = simple_filter(&q("ap"), &words);
    let kept: Vec<Vec<char>> = once.iter().map(|&i| words[i].clone()).collect();
    let twice = simple_filter(&q("ap"), &kept);
    assert_eq!(twice, vec![0, 1]);
    assert_eq!(once, vec![0, 1]);
}

#[test]
fn input_buffer_edits() {
    let mut input = InputBuffer::new();
    assert_eq!(input.text(), "");
    assert_eq!(input.cursor(), 0);
    input.backspace();
    assert_eq!(input.text(), "");
    input.insert('a');
    input.insert('c');
    input.left();
    input.insert('b');
    assert_eq!(input.text(), "abc");
    assert_eq!(input.cursor(), 2);
    assert_eq!(input.len(), 3);
    input.backspace();
    assert_eq!(input.text(), "ac");
    assert_eq!(input.cursor(), 1);
    input.home();
    assert_eq!(input.cursor(), 0);
    input.backspace();
    assert_eq!(input.text(), "ac");
    input.left();
    assert_eq!(input.cursor(), 0);
    input.end();
    assert_eq!(input.cursor(), 2);
    input.right();
    assert_eq!(input.cursor(), 2);
    input.insert('é');
    assert_eq!(input.text(), "acé");
    assert_eq!(input.chars(), &vec!['a', 'c', 'é']);
}
