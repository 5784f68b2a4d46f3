//! Text as a vector of characters, and back.

use vstd::prelude::*;
use vstd::string::*;

verus! {

/// `String::push` of std: the string ends up one character longer, with
/// the given character last and the others as they were.
#[verifier::external_body]
fn push_char(text: &mut String, c: char)
    ensures
        final(text)@ == old(text)@.push(c),
{
    text.push(c);
}

/// The characters of a string, in order.
pub fn chars_of(text: &str) -> (chars: Vec<char>)
    ensures
        chars@ == text@,
{
    let mut chars: Vec<char> = Vec::new();
    for c in it: text.chars()
        invariant
            it.seq() == text@,
            chars@ == it.seq().take(it.index() as int),
    {
        chars.push(c);
    }
    chars
}

/// The string made of the given characters, in order.
pub fn string_of(chars: &Vec<char>) -> (text: String)
    ensures
        text@ == chars@,
{
    let mut text = String::new();
    let mut i: usize = 0;
    while i < chars.len()
        invariant
            i <= chars.len(),
            text@ == chars@.take(i as int),
        decreases chars.len() - i,
    {
        push_char(&mut text, chars[i]);
        i = i + 1;
        assert(chars@.take(i as int) =~= chars@.take(i as int - 1).push(chars@[i as int - 1]));
    }
    assert(chars@.take(i as int) =~= chars@);
    text
}

/// The string made of one character, so many times over.
pub fn repeat_char(c: char, times: usize) -> (text: String)
    ensures
        text@ == Seq::new(times as nat, |i: int| c),
{
    let mut text = String::new();
    let mut i: usize = 0;
    while i < times
        invariant
            i <= times,
            text@ == Seq::new(i as nat, |k: int| c),
        decreases times - i,
    {
        push_char(&mut text, c);
        i = i + 1;
        assert(text@ =~= Seq::new(i as nat, |k: int| c));
    }
    text
}

/// The label is what `to_string` may give for the item.
pub open spec fn is_label_of<T: core::fmt::Display>(item: &T, label: Seq<char>) -> bool {
    exists|text: String| text@ == label && to_string_from_display_ensures::<T>(item, text)
}

/// The label of an item: the characters of what `to_string` gives for it.
pub fn label_of<T: core::fmt::Display>(item: &T) -> (label: Vec<char>)
    ensures
        is_label_of(item, label@),
{
    let text = item.to_string();
    chars_of(text.as_str())
}

/// The labels of the items of a list, in the order of the list.
pub fn labels_of<T: core::fmt::Display>(items: &Vec<T>) -> (labels: Vec<Vec<char>>)
    ensures
        labels.len() == items.len(),
        forall|i: int| 0 <= i < items.len() ==> is_label_of(&items[i], #[trigger] labels[i]@),
{
    let mut labels: Vec<Vec<char>> = Vec::new();
    let mut i: usize = 0;
    while i < items.len()
        invariant
            i <= items.len(),
            labels.len() == i,
            forall|k: int| 0 <= k < i ==> is_label_of(&items[k], #[trigger] labels[k]@),
        decreases items.len() - i,
    {
        labels.push(label_of(&items[i]));
        i = i + 1;
    }
    labels
}

} // verus!
