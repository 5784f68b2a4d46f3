use prompts::draw::{Color, Command, Styled};
use prompts::event::{Event, KeyCode, KeyEvent};
use prompts::figures::FigureSet;
use prompts::multi_select::MultiSelectPrompt;
use prompts::utils::PromptState;

fn key(code: KeyCode) -> KeyEvent {
    KeyEvent::plain(code)
}

fn fillings() -> Vec<&'static str> {
    vec!["cheese", "tomato", "ham", "chili", "mushroom"]
}

fn type_in<T>(prompt: &mut MultiSelectPrompt<T>, text: &str) {
    for c in text.chars() {
        prompt.handle_key_event(key(KeyCode::Char(c)));
    }
}

fn selection<T>(prompt: &MultiSelectPrompt<T>, n: usize) -> Vec<bool> {
    (0..n).map(|i| prompt.is_selected(i)).collect()
}

fn plain(text: &str) -> Command {
    Command::PrintStyled(Styled { text: text.to_string(), color: None, bold: false, italic: false })
}

fn colored(text: &str, color: Color) -> Command {
    Command::PrintStyled(Styled {
        text: text.to_string(),
        color: Some(color),
        bold: false,
        italic: false,
    })
}

fn bold(text: &str, color: Option<Color>) -> Command {
    Command::PrintStyled(Styled { text: text.to_string(), color, bold: true, italic: false })
}

fn print(text: &str) -> Command {
    Command::Print(text.to_string())
}

#[test]
fn multi_select_starts_with_nothing_selected() {
    let prompt = MultiSelectPrompt::new("Fillings", fillings());
    assert_eq!(selection(&prompt, 5), vec![false; 5]);
    assert!(!prompt.is_selected(5));
    assert_eq!(prompt.shown(), vec![0, 1, 2, 3, 4]);
    assert_eq!(prompt.answer(), None);
    assert_eq!(prompt.state(), PromptState::Created);
}

#[test]
fn multi_select_up_at_the_top_goes_to_the_last() {
    let mut prompt = MultiSelectPrompt::new("Pick", vec!["a", "b", "c"]);
    prompt.handle_key_event(key(KeyCode::Up));
    assert_eq!(prompt.current(), 2);
    prompt.handle_key_event(key(KeyCode::Down));
    assert_eq!(prompt.current(), 0);
    prompt.handle_key_event(key(KeyCode::Down));
    assert_eq!(prompt.current(), 1);
    prompt.handle_key_event(key(KeyCode::Up));
    assert_eq!(prompt.current(), 0);
}

#[test]
fn multi_select_end_goes_to_the_last() {
    let mut prompt = MultiSelectPrompt::new("Pick", vec!["a", "b", "c"]);
    prompt.handle_key_event(key(KeyCode::End));
    assert_eq!(prompt.current(), 2);
    prompt.handle_key_event(key(KeyCode::Home));
    assert_eq!(prompt.current(), 0);
}

#[test]
fn multi_select_toggle_twice_gives_back_the_selection() {
    let mut prompt = MultiSelectPrompt::new("Fillings", fillings());
    prompt.handle_key_event(key(KeyCode::Down));
    prompt.handle_key_event(key(KeyCode::Char(' ')));
    assert_eq!(selection(&prompt, 5), vec![false, true, false, false, false]);
    prompt.handle_key_event(key(KeyCode::Char(' ')));
    assert_eq!(selection(&prompt, 5), vec![false; 5]);
}

#[test]
fn multi_select_answer_is_in_the_order_of_the_list() {
    let mut prompt = MultiSelectPrompt::new("Fillings", fillings());
    prompt.handle_key_event(key(KeyCode::End));
    prompt.handle_key_event(key(KeyCode::Char(' ')));
    prompt.handle_key_event(key(KeyCode::Home));
    prompt.handle_key_event(key(KeyCode::Char(' ')));
    prompt.handle_key_event(key(KeyCode::Down));
    prompt.handle_key_event(key(KeyCode::Down));
    prompt.handle_key_event(key(KeyCode::Char(' ')));
    assert_eq!(prompt.answer(), None);
    prompt.handle_key_event(key(KeyCode::Enter));
    assert_eq!(prompt.state(), PromptState::Success);
    assert_eq!(prompt.answer(), Some(vec![&"cheese", &"ham", &"mushroom"]));
}

#[test]
fn multi_select_answer_may_be_empty() {
    let mut prompt = MultiSelectPrompt::new("Fillings", fillings());
    prompt.handle_key_event(key(KeyCode::Enter));
    assert_eq!(prompt.answer(), Some(Vec::<&&str>::new()));
    let mut none = MultiSelectPrompt::new("Fillings", Vec::<String>::new());
    none.handle_key_event(key(KeyCode::Char(' ')));
    none.handle_key_event(key(KeyCode::Up));
    none.handle_key_event(key(KeyCode::Down));
    none.handle_key_event(key(KeyCode::End));
    assert_eq!(none.current(), 0);
    none.handle_key_event(key(KeyCode::Enter));
    assert_eq!(none.answer(), Some(Vec::<&String>::new()));
}

#[test]
fn multi_select_toggles_by_the_place_in_the_full_list() {
    let mut prompt = MultiSelectPrompt::new("Fillings", fillings());
    type_in(&mut prompt, "m");
    assert_eq!(prompt.shown(), vec![1, 2, 4]);
    prompt.handle_key_event(key(KeyCode::Down));
    prompt.handle_key_event(key(KeyCode::Char(' ')));
    assert_eq!(selection(&prompt, 5), vec![false, false, true, false, false]);
    prompt.handle_key_event(key(KeyCode::Backspace));
    assert_eq!(prompt.shown(), vec![0, 1, 2, 3, 4]);
    assert_eq!(selection(&prompt, 5), vec![false, false, true, false, false]);
    prompt.handle_key_event(key(KeyCode::Enter));
    assert_eq!(prompt.answer(), Some(vec![&"ham"]));
}

#[test]
fn multi_select_tells_equal_choices_apart() {
    let mut prompt = MultiSelectPrompt::new("Pick", vec!["a", "b", "a"]);
    prompt.handle_key_event(key(KeyCode::End));
    prompt.handle_key_event(key(KeyCode::Char(' ')));
    assert_eq!(selection(&prompt, 3), vec![false, false, true]);
}

#[test]
fn multi_select_filters_by_substring() {
    let mut prompt = MultiSelectPrompt::new("Fillings", fillings());
    type_in(&mut prompt, "h");
    assert_eq!(prompt.shown(), vec![0, 2, 3, 4]);
    type_in(&mut prompt, "i");
    assert_eq!(prompt.shown(), vec![3]);
    type_in(&mut prompt, "q");
    assert_eq!(prompt.shown(), Vec::<usize>::new());
    prompt.handle_key_event(key(KeyCode::Char(' ')));
    assert_eq!(selection(&prompt, 5), vec![false; 5]);
    assert_eq!(prompt.current(), 0);
}

#[test]
fn multi_select_cursor_is_pulled_back_when_the_list_shrinks() {
    let mut prompt = MultiSelectPrompt::new("Fillings", fillings());
    prompt.handle_key_event(key(KeyCode::End));
    assert_eq!(prompt.current(), 4);
    type_in(&mut prompt, "to");
    assert_eq!(prompt.current(), 0);
}

#[test]
fn multi_select_abort() {
    let mut prompt = MultiSelectPrompt::new("Fillings", fillings());
    prompt.display(24);
    prompt.handle_key_event(key(KeyCode::Char(' ')));
    type_in(&mut prompt, "ch");
    prompt.handle_key_event(KeyEvent::ctrl(KeyCode::Char('c')));
    assert_eq!(prompt.state(), PromptState::Aborted);
    assert_eq!(prompt.answer(), None);
    prompt.handle_key_event(key(KeyCode::Enter));
    assert_eq!(prompt.state(), PromptState::Aborted);
    assert_eq!(prompt.answer(), None);
}

#[test]
fn multi_select_frames() {
    let mut prompt = MultiSelectPrompt::new("Pick", vec!["a", "b", "c"]);
    assert_eq!(
        prompt.display(24),
        vec![
            colored("?", Color::Magenta),
            print(" "),
            bold("Pick", None),
            print(" "),
            colored("› ", Color::Grey),
            print(""),
            Command::SavePosition,
            print("\n\r"),
            plain(" "),
            print("   "),
            bold("a", Some(Color::Cyan)),
            print("\n\r"),
            plain(" "),
            print("   "),
            plain("b"),
            print("\n\r"),
            plain(" "),
            print("   "),
            plain("c"),
            Command::RestorePosition,
            Command::MoveToColumn(9),
            Command::Flush,
        ]
    );
    prompt.handle_key_event(key(KeyCode::Char(' ')));
    prompt.handle_key_event(key(KeyCode::Up));
    prompt.handle_key_event(key(KeyCode::Char(' ')));
    prompt.handle_key_event(key(KeyCode::Up));
    assert_eq!(
        prompt.advance(Event::Key(key(KeyCode::Char('x'))), 24),
        vec![
            Command::MoveUp(3),
            Command::MoveToColumn(0),
            Command::ClearFromCursorDown,
            colored("?", Color::Magenta),
            print(" "),
            bold("Pick", None),
            print(" "),
            colored("› ", Color::Grey),
            print("x"),
            Command::SavePosition,
            print("\n\r"),
            colored("Nothing matched your search", Color::DarkGrey),
            Command::RestorePosition,
            Command::MoveToColumn(10),
            Command::Flush,
        ]
    );
    assert_eq!(
        prompt.advance(Event::Key(key(KeyCode::Backspace)), 24),
        vec![
            Command::MoveUp(1),
            Command::MoveToColumn(0),
            Command::ClearFromCursorDown,
            colored("?", Color::Magenta),
            print(" "),
            bold("Pick", None),
            print(" "),
            colored("› ", Color::Grey),
            print(""),
            Command::SavePosition,
            print("\n\r"),
            colored("✔", Color::Yellow),
            print("   "),
            bold("a", Some(Color::Cyan)),
            print("\n\r"),
            plain(" "),
            print("   "),
            plain("b"),
            print("\n\r"),
            colored("✔", Color::Yellow),
            print("   "),
            bold("c", None),
            Command::RestorePosition,
            Command::MoveToColumn(9),
            Command::Flush,
        ]
    );
    assert_eq!(
        prompt.advance(Event::Key(key(KeyCode::Enter)), 24),
        vec![
            Command::MoveUp(3),
            Command::MoveToColumn(0),
            Command::ClearFromCursorDown,
            colored("✔", Color::Green),
            print(" "),
            bold("Pick", None),
            print(" "),
            colored("… ", Color::Grey),
            print("a, c"),
            print("\n\r"),
            Command::Flush,
        ]
    );
    assert_eq!(prompt.answer(), Some(vec![&"a", &"c"]));
}

#[test]
fn multi_select_window_follows_the_limit() {
    let mut prompt = MultiSelectPrompt::new("Pick", (0..30).collect::<Vec<u32>>()).with_limit(3);
    prompt.handle_key_event(key(KeyCode::Up));
    assert_eq!(prompt.current(), 29);
    let frame = prompt.display(24);
    assert_eq!(frame.len(), 3 + 4 + 3 * 4 + 2 + 1);
    assert_eq!(frame[7 + 2], print(" ↑ "));
    assert_eq!(frame[7 + 3], plain("27"));
    assert_eq!(frame[15 + 2], print("   "));
    assert_eq!(frame[15 + 3], bold("29", Some(Color::Cyan)));
}

#[test]
fn multi_select_last_frames() {
    let mut one = MultiSelectPrompt::new("Pick", vec!["a", "", "c"]);
    one.display(24);
    one.handle_key_event(key(KeyCode::End));
    one.handle_key_event(key(KeyCode::Char(' ')));
    let frame = one.advance(Event::Key(key(KeyCode::Enter)), 24);
    assert_eq!(frame[8], print("c"));
    let mut blank = MultiSelectPrompt::new("Pick", vec!["a", "", "c"]);
    blank.display(24);
    blank.handle_key_event(key(KeyCode::Down));
    blank.handle_key_event(key(KeyCode::Char(' ')));
    blank.handle_key_event(key(KeyCode::Down));
    blank.handle_key_event(key(KeyCode::Char(' ')));
    let frame = blank.advance(Event::Key(key(KeyCode::Enter)), 24);
    assert_eq!(frame[8], print(", c"));
    let mut none = MultiSelectPrompt::new("Pick", vec!["a", "b"]);
    none.display(24);
    assert_eq!(
        none.advance(Event::Key(key(KeyCode::Enter)), 24),
        vec![
            Command::MoveUp(2),
            Command::MoveToColumn(0),
            Command::ClearFromCursorDown,
            colored("✔", Color::Green),
            print(" "),
            bold("Pick", None),
            print(" "),
            colored("… ", Color::Grey),
            print(""),
            print("\n\r"),
            Command::Flush,
        ]
    );
    let mut aborted = MultiSelectPrompt::new("Pick", vec!["a", "b"]);
    aborted.display(24);
    aborted.handle_key_event(key(KeyCode::Char(' ')));
    assert_eq!(
        aborted.advance(Event::Key(key(KeyCode::Esc)), 24),
        vec![
            Command::MoveUp(2),
            Command::MoveToColumn(0),
            Command::ClearFromCursorDown,
            colored("✖", Color::Red),
            print(" "),
            bold("Pick", None),
            print("\n\r"),
            Command::Flush,
        ]
    );
}

#[test]
fn multi_select_of_nothing_erases_the_row_that_says_so() {
    let mut prompt = MultiSelectPrompt::new("Pick", Vec::<String>::new());
    let first = prompt.display(24);
    assert_eq!(first[7], print("\n\r"));
    assert_eq!(first[8], colored("Nothing matched your search", Color::DarkGrey));
    let second = prompt.display(24);
    assert_eq!(second[0], Command::MoveUp(1));
    let mut cramped = MultiSelectPrompt::new("Pick", vec!["a", "b"]);
    cramped.display(0);
    assert_eq!(cramped.display(24)[0], Command::MoveUp(1));
    assert_eq!(cramped.display(24)[0], Command::MoveUp(2));
}

#[test]
fn multi_select_with_the_legacy_figures() {
    let mut prompt =
        MultiSelectPrompt::new("Pick", vec!["a", "b"]).with_figures(FigureSet::Legacy);
    prompt.handle_key_event(key(KeyCode::Char(' ')));
    let frame = prompt.display(24);
    assert_eq!(frame[4], colored("» ", Color::Grey));
    assert_eq!(frame[8], colored("√", Color::Yellow));
    let last = prompt.advance(Event::Key(KeyEvent::ctrl(KeyCode::Char('c'))), 24);
    assert_eq!(last[3], colored("×", Color::Red));
    assert_eq!(prompt.message(), "Pick");
    assert_eq!(prompt.choices(), &vec!["a", "b"]);
}
