use prompts::autocomplete::AutocompletePrompt;
use prompts::draw::{Color, Command, Styled};
use prompts::event::{Event, KeyCode, KeyEvent};
use prompts::figures::FigureSet;
use prompts::utils::PromptState;

fn key(code: KeyCode) -> KeyEvent {
    KeyEvent::plain(code)
}

fn words() -> Vec<&'static str> {
    vec!["The", "quick", "brown", "fox", "jumps", "over", "the", "lazy", "dog"]
}

fn fruits() -> Vec<&'static str> {
    vec!["apple", "apricot", "banana", "avocado"]
}

fn type_in<T>(prompt: &mut AutocompletePrompt<T>, text: &str) {
    for c in text.chars() {
        prompt.handle_key_event(key(KeyCode::Char(c)));
    }
}

fn plain(text: &str) -> Command {
    Command::PrintStyled(Styled { text: text.to_string(), color: None, bold: false, italic: false })
}

fn colored(text: &str, color: Color) -> Command {
    Command::PrintStyled(Styled {
        text: text.to_string(),
        color: Some(color),
        bold: false,
        italic: false,
    })
}

fn bold(text: &str, color: Option<Color>) -> Command {
    Command::PrintStyled(Styled { text: text.to_string(), color, bold: true, italic: false })
}

fn print(text: &str) -> Command {
    Command::Print(text.to_string())
}

#[test]
fn autocomplete_shows_everything_at_first() {
    let prompt = AutocompletePrompt::new("Word", words());
    assert_eq!(prompt.shown(), vec![0, 1, 2, 3, 4, 5, 6, 7, 8]);
    assert_eq!(prompt.current(), 0);
    assert_eq!(prompt.state(), PromptState::Created);
    assert_eq!(prompt.answer(), None);
}

#[test]
fn autocomplete_typing_narrows_by_prefix() {
    let mut prompt = AutocompletePrompt::new("Fruit", fruits());
    type_in(&mut prompt, "a");
    assert_eq!(prompt.shown(), vec![0, 1, 3]);
    type_in(&mut prompt, "p");
    assert_eq!(prompt.shown(), vec![0, 1]);
    type_in(&mut prompt, "r");
    assert_eq!(prompt.shown(), vec![1]);
    type_in(&mut prompt, "x");
    assert_eq!(prompt.shown(), Vec::<usize>::new());
    prompt.handle_key_event(key(KeyCode::Backspace));
    assert_eq!(prompt.shown(), vec![1]);
}

#[test]
fn autocomplete_k_and_j_are_typed() {
    let mut prompt = AutocompletePrompt::new("Word", words());
    type_in(&mut prompt, "j");
    assert_eq!(prompt.shown(), vec![4]);
    assert_eq!(prompt.current(), 0);
}

#[test]
fn autocomplete_cursor_moves_within_what_is_shown() {
    let mut prompt = AutocompletePrompt::new("Fruit", fruits());
    type_in(&mut prompt, "a");
    prompt.handle_key_event(key(KeyCode::Up));
    assert_eq!(prompt.current(), 0);
    prompt.handle_key_event(key(KeyCode::End));
    assert_eq!(prompt.current(), 2);
    prompt.handle_key_event(key(KeyCode::Down));
    assert_eq!(prompt.current(), 2);
    prompt.handle_key_event(key(KeyCode::Up));
    assert_eq!(prompt.current(), 1);
    prompt.handle_key_event(key(KeyCode::Home));
    assert_eq!(prompt.current(), 0);
    prompt.handle_key_event(key(KeyCode::Down));
    assert_eq!(prompt.current(), 1);
}

#[test]
fn autocomplete_cursor_is_pulled_back_when_the_list_shrinks() {
    let mut prompt = AutocompletePrompt::new("Fruit", fruits());
    prompt.handle_key_event(key(KeyCode::End));
    assert_eq!(prompt.current(), 3);
    type_in(&mut prompt, "ap");
    assert_eq!(prompt.current(), 1);
    type_in(&mut prompt, "z");
    assert_eq!(prompt.current(), 0);
    prompt.handle_key_event(key(KeyCode::Backspace));
    assert_eq!(prompt.current(), 0);
}

#[test]
fn autocomplete_enter_answers_with_the_shown_choice() {
    let mut prompt = AutocompletePrompt::new("Fruit", fruits());
    type_in(&mut prompt, "a");
    prompt.handle_key_event(key(KeyCode::End));
    prompt.handle_key_event(key(KeyCode::Enter));
    assert_eq!(prompt.state(), PromptState::Success);
    assert_eq!(prompt.answer(), Some(&"avocado"));
}

#[test]
fn autocomplete_enter_with_nothing_shown_does_nothing() {
    let mut prompt = AutocompletePrompt::new("Fruit", fruits());
    prompt.display(24);
    type_in(&mut prompt, "zz");
    prompt.handle_key_event(key(KeyCode::Enter));
    assert_eq!(prompt.state(), PromptState::Running);
    assert_eq!(prompt.answer(), None);
    prompt.handle_key_event(key(KeyCode::Down));
    prompt.handle_key_event(key(KeyCode::End));
    assert_eq!(prompt.current(), 0);
}

#[test]
fn autocomplete_abort_wins_over_typed_text() {
    let mut prompt = AutocompletePrompt::new("Fruit", fruits());
    prompt.display(24);
    type_in(&mut prompt, "ap");
    prompt.handle_key_event(KeyEvent::ctrl(KeyCode::Char('c')));
    assert_eq!(prompt.state(), PromptState::Aborted);
    assert_eq!(prompt.answer(), None);
    type_in(&mut prompt, "r");
    assert_eq!(prompt.shown(), vec![0, 1]);
}

#[test]
fn autocomplete_editing_in_the_middle() {
    let mut prompt = AutocompletePrompt::new("Fruit", fruits());
    type_in(&mut prompt, "ar");
    assert_eq!(prompt.shown(), Vec::<usize>::new());
    prompt.handle_key_event(key(KeyCode::Left));
    type_in(&mut prompt, "p");
    assert_eq!(prompt.shown(), vec![1]);
    prompt.handle_key_event(key(KeyCode::Right));
    prompt.handle_key_event(key(KeyCode::Right));
    prompt.handle_key_event(key(KeyCode::Backspace));
    assert_eq!(prompt.shown(), vec![0, 1]);
}

#[test]
fn autocomplete_first_frame() {
    let mut prompt = AutocompletePrompt::new("Pick", vec!["ab", "b"]);
    let frame = prompt.display(24);
    assert_eq!(prompt.state(), PromptState::Running);
    assert_eq!(
        frame,
        vec![
            colored("?", Color::Magenta),
            print(" "),
            bold("Pick", None),
            print(" "),
            colored("› ", Color::Grey),
            print(""),
            Command::SavePosition,
            print("\n\r"),
            colored("❯", Color::Cyan),
            print("   "),
            bold("ab", Some(Color::Cyan)),
            print("\n\r"),
            plain(" "),
            print("   "),
            plain("b"),
            Command::RestorePosition,
            Command::MoveToColumn(10),
            Command::Flush,
        ]
    );
}

#[test]
fn autocomplete_frame_after_typing_erases_the_old_rows() {
    let mut prompt = AutocompletePrompt::new("Pick", vec!["ab", "b"]);
    prompt.display(24);
    let frame = prompt.advance(Event::Key(key(KeyCode::Char('a'))), 24);
    assert_eq!(
        frame,
        vec![
            Command::MoveUp(2),
            Command::MoveToColumn(0),
            Command::ClearFromCursorDown,
            colored("?", Color::Magenta),
            print(" "),
            bold("Pick", None),
            print(" "),
            colored("› ", Color::Grey),
            print("a"),
            Command::SavePosition,
            print("\n\r"),
            colored("❯", Color::Cyan),
            print("   "),
            bold("ab", Some(Color::Cyan)),
            Command::RestorePosition,
            Command::MoveToColumn(11),
            Command::Flush,
        ]
    );
    let next = prompt.advance(Event::Other, 24);
    assert_eq!(next[0], Command::MoveUp(1));
}

#[test]
fn autocomplete_frame_when_nothing_matches() {
    let mut prompt = AutocompletePrompt::new("Pick", vec!["ab", "b"]);
    prompt.display(24);
    let frame = prompt.advance(Event::Key(key(KeyCode::Char('x'))), 24);
    assert_eq!(
        frame,
        vec![
            Command::MoveUp(2),
            Command::MoveToColumn(0),
            Command::ClearFromCursorDown,
            colored("?", Color::Magenta),
            print(" "),
            bold("Pick", None),
            print(" "),
            colored("› ", Color::Grey),
            print("x"),
            Command::SavePosition,
            print("\n\r"),
            colored("Nothing matched your search", Color::DarkGrey),
            Command::RestorePosition,
            Command::MoveToColumn(11),
            Command::Flush,
        ]
    );
    let next = prompt.advance(Event::Key(key(KeyCode::Enter)), 24);
    assert_eq!(next[0], Command::MoveUp(1));
    assert_eq!(prompt.state(), PromptState::Running);
    let back = prompt.advance(Event::Key(key(KeyCode::Backspace)), 24);
    assert_eq!(back[0], Command::MoveUp(1));
    let after = prompt.advance(Event::Other, 24);
    assert_eq!(after[0], Command::MoveUp(2));
}

#[test]
fn autocomplete_last_frames() {
    let mut prompt = AutocompletePrompt::new("Pick", vec!["ab", "b"]);
    prompt.display(24);
    prompt.handle_key_event(key(KeyCode::Char('b')));
    let frame = prompt.advance(Event::Key(key(KeyCode::Enter)), 24);
    assert_eq!(
        frame,
        vec![
            Command::MoveUp(2),
            Command::MoveToColumn(0),
            Command::ClearFromCursorDown,
            colored("✔", Color::Green),
            print(" "),
            bold("Pick", None),
            print(" "),
            colored("… ", Color::Grey),
            print("b"),
            print("\n\r"),
            Command::Flush,
        ]
    );
    assert_eq!(prompt.answer(), Some(&"b"));
    let mut aborted = AutocompletePrompt::new("Pick", vec!["ab", "b"]);
    aborted.display(24);
    assert_eq!(
        aborted.advance(Event::Key(key(KeyCode::Esc)), 24),
        vec![
            Command::MoveUp(2),
            Command::MoveToColumn(0),
            Command::ClearFromCursorDown,
            colored("✖", Color::Red),
            print(" "),
            bold("Pick", None),
            print("\n\r"),
            Command::Flush,
        ]
    );
}

#[test]
fn autocomplete_window_follows_the_limit() {
    let mut prompt = AutocompletePrompt::new("Pick", (0..30).collect::<Vec<u32>>()).with_limit(3);
    type_in(&mut prompt, "2");
    assert_eq!(prompt.shown(), vec![2, 20, 21, 22, 23, 24, 25, 26, 27, 28, 29]);
    prompt.handle_key_event(key(KeyCode::Down));
    prompt.handle_key_event(key(KeyCode::Down));
    let frame = prompt.display(24);
    assert_eq!(frame.len(), 3 + 4 + 3 * 4 + 2 + 1);
    assert_eq!(frame[7 + 2], print(" ↑ "));
    assert_eq!(frame[7 + 3], plain("20"));
    assert_eq!(frame[11 + 3], bold("21", Some(Color::Cyan)));
    assert_eq!(frame[15 + 2], print(" ↓ "));
    assert_eq!(frame[15 + 3], plain("22"));
}

#[test]
fn autocomplete_of_nothing_erases_the_row_that_says_so() {
    let mut prompt = AutocompletePrompt::new("Pick", Vec::<String>::new());
    let first = prompt.display(24);
    assert_eq!(first[7], print("\n\r"));
    assert_eq!(first[8], colored("Nothing matched your search", Color::DarkGrey));
    let second = prompt.display(24);
    assert_eq!(second[0], Command::MoveUp(1));
}

#[test]
fn autocomplete_without_room_draws_one_row_and_erases_one() {
    let mut prompt = AutocompletePrompt::new("Pick", vec!["ab", "b"]);
    let first = prompt.display(1);
    assert_eq!(first[8], colored("Nothing matched your search", Color::DarkGrey));
    let second = prompt.display(0);
    assert_eq!(second[0], Command::MoveUp(1));
    let third = prompt.display(24);
    assert_eq!(third[0], Command::MoveUp(1));
    let fourth = prompt.display(24);
    assert_eq!(fourth[0], Command::MoveUp(2));
    let mut none = AutocompletePrompt::new("Pick", vec!["ab", "b"]).with_limit(0);
    none.display(24);
    assert_eq!(none.display(24)[0], Command::MoveUp(1));
}

#[test]
fn autocomplete_last_frame_erases_but_draws_no_rows() {
    let mut prompt = AutocompletePrompt::new("Pick", vec!["ab", "b"]);
    prompt.display(24);
    prompt.advance(Event::Key(key(KeyCode::Enter)), 24);
    let after = prompt.display(24);
    assert_eq!(after[0], Command::MoveUp(0));
}

#[test]
fn autocomplete_with_the_legacy_figures() {
    let mut prompt = AutocompletePrompt::new("Pick", (0..5).collect::<Vec<u32>>())
        .with_figures(FigureSet::Legacy)
        .with_limit(3);
    prompt.handle_key_event(key(KeyCode::Down));
    prompt.handle_key_event(key(KeyCode::Down));
    let frame = prompt.display(24);
    assert_eq!(frame[4], colored("» ", Color::Grey));
    assert_eq!(frame[7 + 2], print(" ↑ "));
    assert_eq!(frame[11 + 1], colored(">", Color::Cyan));
    assert_eq!(frame[15 + 2], print(" ↓ "));
    let last = prompt.advance(Event::Key(key(KeyCode::Enter)), 24);
    assert_eq!(last[3], colored("√", Color::Green));
    assert_eq!(last[7], colored("... ", Color::Grey));
    assert_eq!(last[8], print("2"));
    assert_eq!(prompt.message(), "Pick");
    assert_eq!(prompt.choices(), &vec![0, 1, 2, 3, 4]);
}
