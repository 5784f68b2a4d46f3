use prompts::draw::{Color, Styled};
use prompts::event::{KeyCode, KeyEvent, KeyModifiers};
use prompts::utils::{
    calc_entries, is_abort_event, print_input_icon, print_input_icon_in, print_state_icon,
    print_state_icon_in, FigureSet, Figures, PromptState,
};

fn all_figures() -> [Figures; 12] {
    [
        Figures::ArrowUp,
        Figures::ArrowDown,
        Figures::ArrowLeft,
        Figures::ArrowRight,
        Figures::RadioOn,
        Figures::RadioOff,
        Figures::Tick,
        Figures::Cross,
        Figures::Ellipsis,
        Figures::PointerSmall,
        Figures::Line,
        Figures::Pointer,
    ]
}

#[test]
fn write_all() {
    let figures = all_figures();
    let mut s = String::from("");
    for figure in figures.iter() {
        s.push_str(figure.as_legacy_str());
    }
    assert_eq!(s, "↑↓←→(*)( )√×...»─>");
}

#[test]
fn utils_write_all() {
    let figures = all_figures();
    let mut s = String::from("");
    for figure in figures.iter() {
        s.push_str(figure.as_str());
    }
    assert_eq!(s, "↑↓←→◉◯✔✖…›─❯");
}

#[test]
fn window_at_the_top() {
    assert_eq!(calc_entries(0, 20, 10), (0, 10));
}

#[test]
fn window_at_the_bottom() {
    assert_eq!(calc_entries(19, 20, 10), (10, 20));
}

#[test]
fn window_centred() {
    assert_eq!(calc_entries(10, 20, 10), (5, 15));
}

#[test]
fn window_of_short_list_is_whole_list() {
    assert_eq!(calc_entries(2, 3, 10), (0, 3));
    assert_eq!(calc_entries(0, 1, 1), (0, 1));
}

#[test]
fn window_of_empty_list_is_empty() {
    assert_eq!(calc_entries(0, 0, 10), (0, 0));
    assert_eq!(calc_entries(0, 0, 0), (0, 0));
}

#[test]
fn window_with_odd_limit() {
    assert_eq!(calc_entries(4, 9, 3), (3, 6));
    assert_eq!(calc_entries(8, 9, 3), (6, 9));
}

#[test]
fn window_holds_cursor_for_all_small_cases() {
    for total in 1..30usize {
        for limit in 1..15usize {
            for cursor in 0..total {
                let (s, e) = calc_entries(cursor, total, limit);
                assert!(s <= cursor && cursor < e && e <= total);
                assert!(e - s <= limit);
                assert_eq!(e - s, limit.min(total));
            }
        }
    }
}

#[test]
fn window_near_the_largest_numbers() {
    let max = usize::MAX;
    assert_eq!(calc_entries(max - 1, max, max), (0, max));
    assert_eq!(calc_entries(max - 1, max, 10), (max - 10, max));
    assert_eq!(calc_entries(0, max, max), (0, max));
}

#[test]
fn only_terminal_states_are_done() {
    assert!(!PromptState::Created.is_done());
    assert!(!PromptState::Running.is_done());
    assert!(!PromptState::Validate.is_done());
    assert!(PromptState::Aborted.is_done());
    assert!(PromptState::Success.is_done());
    assert_eq!(PromptState::default(), PromptState::Created);
}

#[test]
fn abort_keys() {
    assert!(is_abort_event(KeyEvent::ctrl(KeyCode::Char('c'))));
    assert!(is_abort_event(KeyEvent::ctrl(KeyCode::Char('d'))));
    assert!(is_abort_event(KeyEvent::plain(KeyCode::Esc)));
}

#[test]
fn keys_that_do_not_abort() {
    assert!(!is_abort_event(KeyEvent::plain(KeyCode::Char('c'))));
    assert!(!is_abort_event(KeyEvent::plain(KeyCode::Char('d'))));
    assert!(!is_abort_event(KeyEvent::ctrl(KeyCode::Char('z'))));
    assert!(!is_abort_event(KeyEvent::ctrl(KeyCode::Esc)));
    assert!(!is_abort_event(KeyEvent::plain(KeyCode::Enter)));
    let shifted = KeyModifiers { shift: true, control: true, alt: false, other: false };
    assert!(!is_abort_event(KeyEvent { code: KeyCode::Char('c'), modifiers: shifted }));
    let alt = KeyModifiers { shift: false, control: false, alt: true, other: false };
    assert!(!is_abort_event(KeyEvent { code: KeyCode::Esc, modifiers: alt }));
}

#[test]
fn state_icons() {
    assert_eq!(
        print_state_icon(&PromptState::Aborted),
        Styled { text: "✖".to_string(), color: Some(Color::Red), bold: false, italic: false }
    );
    assert_eq!(
        print_state_icon(&PromptState::Success),
        Styled { text: "✔".to_string(), color: Some(Color::Green), bold: false, italic: false }
    );
    for state in [PromptState::Created, PromptState::Running, PromptState::Validate] {
        assert_eq!(
            print_state_icon(&state),
            Styled {
                text: "?".to_string(),
                color: Some(Color::Magenta),
                bold: false,
                italic: false,
            }
        );
    }
}

#[test]
fn input_icons() {
    assert_eq!(
        print_input_icon(&PromptState::Aborted),
        Styled { text: "".to_string(), color: Some(Color::Grey), bold: false, italic: false }
    );
    assert_eq!(
        print_input_icon(&PromptState::Success),
        Styled { text: "… ".to_string(), color: Some(Color::Grey), bold: false, italic: false }
    );
    assert_eq!(
        print_input_icon(&PromptState::Running),
        Styled { text: "› ".to_string(), color: Some(Color::Grey), bold: false, italic: false }
    );
}

#[test]
fn icons_from_either_table() {
    assert_eq!(print_state_icon_in(&PromptState::Success, FigureSet::Legacy).text, "√");
    assert_eq!(print_state_icon_in(&PromptState::Aborted, FigureSet::Legacy).text, "×");
    assert_eq!(print_state_icon_in(&PromptState::Running, FigureSet::Legacy).text, "?");
    assert_eq!(print_input_icon_in(&PromptState::Success, FigureSet::Legacy).text, "... ");
    assert_eq!(print_input_icon_in(&PromptState::Running, FigureSet::Legacy).text, "» ");
    assert_eq!(print_input_icon_in(&PromptState::Aborted, FigureSet::Legacy).text, "");
    for state in [PromptState::Created, PromptState::Aborted, PromptState::Success] {
        assert_eq!(print_state_icon_in(&state, FigureSet::Standard), print_state_icon(&state));
        assert_eq!(print_input_icon_in(&state, FigureSet::Standard), print_input_icon(&state));
    }
    assert_eq!(FigureSet::default(), FigureSet::Standard);
    for figure in all_figures().iter() {
        assert_eq!(figure.as_str_in(FigureSet::Standard), figure.as_str());
        assert_eq!(figure.as_str_in(FigureSet::Legacy), figure.as_legacy_str());
    }
}
