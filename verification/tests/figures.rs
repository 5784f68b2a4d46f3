use prompts::figures::Figures;

fn all_figures() -> [Figures; 12] {
    [
        Figures::ArrowUp,
        Figures::ArrowDown,
        Figures::ArrowLeft,
        Figures::ArrowRight,
        Figures::RadioOn,
        Figures::RadioOff,
        Figures::Tick,
        Figures::Cross,
        Figures::Ellipsis,
        Figures::PointerSmall,
        Figures::Line,
        Figures::Pointer,
    ]
}

#[test]
fn figures_write_all() {
    let figures = all_figures();
    for figure in figures.iter() {
        println!("{}", figure.as_str());
    }
}

#[test]
fn every_figure_is_one_character_in_the_default_table() {
    for figure in all_figures().iter() {
        assert_eq!(figure.as_str().chars().count(), 1);
    }
}
