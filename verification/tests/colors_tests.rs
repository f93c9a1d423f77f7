use ratatui::style::palette::tailwind;
use ratatui::style::Color;
use sqliters::colors::TableColors;

#[test]
fn colors_come_from_slate_and_the_accent() {
    let teal = TableColors::new(&tailwind::TEAL);
    assert_eq!(teal, TableColors::teal());
    assert_eq!(teal.buffer_bg, tailwind::SLATE.c950);
    assert_eq!(teal.buffer_bg, Color::Rgb(2, 6, 23));
    assert_eq!(teal.header_bg, tailwind::TEAL.c900);
    assert_eq!(teal.header_bg, Color::Rgb(19, 78, 74));
    assert_eq!(teal.header_fg, Color::Rgb(226, 232, 240));
    assert_eq!(teal.selected_header_fg, Color::Rgb(30, 41, 59));
    assert_eq!(teal.row_fg, Color::Rgb(226, 232, 240));
    assert_eq!(teal.selected_style_fg, Color::Rgb(13, 148, 136));
    assert_eq!(teal.normal_row_color, Color::Rgb(2, 6, 23));
    assert_eq!(teal.alt_row_color, Color::Rgb(15, 23, 42));
    assert_eq!(teal.footer_border_color, Color::Rgb(45, 212, 191));
    assert_eq!(teal.highlight_column_fg, Color::Rgb(17, 94, 89));
    let rose = TableColors::new(&tailwind::ROSE);
    assert_eq!(rose.header_bg, tailwind::ROSE.c900);
    assert_eq!(rose.selected_style_fg, tailwind::ROSE.c600);
    assert_eq!(rose.footer_border_color, tailwind::ROSE.c400);
    assert_eq!(rose.highlight_column_fg, tailwind::ROSE.c800);
    assert_eq!(rose.alt_row_color, tailwind::SLATE.c900);
}
