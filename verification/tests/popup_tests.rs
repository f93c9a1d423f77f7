use ratatui::style::Color;
use ratatui::style::Style;
use sqliters::popup::Popup;

#[test]
fn popup_builders_set_one_part_each() {
    let red = Style::new().fg(Color::Red);
    let white = Style::new().fg(Color::White);
    let yellow = Style::new().fg(Color::Yellow);
    let popup = Popup::default()
        .content("CREATE TABLE t (a TEXT)".to_string())
        .style(yellow)
        .title("SCHEMA".to_string())
        .title_style(white)
        .border_style(red);
    let (title, content, border_style, title_style, style) = popup.into_parts();
    assert_eq!(title, "SCHEMA");
    assert_eq!(content, "CREATE TABLE t (a TEXT)");
    assert_eq!(border_style, red);
    assert_eq!(title_style, white);
    assert_eq!(style, yellow);
    let (title, content, border_style, _, _) = Popup::default().into_parts();
    assert_eq!(title, "");
    assert_eq!(content, "");
    assert_eq!(border_style, Style::default());
}
