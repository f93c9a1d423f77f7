//! The colors of the table widget.

use ratatui::style::palette::tailwind::Palette;
use ratatui::style::Color;
use vstd::prelude::*;

verus! {

/// Declares `ratatui::style::Color`, with its variants as ratatui defines
/// them.
#[verifier::external_type_specification]
pub struct ExColor(Color);

/// Declares `ratatui::style::palette::tailwind::Palette`, with its eleven
/// shades as ratatui defines them.
#[verifier::external_type_specification]
pub struct ExPalette(Palette);

/// Reads `ratatui::style::palette::tailwind::SLATE`. Of its eleven shades
/// the contract gives the four that the table uses, as its source writes
/// them: `c200` is `0xe2e8f0`, `c800` is `0x1e293b`, `c900` is `0x0f172a`
/// and `c950` is `0x020617`, each an RGB color.
#[verifier::external_body]
fn tailwind_slate() -> (palette: Palette)
    ensures
        palette.c200 == Color::Rgb(226, 232, 240),
        palette.c800 == Color::Rgb(30, 41, 59),
        palette.c900 == Color::Rgb(15, 23, 42),
        palette.c950 == Color::Rgb(2, 6, 23),
{
    ratatui::style::palette::tailwind::SLATE
}

/// Reads `ratatui::style::palette::tailwind::TEAL`. Of its eleven shades the
/// contract gives the four that the table uses, as its source writes them:
/// `c400` is `0x2dd4bf`, `c600` is `0x0d9488`, `c800` is `0x115e59` and
/// `c900` is `0x134e4a`, each an RGB color.
#[verifier::external_body]
fn tailwind_teal() -> (palette: Palette)
    ensures
        palette.c400 == Color::Rgb(45, 212, 191),
        palette.c600 == Color::Rgb(13, 148, 136),
        palette.c800 == Color::Rgb(17, 94, 89),
        palette.c900 == Color::Rgb(19, 78, 74),
{
    ratatui::style::palette::tailwind::TEAL
}

/// The colors that the table widget is painted in.
#[derive(Debug, Clone, Copy, PartialEq)]
pub struct TableColors {
    pub buffer_bg: Color,
    pub header_bg: Color,
    pub header_fg: Color,
    pub selected_header_fg: Color,
    pub row_fg: Color,
    pub selected_style_fg: Color,
    pub normal_row_color: Color,
    pub alt_row_color: Color,
    pub footer_border_color: Color,
    pub highlight_column_fg: Color,
}

/// The colors of the table with `accent` as its accent palette.
pub open spec fn colors_with(accent: Palette) -> TableColors {
    TableColors {
        buffer_bg: Color::Rgb(2, 6, 23),
        header_bg: accent.c900,
        header_fg: Color::Rgb(226, 232, 240),
        selected_header_fg: Color::Rgb(30, 41, 59),
        row_fg: Color::Rgb(226, 232, 240),
        selected_style_fg: accent.c600,
        normal_row_color: Color::Rgb(2, 6, 23),
        alt_row_color: Color::Rgb(15, 23, 42),
        footer_border_color: accent.c400,
        highlight_column_fg: accent.c800,
    }
}

/// The colors that the browser starts with: slate with teal as the accent.
pub open spec fn default_colors() -> TableColors {
    TableColors {
        buffer_bg: Color::Rgb(2, 6, 23),
        header_bg: Color::Rgb(19, 78, 74),
        header_fg: Color::Rgb(226, 232, 240),
        selected_header_fg: Color::Rgb(30, 41, 59),
        row_fg: Color::Rgb(226, 232, 240),
        selected_style_fg: Color::Rgb(13, 148, 136),
        normal_row_color: Color::Rgb(2, 6, 23),
        alt_row_color: Color::Rgb(15, 23, 42),
        footer_border_color: Color::Rgb(45, 212, 191),
        highlight_column_fg: Color::Rgb(17, 94, 89),
    }
}

impl TableColors {
    /// The colors for an accent palette: the accent for the header, the
    /// selection, the footer border and the highlighted column, shades of
    /// slate for everything else.
    pub fn new(color: &Palette) -> (colors: TableColors)
        ensures
            colors == colors_with(*color),
    {
        let slate = tailwind_slate();
        TableColors {
            buffer_bg: slate.c950,
            header_bg: color.c900,
            header_fg: slate.c200,
            selected_header_fg: slate.c800,
            row_fg: slate.c200,
            selected_style_fg: color.c600,
            normal_row_color: slate.c950,
            alt_row_color: slate.c900,
            footer_border_color: color.c400,
            highlight_column_fg: color.c800,
        }
    }

    /// The colors that the browser starts with.
    pub fn teal() -> (colors: TableColors)
        ensures
            colors == default_colors(),
    {
        let accent = tailwind_teal();
        TableColors::new(&accent)
    }
}

} // verus!
