//! The popup that shows the definition statement of a table.

use ratatui::style::Style;
use vstd::prelude::*;

verus! {

/// Declares `ratatui::style::Style`. The popup only carries styles through
/// to the painter and never looks inside one.
#[verifier::external_type_specification]
#[verifier::external_body]
pub struct ExStyle(Style);

/// A titled box of text drawn over the table.
#[derive(Debug, Default)]
pub struct Popup {
    title: String,
    content: String,
    border_style: Style,
    title_style: Style,
    style: Style,
}

/// The mathematical value of a `Popup`.
pub struct PopupModel {
    pub title: Seq<char>,
    pub content: Seq<char>,
    pub border_style: Style,
    pub title_style: Style,
    pub style: Style,
}

impl View for Popup {
    type V = PopupModel;

    closed spec fn view(&self) -> PopupModel {
        PopupModel {
            title: self.title@,
            content: self.content@,
            border_style: self.border_style,
            title_style: self.title_style,
            style: self.style,
        }
    }
}

impl Popup {
    /// The same popup under another title.
    pub fn title(self, title: String) -> (popup: Popup)
        ensures
            popup@ == (PopupModel { title: title@, ..self@ }),
    {
        let mut popup = self;
        popup.title = title;
        popup
    }

    /// The same popup around another text.
    pub fn content(self, content: String) -> (popup: Popup)
        ensures
            popup@ == (PopupModel { content: content@, ..self@ }),
    {
        let mut popup = self;
        popup.content = content;
        popup
    }

    /// The same popup with another style for its border.
    pub fn border_style(self, style: Style) -> (popup: Popup)
        ensures
            popup@ == (PopupModel { border_style: style, ..self@ }),
    {
        let mut popup = self;
        popup.border_style = style;
        popup
    }

    /// The same popup with another style for its title.
    pub fn title_style(self, style: Style) -> (popup: Popup)
        ensures
            popup@ == (PopupModel { title_style: style, ..self@ }),
    {
        let mut popup = self;
        popup.title_style = style;
        popup
    }

    /// The same popup with another style for its text.
    pub fn style(self, style: Style) -> (popup: Popup)
        ensures
            popup@ == (PopupModel { style, ..self@ }),
    {
        let mut popup = self;
        popup.style = style;
        popup
    }

    /// Takes the popup apart for painting: title, text, and the styles of
    /// border, title and text.
    pub fn into_parts(self) -> (parts: (String, String, Style, Style, Style))
        ensures
            parts.0@ == self@.title,
            parts.1@ == self@.content,
            parts.2 == self@.border_style,
            parts.3 == self@.title_style,
            parts.4 == self@.style,
    {
        (self.title, self.content, self.border_style, self.title_style, self.style)
    }
}

} // verus!
