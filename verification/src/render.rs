//! The opaque rendering sink: turning a message and one of the shell's
//! colors into the character stream the terminal shows. Whether and how
//! the color is applied depends on the terminal environment, so nothing
//! is stated of the result.

use vstd::prelude::*;
use crate::customization::Color;
use colored::Colorize;

verus! {

/// Relies on `colored::Colorize::color` (and the `Display` rendering of
/// its `ColoredString`): wraps the message in the escape sequences for
/// the given color, or leaves it plain when the environment disables
/// coloring. The result depends on that environment, so nothing is
/// assumed of it.
#[verifier::external_body]
pub fn paint(message: &str, color: Color) -> String {
    let c = match color {
        Color::Red => colored::Color::Red,
        Color::Green => colored::Color::Green,
        Color::Blue => colored::Color::Blue,
        Color::Yellow => colored::Color::Yellow,
        Color::Magenta => colored::Color::Magenta,
        Color::Cyan => colored::Color::Cyan,
        Color::White => colored::Color::White,
        Color::Black => colored::Color::Black,
    };
    message.color(c).to_string()
}

/// The prompt as the terminal shows it: the bracketed prompt text,
/// painted in the prompt color. What the painting added around the
/// bracketed text depends on the terminal environment.
pub fn render_prompt(text: &str, color: Color) -> String {
    let line = crate::text::prompt_line(text);
    paint(line.as_str(), color)
}

} // verus!
