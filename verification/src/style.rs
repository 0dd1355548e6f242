//! Decorations, and the cell renderer: a text and a decoration become a
//! cell whose width is that of the text alone.

use vstd::prelude::*;

use crate::entry::FileType;
use crate::grid::Cell;

verus! {

/// The colours the listing paints with.
#[derive(Debug, Clone, Copy, PartialEq, Eq, Structural)]
pub enum Colour {
    Red,
    Yellow,
    Blue,
    Cyan,
}

/// A decoration of a text: a colour or none, bold or not, underlined or
/// not.
#[derive(Debug, Clone, Copy, PartialEq, Eq, Structural)]
pub struct Style {
    pub foreground: Option<Colour>,
    pub is_bold: bool,
    pub is_underline: bool,
}

impl Style {
    /// Whether the decoration changes nothing.
    pub open spec fn is_plain(self) -> bool {
        self.foreground is None && !self.is_bold && !self.is_underline
    }

    /// No decoration.
    pub fn plain() -> (style: Style)
        ensures
            style == (Style { foreground: None, is_bold: false, is_underline: false }),
    {
        Style { foreground: None, is_bold: false, is_underline: false }
    }

    /// Underlined, in no colour.
    pub fn underlined() -> (style: Style)
        ensures
            style == (Style { foreground: None, is_bold: false, is_underline: true }),
    {
        Style { foreground: None, is_bold: false, is_underline: true }
    }

    /// In the given colour.
    pub fn normal(colour: Colour) -> (style: Style)
        ensures
            style == (Style { foreground: Some(colour), is_bold: false, is_underline: false }),
    {
        Style { foreground: Some(colour), is_bold: false, is_underline: false }
    }

    /// In the given colour and bold.
    pub fn bold(colour: Colour) -> (style: Style)
        ensures
            style == (Style { foreground: Some(colour), is_bold: true, is_underline: false }),
    {
        Style { foreground: Some(colour), is_bold: true, is_underline: false }
    }
}

/// The decoration of a name, by the type of what it names.
pub open spec fn filetype_decoration(file_type: FileType) -> Style {
    match file_type {
        FileType::File => Style { foreground: None, is_bold: false, is_underline: false },
        FileType::Dir => Style {
            foreground: Some(Colour::Blue),
            is_bold: false,
            is_underline: false,
        },
        FileType::Symlink => Style {
            foreground: Some(Colour::Cyan),
            is_bold: false,
            is_underline: false,
        },
        FileType::BlockDevice => Style {
            foreground: Some(Colour::Yellow),
            is_bold: true,
            is_underline: false,
        },
        FileType::CharDevice => Style {
            foreground: Some(Colour::Yellow),
            is_bold: true,
            is_underline: false,
        },
        FileType::Pipe => Style {
            foreground: Some(Colour::Yellow),
            is_bold: false,
            is_underline: false,
        },
        FileType::Socket => Style {
            foreground: Some(Colour::Red),
            is_bold: true,
            is_underline: false,
        },
        FileType::Unknown => Style { foreground: None, is_bold: false, is_underline: false },
    }
}

/// Picks the decoration of a name.
pub fn filetype_style(file_type: &FileType) -> (style: Style)
    ensures
        style == filetype_decoration(*file_type),
{
    match file_type {
        FileType::File => Style::plain(),
        FileType::Dir => Style::normal(Colour::Blue),
        FileType::Symlink => Style::normal(Colour::Cyan),
        FileType::BlockDevice => Style::bold(Colour::Yellow),
        FileType::CharDevice => Style::bold(Colour::Yellow),
        FileType::Pipe => Style::normal(Colour::Yellow),
        FileType::Socket => Style::bold(Colour::Red),
        FileType::Unknown => Style::plain(),
    }
}

/// The two digits by which an escape code names a colour.
pub open spec fn colour_code(colour: Colour) -> Seq<char> {
    match colour {
        Colour::Red => seq!['3', '1'],
        Colour::Yellow => seq!['3', '3'],
        Colour::Blue => seq!['3', '4'],
        Colour::Cyan => seq!['3', '6'],
    }
}

/// The codes of a style, with a semicolon between each two: 1 for bold,
/// then 4 for underline, then the colour.
pub open spec fn style_codes(style: Style) -> Seq<char> {
    let bold = if style.is_bold {
        seq!['1']
    } else {
        Seq::<char>::empty()
    };
    let underline = if style.is_underline {
        if style.is_bold {
            seq![';', '4']
        } else {
            seq!['4']
        }
    } else {
        Seq::<char>::empty()
    };
    let colour = match style.foreground {
        Some(colour) => if style.is_bold || style.is_underline {
            seq![';'] + colour_code(colour)
        } else {
            colour_code(colour)
        },
        None => Seq::<char>::empty(),
    };
    bold + underline + colour
}

/// What stands before a painted text: nothing for a plain style, else the
/// escape code that switches the style on.
pub open spec fn paint_prefix(style: Style) -> Seq<char> {
    if style.is_plain() {
        Seq::<char>::empty()
    } else {
        seq!['\u{1b}', '['] + style_codes(style) + seq!['m']
    }
}

/// What stands behind a painted text: nothing for a plain style, else the
/// escape code that switches every style off.
pub open spec fn paint_suffix(style: Style) -> Seq<char> {
    if style.is_plain() {
        Seq::<char>::empty()
    } else {
        seq!['\u{1b}', '[', '0', 'm']
    }
}

/// A text painted in a style: the text as it is, between what switches the
/// style on and what switches it off.
pub open spec fn painted(style: Style, text: Seq<char>) -> Seq<char> {
    paint_prefix(style) + text + paint_suffix(style)
}

/// `ansi_term::Style::paint`, written out as a string: ansi_term writes
/// the style's prefix, the text unchanged, and the style's suffix. The prefix
/// is empty for a style that sets nothing, else escape, `[`, the codes of
/// what the style sets (1 for bold, 4 for underline, 31, 33, 34 or 36 for
/// the colour) with semicolons between, and `m`; the suffix is empty for such
/// a style, else the reset code.
#[verifier::external_body]
fn paint(style: &Style, text: &str) -> (out: String)
    ensures
        out@ == painted(*style, text@),
{
    let foreground = match style.foreground {
        None => None,
        Some(Colour::Red) => Some(ansi_term::Colour::Red),
        Some(Colour::Yellow) => Some(ansi_term::Colour::Yellow),
        Some(Colour::Blue) => Some(ansi_term::Colour::Blue),
        Some(Colour::Cyan) => Some(ansi_term::Colour::Cyan),
    };
    let is_bold = style.is_bold;
    let is_underline = style.is_underline;
    let ansi = ansi_term::Style { foreground, is_bold, is_underline, ..ansi_term::Style::default() };
    ansi.paint(text).to_string()
}

/// Whether `cell` is the rendering of `text` in `style`: the contents are
/// the painted text, and the width is the number of characters of the text
/// alone.
pub open spec fn is_rendering(text: Seq<char>, style: Style, cell: Cell) -> bool {
    &&& cell.contents@ == painted(style, text)
    &&& cell.width == text.len()
}

/// Renders a text in a style. The width is measured before the style is
/// applied, so it is the same in every style.
pub fn render(text: String, style: &Style) -> (cell: Cell)
    ensures
        is_rendering(text@, *style, cell),
        cell.contents@ == paint_prefix(*style) + text@ + paint_suffix(*style),
        cell.width == text@.len(),
        style.is_plain() ==> cell.contents@ == text@,
{
    let width = text.as_str().unicode_len();
    let contents = paint(style, text.as_str());
    proof {
        if style.is_plain() {
            assert(contents@ =~= text@);
        }
    }
    Cell { contents, width }
}

/// Styling is width-neutral: whatever two styles a text is rendered in,
/// the two cells have the same width, that of the text.
pub proof fn lemma_style_is_width_neutral(
    text: Seq<char>,
    first_style: Style,
    second_style: Style,
    first: Cell,
    second: Cell,
)
    requires
        is_rendering(text, first_style, first),
        is_rendering(text, second_style, second),
    ensures
        first.width == second.width,
        first.width == text.len(),
{
}

} // verus!
