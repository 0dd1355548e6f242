use dirlist::entry::{FileType, Permissions, Timestamp};
use dirlist::style::{filetype_style, render, Colour, Style};
use dirlist::view::{style, StyleType};

fn any(foreground: Option<Colour>, is_bold: bool, is_underline: bool) -> Style {
    Style { foreground, is_bold, is_underline }
}

#[test]
fn a_plain_style_leaves_the_text_as_it_is() {
    let cell = render("notes.txt".to_string(), &Style::plain());
    assert_eq!(cell.contents, "notes.txt");
    assert_eq!(cell.width, 9);
}

#[test]
fn a_colour_wraps_the_text_in_escape_codes() {
    let cell = render("src".to_string(), &Style::normal(Colour::Blue));
    assert_eq!(cell.contents, "\u{1b}[34msrc\u{1b}[0m");
    assert_eq!(cell.width, 3);
    assert_eq!(render("a".to_string(), &Style::normal(Colour::Red)).contents, "\u{1b}[31ma\u{1b}[0m");
    assert_eq!(
        render("a".to_string(), &Style::normal(Colour::Yellow)).contents,
        "\u{1b}[33ma\u{1b}[0m"
    );
    assert_eq!(render("a".to_string(), &Style::normal(Colour::Cyan)).contents, "\u{1b}[36ma\u{1b}[0m");
}

#[test]
fn bold_and_underline_have_their_codes() {
    assert_eq!(
        render("a".to_string(), &Style::bold(Colour::Yellow)).contents,
        "\u{1b}[1;33ma\u{1b}[0m"
    );
    assert_eq!(render("a".to_string(), &Style::bold(Colour::Red)).contents, "\u{1b}[1;31ma\u{1b}[0m");
    assert_eq!(render("Name".to_string(), &Style::underlined()).contents, "\u{1b}[4mName\u{1b}[0m");
    assert_eq!(render("a".to_string(), &any(None, true, false)).contents, "\u{1b}[1ma\u{1b}[0m");
    assert_eq!(render("a".to_string(), &any(None, true, true)).contents, "\u{1b}[1;4ma\u{1b}[0m");
    assert_eq!(
        render("a".to_string(), &any(Some(Colour::Blue), true, true)).contents,
        "\u{1b}[1;4;34ma\u{1b}[0m"
    );
    assert_eq!(
        render("a".to_string(), &any(Some(Colour::Cyan), false, true)).contents,
        "\u{1b}[4;36ma\u{1b}[0m"
    );
}

#[test]
fn the_width_is_the_same_in_every_style() {
    let colours = vec![None, Some(Colour::Red), Some(Colour::Yellow), Some(Colour::Blue), Some(Colour::Cyan)];
    let texts = vec!["", "a", "notes.txt", "with space", "h\u{e9}llo"];
    for text in texts {
        for colour in colours.iter() {
            for is_bold in vec![false, true] {
                for is_underline in vec![false, true] {
                    let cell = render(text.to_string(), &any(*colour, is_bold, is_underline));
                    assert_eq!(cell.width, text.chars().count());
                    assert!(cell.contents.contains(text));
                }
            }
        }
    }
}

#[test]
fn the_width_counts_characters() {
    // One character, one column, though two bytes.
    assert_eq!(render("\u{e9}".to_string(), &Style::plain()).width, 1);
    assert_eq!(style(StyleType::Name("\u{e9}".to_string(), FileType::File)).width, 1);
    assert_eq!(style(StyleType::Name("\u{e9}".to_string(), FileType::Dir)).width, 1);
    assert_eq!(render("h\u{e9}llo".to_string(), &Style::plain()).width, 5);
    assert_eq!(render("h\u{e9}llo".to_string(), &Style::normal(Colour::Blue)).width, 5);
    assert_eq!(render("".to_string(), &Style::bold(Colour::Red)).width, 0);
}

#[test]
fn the_text_stands_unchanged_between_prefix_and_suffix() {
    let colours = vec![
        (None, ""),
        (Some(Colour::Red), "31"),
        (Some(Colour::Yellow), "33"),
        (Some(Colour::Blue), "34"),
        (Some(Colour::Cyan), "36"),
    ];
    for (colour, code) in colours {
        for is_bold in vec![false, true] {
            for is_underline in vec![false, true] {
                let mut codes: Vec<&str> = Vec::new();
                if is_bold {
                    codes.push("1");
                }
                if is_underline {
                    codes.push("4");
                }
                if colour.is_some() {
                    codes.push(code);
                }
                let expected = if codes.is_empty() {
                    "some text".to_string()
                } else {
                    format!("\u{1b}[{}msome text\u{1b}[0m", codes.join(";"))
                };
                let cell = render("some text".to_string(), &any(colour, is_bold, is_underline));
                assert_eq!(cell.contents, expected);
                assert_eq!(cell.width, 9);
            }
        }
    }
}

#[test]
fn names_are_decorated_by_type() {
    assert_eq!(filetype_style(&FileType::File), Style::plain());
    assert_eq!(filetype_style(&FileType::Dir), Style::normal(Colour::Blue));
    assert_eq!(filetype_style(&FileType::Symlink), Style::normal(Colour::Cyan));
    assert_eq!(filetype_style(&FileType::BlockDevice), Style::bold(Colour::Yellow));
    assert_eq!(filetype_style(&FileType::CharDevice), Style::bold(Colour::Yellow));
    assert_eq!(filetype_style(&FileType::Pipe), Style::normal(Colour::Yellow));
    assert_eq!(filetype_style(&FileType::Socket), Style::bold(Colour::Red));
    assert_eq!(filetype_style(&FileType::Unknown), Style::plain());
}

#[test]
fn styles_are_what_their_makers_say() {
    assert_eq!(Style::plain(), any(None, false, false));
    assert_eq!(Style::underlined(), any(None, false, true));
    assert_eq!(Style::normal(Colour::Cyan), any(Some(Colour::Cyan), false, false));
    assert_eq!(Style::bold(Colour::Red), any(Some(Colour::Red), true, false));
}

#[test]
fn each_field_renders_as_its_cell() {
    let header = style(StyleType::Header("Size".to_string()));
    assert_eq!(header.contents, "\u{1b}[4mSize\u{1b}[0m");
    assert_eq!(header.width, 4);

    let perm = style(StyleType::Perm(Permissions::from_file_mode(0o750)));
    assert_eq!(perm.contents, "rwxr-x---");
    assert_eq!(perm.width, 9);

    let size = style(StyleType::Size(40960));
    assert_eq!(size.contents, "40960");
    assert_eq!(size.width, 5);

    let user = style(StyleType::User("alice".to_string()));
    assert_eq!(user.contents, "alice");
    assert_eq!(user.width, 5);

    let group = style(StyleType::Group("staff".to_string()));
    assert_eq!(group.contents, "staff");
    assert_eq!(group.width, 5);

    let time = style(StyleType::Time(Timestamp {
        secs: 0,
        nanos: 0,
        local: " 1 Jan 00:00".to_string(),
    }));
    assert_eq!(time.contents, "\u{1b}[34m 1 Jan 00:00\u{1b}[0m");
    assert_eq!(time.width, 12);

    let links = style(StyleType::Links(3));
    assert_eq!(links.contents, "3");
    assert_eq!(links.width, 1);

    let inode = style(StyleType::Inode(1048577));
    assert_eq!(inode.contents, "1048577");
    assert_eq!(inode.width, 7);

    let blocks = style(StyleType::Blocks(16));
    assert_eq!(blocks.contents, "16");
    assert_eq!(blocks.width, 2);

    let missing = style(StyleType::Missing);
    assert_eq!(missing.contents, "-");
    assert_eq!(missing.width, 1);
}

#[test]
fn a_name_renders_in_the_style_of_its_type() {
    let cases = vec![
        (FileType::File, "x"),
        (FileType::Dir, "\u{1b}[34mx\u{1b}[0m"),
        (FileType::Symlink, "\u{1b}[36mx\u{1b}[0m"),
        (FileType::BlockDevice, "\u{1b}[1;33mx\u{1b}[0m"),
        (FileType::CharDevice, "\u{1b}[1;33mx\u{1b}[0m"),
        (FileType::Pipe, "\u{1b}[33mx\u{1b}[0m"),
        (FileType::Socket, "\u{1b}[1;31mx\u{1b}[0m"),
        (FileType::Unknown, "x"),
    ];
    for (file_type, contents) in cases {
        let cell = style(StyleType::Name("x".to_string(), file_type));
        assert_eq!(cell.contents, contents);
        assert_eq!(cell.width, 1);
    }
}
