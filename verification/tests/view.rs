use dirlist::entry::{Entry, FileType, Permissions, Timestamp};
use dirlist::opts::{DisplayOpts, FilterOpts, LongOpts, OptColor, OptTime, OptTimeStyle, Opts};
use dirlist::view::{
    columns, header_row, render_names, render_row, render_table, term_width, view, Column,
    DEFAULT_WIDTH, NAME_SPACING, TABLE_SPACING,
};

fn long_opts() -> LongOpts {
    LongOpts {
        binary: false,
        bytes: false,
        group: false,
        header: false,
        links: false,
        inode: false,
        level: None,
        modified: false,
        blocks: false,
        time: OptTime::Modified,
        time_style: OptTimeStyle::Default,
        accessed: false,
        created: false,
    }
}

fn opts(long: bool, long_options: LongOpts) -> Opts {
    Opts {
        debug: false,
        filter_ops: FilterOpts { ignore_patterns: None, all: false, reverse: false },
        display_ops: DisplayOpts { long, color: OptColor::Auto, long_options },
        files: Vec::new(),
    }
}

fn entry(name: &str, file_type: FileType) -> Entry {
    Entry {
        name: name.to_string(),
        file_type,
        permissions: Permissions::from_file_mode(0o644),
        size: 1234,
        inode: 4711,
        blocks: 8,
        modified: Timestamp { secs: 0, nanos: 0, local: " 5 Jan 14:03".to_string() },
        accessed: Some(Timestamp { secs: 0, nanos: 0, local: " 6 Feb 15:04".to_string() }),
        created: Some(Timestamp { secs: 0, nanos: 0, local: " 4 Dec 13:02".to_string() }),
        num_hardlinks: 2,
        user: "alice".to_string(),
        group: "staff".to_string(),
    }
}

fn three() -> Vec<Entry> {
    vec![
        entry("src", FileType::Dir),
        entry("main.rs", FileType::File),
        entry("link", FileType::Symlink),
    ]
}

const BLUE_SRC: &str = "\u{1b}[34msrc\u{1b}[0m";
const CYAN_LINK: &str = "\u{1b}[36mlink\u{1b}[0m";
const BLUE_TIME: &str = "\u{1b}[34m 5 Jan 14:03\u{1b}[0m";

#[test]
fn names_fill_the_terminal_width() {
    let out = view(three(), &opts(false, long_opts()), Some((80, 24)));
    assert_eq!(out, format!("{}     main.rs     {}\n", BLUE_SRC, CYAN_LINK));
}

#[test]
fn names_wrap_in_a_narrow_terminal() {
    let out = view(three(), &opts(false, long_opts()), Some((20, 24)));
    assert_eq!(out, format!("{}      main.rs\n{}     \n", BLUE_SRC, CYAN_LINK));
    let out = view(three(), &opts(false, long_opts()), Some((5, 24)));
    assert_eq!(out, format!("{}\nmain.rs\n{}\n", BLUE_SRC, CYAN_LINK));
}

#[test]
fn an_unknown_or_empty_terminal_counts_as_eighty_columns() {
    assert_eq!(DEFAULT_WIDTH, 80);
    assert_eq!(term_width(None), 80);
    assert_eq!(term_width(Some((0, 0))), 80);
    assert_eq!(term_width(Some((0, 24))), 80);
    assert_eq!(term_width(Some((132, 43))), 132);
    assert_eq!(term_width(Some((1, 0))), 1);
    let wide = view(three(), &opts(false, long_opts()), Some((80, 24)));
    assert_eq!(view(three(), &opts(false, long_opts()), None), wide);
    assert_eq!(view(three(), &opts(false, long_opts()), Some((0, 24))), wide);
}

#[test]
fn the_budget_of_eighty_is_used_to_the_full() {
    // Twelve names of two characters: twelve columns take 24 and 55 of gaps,
    // thirteen would take 26 and 60.
    let names: Vec<String> = (10..23).map(|n| n.to_string()).collect();
    let thirteen: Vec<Entry> = names.iter().map(|n| entry(n, FileType::File)).collect();
    let out = view(thirteen, &opts(false, long_opts()), None);
    assert_eq!(
        out,
        "10     11     12     13     14     15     16     17     18     19     20     21\n22     \n"
    );
}

#[test]
fn an_empty_directory_shows_nothing() {
    assert_eq!(view(Vec::new(), &opts(false, long_opts()), Some((80, 24))), "");
    assert_eq!(view(Vec::new(), &opts(false, long_opts()), None), "");
    assert_eq!(view(Vec::new(), &opts(false, long_opts()), Some((0, 0))), "");
    assert_eq!(view(Vec::new(), &opts(true, long_opts()), Some((80, 24))), "");
}

#[test]
fn the_long_form_is_a_table() {
    let out = view(vec![entry("notes.txt", FileType::File)], &opts(true, long_opts()), None);
    assert_eq!(out, format!("rw-r--r-- 1234 alice {} notes.txt\n", BLUE_TIME));
}

#[test]
fn the_table_aligns_its_columns() {
    let mut big = entry("src", FileType::Dir);
    big.size = 7;
    big.user = "bob".to_string();
    big.permissions = Permissions::from_file_mode(0o755);
    let out = view(vec![entry("notes.txt", FileType::File), big], &opts(true, long_opts()), None);
    assert_eq!(
        out,
        format!(
            "rw-r--r-- 1234 alice {} notes.txt\nrwxr-xr-x 7    bob   {} {}\n",
            BLUE_TIME, BLUE_TIME, BLUE_SRC
        )
    );
}

#[test]
fn the_table_ignores_the_terminal_width() {
    let narrow = view(vec![entry("notes.txt", FileType::File)], &opts(true, long_opts()), Some((3, 1)));
    let wide = view(vec![entry("notes.txt", FileType::File)], &opts(true, long_opts()), Some((300, 1)));
    assert_eq!(narrow, wide);
}

#[test]
fn a_header_row_is_underlined_and_comes_first() {
    let with_header = LongOpts { header: true, ..long_opts() };
    let out = view(vec![entry("notes.txt", FileType::File)], &opts(true, with_header), None);
    let u = |label: &str| format!("\u{1b}[4m{}\u{1b}[0m", label);
    let expected = format!(
        "{} {} {}  {} {}\nrw-r--r--   1234 alice {}  notes.txt\n",
        u("Permissions"),
        u("Size"),
        u("User"),
        u("Date_Modified"),
        u("Name"),
        BLUE_TIME
    );
    assert_eq!(out, expected);
}

#[test]
fn a_header_alone() {
    let with_header = LongOpts { header: true, ..long_opts() };
    let out = view(Vec::new(), &opts(true, with_header), None);
    let u = |label: &str| format!("\u{1b}[4m{}\u{1b}[0m", label);
    assert_eq!(
        out,
        format!(
            "{} {} {} {} {}\n",
            u("Permissions"),
            u("Size"),
            u("User"),
            u("Date_Modified"),
            u("Name")
        )
    );
}

#[test]
fn group_and_links_add_their_columns() {
    let both = LongOpts { group: true, links: true, ..long_opts() };
    let out = view(vec![entry("notes.txt", FileType::File)], &opts(true, both), None);
    assert_eq!(out, format!("rw-r--r-- 2 1234 alice staff {} notes.txt\n", BLUE_TIME));
    let group = LongOpts { group: true, ..long_opts() };
    let out = view(vec![entry("notes.txt", FileType::File)], &opts(true, group), None);
    assert_eq!(out, format!("rw-r--r-- 1234 alice staff {} notes.txt\n", BLUE_TIME));
    let links = LongOpts { links: true, ..long_opts() };
    let out = view(vec![entry("notes.txt", FileType::File)], &opts(true, links), None);
    assert_eq!(out, format!("rw-r--r-- 2 1234 alice {} notes.txt\n", BLUE_TIME));
}

#[test]
fn the_columns_of_the_table() {
    let (perms, links, size, user) = (Column::Permissions, Column::Links, Column::Size, Column::User);
    let (group, modified, name) = (Column::Group, Column::Modified, Column::Name);
    let (inode, blocks) = (Column::Inode, Column::Blocks);
    let (accessed, created) = (Column::Accessed, Column::Created);
    assert_eq!(columns(&long_opts()), vec![perms, size, user, modified, name]);
    assert_eq!(
        columns(&LongOpts { links: true, ..long_opts() }),
        vec![perms, links, size, user, modified, name]
    );
    assert_eq!(
        columns(&LongOpts { group: true, ..long_opts() }),
        vec![perms, size, user, group, modified, name]
    );
    assert_eq!(
        columns(&LongOpts { inode: true, blocks: true, ..long_opts() }),
        vec![perms, inode, blocks, size, user, modified, name]
    );
    // The time that is listed comes first; a time asked for besides it
    // follows; the listed time is not shown twice.
    assert_eq!(
        columns(&LongOpts { accessed: true, ..long_opts() }),
        vec![perms, size, user, modified, accessed, name]
    );
    assert_eq!(
        columns(&LongOpts { modified: true, ..long_opts() }),
        vec![perms, size, user, modified, name]
    );
    assert_eq!(
        columns(&LongOpts { time: OptTime::Accessed, ..long_opts() }),
        vec![perms, size, user, accessed, name]
    );
    assert_eq!(
        columns(&LongOpts { time: OptTime::Created, modified: true, accessed: true, created: true, ..long_opts() }),
        vec![perms, size, user, created, modified, accessed, name]
    );
    let all = LongOpts {
        group: true,
        links: true,
        inode: true,
        blocks: true,
        modified: true,
        accessed: true,
        created: true,
        ..long_opts()
    };
    assert_eq!(
        columns(&all),
        vec![perms, links, inode, blocks, size, user, group, modified, accessed, created, name]
    );
}

#[test]
fn the_table_has_one_column_for_each_active_field() {
    for bits in 0u32..(1 << 7) {
        for time in vec![OptTime::Modified, OptTime::Accessed, OptTime::Created] {
            let opts = LongOpts {
                group: bits & 1 != 0,
                links: bits & 2 != 0,
                inode: bits & 4 != 0,
                blocks: bits & 8 != 0,
                modified: bits & 16 != 0,
                accessed: bits & 32 != 0,
                created: bits & 64 != 0,
                time,
                ..long_opts()
            };
            let all = columns(&opts);
            assert_eq!(all.len(), opts.active_count());
            assert_eq!(render_row(&entry("a", FileType::File), &all).len(), opts.active_count());
            assert_eq!(header_row(&all).len(), opts.active_count());
            assert_eq!(all[0], Column::Permissions);
            assert_eq!(all[all.len() - 1], Column::Name);
        }
    }
}

#[test]
fn every_active_field_is_shown() {
    let all = LongOpts {
        group: true,
        links: true,
        inode: true,
        blocks: true,
        modified: true,
        accessed: true,
        created: true,
        ..long_opts()
    };
    let blue = |text: &str| format!("\u{1b}[34m{}\u{1b}[0m", text);
    let out = view(vec![entry("notes.txt", FileType::File)], &opts(true, all), None);
    assert_eq!(
        out,
        format!(
            "rw-r--r-- 2 4711 8 1234 alice staff {} {} {} notes.txt\n",
            blue(" 5 Jan 14:03"),
            blue(" 6 Feb 15:04"),
            blue(" 4 Dec 13:02")
        )
    );
    // Six active fields, six columns: the accessed time stands beside the
    // modified time, and the name ends the row.
    let accessed = LongOpts { accessed: true, ..long_opts() };
    assert_eq!(accessed.active_count(), 6);
    let two = vec![entry("a", FileType::File), entry("b", FileType::File)];
    let out = view(two, &opts(true, accessed), None);
    let row = |name: &str| {
        format!("rw-r--r-- 1234 alice {} {} {}\n", blue(" 5 Jan 14:03"), blue(" 6 Feb 15:04"), name)
    };
    assert_eq!(out, format!("{}{}", row("a"), row("b")));
}

#[test]
fn the_listed_time_is_the_one_the_options_name() {
    let by_access = LongOpts { time: OptTime::Accessed, ..long_opts() };
    let out = view(vec![entry("a", FileType::File)], &opts(true, by_access), None);
    assert_eq!(out, "rw-r--r-- 1234 alice \u{1b}[34m 6 Feb 15:04\u{1b}[0m a\n");
    let with_header = LongOpts { time: OptTime::Created, header: true, ..long_opts() };
    let header = header_row(&columns(&with_header));
    assert_eq!(header[3].contents, "\u{1b}[4mDate_Created\u{1b}[0m");
}

#[test]
fn a_missing_time_of_access_is_a_dash() {
    let mut e = entry("a", FileType::File);
    e.accessed = None;
    let with_access = LongOpts { accessed: true, ..long_opts() };
    let out = view(vec![e], &opts(true, with_access), None);
    assert_eq!(out, "rw-r--r-- 1234 alice \u{1b}[34m 5 Jan 14:03\u{1b}[0m - a\n");
}

#[test]
fn a_missing_creation_time_is_a_dash() {
    let mut e = entry("a", FileType::File);
    e.created = None;
    let by_creation = LongOpts { time: OptTime::Created, ..long_opts() };
    let out = view(vec![e], &opts(true, by_creation), None);
    assert_eq!(out, "rw-r--r-- 1234 alice - a\n");
}

#[test]
fn a_name_is_as_wide_as_it_has_characters() {
    // Two names of one character each, two bytes each: both fit a budget
    // of seven with the five spaces between them.
    let two = vec![entry("\u{e9}", FileType::File), entry("\u{fc}", FileType::File)];
    let out = view(two, &opts(false, long_opts()), Some((7, 24)));
    assert_eq!(out, "\u{e9}     \u{fc}\n");
    let cells = render_names(&vec![entry("\u{e9}", FileType::Dir)]);
    assert_eq!(cells[0].width, 1);
}

#[test]
fn the_labels_of_the_columns() {
    assert_eq!(Column::Permissions.label_str(), "Permissions");
    assert_eq!(Column::Links.label_str(), "Links");
    assert_eq!(Column::Inode.label_str(), "Inode");
    assert_eq!(Column::Blocks.label_str(), "Blocks");
    assert_eq!(Column::Accessed.label_str(), "Date_Accessed");
    assert_eq!(Column::Created.label_str(), "Date_Created");
    assert_eq!(Column::Size.label_str(), "Size");
    assert_eq!(Column::User.label_str(), "User");
    assert_eq!(Column::Group.label_str(), "Group");
    assert_eq!(Column::Modified.label_str(), "Date_Modified");
    assert_eq!(Column::Name.label_str(), "Name");
}

#[test]
fn a_row_has_one_cell_for_each_column() {
    let all = columns(&LongOpts { group: true, links: true, ..long_opts() });
    let row = render_row(&entry("src", FileType::Dir), &all);
    let contents: Vec<&str> = row.iter().map(|c| c.contents.as_str()).collect();
    assert_eq!(contents, vec!["rw-r--r--", "2", "1234", "alice", "staff", BLUE_TIME, BLUE_SRC]);
    let widths: Vec<usize> = row.iter().map(|c| c.width).collect();
    assert_eq!(widths, vec![9, 1, 4, 5, 5, 12, 3]);
    assert_eq!(render_row(&entry("src", FileType::Dir), &Vec::new()).len(), 0);
}

#[test]
fn the_header_has_one_cell_for_each_column() {
    let all = columns(&LongOpts { group: true, links: true, ..long_opts() });
    let widths: Vec<usize> = header_row(&all).iter().map(|c| c.width).collect();
    assert_eq!(widths, vec![11, 5, 4, 4, 5, 13, 4]);
    for cell in header_row(&all) {
        assert!(cell.contents.starts_with("\u{1b}[4m"));
        assert!(cell.contents.ends_with("\u{1b}[0m"));
        assert_eq!(cell.contents.len(), cell.width + 8);
    }
}

#[test]
fn the_table_holds_the_rows_one_after_the_other() {
    let five = columns(&long_opts());
    let entries = three();
    let cells = render_table(&entries, &five, false);
    assert_eq!(cells.len(), 15);
    for (r, e) in entries.iter().enumerate() {
        assert_eq!(&cells[r * 5..r * 5 + 5], &render_row(e, &five)[..]);
    }
    let cells = render_table(&entries, &five, true);
    assert_eq!(cells.len(), 20);
    assert_eq!(&cells[0..5], &header_row(&five)[..]);
    assert_eq!(&cells[15..20], &render_row(&entries[2], &five)[..]);
    assert_eq!(render_table(&Vec::new(), &five, false).len(), 0);
}

#[test]
fn the_names_keep_their_order() {
    let cells = render_names(&three());
    let contents: Vec<&str> = cells.iter().map(|c| c.contents.as_str()).collect();
    assert_eq!(contents, vec![BLUE_SRC, "main.rs", CYAN_LINK]);
    let widths: Vec<usize> = cells.iter().map(|c| c.width).collect();
    assert_eq!(widths, vec![3, 7, 4]);
}

#[test]
fn the_spacings() {
    assert_eq!(NAME_SPACING, 5);
    assert_eq!(TABLE_SPACING, 1);
}
