//! What a listing shows: the fields of the entries rendered as cells, and
//! the cells packed into a grid of names or laid out as a table.

use vstd::prelude::*;

use crate::entry::{Entry, FileType, Permissions, Timestamp};
use crate::grid::{
    can_write, cell_views, chosen_columns, fit_into_columns, fit_into_width, widths_in,
    widths_of, written, Cell,
};
use crate::opts::{LongOpts, OptTime, Opts};
use crate::style::{
    filetype_decoration, filetype_style, is_rendering, painted, render, Colour, Style,
};
use crate::text::{decimal, decimal_string};

verus! {

/// One field of the listing, with the value it shows.
#[derive(Debug, Clone, PartialEq, Eq)]
pub enum StyleType {
    Header(String),
    Perm(Permissions),
    Size(u64),
    User(String),
    Group(String),
    Time(Timestamp),
    Name(String, FileType),
    Links(u64),
    Inode(u64),
    Blocks(u64),
    /// A field for which the entry has no value.
    Missing,
}

impl StyleType {
    /// The text of the field, before any styling: a size, a link count, an
    /// inode number and a number of blocks in decimal, the permissions as nine
    /// characters, a time in its local form, a dash for a missing value, and
    /// every other field as it is.
    pub open spec fn text(self) -> Seq<char> {
        match self {
            StyleType::Header(label) => label@,
            StyleType::Perm(permissions) => permissions.text(),
            StyleType::Size(size) => decimal(size as nat),
            StyleType::User(name) => name@,
            StyleType::Group(name) => name@,
            StyleType::Time(time) => time.local@,
            StyleType::Name(name, _) => name@,
            StyleType::Links(links) => decimal(links as nat),
            StyleType::Inode(inode) => decimal(inode as nat),
            StyleType::Blocks(blocks) => decimal(blocks as nat),
            StyleType::Missing => seq!['-'],
        }
    }

    /// The decoration of the field: a header is underlined, a time is blue,
    /// a name goes by the type of what it names, and nothing else is
    /// decorated.
    pub open spec fn decoration(self) -> Style {
        match self {
            StyleType::Header(_) => Style {
                foreground: None,
                is_bold: false,
                is_underline: true,
            },
            StyleType::Time(_) => Style {
                foreground: Some(Colour::Blue),
                is_bold: false,
                is_underline: false,
            },
            StyleType::Name(_, file_type) => filetype_decoration(file_type),
            _ => Style { foreground: None, is_bold: false, is_underline: false },
        }
    }
}

/// Renders one field as a cell.
pub fn style(st: StyleType) -> (cell: Cell)
    ensures
        is_rendering(st.text(), st.decoration(), cell),
        cell@ == styled(st.text(), st.decoration()),
        cell.width == st.text().len(),
        st.decoration().is_plain() ==> cell.contents@ == st.text(),
{
    let decoration = match &st {
        StyleType::Header(_) => Style::underlined(),
        StyleType::Time(_) => Style::normal(Colour::Blue),
        StyleType::Name(_, file_type) => filetype_style(file_type),
        _ => Style::plain(),
    };
    let text: String = match st {
        StyleType::Header(label) => label,
        StyleType::Perm(permissions) => permissions.to_string(),
        StyleType::Size(size) => decimal_string(size),
        StyleType::User(name) => name,
        StyleType::Group(name) => name,
        StyleType::Time(time) => time.local,
        StyleType::Name(name, _) => name,
        StyleType::Links(links) => decimal_string(links),
        StyleType::Inode(inode) => decimal_string(inode),
        StyleType::Blocks(blocks) => decimal_string(blocks),
        StyleType::Missing => {
            proof {
                reveal_strlit("-");
                assert("-"@ =~= seq!['-']);
            }
            String::from_str("-")
        },
    };
    render(text, &decoration)
}

/// The contents and width of the cell that a text in a style becomes.
pub open spec fn styled(text: Seq<char>, style: Style) -> (Seq<char>, nat) {
    (painted(style, text), text.len())
}

/// A column of the table.
#[derive(Debug, Clone, Copy, PartialEq, Eq, Structural)]
pub enum Column {
    Permissions,
    Links,
    Inode,
    Blocks,
    Size,
    User,
    Group,
    Modified,
    Accessed,
    Created,
    Name,
}

impl Column {
    /// The label above the column.
    pub open spec fn label(self) -> Seq<char> {
        match self {
            Column::Permissions => "Permissions"@,
            Column::Links => "Links"@,
            Column::Inode => "Inode"@,
            Column::Blocks => "Blocks"@,
            Column::Size => "Size"@,
            Column::User => "User"@,
            Column::Group => "Group"@,
            Column::Modified => "Date_Modified"@,
            Column::Accessed => "Date_Accessed"@,
            Column::Created => "Date_Created"@,
            Column::Name => "Name"@,
        }
    }

    pub fn label_str(self) -> (label: &'static str)
        ensures
            label@ == self.label(),
    {
        match self {
            Column::Permissions => "Permissions",
            Column::Links => "Links",
            Column::Inode => "Inode",
            Column::Blocks => "Blocks",
            Column::Size => "Size",
            Column::User => "User",
            Column::Group => "Group",
            Column::Modified => "Date_Modified",
            Column::Accessed => "Date_Accessed",
            Column::Created => "Date_Created",
            Column::Name => "Name",
        }
    }

    /// The field of an entry that the column shows.
    pub open spec fn text_of(self, entry: Entry) -> Seq<char> {
        match self {
            Column::Permissions => entry.permissions.text(),
            Column::Links => decimal(entry.num_hardlinks as nat),
            Column::Inode => decimal(entry.inode as nat),
            Column::Blocks => decimal(entry.blocks as nat),
            Column::Size => decimal(entry.size as nat),
            Column::User => entry.user@,
            Column::Group => entry.group@,
            Column::Modified => entry.modified.local@,
            Column::Accessed => match entry.accessed {
                Some(time) => time.local@,
                None => seq!['-'],
            },
            Column::Created => match entry.created {
                Some(time) => time.local@,
                None => seq!['-'],
            },
            Column::Name => entry.name@,
        }
    }

    /// The decoration of the column's cell for an entry.
    pub open spec fn decoration_of(self, entry: Entry) -> Style {
        match self {
            Column::Modified => Style {
                foreground: Some(Colour::Blue),
                is_bold: false,
                is_underline: false,
            },
            Column::Accessed => if entry.accessed is Some {
                Style { foreground: Some(Colour::Blue), is_bold: false, is_underline: false }
            } else {
                Style { foreground: None, is_bold: false, is_underline: false }
            },
            Column::Created => if entry.created is Some {
                Style { foreground: Some(Colour::Blue), is_bold: false, is_underline: false }
            } else {
                Style { foreground: None, is_bold: false, is_underline: false }
            },
            Column::Name => filetype_decoration(entry.file_type),
            _ => Style { foreground: None, is_bold: false, is_underline: false },
        }
    }

    /// Takes from an entry the field that the column shows.
    pub fn field(self, entry: &Entry) -> (st: StyleType)
        ensures
            st.text() == self.text_of(*entry),
            st.decoration() == self.decoration_of(*entry),
    {
        match self {
            Column::Permissions => StyleType::Perm(entry.permissions),
            Column::Links => StyleType::Links(entry.num_hardlinks),
            Column::Inode => StyleType::Inode(entry.inode),
            Column::Blocks => StyleType::Blocks(entry.blocks),
            Column::Size => StyleType::Size(entry.size),
            Column::User => StyleType::User(entry.user.clone()),
            Column::Group => StyleType::Group(entry.group.clone()),
            Column::Modified => StyleType::Time(copy_time(&entry.modified)),
            Column::Accessed => match &entry.accessed {
                Some(time) => StyleType::Time(copy_time(time)),
                None => StyleType::Missing,
            },
            Column::Created => match &entry.created {
                Some(time) => StyleType::Time(copy_time(time)),
                None => StyleType::Missing,
            },
            Column::Name => StyleType::Name(entry.name.clone(), entry.file_type),
        }
    }
}

/// A copy of a timestamp.
fn copy_time(time: &Timestamp) -> (copy: Timestamp)
    ensures
        copy@ == time@,
{
    Timestamp { secs: time.secs, nanos: time.nanos, local: time.local.clone() }
}

/// The column `column` where it is asked for, and no column where not.
pub open spec fn where_asked(asked: bool, column: Column) -> Seq<Column> {
    if asked {
        seq![column]
    } else {
        Seq::<Column>::empty()
    }
}

/// The column of the time that the options list.
pub open spec fn listed_time(time: OptTime) -> Column {
    match time {
        OptTime::Modified => Column::Modified,
        OptTime::Accessed => Column::Accessed,
        OptTime::Created => Column::Created,
    }
}

/// The columns of the table, one for each active field, in their order
/// from left to right: the permissions; the link count, the inode number and
/// the number of blocks where asked for; the size and the user; the group
/// where asked for; the time that the options list; each of the modified,
/// accessed and created times that is asked for and is not the time listed;
/// and the name.
pub open spec fn table_columns(opts: LongOpts) -> Seq<Column> {
    seq![Column::Permissions] + where_asked(opts.links, Column::Links) + where_asked(
        opts.inode,
        Column::Inode,
    ) + where_asked(opts.blocks, Column::Blocks) + seq![Column::Size, Column::User]
        + where_asked(opts.group, Column::Group) + seq![listed_time(opts.time)] + where_asked(
        opts.modified && opts.time != OptTime::Modified,
        Column::Modified,
    ) + where_asked(opts.accessed && opts.time != OptTime::Accessed, Column::Accessed)
        + where_asked(opts.created && opts.time != OptTime::Created, Column::Created)
        + seq![Column::Name]
}

/// The table has one column for each active field.
pub proof fn lemma_table_columns_len(opts: LongOpts)
    ensures
        table_columns(opts).len() == opts.active_fields(),
{
}

/// The columns of the table for the given options: as many as there are
/// active fields.
#[verifier::rlimit(50)]
pub fn columns(opts: &LongOpts) -> (columns: Vec<Column>)
    ensures
        columns@ == table_columns(*opts),
        columns.len() == opts.active_fields(),
{
    let (listed, more_modified, more_accessed, more_created) = match opts.time {
        OptTime::Modified => (Column::Modified, false, opts.accessed, opts.created),
        OptTime::Accessed => (Column::Accessed, opts.modified, false, opts.created),
        OptTime::Created => (Column::Created, opts.modified, opts.accessed, false),
    };
    let mut columns: Vec<Column> = Vec::new();
    columns.push(Column::Permissions);
    let ghost first = seq![Column::Permissions];
    assert(columns@ =~= first);
    push_where_asked(&mut columns, opts.links, Column::Links);
    push_where_asked(&mut columns, opts.inode, Column::Inode);
    push_where_asked(&mut columns, opts.blocks, Column::Blocks);
    let ghost numbers = first + where_asked(opts.links, Column::Links) + where_asked(
        opts.inode,
        Column::Inode,
    ) + where_asked(opts.blocks, Column::Blocks);
    assert(columns@ == numbers);
    columns.push(Column::Size);
    columns.push(Column::User);
    assert(columns@ =~= numbers + seq![Column::Size, Column::User]);
    push_where_asked(&mut columns, opts.group, Column::Group);
    let ghost owners = numbers + seq![Column::Size, Column::User] + where_asked(
        opts.group,
        Column::Group,
    );
    assert(columns@ == owners);
    columns.push(listed);
    assert(columns@ =~= owners + seq![listed_time(opts.time)]);
    push_where_asked(&mut columns, more_modified, Column::Modified);
    push_where_asked(&mut columns, more_accessed, Column::Accessed);
    push_where_asked(&mut columns, more_created, Column::Created);
    let ghost times = owners + seq![listed_time(opts.time)] + where_asked(
        more_modified,
        Column::Modified,
    ) + where_asked(more_accessed, Column::Accessed) + where_asked(more_created, Column::Created);
    assert(columns@ == times);
    columns.push(Column::Name);
    assert(columns@ =~= times + seq![Column::Name]);
    assert(times + seq![Column::Name] == table_columns(*opts));
    proof {
        lemma_table_columns_len(*opts);
    }
    columns
}

fn push_where_asked(columns: &mut Vec<Column>, asked: bool, column: Column)
    ensures
        final(columns)@ == old(columns)@ + where_asked(asked, column),
{
    if asked {
        columns.push(column);
    }
    assert(columns@ =~= old(columns)@ + where_asked(asked, column));
}

/// The cells of the header row: the label of each column, underlined.
pub open spec fn header_cells(columns: Seq<Column>) -> Seq<(Seq<char>, nat)> {
    Seq::new(
        columns.len(),
        |c: int|
            styled(columns[c].label(), Style { foreground: None, is_bold: false, is_underline: true }),
    )
}

/// The cells of the row of one entry: for each column the entry's field,
/// rendered.
pub open spec fn row_cells(entry: Entry, columns: Seq<Column>) -> Seq<(Seq<char>, nat)> {
    Seq::new(
        columns.len(),
        |c: int| styled(columns[c].text_of(entry), columns[c].decoration_of(entry)),
    )
}

/// The rows of the entries one after the other, in the entries' order.
pub open spec fn rows_cells(entries: Seq<Entry>, columns: Seq<Column>) -> Seq<(Seq<char>, nat)>
    decreases entries.len(),
{
    if entries.len() == 0 {
        Seq::<(Seq<char>, nat)>::empty()
    } else {
        rows_cells(entries.drop_last(), columns) + row_cells(entries.last(), columns)
    }
}

/// The cells of the table: the header row if there is one, then one row
/// for each entry.
pub open spec fn table_cells(entries: Seq<Entry>, columns: Seq<Column>, header: bool) -> Seq<
    (Seq<char>, nat),
> {
    (if header {
        header_cells(columns)
    } else {
        Seq::<(Seq<char>, nat)>::empty()
    }) + rows_cells(entries, columns)
}

/// The rows of `entries` hold one cell for each column and entry.
pub proof fn lemma_rows_cells_len(entries: Seq<Entry>, columns: Seq<Column>)
    ensures
        rows_cells(entries, columns).len() == entries.len() * columns.len(),
    decreases entries.len(),
{
    if entries.len() > 0 {
        lemma_rows_cells_len(entries.drop_last(), columns);
        assert(entries.len() * columns.len() == (entries.len() - 1) * columns.len()
            + columns.len()) by (nonlinear_arith);
    } else {
        assert(entries.len() * columns.len() == 0) by (nonlinear_arith)
            requires
                entries.len() == 0,
        ;
    }
}

/// In the rows of `entries`, the cell of entry `r` in column `c` stands at
/// `r * columns.len() + c` and is that entry's field for that column.
pub proof fn lemma_rows_cells_index(entries: Seq<Entry>, columns: Seq<Column>, r: int, c: int)
    requires
        0 <= r < entries.len(),
        0 <= c < columns.len(),
    ensures
        0 <= r * columns.len() + c < rows_cells(entries, columns).len(),
        rows_cells(entries, columns)[r * columns.len() + c] == styled(
            columns[c].text_of(entries[r]),
            columns[c].decoration_of(entries[r]),
        ),
    decreases entries.len(),
{
    let before = entries.drop_last();
    lemma_rows_cells_len(entries, columns);
    lemma_rows_cells_len(before, columns);
    assert(0 <= r * columns.len() + c < entries.len() * columns.len()) by (nonlinear_arith)
        requires
            0 <= r < entries.len(),
            0 <= c < columns.len(),
    ;
    if r == entries.len() - 1 {
        assert(r * columns.len() + c - before.len() * columns.len() == c) by (nonlinear_arith)
            requires
                r == before.len(),
        ;
    } else {
        lemma_rows_cells_index(before, columns, r, c);
    }
}

/// A cell put behind the first `c` cells of a target gives its first
/// `c + 1` cells, where the cell is the target's cell at `c`.
proof fn lemma_push_cell(cells: Seq<Cell>, cell: Cell, target: Seq<(Seq<char>, nat)>, c: int)
    requires
        0 <= c < target.len(),
        cell_views(cells) == target.take(c),
        cell@ == target[c],
    ensures
        cell_views(cells.push(cell)) == target.take(c + 1),
{
    assert(cell_views(cells).len() == c);
    assert forall|k: int| 0 <= k < c + 1 implies cell_views(cells.push(cell))[k] == target.take(
        c + 1,
    )[k] by {
        if k < c {
            assert(cell_views(cells)[k] == target.take(c)[k]);
        }
    }
    assert(cell_views(cells.push(cell)) =~= target.take(c + 1));
}

/// Renders the header row.
pub fn header_row(columns: &Vec<Column>) -> (cells: Vec<Cell>)
    ensures
        cell_views(cells@) == header_cells(columns@),
{
    let mut cells: Vec<Cell> = Vec::new();
    let mut c: usize = 0;
    while c < columns.len()
        invariant
            c <= columns.len(),
            cell_views(cells@) == header_cells(columns@).take(c as int),
        decreases columns.len() - c,
    {
        let label = String::from_str(columns[c].label_str());
        let cell = style(StyleType::Header(label));
        proof {
            lemma_push_cell(cells@, cell, header_cells(columns@), c as int);
        }
        cells.push(cell);
        c = c + 1;
    }
    assert(header_cells(columns@).take(c as int) =~= header_cells(columns@));
    cells
}

/// Renders the row of one entry.
pub fn render_row(entry: &Entry, columns: &Vec<Column>) -> (cells: Vec<Cell>)
    ensures
        cell_views(cells@) == row_cells(*entry, columns@),
{
    let mut cells: Vec<Cell> = Vec::new();
    let mut c: usize = 0;
    while c < columns.len()
        invariant
            c <= columns.len(),
            cell_views(cells@) == row_cells(*entry, columns@).take(c as int),
        decreases columns.len() - c,
    {
        let cell = style(columns[c].field(entry));
        proof {
            lemma_push_cell(cells@, cell, row_cells(*entry, columns@), c as int);
        }
        cells.push(cell);
        c = c + 1;
    }
    assert(row_cells(*entry, columns@).take(c as int) =~= row_cells(*entry, columns@));
    cells
}

/// Renders the table: the header row if asked for, then one row for each
/// entry, each row with one cell for each column, in the columns' order.
pub fn render_table(entries: &Vec<Entry>, columns: &Vec<Column>, header: bool) -> (cells: Vec<Cell>)
    ensures
        cell_views(cells@) == table_cells(entries@, columns@, header),
{
    let mut cells: Vec<Cell> = if header {
        header_row(columns)
    } else {
        Vec::new()
    };
    let ghost head = cell_views(cells@);
    assert(head =~= if header {
        header_cells(columns@)
    } else {
        Seq::<(Seq<char>, nat)>::empty()
    });
    assert(entries@.take(0) =~= Seq::<Entry>::empty());
    let mut r: usize = 0;
    while r < entries.len()
        invariant
            r <= entries.len(),
            cell_views(cells@) == head + rows_cells(entries@.take(r as int), columns@),
        decreases entries.len() - r,
    {
        let mut row = render_row(&entries[r], columns);
        let ghost before = cells@;
        let ghost added = row@;
        cells.append(&mut row);
        r = r + 1;
        proof {
            assert(cell_views(before + added) =~= cell_views(before) + cell_views(added));
            assert(entries@.take(r as int).drop_last() =~= entries@.take(r - 1));
            assert(entries@.take(r as int).last() == entries@[r - 1]);
            assert(cell_views(cells@) =~= head + rows_cells(entries@.take(r as int), columns@));
        }
    }
    assert(entries@.take(r as int) =~= entries@);
    cells
}

/// The cells of the names: each entry's name, decorated by its type.
pub open spec fn name_cells(entries: Seq<Entry>) -> Seq<(Seq<char>, nat)> {
    Seq::new(
        entries.len(),
        |i: int| styled(entries[i].name@, filetype_decoration(entries[i].file_type)),
    )
}

/// Renders the name of each entry.
pub fn render_names(entries: &Vec<Entry>) -> (cells: Vec<Cell>)
    ensures
        cell_views(cells@) == name_cells(entries@),
{
    let mut cells: Vec<Cell> = Vec::new();
    let mut i: usize = 0;
    while i < entries.len()
        invariant
            i <= entries.len(),
            cell_views(cells@) == name_cells(entries@).take(i as int),
        decreases entries.len() - i,
    {
        let cell = style(StyleType::Name(entries[i].name.clone(), entries[i].file_type));
        proof {
            lemma_push_cell(cells@, cell, name_cells(entries@), i as int);
        }
        cells.push(cell);
        i = i + 1;
    }
    assert(name_cells(entries@).take(i as int) =~= name_cells(entries@));
    cells
}

/// The spacing between the columns of names.
pub const NAME_SPACING: usize = 5;

/// The spacing between the columns of the table.
pub const TABLE_SPACING: usize = 1;

/// The width budget where the terminal's width is not known or is zero.
pub const DEFAULT_WIDTH: usize = 80;

/// The width budget for a terminal of the given dimensions, width first:
/// the terminal's width, and the default where there is none or it is zero.
pub open spec fn budget(term_dims: Option<(usize, usize)>) -> usize {
    match term_dims {
        Some((width, _)) => if width == 0 {
            DEFAULT_WIDTH
        } else {
            width
        },
        None => DEFAULT_WIDTH,
    }
}

/// The width budget for a terminal of the given dimensions.
pub fn term_width(term_dims: Option<(usize, usize)>) -> (width: usize)
    ensures
        width == budget(term_dims),
        width > 0,
{
    match term_dims {
        Some((width, _)) => if width == 0 {
            DEFAULT_WIDTH
        } else {
            width
        },
        None => DEFAULT_WIDTH,
    }
}

/// The text of the names: the names' cells in the largest number of
/// columns that a line of `max_width` holds, five spaces apart.
pub open spec fn names_text(entries: Seq<Entry>, max_width: nat) -> Seq<char> {
    let cells = name_cells(entries);
    written(
        cells,
        NAME_SPACING as nat,
        chosen_columns(widths_in(cells), NAME_SPACING as nat, max_width),
    )
}

/// The text of the table: the table's cells in as many columns as there
/// are active fields, one space apart; nothing where that cannot be written
/// out.
pub open spec fn table_text(entries: Seq<Entry>, opts: LongOpts) -> Seq<char> {
    let cells = table_cells(entries, table_columns(opts), opts.header);
    if can_write(widths_in(cells), TABLE_SPACING as nat, opts.active_fields()) {
        written(cells, TABLE_SPACING as nat, opts.active_fields())
    } else {
        Seq::<char>::empty()
    }
}

/// What a listing shows: the table where the options ask for the long
/// form, else the names packed into the terminal's width.
pub open spec fn view_text(entries: Seq<Entry>, opts: Opts, term_dims: Option<(usize, usize)>) -> Seq<
    char,
> {
    if opts.display_ops.long {
        table_text(entries, opts.display_ops.long_options)
    } else {
        names_text(entries, budget(term_dims) as nat)
    }
}

/// Lays the entries out as the options ask and returns the text to print.
/// `term_dims` holds the terminal's width and height where they are known.
pub fn view(data: Vec<Entry>, opts: &Opts, term_dims: Option<(usize, usize)>) -> (out: String)
    ensures
        out@ == view_text(data@, *opts, term_dims),
        data.len() == 0 && !(opts.display_ops.long && opts.display_ops.long_options.header)
            ==> out@.len() == 0,
{
    if opts.display_ops.long {
        let long_opts = &opts.display_ops.long_options;
        let columns = columns(long_opts);
        let cells = render_table(&data, &columns, long_opts.header);
        proof {
            assert(widths_of(cells@) =~= widths_in(cell_views(cells@)));
            if data.len() == 0 && !long_opts.header {
                assert(cell_views(cells@).len() == 0);
            }
        }
        let grid = fit_into_columns(cells, long_opts.active_count(), TABLE_SPACING);
        match grid.render() {
            Some(text) => text,
            None => String::new(),
        }
    } else {
        let width = term_width(term_dims);
        let cells = render_names(&data);
        proof {
            assert(widths_of(cells@) =~= widths_in(cell_views(cells@)));
        }
        match fit_into_width(cells, width, NAME_SPACING) {
            Ok(grid) => match grid.render() {
                Some(text) => text,
                None => String::new(),
            },
            Err(_) => String::new(),
        }
    }
}

} // verus!
