//! Rendering the buckets into a spreadsheet workbook.
//!
//! The workbook and worksheet objects come from the `rust_xlsxwriter`
//! crate and are opaque here. The library tracks their contents through
//! named models — the worksheet's name, its string cells, its explicitly
//! formatted cells and its hyperlink cells — and drives every write from
//! the verified layout of `sheet`.

use vstd::prelude::*;

use crate::record::{InvoiceRecord, RecordView};
use crate::sheet::{
    header_titles, record_row, spec_cell_views, spec_header_titles, spec_record_row,
    spec_workbook_sheet_names, SheetCell, SheetCellView,
};

verus! {

#[verifier::external_type_specification]
#[verifier::external_body]
pub struct ExWorkbook(rust_xlsxwriter::Workbook);

#[verifier::external_type_specification]
#[verifier::external_body]
pub struct ExWorksheet(rust_xlsxwriter::Worksheet);

#[verifier::external_type_specification]
#[verifier::external_body]
pub struct ExFormat(rust_xlsxwriter::Format);

#[verifier::external_type_specification]
#[verifier::external_body]
pub struct ExXlsxError(rust_xlsxwriter::XlsxError);

/// The worksheet names a workbook holds, in insertion order.
pub uninterp spec fn wb_sheet_names(workbook: rust_xlsxwriter::Workbook) -> Seq<Seq<char>>;

/// The name a worksheet carries.
pub uninterp spec fn ws_name(worksheet: rust_xlsxwriter::Worksheet) -> Seq<char>;

/// The text shown in each written cell of a worksheet, keyed by (row, column).
pub uninterp spec fn ws_strings(worksheet: rust_xlsxwriter::Worksheet) -> Map<
    (u32, u16),
    Seq<char>,
>;

/// The (bold, background RGB) pair of each cell written with an explicit
/// format, keyed by (row, column).
pub uninterp spec fn ws_formats(worksheet: rust_xlsxwriter::Worksheet) -> Map<
    (u32, u16),
    (bool, Option<u32>),
>;

/// The hyperlink target stored at each hyperlink cell, keyed by (row, column).
pub uninterp spec fn ws_links(worksheet: rust_xlsxwriter::Worksheet) -> Map<
    (u32, u16),
    Seq<char>,
>;

/// Whether a format has the bold property set.
pub uninterp spec fn spec_format_bold(format: rust_xlsxwriter::Format) -> bool;

/// The RGB background color a format carries, if one was set.
pub uninterp spec fn spec_format_background(format: rust_xlsxwriter::Format) -> Option<u32>;

/// The link target the spreadsheet library stores for a URL: the URL after
/// its escaping and anchor handling, a function of the URL text alone.
pub uninterp spec fn xlsx_url_target(url: Seq<char>) -> Seq<char>;

/// Whether a hyperlink write with this URL and this (non-empty) label
/// succeeds once the cell is in range: the URL parses as a link and the
/// lengths pass the library's limits. A function of the two strings alone.
pub uninterp spec fn url_write_ok(url: Seq<char>, text: Seq<char>) -> bool;

/// Whether assembling this workbook into xlsx bytes succeeds: a function
/// of the workbook's contents.
pub uninterp spec fn save_ok(workbook: rust_xlsxwriter::Workbook) -> bool;

/// An empty map of cell text.
pub open spec fn no_cells() -> Map<(u32, u16), Seq<char>> {
    Map::empty()
}

/// An empty map of cell formats.
pub open spec fn no_formats() -> Map<(u32, u16), (bool, Option<u32>)> {
    Map::empty()
}

/// An error raised by the spreadsheet library.
#[derive(Debug)]
pub struct WorkbookError {
    pub inner: rust_xlsxwriter::XlsxError,
}

/// A name the spreadsheet library accepts for a worksheet: non-empty, at
/// most 31 characters, no `* ? : [ ] \ /`, and no apostrophe at either end.
pub open spec fn valid_sheet_name(name: Seq<char>) -> bool {
    &&& 0 < name.len() <= 31
    &&& forall|i: int|
        0 <= i < name.len() ==> {
            &&& #[trigger] name[i] != '*'
            &&& name[i] != '?'
            &&& name[i] != ':'
            &&& name[i] != '['
            &&& name[i] != ']'
            &&& name[i] != '\\'
            &&& name[i] != '/'
        }
    &&& name[0] != '\''
    &&& name[name.len() - 1] != '\''
}

/// Relies on `Workbook::new`: a new workbook holds no worksheets.
#[verifier::external_body]
fn wb_new() -> (r: rust_xlsxwriter::Workbook)
    ensures
        wb_sheet_names(r) == Seq::<Seq<char>>::empty(),
{
    rust_xlsxwriter::Workbook::new()
}

/// Relies on `Worksheet::new`: a fresh worksheet has an empty name, no
/// cells and no hyperlinks.
#[verifier::external_body]
fn ws_new() -> (r: rust_xlsxwriter::Worksheet)
    ensures
        ws_name(r) == Seq::<char>::empty(),
        ws_strings(r) == no_cells(),
        ws_formats(r) == no_formats(),
        ws_links(r) == no_cells(),
{
    rust_xlsxwriter::Worksheet::new()
}

/// Relies on `Worksheet::set_name`: it stores the name exactly when the
/// name passes the validation spelled out in `valid_sheet_name`, touches
/// nothing else, and leaves the worksheet untouched on error.
#[verifier::external_body]
fn ws_set_name(worksheet: &mut rust_xlsxwriter::Worksheet, name: &str) -> (r: Result<
    (),
    rust_xlsxwriter::XlsxError,
>)
    ensures
        r is Ok <==> valid_sheet_name(name@),
        r is Ok ==> ws_name(*final(worksheet)) == name@,
        r is Err ==> ws_name(*final(worksheet)) == ws_name(*old(worksheet)),
        ws_strings(*final(worksheet)) == ws_strings(*old(worksheet)),
        ws_formats(*final(worksheet)) == ws_formats(*old(worksheet)),
        ws_links(*final(worksheet)) == ws_links(*old(worksheet)),
{
    match worksheet.set_name(name) {
        Ok(_) => Ok(()),
        Err(e) => Err(e),
    }
}

/// Relies on `Worksheet::write_string`: an empty text is ignored; otherwise
/// it succeeds exactly when the cell is in range and the text at most
/// 32767 characters, storing the text and resetting any explicit format of
/// the cell. Hyperlinks and the name are untouched.
#[verifier::external_body]
fn ws_write_string(
    worksheet: &mut rust_xlsxwriter::Worksheet,
    row: u32,
    col: u16,
    text: &str,
) -> (r: Result<(), rust_xlsxwriter::XlsxError>)
    ensures
        ws_name(*final(worksheet)) == ws_name(*old(worksheet)),
        ws_links(*final(worksheet)) == ws_links(*old(worksheet)),
        r is Ok <==> (text@.len() == 0 || (row < 1048576 && col < 16384 && text@.len()
            <= 32767)),
        r is Ok && text@.len() > 0 ==> ws_strings(*final(worksheet)) == ws_strings(
            *old(worksheet),
        ).insert((row, col), text@) && ws_formats(*final(worksheet)) == ws_formats(
            *old(worksheet),
        ).remove((row, col)),
        r is Err || text@.len() == 0 ==> ws_strings(*final(worksheet)) == ws_strings(
            *old(worksheet),
        ) && ws_formats(*final(worksheet)) == ws_formats(*old(worksheet)),
{
    match worksheet.write_string(row, col, text) {
        Ok(_) => Ok(()),
        Err(e) => Err(e),
    }
}

/// Relies on `Worksheet::write_string_with_format`: it succeeds exactly
/// when the cell is in range and the text at most 32767 characters; it
/// stores the text (a blank cell for empty text) with the format's
/// properties. Hyperlinks and the name are untouched.
#[verifier::external_body]
fn ws_write_string_with_format(
    worksheet: &mut rust_xlsxwriter::Worksheet,
    row: u32,
    col: u16,
    text: &str,
    format: &rust_xlsxwriter::Format,
) -> (r: Result<(), rust_xlsxwriter::XlsxError>)
    ensures
        ws_name(*final(worksheet)) == ws_name(*old(worksheet)),
        ws_links(*final(worksheet)) == ws_links(*old(worksheet)),
        r is Ok <==> (row < 1048576 && col < 16384 && text@.len() <= 32767),
        r is Ok && text@.len() > 0 ==> ws_strings(*final(worksheet)) == ws_strings(
            *old(worksheet),
        ).insert((row, col), text@),
        r is Ok && text@.len() == 0 ==> ws_strings(*final(worksheet)) == ws_strings(
            *old(worksheet),
        ).remove((row, col)),
        r is Ok ==> ws_formats(*final(worksheet)) == ws_formats(*old(worksheet)).insert(
            (row, col),
            (spec_format_bold(*format), spec_format_background(*format)),
        ),
        r is Err ==> ws_strings(*final(worksheet)) == ws_strings(*old(worksheet)) && ws_formats(
            *final(worksheet),
        ) == ws_formats(*old(worksheet)),
{
    match worksheet.write_string_with_format(row, col, text, format) {
        Ok(_) => Ok(()),
        Err(e) => Err(e),
    }
}

/// Relies on `Worksheet::write_url_with_text`: with a non-empty label it
/// succeeds exactly when the cell is in range and `url_write_ok` holds of
/// the URL and label; it then stores the label as the cell text (with the
/// library's hyperlink format) and the processed URL as the cell's link.
/// The name is untouched, and nothing changes on error.
#[verifier::external_body]
fn ws_write_url_with_text(
    worksheet: &mut rust_xlsxwriter::Worksheet,
    row: u32,
    col: u16,
    url: &str,
    text: &str,
) -> (r: Result<(), rust_xlsxwriter::XlsxError>)
    requires
        text@.len() > 0,
    ensures
        ws_name(*final(worksheet)) == ws_name(*old(worksheet)),
        r is Ok <==> (row < 1048576 && col < 16384 && url_write_ok(url@, text@)),
        r is Ok ==> ws_strings(*final(worksheet)) == ws_strings(*old(worksheet)).insert(
            (row, col),
            text@,
        ),
        r is Ok ==> ws_links(*final(worksheet)) == ws_links(*old(worksheet)).insert(
            (row, col),
            xlsx_url_target(url@),
        ),
        r is Ok ==> exists|p: (bool, Option<u32>)|
            ws_formats(*final(worksheet)) == #[trigger] ws_formats(*old(worksheet)).insert(
                (row, col),
                p,
            ),
        r is Err ==> ws_strings(*final(worksheet)) == ws_strings(*old(worksheet)) && ws_formats(
            *final(worksheet),
        ) == ws_formats(*old(worksheet)) && ws_links(*final(worksheet)) == ws_links(
            *old(worksheet),
        ),
{
    match worksheet.write_url_with_text(row, col, url, text) {
        Ok(_) => Ok(()),
        Err(e) => Err(e),
    }
}

/// Relies on `Worksheet::autofit`: it only adjusts column widths; the
/// name, the cells and the hyperlinks are untouched.
#[verifier::external_body]
fn ws_autofit(worksheet: &mut rust_xlsxwriter::Worksheet)
    ensures
        ws_name(*final(worksheet)) == ws_name(*old(worksheet)),
        ws_strings(*final(worksheet)) == ws_strings(*old(worksheet)),
        ws_formats(*final(worksheet)) == ws_formats(*old(worksheet)),
        ws_links(*final(worksheet)) == ws_links(*old(worksheet)),
{
    worksheet.autofit();
}

/// Relies on `Workbook::push_worksheet`: it appends the worksheet, keeping
/// its name as long as that name is non-empty.
#[verifier::external_body]
fn wb_push_worksheet(workbook: &mut rust_xlsxwriter::Workbook, worksheet: rust_xlsxwriter::Worksheet)
    requires
        ws_name(worksheet).len() > 0,
    ensures
        wb_sheet_names(*final(workbook)) == wb_sheet_names(*old(workbook)).push(
            ws_name(worksheet),
        ),
{
    workbook.push_worksheet(worksheet)
}

/// Relies on `Workbook::save_to_buffer`: it assembles the workbook into
/// xlsx bytes in memory, succeeding exactly when the workbook's contents
/// pass the library's validation (`save_ok`). Nothing is assumed of the
/// bytes, which carry clock-derived metadata.
#[verifier::external_body]
fn wb_save_to_buffer(workbook: &mut rust_xlsxwriter::Workbook) -> (r: Result<
    Vec<u8>,
    rust_xlsxwriter::XlsxError,
>)
    ensures
        r is Ok <==> save_ok(*old(workbook)),
{
    workbook.save_to_buffer()
}

/// Relies on `Format::new`: a fresh format is not bold and carries no
/// background color.
#[verifier::external_body]
fn format_new() -> (r: rust_xlsxwriter::Format)
    ensures
        !spec_format_bold(r),
        spec_format_background(r) is None,
{
    rust_xlsxwriter::Format::new()
}

/// Relies on `Format::set_bold`: it sets the bold property and nothing else.
#[verifier::external_body]
fn format_set_bold(format: rust_xlsxwriter::Format) -> (r: rust_xlsxwriter::Format)
    ensures
        spec_format_bold(r),
        spec_format_background(r) == spec_format_background(format),
{
    format.set_bold()
}

/// Relies on `Format::set_background_color` with `Color::RGB`: a value in
/// the RGB range is stored as the background; the bold property is kept.
#[verifier::external_body]
fn format_set_background_rgb(format: rust_xlsxwriter::Format, rgb: u32) -> (r:
    rust_xlsxwriter::Format)
    requires
        rgb <= 0xFFFFFF,
    ensures
        spec_format_background(r) == Some(rgb),
        spec_format_bold(r) == spec_format_bold(format),
{
    format.set_background_color(rust_xlsxwriter::Color::RGB(rgb))
}

/// The background of the header row: light gray.
pub const HEADER_BACKGROUND_RGB: u32 = 0xD3D3D3;

/// The map key of the cell at `row`, `col`.
pub open spec fn cell_key(row: int, col: int) -> (u32, u16) {
    (row as u32, col as u16)
}

/// Header cell `c` holds its column title, bold on the light-gray background.
pub open spec fn header_cell_ok(
    strings: Map<(u32, u16), Seq<char>>,
    formats: Map<(u32, u16), (bool, Option<u32>)>,
    c: int,
) -> bool {
    &&& strings.contains_pair(cell_key(0, c), spec_header_titles()[c])
    &&& formats.contains_pair(cell_key(0, c), (true, Some(HEADER_BACKGROUND_RGB)))
}

/// The worksheet cell at (`row`, `col`) realizes the laid-out cell: text
/// cells hold their text (an empty text leaves the cell unwritten),
/// hyperlink cells hold their label as text and their processed URL as the
/// link, and empty cells are unwritten.
pub open spec fn cell_laid_out(
    strings: Map<(u32, u16), Seq<char>>,
    links: Map<(u32, u16), Seq<char>>,
    row: int,
    col: int,
    cell: SheetCellView,
) -> bool {
    match cell {
        SheetCellView::Empty => !strings.dom().contains(cell_key(row, col))
            && !links.dom().contains(cell_key(row, col)),
        SheetCellView::Text(t) => {
            &&& if t.len() == 0 {
                !strings.dom().contains(cell_key(row, col))
            } else {
                strings.contains_pair(cell_key(row, col), t)
            }
            &&& !links.dom().contains(cell_key(row, col))
        },
        SheetCellView::Hyperlink { url, label } => {
            &&& strings.contains_pair(cell_key(row, col), label)
            &&& links.contains_pair(cell_key(row, col), xlsx_url_target(url))
        },
    }
}

/// Every record row of the bucket is laid out at its row, one row per
/// record, starting under the header.
pub open spec fn sheet_cells_laid_out(
    strings: Map<(u32, u16), Seq<char>>,
    links: Map<(u32, u16), Seq<char>>,
    data: Seq<InvoiceRecord>,
) -> bool {
    forall|i: int, c: int|
        0 <= i < data.len() && 0 <= c < 9 ==> cell_laid_out(
            strings,
            links,
            i + 1,
            c,
            #[trigger] spec_record_row(data[i]@)[c],
        )
}

/// One laid-out cell can be written: its text fits the library's limit and
/// its URL, if any, is accepted.
pub open spec fn cell_writable(cell: SheetCellView) -> bool {
    match cell {
        SheetCellView::Empty => true,
        SheetCellView::Text(t) => t.len() <= 32767,
        SheetCellView::Hyperlink { url, label } => url_write_ok(url, label),
    }
}

/// Every cell of the record's row can be written.
pub open spec fn record_writable(record: RecordView) -> bool {
    forall|c: int| 0 <= c < 9 ==> cell_writable(#[trigger] spec_record_row(record)[c])
}

/// Every record of the bucket can be written.
pub open spec fn bucket_writable(data: Seq<InvoiceRecord>) -> bool {
    forall|i: int| 0 <= i < data.len() ==> record_writable(#[trigger] data[i]@)
}

/// The header titles are short and non-empty, within every cell limit.
proof fn lemma_header_title_lens()
    ensures
        forall|t: int| 0 <= t < 9 ==> 0 < (#[trigger] spec_header_titles()[t]).len() <= 12,
{
    reveal_strlit("Title");
    reveal_strlit("Counterparty");
    reveal_strlit("Date");
    reveal_strlit("Type");
    reveal_strlit("Amount");
    reveal_strlit("Currency");
    reveal_strlit("Notes");
    reveal_strlit("Share Link");
    reveal_strlit("Link");
    assert forall|t: int| 0 <= t < 9 implies 0 < (#[trigger] spec_header_titles()[t]).len()
        <= 12 by {
        if t == 0 {
            assert(spec_header_titles()[0] == "Title"@);
        } else if t == 1 {
            assert(spec_header_titles()[1] == "Counterparty"@);
        } else if t == 2 {
            assert(spec_header_titles()[2] == "Date"@);
        } else if t == 3 {
            assert(spec_header_titles()[3] == "Type"@);
        } else if t == 4 {
            assert(spec_header_titles()[4] == "Amount"@);
        } else if t == 5 {
            assert(spec_header_titles()[5] == "Currency"@);
        } else if t == 6 {
            assert(spec_header_titles()[6] == "Notes"@);
        } else if t == 7 {
            assert(spec_header_titles()[7] == "Share Link"@);
        } else {
            assert(spec_header_titles()[8] == "Link"@);
        }
    }
}

/// Build the worksheet for one bucket: the name set, a bold light-gray
/// header row of the nine column titles, one laid-out row per record, and
/// auto-fitted columns. It succeeds whenever the name is valid and every
/// cell is writable.
pub fn build_bucket_worksheet(data: &Vec<InvoiceRecord>, worksheet_name: &str) -> (r: Result<
    rust_xlsxwriter::Worksheet,
    WorkbookError,
>)
    requires
        data@.len() <= 1048575,
    ensures
        r matches Ok(ws) ==> {
            &&& ws_name(ws) == worksheet_name@
            &&& valid_sheet_name(worksheet_name@)
            &&& forall|c: int| 0 <= c < 9 ==> header_cell_ok(ws_strings(ws), ws_formats(ws), c)
            &&& sheet_cells_laid_out(ws_strings(ws), ws_links(ws), data@)
            &&& forall|k: (u32, u16)|
                ws_strings(ws).dom().contains(k) ==> k.0 <= data@.len() && k.1 < 9
            &&& forall|k: (u32, u16)|
                ws_links(ws).dom().contains(k) ==> 1 <= k.0 <= data@.len() && k.1 < 9
        },
        valid_sheet_name(worksheet_name@) && bucket_writable(data@) ==> r is Ok,
{
    let mut worksheet = ws_new();
    match ws_set_name(&mut worksheet, worksheet_name) {
        Ok(()) => (),
        Err(e) => {
            return Err(WorkbookError { inner: e });
        },
    }
    let header_format = format_set_background_rgb(
        format_set_bold(format_new()),
        HEADER_BACKGROUND_RGB,
    );
    let titles = header_titles();
    let mut col: usize = 0;
    while col < 9
        invariant
            titles@.len() == 9,
            forall|t: int| 0 <= t < 9 ==> titles@[t]@ == #[trigger] spec_header_titles()[t],
            0 <= col <= 9,
            data@.len() <= 1048575,
            ws_name(worksheet) == worksheet_name@,
            spec_format_bold(header_format),
            spec_format_background(header_format) == Some(HEADER_BACKGROUND_RGB),
            ws_links(worksheet) == no_cells(),
            forall|c0: int|
                0 <= c0 < col ==> header_cell_ok(ws_strings(worksheet), ws_formats(worksheet), c0),
            forall|k: (u32, u16)|
                ws_strings(worksheet).dom().contains(k) ==> k.0 == 0 && k.1 < col,
        decreases 9 - col,
    {
        proof {
            lemma_header_title_lens();
        }
        let ghost strings_before = ws_strings(worksheet);
        let ghost formats_before = ws_formats(worksheet);
        match ws_write_string_with_format(
            &mut worksheet,
            0,
            col as u16,
            titles[col],
            &header_format,
        ) {
            Ok(()) => (),
            Err(e) => {
                proof {
                    assert(titles@[col as int]@ == spec_header_titles()[col as int]);
                    assert(titles@[col as int]@.len() <= 12);
                    assert(false);
                }
                return Err(WorkbookError { inner: e });
            },
        }
        proof {
            assert(titles@[col as int]@ == spec_header_titles()[col as int]);
            assert(titles@[col as int]@.len() > 0);
            assert(ws_strings(worksheet) == strings_before.insert(
                ((0 as u32), (col as u16)),
                titles@[col as int]@,
            ));
            assert forall|c0: int|
                0 <= c0 < col + 1 implies header_cell_ok(
                ws_strings(worksheet),
                ws_formats(worksheet),
                c0,
            ) by {
                assert(cell_key(0, c0) == ((0 as u32), (c0 as u16)));
                if c0 == col {
                    assert(titles@[col as int]@ == spec_header_titles()[c0]);
                } else {
                    assert(header_cell_ok(strings_before, formats_before, c0));
                    assert(c0 as u16 != col as u16);
                }
            }
            assert forall|k: (u32, u16)|
                ws_strings(worksheet).dom().contains(k) implies k.0 == 0 && k.1 < col + 1 by {
                if k != ((0 as u32), (col as u16)) {
                    assert(strings_before.dom().contains(k));
                }
            }
        }
        col = col + 1;
    }
    let mut i: usize = 0;
    while i < data.len()
        invariant
            data@.len() <= 1048575,
            0 <= i <= data@.len(),
            ws_name(worksheet) == worksheet_name@,
            valid_sheet_name(worksheet_name@),
            forall|c0: int|
                0 <= c0 < 9 ==> header_cell_ok(ws_strings(worksheet), ws_formats(worksheet), c0),
            forall|i0: int, c0: int|
                0 <= i0 < i && 0 <= c0 < 9 ==> cell_laid_out(
                    ws_strings(worksheet),
                    ws_links(worksheet),
                    i0 + 1,
                    c0,
                    #[trigger] spec_record_row(data@[i0]@)[c0],
                ),
            forall|k: (u32, u16)|
                ws_strings(worksheet).dom().contains(k) ==> k.0 <= i && k.1 < 9,
            forall|k: (u32, u16)|
                ws_links(worksheet).dom().contains(k) ==> 1 <= k.0 <= i && k.1 < 9,
        decreases data@.len() - i,
    {
        let row: u32 = (i + 1) as u32;
        assert(row == i + 1);
        let cells = record_row(&data[i]);
        assert(cells@.len() == 9) by {
            assert(spec_cell_views(cells@).len() == spec_record_row(data@[i as int]@).len());
        }
        let mut c: usize = 0;
        while c < 9
            invariant
                cells@.len() == 9,
                spec_cell_views(cells@) == spec_record_row(data@[i as int]@),
                0 <= c <= 9,
                0 <= i < data@.len() <= 1048575,
                row == i + 1,
                ws_name(worksheet) == worksheet_name@,
                forall|c0: int|
                    0 <= c0 < 9 ==> header_cell_ok(
                        ws_strings(worksheet),
                        ws_formats(worksheet),
                        c0,
                    ),
                forall|i0: int, c0: int|
                    0 <= i0 < i && 0 <= c0 < 9 ==> cell_laid_out(
                        ws_strings(worksheet),
                        ws_links(worksheet),
                        i0 + 1,
                        c0,
                        #[trigger] spec_record_row(data@[i0]@)[c0],
                    ),
                forall|c0: int|
                    0 <= c0 < c ==> cell_laid_out(
                        ws_strings(worksheet),
                        ws_links(worksheet),
                        i + 1,
                        c0,
                        #[trigger] spec_record_row(data@[i as int]@)[c0],
                    ),
                forall|k: (u32, u16)|
                    ws_strings(worksheet).dom().contains(k) ==> (k.0 <= i || (k.0 == i + 1 && k.1
                        < c)) && k.1 < 9,
                forall|k: (u32, u16)|
                    ws_links(worksheet).dom().contains(k) ==> 1 <= k.0 && (k.0 <= i || (k.0 == i
                        + 1 && k.1 < c)) && k.1 < 9,
            decreases 9 - c,
        {
            assert(cells@[c as int]@ == spec_record_row(data@[i as int]@)[c as int]);
            let ghost cv = spec_record_row(data@[i as int]@)[c as int];
            let ghost key = ((row, (c as u16)));
            let ghost strings_before = ws_strings(worksheet);
            let ghost formats_before = ws_formats(worksheet);
            let ghost links_before = ws_links(worksheet);
            proof {
                assert(cell_key(i + 1, c as int) == key);
                assert(!strings_before.dom().contains(key));
                assert(!links_before.dom().contains(key));
            }
            let outcome = match &cells[c] {
                SheetCell::Empty => Ok(()),
                SheetCell::Text(s) => ws_write_string(&mut worksheet, row, c as u16, s.as_str()),
                SheetCell::Hyperlink { url, label } => {
                    proof {
                        reveal_strlit("Share Link");
                        reveal_strlit("Link");
                        assert(label@.len() > 0);
                    }
                    ws_write_url_with_text(
                        &mut worksheet,
                        row,
                        c as u16,
                        url.as_str(),
                        label.as_str(),
                    )
                },
            };
            match outcome {
                Ok(()) => (),
                Err(e) => {
                    proof {
                        assert(!cell_writable(cv));
                        assert(!record_writable(data@[i as int]@));
                        assert(!bucket_writable(data@));
                    }
                    return Err(WorkbookError { inner: e });
                },
            }
            proof {
                assert forall|c0: int|
                    0 <= c0 < 9 implies header_cell_ok(
                    ws_strings(worksheet),
                    ws_formats(worksheet),
                    c0,
                ) by {
                    assert(header_cell_ok(strings_before, formats_before, c0));
                    assert(cell_key(0, c0) == ((0 as u32), (c0 as u16)));
                    assert(key.0 == row && row >= 1);
                }
                assert forall|i0: int, c0: int|
                    0 <= i0 < i && 0 <= c0 < 9 implies cell_laid_out(
                    ws_strings(worksheet),
                    ws_links(worksheet),
                    i0 + 1,
                    c0,
                    #[trigger] spec_record_row(data@[i0]@)[c0],
                ) by {
                    assert(cell_laid_out(
                        strings_before,
                        links_before,
                        i0 + 1,
                        c0,
                        spec_record_row(data@[i0]@)[c0],
                    ));
                    assert(cell_key(i0 + 1, c0) == (((i0 + 1) as u32), (c0 as u16)));
                    assert((i0 + 1) as u32 != row);
                }
                assert forall|c0: int|
                    0 <= c0 < c implies cell_laid_out(
                    ws_strings(worksheet),
                    ws_links(worksheet),
                    i + 1,
                    c0,
                    #[trigger] spec_record_row(data@[i as int]@)[c0],
                ) by {
                    assert(cell_laid_out(
                        strings_before,
                        links_before,
                        i + 1,
                        c0,
                        spec_record_row(data@[i as int]@)[c0],
                    ));
                    assert(cell_key(i + 1, c0) == ((row, (c0 as u16))));
                    assert(c0 as u16 != c as u16);
                }
                assert(cell_laid_out(ws_strings(worksheet), ws_links(worksheet), i + 1, c as int, cv));
            }
            c = c + 1;
        }
        i = i + 1;
    }
    ws_autofit(&mut worksheet);
    Ok(worksheet)
}

/// Render one bucket as a worksheet appended to the workbook. On failure
/// the workbook is left without the new worksheet; it succeeds whenever
/// the name is valid and every cell is writable.
pub fn create_worksheet(
    workbook: &mut rust_xlsxwriter::Workbook,
    data: &Vec<InvoiceRecord>,
    worksheet_name: &str,
) -> (r: Result<(), WorkbookError>)
    requires
        data@.len() <= 1048575,
    ensures
        r is Ok ==> wb_sheet_names(*final(workbook)) == wb_sheet_names(*old(workbook)).push(
            worksheet_name@,
        ),
        r is Ok ==> valid_sheet_name(worksheet_name@),
        r is Err ==> wb_sheet_names(*final(workbook)) == wb_sheet_names(*old(workbook)),
        valid_sheet_name(worksheet_name@) && bucket_writable(data@) ==> r is Ok,
{
    match build_bucket_worksheet(data, worksheet_name) {
        Ok(worksheet) => {
            wb_push_worksheet(workbook, worksheet);
            Ok(())
        },
        Err(e) => Err(e),
    }
}

/// Assemble the whole workbook: a Work Expenses worksheet always, an
/// Investment Property worksheet only when that bucket is non-empty. It
/// succeeds whenever every cell of both buckets is writable.
pub fn build_workbook(
    work_expenses: &Vec<InvoiceRecord>,
    investment_property: &Vec<InvoiceRecord>,
) -> (r: Result<rust_xlsxwriter::Workbook, WorkbookError>)
    requires
        work_expenses@.len() <= 1048575,
        investment_property@.len() <= 1048575,
    ensures
        r matches Ok(wb) ==> wb_sheet_names(wb) == spec_workbook_sheet_names(
            investment_property@.len() == 0,
        ),
        bucket_writable(work_expenses@) && bucket_writable(investment_property@) ==> r is Ok,
{
    proof {
        reveal_strlit("Work Expenses");
        reveal_strlit("Investment Property");
        assert(valid_sheet_name("Work Expenses"@));
        assert(valid_sheet_name("Investment Property"@));
    }
    let mut workbook = wb_new();
    match create_worksheet(&mut workbook, work_expenses, "Work Expenses") {
        Ok(()) => (),
        Err(e) => {
            return Err(e);
        },
    }
    if investment_property.len() > 0 {
        match create_worksheet(&mut workbook, investment_property, "Investment Property") {
            Ok(()) => (),
            Err(e) => {
                return Err(e);
            },
        }
        proof {
            assert(Seq::<Seq<char>>::empty().push("Work Expenses"@).push(
                "Investment Property"@,
            ) =~= spec_workbook_sheet_names(false));
        }
    } else {
        proof {
            assert(Seq::<Seq<char>>::empty().push("Work Expenses"@)
                =~= spec_workbook_sheet_names(true));
        }
    }
    Ok(workbook)
}

/// Serialize an assembled workbook to xlsx bytes in memory; succeeds
/// exactly when the workbook passes the library's validation.
pub fn workbook_to_buffer(workbook: &mut rust_xlsxwriter::Workbook) -> (r: Result<
    Vec<u8>,
    WorkbookError,
>)
    ensures
        r is Ok <==> save_ok(*old(workbook)),
{
    match wb_save_to_buffer(workbook) {
        Ok(bytes) => Ok(bytes),
        Err(e) => Err(WorkbookError { inner: e }),
    }
}

} // verus!
