//! The worksheet layout: header titles, the cells of a record's row, and
//! the worksheet names of the finished workbook.
//!
//! Every row has nine columns. The Share Link column is a hyperlink
//! labelled "Share Link" when a link exists and an empty cell otherwise;
//! the Link column is always a hyperlink labelled "Link".

use vstd::prelude::*;

use crate::record::{InvoiceRecord, RecordView};

verus! {

/// One cell of a worksheet row.
pub enum SheetCell {
    /// Nothing is written.
    Empty,
    /// A plain string cell.
    Text(String),
    /// A hyperlink cell showing `label`.
    Hyperlink { url: String, label: String },
}

/// The mathematical image of a cell.
pub enum SheetCellView {
    Empty,
    Text(Seq<char>),
    Hyperlink { url: Seq<char>, label: Seq<char> },
}

impl View for SheetCell {
    type V = SheetCellView;

    open spec fn view(&self) -> SheetCellView {
        match self {
            SheetCell::Empty => SheetCellView::Empty,
            SheetCell::Text(s) => SheetCellView::Text(s@),
            SheetCell::Hyperlink { url, label } => (SheetCellView::Hyperlink {
                url: url@,
                label: label@,
            }),
        }
    }
}

/// The views of a row of cells.
pub open spec fn spec_cell_views(cells: Seq<SheetCell>) -> Seq<SheetCellView> {
    cells.map_values(|c: SheetCell| c@)
}

/// The nine column titles, in column order.
pub open spec fn spec_header_titles() -> Seq<Seq<char>> {
    seq![
        "Title"@,
        "Counterparty"@,
        "Date"@,
        "Type"@,
        "Amount"@,
        "Currency"@,
        "Notes"@,
        "Share Link"@,
        "Link"@,
    ]
}

/// The column titles written to row 0 of every worksheet.
pub fn header_titles() -> (r: Vec<&'static str>)
    ensures
        r@.len() == 9,
        forall|i: int| 0 <= i < 9 ==> r@[i]@ == #[trigger] spec_header_titles()[i],
{
    let mut titles: Vec<&'static str> = Vec::new();
    titles.push("Title");
    titles.push("Counterparty");
    titles.push("Date");
    titles.push("Type");
    titles.push("Amount");
    titles.push("Currency");
    titles.push("Notes");
    titles.push("Share Link");
    titles.push("Link");
    titles
}

/// The cells of the row a record occupies, in column order.
pub open spec fn spec_record_row(r: RecordView) -> Seq<SheetCellView> {
    seq![
        SheetCellView::Text(r.title),
        SheetCellView::Text(r.counterparty),
        SheetCellView::Text(r.date),
        SheetCellView::Text(r.doc_type),
        SheetCellView::Text(r.amount),
        SheetCellView::Text(r.currency),
        SheetCellView::Text(r.notes),
        if r.share_link.len() == 0 {
            SheetCellView::Empty
        } else {
            SheetCellView::Hyperlink { url: r.share_link, label: "Share Link"@ }
        },
        SheetCellView::Hyperlink { url: r.link, label: "Link"@ },
    ]
}

/// Lay out the row for one record.
pub fn record_row(record: &InvoiceRecord) -> (r: Vec<SheetCell>)
    ensures
        spec_cell_views(r@) == spec_record_row(record@),
{
    let mut cells: Vec<SheetCell> = Vec::new();
    cells.push(SheetCell::Text(record.title.clone()));
    cells.push(SheetCell::Text(record.counterparty.clone()));
    cells.push(SheetCell::Text(record.date.clone()));
    cells.push(SheetCell::Text(record.doc_type.clone()));
    cells.push(SheetCell::Text(record.amount.clone()));
    cells.push(SheetCell::Text(record.currency.clone()));
    cells.push(SheetCell::Text(record.notes.clone()));
    if record.share_link.as_str().is_empty() {
        cells.push(SheetCell::Empty);
    } else {
        cells.push(
            SheetCell::Hyperlink {
                url: record.share_link.clone(),
                label: "Share Link".to_owned(),
            },
        );
    }
    cells.push(SheetCell::Hyperlink { url: record.link.clone(), label: "Link".to_owned() });
    assert(spec_cell_views(cells@) =~= spec_record_row(record@));
    cells
}

/// The name of the output file for a financial year.
pub fn workbook_filename(financial_year: &str) -> (r: String)
    ensures
        r@ == "FY"@ + financial_year@ + " Documents.xlsx"@,
{
    let mut s = "FY".to_owned();
    s.append(financial_year);
    s.append(" Documents.xlsx");
    s
}

/// The worksheet names of the finished workbook: Work Expenses always,
/// Investment Property only when its bucket is non-empty, in that order.
pub open spec fn spec_workbook_sheet_names(investment_empty: bool) -> Seq<Seq<char>> {
    if investment_empty {
        seq!["Work Expenses"@]
    } else {
        seq!["Work Expenses"@, "Investment Property"@]
    }
}

} // verus!
