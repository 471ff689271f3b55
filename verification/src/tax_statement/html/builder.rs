//! Minimal HTML building blocks for the report: escaping, sections, paragraphs and tables.
//!
//! Every dynamic string passes through [`escape`]; functions taking `html` arguments expect the
//! caller to have escaped the dynamic parts already.
use vstd::prelude::*;

use crate::text::push_char;

verus! {

/// The HTML text of one character.
pub open spec fn escape_char(c: char) -> Seq<char> {
    if c == '&' {
        "&amp;"@
    } else if c == '<' {
        "&lt;"@
    } else if c == '>' {
        "&gt;"@
    } else if c == '"' {
        "&quot;"@
    } else if c == '\'' {
        "&#39;"@
    } else {
        seq![c]
    }
}

/// Text escaped for an HTML text node or attribute value.
pub open spec fn escape_html(s: Seq<char>) -> Seq<char>
    decreases s.len(),
{
    if s.len() == 0 {
        seq![]
    } else {
        escape_html(s.drop_last()) + escape_char(s.last())
    }
}

/// Escape text for an HTML text node or attribute value.
pub fn escape(text: &str) -> (r: String)
    ensures
        r@ == escape_html(text@),
{
    let n = text.unicode_len();
    let mut out = String::new();
    let mut i: usize = 0;
    while i < n
        invariant
            n == text@.len(),
            i <= n,
            out@ == escape_html(text@.take(i as int)),
        decreases n - i,
    {
        let c = text.get_char(i);
        proof {
            assert(text@.take(i + 1).drop_last() =~= text@.take(i as int));
        }
        if c == '&' {
            out.append("&amp;");
        } else if c == '<' {
            out.append("&lt;");
        } else if c == '>' {
            out.append("&gt;");
        } else if c == '"' {
            out.append("&quot;");
        } else if c == '\'' {
            out.append("&#39;");
        } else {
            push_char(&mut out, c);
        }
        i = i + 1;
    }
    proof {
        assert(text@.take(n as int) =~= text@);
    }
    out
}

#[derive(Clone, Copy, PartialEq, Eq, Structural, Debug)]
pub enum Align {
    Left,
    Right,
}

/// A table cell holding already-escaped HTML.
pub struct Cell {
    pub html: String,
    pub align: Align,
    pub negative: bool,
}

/// A cell as plain values.
pub struct CellView {
    pub html: Seq<char>,
    pub align: Align,
    pub negative: bool,
}

impl View for Cell {
    type V = CellView;

    open spec fn view(&self) -> CellView {
        CellView { html: self.html@, align: self.align, negative: self.negative }
    }
}

/// A plain-text cell: escaped, left-aligned.
pub open spec fn text_cell(text: Seq<char>) -> CellView {
    CellView { html: escape_html(text), align: Align::Left, negative: false }
}

/// A trusted-HTML cell, left-aligned.
pub open spec fn raw_cell(html: Seq<char>) -> CellView {
    CellView { html, align: Align::Left, negative: false }
}

/// A number cell: escaped, right-aligned, highlighted when the text starts with a minus.
pub open spec fn num_cell(text: Seq<char>) -> CellView {
    CellView { html: escape_html(text), align: Align::Right, negative: text.len() > 0 && text[0] == '-' }
}

pub open spec fn empty_cell() -> CellView {
    CellView { html: Seq::empty(), align: Align::Left, negative: false }
}

impl Cell {
    /// A cell of plain text, escaped.
    pub fn text(text: &str) -> (r: Cell)
        ensures
            r@ == text_cell(text@),
    {
        Cell { html: escape(text), align: Align::Left, negative: false }
    }

    /// A cell of trusted HTML.
    pub fn raw(html: String) -> (r: Cell)
        ensures
            r@ == raw_cell(html@),
    {
        Cell { html, align: Align::Left, negative: false }
    }

    /// A right-aligned number, highlighted when negative.
    pub fn num(text: &str) -> (r: Cell)
        ensures
            r@ == num_cell(text@),
    {
        let negative = text.unicode_len() > 0 && text.get_char(0) == '-';
        Cell { html: escape(text), align: Align::Right, negative }
    }

    /// A cell with nothing in it.
    pub fn empty() -> (r: Cell)
        ensures
            r@ == empty_cell(),
    {
        Cell::raw(String::new())
    }
}

pub struct Column {
    pub title: &'static str,
    pub align: Align,
}

pub struct ColumnView {
    pub title: Seq<char>,
    pub align: Align,
}

impl View for Column {
    type V = ColumnView;

    open spec fn view(&self) -> ColumnView {
        ColumnView { title: self.title@, align: self.align }
    }
}

pub open spec fn columns_view(c: Seq<Column>) -> Seq<ColumnView> {
    c.map_values(|x: Column| x@)
}

pub fn col(title: &'static str, align: Align) -> (r: Column)
    ensures
        r.title == title,
        r.align == align,
        r@ == (ColumnView { title: title@, align }),
{
    Column { title, align }
}

#[derive(Clone, Copy, PartialEq, Eq, Structural, Debug)]
pub enum RowKind {
    Data,
    /// A FIFO lot line under its sale.
    Lot,
    Subtotal,
    Total,
}

pub struct Row {
    pub kind: RowKind,
    pub cells: Vec<Cell>,
}

/// A row as plain values.
pub struct RowView {
    pub kind: RowKind,
    pub cells: Seq<CellView>,
}

pub open spec fn cells_view(c: Seq<Cell>) -> Seq<CellView> {
    c.map_values(|x: Cell| x@)
}

impl View for Row {
    type V = RowView;

    open spec fn view(&self) -> RowView {
        RowView { kind: self.kind, cells: cells_view(self.cells@) }
    }
}

pub open spec fn rows_view(r: Seq<Row>) -> Seq<RowView> {
    r.map_values(|x: Row| x@)
}

impl Row {
    pub fn data(cells: Vec<Cell>) -> (r: Row)
        ensures
            r.kind == RowKind::Data,
            r.cells == cells,
    {
        Row { kind: RowKind::Data, cells }
    }

    /// A FIFO lot line under its sale.
    pub fn lot(cells: Vec<Cell>) -> (r: Row)
        ensures
            r.kind == RowKind::Lot,
            r.cells == cells,
    {
        Row { kind: RowKind::Lot, cells }
    }

    pub fn subtotal(cells: Vec<Cell>) -> (r: Row)
        ensures
            r.kind == RowKind::Subtotal,
            r.cells == cells,
    {
        Row { kind: RowKind::Subtotal, cells }
    }

    pub fn total(cells: Vec<Cell>) -> (r: Row)
        ensures
            r.kind == RowKind::Total,
            r.cells == cells,
    {
        Row { kind: RowKind::Total, cells }
    }
}

pub open spec fn align_text(align: Align) -> Seq<char> {
    match align {
        Align::Left => ""@,
        Align::Right => " num"@,
    }
}

fn align_class(align: Align) -> (r: &'static str)
    ensures
        r@ == align_text(align),
{
    match align {
        Align::Left => "",
        Align::Right => " num",
    }
}

pub open spec fn kind_text(kind: RowKind) -> Seq<char> {
    match kind {
        RowKind::Data => "data"@,
        RowKind::Lot => "lot"@,
        RowKind::Subtotal => "subtotal"@,
        RowKind::Total => "total"@,
    }
}

pub open spec fn header_cells(p: Seq<char>, columns: Seq<ColumnView>) -> Seq<char>
    decreases columns.len(),
{
    if columns.len() == 0 {
        p
    } else {
        let c = columns.last();
        header_cells(p, columns.drop_last()) + "<th class=\"col"@ + align_text(c.align) + "\">"@
            + escape_html(c.title) + "</th>"@
    }
}

/// The cells of a row under `n` columns: the row's own cells, then empty ones.
pub open spec fn row_cells(p: Seq<char>, cells: Seq<CellView>, n: nat) -> Seq<char>
    decreases n,
{
    if n == 0 {
        p
    } else {
        let q = row_cells(p, cells, (n - 1) as nat);
        let i = n - 1;
        if i < cells.len() {
            let c = cells[i];
            q + "<td class=\"cell"@ + align_text(c.align) + (if c.negative {
                " neg"@
            } else {
                ""@
            }) + "\">"@ + c.html + "</td>"@
        } else {
            q + "<td class=\"cell\"></td>"@
        }
    }
}

pub open spec fn body_rows(p: Seq<char>, rows: Seq<RowView>, n: nat) -> Seq<char>
    decreases rows.len(),
{
    if rows.len() == 0 {
        p
    } else {
        let r = rows.last();
        row_cells(body_rows(p, rows.drop_last(), n) + "<tr class=\""@ + kind_text(r.kind) + "\">"@, r.cells, n)
            + "</tr>\n"@
    }
}

/// A table with a header of the columns and one line per row, each padded to the columns.
pub open spec fn table_after(p: Seq<char>, columns: Seq<ColumnView>, rows: Seq<RowView>) -> Seq<char> {
    body_rows(header_cells(p + "<table>\n<thead><tr>"@, columns) + "</tr></thead>\n<tbody>\n"@, rows, columns.len())
        + "</tbody>\n</table>\n"@
}

fn put_cells(out: &mut String, cells: &Vec<Cell>, n: usize)
    ensures
        final(out)@ == row_cells(old(out)@, cells_view(cells@), n as nat),
{
    let ghost start = out@;
    let mut i: usize = 0;
    while i < n
        invariant
            i <= n,
            out@ == row_cells(start, cells_view(cells@), i as nat),
        decreases n - i,
    {
        if i < cells.len() {
            let c = &cells[i];
            out.append("<td class=\"cell");
            out.append(align_class(c.align));
            if c.negative {
                out.append(" neg");
            } else {
                out.append("");
            }
            out.append("\">");
            out.append(c.html.as_str());
            out.append("</td>");
        } else {
            out.append("<td class=\"cell\"></td>");
        }
        i = i + 1;
    }
}

/// Render a table with a repeating header (`<thead>`), padding short rows with empty cells.
pub fn table(out: &mut String, columns: &Vec<Column>, rows: &Vec<Row>)
    ensures
        final(out)@ == table_after(old(out)@, columns_view(columns@), rows_view(rows@)),
{
    out.append("<table>\n<thead><tr>");
    let ghost start = out@;
    let mut i: usize = 0;
    while i < columns.len()
        invariant
            i <= columns@.len(),
            out@ == header_cells(start, columns_view(columns@.take(i as int))),
        decreases columns@.len() - i,
    {
        proof {
            assert(columns_view(columns@.take(i + 1)).drop_last() =~= columns_view(columns@.take(i as int)));
        }
        let c = &columns[i];
        out.append("<th class=\"col");
        out.append(align_class(c.align));
        out.append("\">");
        let t = escape(c.title);
        out.append(t.as_str());
        out.append("</th>");
        i = i + 1;
    }
    proof {
        assert(columns_view(columns@.take(i as int)) =~= columns_view(columns@));
    }
    out.append("</tr></thead>\n<tbody>\n");
    let ghost body_start = out@;
    let n = columns.len();
    let mut k: usize = 0;
    while k < rows.len()
        invariant
            k <= rows@.len(),
            n == columns@.len(),
            out@ == body_rows(body_start, rows_view(rows@.take(k as int)), n as nat),
        decreases rows@.len() - k,
    {
        proof {
            assert(rows_view(rows@.take(k + 1)).drop_last() =~= rows_view(rows@.take(k as int)));
        }
        let row = &rows[k];
        out.append("<tr class=\"");
        let class = match row.kind {
            RowKind::Data => "data",
            RowKind::Lot => "lot",
            RowKind::Subtotal => "subtotal",
            RowKind::Total => "total",
        };
        out.append(class);
        out.append("\">");
        put_cells(out, &row.cells, n);
        out.append("</tr>\n");
        k = k + 1;
    }
    proof {
        assert(rows_view(rows@.take(k as int)) =~= rows_view(rows@));
    }
    out.append("</tbody>\n</table>\n");
}

/// Open a section with its anchor and heading.
pub fn section_start(out: &mut String, id: &str, title: &str)
    ensures
        final(out)@ == old(out)@ + "<section id=\""@ + escape_html(id@) + "\">\n<h2>"@
            + escape_html(title@) + "</h2>\n"@,
{
    out.append("<section id=\"");
    out.append(escape(id).as_str());
    out.append("\">\n<h2>");
    out.append(escape(title).as_str());
    out.append("</h2>\n");
}

pub fn section_end(out: &mut String)
    ensures
        final(out)@ == old(out)@ + "</section>\n"@,
{
    out.append("</section>\n");
}

pub fn h3(out: &mut String, text: &str)
    ensures
        final(out)@ == old(out)@ + "<h3>"@ + escape_html(text@) + "</h3>\n"@,
{
    out.append("<h3>");
    out.append(escape(text).as_str());
    out.append("</h3>\n");
}

pub fn h4(out: &mut String, text: &str)
    ensures
        final(out)@ == old(out)@ + "<h4>"@ + escape_html(text@) + "</h4>\n"@,
{
    out.append("<h4>");
    out.append(escape(text).as_str());
    out.append("</h4>\n");
}

/// A paragraph of trusted HTML (dynamic parts must already be escaped).
pub fn p(out: &mut String, html: &str)
    ensures
        final(out)@ == old(out)@ + "<p>"@ + html@ + "</p>\n"@,
{
    out.append("<p>");
    out.append(html);
    out.append("</p>\n");
}

pub open spec fn list_items(p: Seq<char>, items: Seq<Seq<char>>) -> Seq<char>
    decreases items.len(),
{
    if items.len() == 0 {
        p
    } else {
        list_items(p, items.drop_last()) + "<li>"@ + items.last() + "</li>\n"@
    }
}

pub open spec fn strings_view(items: Seq<String>) -> Seq<Seq<char>> {
    items.map_values(|s: String| s@)
}

/// `<b>text</b>`, the text escaped.
pub open spec fn bold(text: Seq<char>) -> Seq<char> {
    "<b>"@ + escape_html(text) + "</b>"@
}

pub open spec fn section_start_text(id: Seq<char>, title: Seq<char>) -> Seq<char> {
    "<section id=\""@ + escape_html(id) + "\">\n<h2>"@ + escape_html(title) + "</h2>\n"@
}

pub open spec fn p_text(html: Seq<char>) -> Seq<char> {
    "<p>"@ + html + "</p>\n"@
}

pub open spec fn h3_text(text: Seq<char>) -> Seq<char> {
    "<h3>"@ + escape_html(text) + "</h3>\n"@
}

pub open spec fn h4_text(text: Seq<char>) -> Seq<char> {
    "<h4>"@ + escape_html(text) + "</h4>\n"@
}

pub open spec fn note_text(class: Seq<char>, html: Seq<char>) -> Seq<char> {
    "<div class=\"note "@ + class + "\">"@ + html + "</div>\n"@
}

pub open spec fn ul_text(items: Seq<Seq<char>>) -> Seq<char> {
    list_items("<ul>\n"@, items) + "</ul>\n"@
}

pub proof fn lemma_list_items_prefix(p: Seq<char>, items: Seq<Seq<char>>)
    ensures
        list_items(p, items) == p + list_items(Seq::empty(), items),
    decreases items.len(),
{
    if items.len() > 0 {
        lemma_list_items_prefix(p, items.drop_last());
        assert(list_items(p, items) =~= p + list_items(Seq::empty(), items));
    } else {
        assert(p + Seq::<char>::empty() =~= p);
    }
}

/// A bullet list of trusted HTML items.
pub fn ul(out: &mut String, items: &Vec<String>)
    ensures
        final(out)@ == list_items(old(out)@ + "<ul>\n"@, strings_view(items@)) + "</ul>\n"@,
{
    out.append("<ul>\n");
    let ghost start = out@;
    let mut i: usize = 0;
    while i < items.len()
        invariant
            i <= items@.len(),
            out@ == list_items(start, strings_view(items@.take(i as int))),
        decreases items@.len() - i,
    {
        proof {
            assert(strings_view(items@.take(i + 1)).drop_last() =~= strings_view(items@.take(i as int)));
        }
        out.append("<li>");
        out.append(items[i].as_str());
        out.append("</li>\n");
        i = i + 1;
    }
    proof {
        assert(strings_view(items@.take(i as int)) =~= strings_view(items@));
    }
    out.append("</ul>\n");
}

/// A highlighted note box of trusted HTML; `class` selects the colour (`info`, `warn`).
pub fn note(out: &mut String, class: &str, html: &str)
    ensures
        final(out)@ == old(out)@ + "<div class=\"note "@ + class@ + "\">"@ + html@ + "</div>\n"@,
{
    out.append("<div class=\"note ");
    out.append(class);
    out.append("\">");
    out.append(html);
    out.append("</div>\n");
}

/// Bold label for inline use.
pub fn b(text: &str) -> (r: String)
    ensures
        r@ == "<b>"@ + escape_html(text@) + "</b>"@,
{
    let mut r = <String as StringExecFns>::from_str("<b>");
    r.append(escape(text).as_str());
    r.append("</b>");
    r
}

/// Append a cell.
pub fn push_cell(cells: &mut Vec<Cell>, c: Cell)
    ensures
        cells_view(final(cells)@) == cells_view(old(cells)@).push(c@),
{
    cells.push(c);
    assert(cells_view(cells@) =~= cells_view(old(cells)@).push(c@));
}

} // verus!
