//! Previews as HTML tables.

use datafusion::arrow::datatypes::Schema;
use vstd::prelude::*;
use vstd::string::StringExecFns;

use crate::engine::{
    ColumnType, PreviewBatch, SchemaFieldView, batch_cell, batch_cell_text, batch_column_count,
    batch_column_failure, batch_columns, batch_row_count, batch_rows, check_batch_column,
    schema_field_decimal, schema_field_floating, schema_field_integer, schema_field_name,
    schema_field_type_text, schema_fields, schema_len,
};
use crate::report::{views, views_push};
use crate::text::{decimal, wide_decimal_text};

verus! {

/// Part of the style sheet.
pub const STYLE_OPEN: &'static str = "<div class=\"deltafunnel-preview\"><style>";

/// Part of the style sheet.
pub const STYLE_ROOT: &'static str = ".deltafunnel-preview{font-family:ui-sans-serif,system-ui,-apple-system,BlinkMacSystemFont,\"Segoe UI\",sans-serif;font-size:12px;line-height:1.35;color:var(--vscode-editor-foreground,#111827)}";

/// Part of the style sheet.
pub const STYLE_WRAP: &'static str = ".deltafunnel-preview .df-wrap{display:inline-block;max-width:100%;overflow:auto;border:1px solid rgba(127,127,127,.35);border-radius:6px;background:var(--vscode-editor-background,#fff)}";

/// Part of the style sheet.
pub const STYLE_TABLE: &'static str = ".deltafunnel-preview table{border-collapse:separate;border-spacing:0}";

/// Part of the style sheet.
pub const STYLE_CELLS: &'static str = ".deltafunnel-preview th,.deltafunnel-preview td{padding:6px 10px;border-bottom:1px solid rgba(127,127,127,.18);white-space:nowrap;text-align:left;vertical-align:top}";

/// Part of the style sheet.
pub const STYLE_HEADER: &'static str = ".deltafunnel-preview th{position:sticky;top:0;background:var(--vscode-editor-background,#fff);font-weight:600;border-bottom:1px solid rgba(127,127,127,.35)}";

/// Part of the style sheet.
pub const STYLE_STRIPES: &'static str = ".deltafunnel-preview tbody tr:nth-child(even){background:rgba(127,127,127,.05)}";

/// Part of the style sheet.
pub const STYLE_MUTED: &'static str = ".deltafunnel-preview .df-type,.deltafunnel-preview .df-footer{color:var(--vscode-descriptionForeground,#64748b);font-size:11px}";

/// Part of the style sheet.
pub const STYLE_NUMBERS: &'static str = ".deltafunnel-preview .df-num{text-align:right;font-variant-numeric:tabular-nums}";

/// Part of the style sheet.
pub const STYLE_FOOTER: &'static str = ".deltafunnel-preview .df-footer{margin-top:6px}";

/// Part of the style sheet.
pub const STYLE_DARK: &'static str = "@media (prefers-color-scheme:dark){.deltafunnel-preview{color:var(--vscode-editor-foreground,#e5e7eb)}.deltafunnel-preview .df-wrap,.deltafunnel-preview th{background:var(--vscode-editor-background,#0b1220)}}";

/// Part of the style sheet.
pub const STYLE_CLOSE: &'static str = "</style>";

/// The opening of every preview, with its style sheet.
pub open spec fn style_block() -> Seq<char> {
    STYLE_OPEN@ + STYLE_ROOT@ + STYLE_WRAP@ + STYLE_TABLE@ + STYLE_CELLS@ + STYLE_HEADER@
        + STYLE_STRIPES@ + STYLE_MUTED@ + STYLE_NUMBERS@ + STYLE_FOOTER@ + STYLE_DARK@
        + STYLE_CLOSE@
}

fn style_block_text() -> (r: String)
    ensures
        r@ == style_block(),
{
    let mut r = STYLE_OPEN.to_owned();
    r.append(STYLE_ROOT);
    r.append(STYLE_WRAP);
    r.append(STYLE_TABLE);
    r.append(STYLE_CELLS);
    r.append(STYLE_HEADER);
    r.append(STYLE_STRIPES);
    r.append(STYLE_MUTED);
    r.append(STYLE_NUMBERS);
    r.append(STYLE_FOOTER);
    r.append(STYLE_DARK);
    r.append(STYLE_CLOSE);
    r
}

/// The form of one character inside HTML text.
pub open spec fn escaped_char(c: char) -> Seq<char> {
    if c == '&' {
        "&amp;"@
    } else if c == '<' {
        "&lt;"@
    } else if c == '>' {
        "&gt;"@
    } else if c == '"' {
        "&quot;"@
    } else if c == '\'' {
        "&#39;"@
    } else {
        seq![c]
    }
}

/// The form of a text inside HTML.
pub open spec fn html_escaped(s: Seq<char>) -> Seq<char>
    decreases s.len(),
{
    if s.len() == 0 {
        seq![]
    } else {
        html_escaped(s.drop_last()) + escaped_char(s.last())
    }
}

/// Appends a text to HTML, so that it shows as itself.
pub fn push_html_escaped(output: &mut String, value: &str)
    ensures
        final(output)@ == old(output)@ + html_escaped(value@),
{
    let ghost before = output@;
    assert(before + html_escaped(value@.take(0)) =~= before);
    for c in it: value.chars()
        invariant
            it.seq() == value@,
            before == old(output)@,
            output@ == before + html_escaped(value@.take(it.index())),
    {
        let ghost current = output@;
        match c {
            '&' => output.append("&amp;"),
            '<' => output.append("&lt;"),
            '>' => output.append("&gt;"),
            '"' => output.append("&quot;"),
            '\'' => output.append("&#39;"),
            _ => output.push(c),
        }
        proof {
            let i = it.index();
            assert(value@.take(i + 1).drop_last() =~= value@.take(i));
            assert(value@.take(i + 1).last() == c);
            assert(output@ =~= current + escaped_char(c));
            assert(output@ =~= before + html_escaped(value@.take(i + 1)));
        }
    }
    assert(value@.take(value@.len() as int) =~= value@);
}

proof fn escaped_char_has_no_markup(c: char, i: int)
    requires
        0 <= i < escaped_char(c).len(),
    ensures
        escaped_char(c)[i] != '<',
        escaped_char(c)[i] != '>',
        escaped_char(c)[i] != '"',
        escaped_char(c)[i] != '\'',
{
    reveal_strlit("&amp;");
    reveal_strlit("&lt;");
    reveal_strlit("&gt;");
    reveal_strlit("&quot;");
    reveal_strlit("&#39;");
}

/// Escaped text holds no character that opens or closes a tag or an attribute.
pub proof fn escaped_text_has_no_markup(s: Seq<char>, i: int)
    requires
        0 <= i < html_escaped(s).len(),
    ensures
        html_escaped(s)[i] != '<',
        html_escaped(s)[i] != '>',
        html_escaped(s)[i] != '"',
        html_escaped(s)[i] != '\'',
    decreases s.len(),
{
    let before = html_escaped(s.drop_last());
    if i < before.len() {
        escaped_text_has_no_markup(s.drop_last(), i);
    } else {
        escaped_char_has_no_markup(s.last(), i - before.len());
    }
}

/// Text that needs no escaping is left as it is.
pub proof fn plain_text_is_kept(s: Seq<char>)
    requires
        forall|i: int|
            0 <= i < s.len() ==> (#[trigger] s[i]) != '&' && s[i] != '<' && s[i] != '>' && s[i]
                != '"' && s[i] != '\'',
    ensures
        html_escaped(s) == s,
    decreases s.len(),
{
    if s.len() > 0 {
        assert forall|i: int| 0 <= i < s.drop_last().len() implies (
        #[trigger] s.drop_last()[i]) != '&' && s.drop_last()[i] != '<' && s.drop_last()[i] != '>'
            && s.drop_last()[i] != '"' && s.drop_last()[i] != '\'' by {
            assert(s.drop_last()[i] == s[i]);
        }
        plain_text_is_kept(s.drop_last());
        assert(s.last() == s[s.len() - 1]);
        assert(html_escaped(s) =~= s);
    } else {
        assert(html_escaped(s) =~= s);
    }
}

/// Integers, floating-point numbers and decimals are numbers, and nothing else is.
pub open spec fn is_number(column_type: ColumnType) -> bool {
    column_type.integer || column_type.floating || column_type.decimal
}

/// Tells number types from the rest.
pub fn is_numeric_type(column_type: ColumnType) -> (r: bool)
    ensures
        r == is_number(column_type),
{
    column_type.integer || column_type.floating || column_type.decimal
}

/// What a preview shows of a column.
pub struct ColumnView {
    pub name: Seq<char>,
    pub type_text: Seq<char>,
    pub numeric: bool,
}

/// Column of a preview.
pub struct PreviewColumn {
    /// Column name.
    pub name: String,
    /// Column type as it is shown.
    pub type_text: String,
    /// Whether the column holds numbers.
    pub numeric: bool,
}

impl View for PreviewColumn {
    type V = ColumnView;

    open spec fn view(&self) -> ColumnView {
        ColumnView { name: self.name@, type_text: self.type_text@, numeric: self.numeric }
    }
}

/// The attribute that aligns number cells.
pub open spec fn class_attribute(numeric: bool) -> Seq<char> {
    if numeric {
        " class=\"df-num\""@
    } else {
        ""@
    }
}

fn class_attribute_text(numeric: bool) -> (r: &'static str)
    ensures
        r@ == class_attribute(numeric),
{
    if numeric {
        " class=\"df-num\""
    } else {
        ""
    }
}

/// The header cell of a column.
pub open spec fn header_cell(column: ColumnView) -> Seq<char> {
    "<th"@ + class_attribute(column.numeric) + "><span>"@ + html_escaped(column.name)
        + "</span><br><span class=\"df-type\">"@ + html_escaped(column.type_text) + "</span></th>"@
}

/// The header cells of some columns.
pub open spec fn header_cells(columns: Seq<ColumnView>) -> Seq<char>
    decreases columns.len(),
{
    if columns.len() == 0 {
        seq![]
    } else {
        header_cells(columns.drop_last()) + header_cell(columns.last())
    }
}

/// The cell of a value.
pub open spec fn value_cell(column: ColumnView, value: Seq<char>) -> Seq<char> {
    "<td"@ + class_attribute(column.numeric) + ">"@ + html_escaped(value) + "</td>"@
}

/// The first `n` cells of a row.
pub open spec fn value_cells(columns: Seq<ColumnView>, values: Seq<Seq<char>>, n: nat) -> Seq<char>
    decreases n,
{
    if n == 0 {
        seq![]
    } else {
        value_cells(columns, values, (n - 1) as nat) + value_cell(columns[n - 1], values[n - 1])
    }
}

/// The lesser of two numbers.
pub open spec fn lesser(a: nat, b: nat) -> nat {
    if a < b {
        a
    } else {
        b
    }
}

/// One row: as many cells as there are both columns and values.
pub open spec fn table_row(columns: Seq<ColumnView>, values: Seq<Seq<char>>) -> Seq<char> {
    "<tr>"@ + value_cells(columns, values, lesser(columns.len(), values.len())) + "</tr>"@
}

/// Rows one after the other.
pub open spec fn table_rows(columns: Seq<ColumnView>, rows: Seq<Seq<Seq<char>>>) -> Seq<char>
    decreases rows.len(),
{
    if rows.len() == 0 {
        seq![]
    } else {
        table_rows(columns, rows.drop_last()) + table_row(columns, rows.last())
    }
}

/// A preview as HTML. A preview without columns shows no table.
pub open spec fn preview_html(
    columns: Seq<ColumnView>,
    rows: Seq<Seq<Seq<char>>>,
    row_count: nat,
) -> Seq<char> {
    if columns.len() == 0 {
        style_block() + "<div class=\"df-wrap\" style=\"padding:10px\">(No columns)</div>"@
            + "<div class=\"df-footer\">Showing <b>"@ + decimal(row_count)
            + "</b> rows, <b>0</b> columns.</div></div>"@
    } else {
        style_block() + "<div class=\"df-wrap\"><table><thead><tr>"@ + header_cells(columns)
            + "</tr></thead><tbody>"@ + table_rows(columns, rows)
            + "</tbody></table></div><div class=\"df-footer\">Showing <b>"@ + decimal(row_count)
            + "</b> rows, <b>"@ + decimal(columns.len()) + "</b> columns.</div></div>"@
    }
}

/// The values of rows by their content.
pub open spec fn rows_view(rows: Seq<Vec<String>>) -> Seq<Seq<Seq<char>>> {
    Seq::new(rows.len(), |i: int| views(rows[i]@))
}

fn push_header_cells(html: &mut String, columns: &Vec<PreviewColumn>)
    ensures
        final(html)@ == old(html)@ + header_cells(views(columns@)),
{
    let ghost before = html@;
    let ghost viewed = views(columns@);
    let mut i: usize = 0;
    assert(before + header_cells(viewed.take(0)) =~= before);
    while i < columns.len()
        invariant
            i <= columns.len(),
            before == old(html)@,
            viewed == views(columns@),
            html@ == before + header_cells(viewed.take(i as int)),
        decreases columns.len() - i,
    {
        let ghost current = html@;
        html.append("<th");
        html.append(class_attribute_text(columns[i].numeric));
        html.append("><span>");
        push_html_escaped(html, columns[i].name.as_str());
        html.append("</span><br><span class=\"df-type\">");
        push_html_escaped(html, columns[i].type_text.as_str());
        html.append("</span></th>");
        proof {
            let column = viewed[i as int];
            assert(column == columns@[i as int]@);
            assert(viewed.take(i + 1).drop_last() =~= viewed.take(i as int));
            assert(viewed.take(i + 1).last() == column);
            assert(html@ =~= current + header_cell(column));
            assert(html@ =~= before + header_cells(viewed.take(i + 1)));
        }
        i += 1;
    }
    assert(viewed.take(columns.len() as int) =~= viewed);
}

fn push_table_row(html: &mut String, columns: &Vec<PreviewColumn>, values: &Vec<String>)
    ensures
        final(html)@ == old(html)@ + table_row(views(columns@), views(values@)),
{
    let ghost cols = views(columns@);
    let ghost vals = views(values@);
    html.append("<tr>");
    let ghost before = html@;
    let mut i: usize = 0;
    assert(before + value_cells(cols, vals, 0) =~= before);
    while i < columns.len() && i < values.len()
        invariant
            i <= columns.len(),
            i <= values.len(),
            cols == views(columns@),
            vals == views(values@),
            before == old(html)@ + "<tr>"@,
            html@ == before + value_cells(cols, vals, i as nat),
        decreases columns.len() - i,
    {
        let ghost current = html@;
        html.append("<td");
        html.append(class_attribute_text(columns[i].numeric));
        html.append(">");
        push_html_escaped(html, values[i].as_str());
        html.append("</td>");
        proof {
            assert(cols[i as int] == columns@[i as int]@);
            assert(vals[i as int] == values@[i as int]@);
            assert(html@ =~= current + value_cell(cols[i as int], vals[i as int]));
            assert(html@ =~= before + value_cells(cols, vals, (i + 1) as nat));
        }
        i += 1;
    }
    assert(i == lesser(cols.len(), vals.len()));
    html.append("</tr>");
    assert(html@ =~= old(html)@ + table_row(cols, vals));
}

fn push_table_rows(html: &mut String, columns: &Vec<PreviewColumn>, rows: &Vec<Vec<String>>)
    ensures
        final(html)@ == old(html)@ + table_rows(views(columns@), rows_view(rows@)),
{
    let ghost before = html@;
    let ghost viewed = rows_view(rows@);
    let mut i: usize = 0;
    assert(before + table_rows(views(columns@), viewed.take(0)) =~= before);
    while i < rows.len()
        invariant
            i <= rows.len(),
            before == old(html)@,
            viewed == rows_view(rows@),
            html@ == before + table_rows(views(columns@), viewed.take(i as int)),
        decreases rows.len() - i,
    {
        let ghost current = html@;
        push_table_row(html, columns, &rows[i]);
        proof {
            assert(viewed.take(i + 1).drop_last() =~= viewed.take(i as int));
            assert(viewed.take(i + 1).last() == views(rows@[i as int]@));
            assert(html@ =~= before + table_rows(views(columns@), viewed.take(i + 1)));
        }
        i += 1;
    }
    assert(viewed.take(rows.len() as int) =~= viewed);
}

/// Renders columns and the shown values of their rows as HTML.
pub fn preview_rows_to_html(
    columns: &Vec<PreviewColumn>,
    rows: &Vec<Vec<String>>,
    row_count: u128,
) -> (r: String)
    ensures
        r@ == preview_html(views(columns@), rows_view(rows@), row_count as nat),
{
    let mut html = style_block_text();
    if columns.len() == 0 {
        html.append("<div class=\"df-wrap\" style=\"padding:10px\">(No columns)</div>");
        html.append("<div class=\"df-footer\">Showing <b>");
        html.append(wide_decimal_text(row_count).as_str());
        html.append("</b> rows, <b>0</b> columns.</div></div>");
        return html;
    }
    html.append("<div class=\"df-wrap\"><table><thead><tr>");
    push_header_cells(&mut html, columns);
    html.append("</tr></thead><tbody>");
    push_table_rows(&mut html, columns, rows);
    html.append("</tbody></table></div><div class=\"df-footer\">Showing <b>");
    html.append(wide_decimal_text(row_count).as_str());
    html.append("</b> rows, <b>");
    html.append(wide_decimal_text(columns.len() as u128).as_str());
    html.append("</b> columns.</div></div>");
    html
}

/// The columns that a preview shows for the columns of a schema.
pub open spec fn preview_columns(fields: Seq<SchemaFieldView>) -> Seq<ColumnView> {
    Seq::new(
        fields.len(),
        |i: int|
            ColumnView {
                name: fields[i].name,
                type_text: fields[i].type_text,
                numeric: is_number(fields[i].column_type),
            },
    )
}

fn columns_of(schema: &Schema) -> (r: Vec<PreviewColumn>)
    ensures
        views(r@) == preview_columns(schema_fields(*schema)),
{
    let ghost wanted = preview_columns(schema_fields(*schema));
    let count: usize = schema_len(schema);
    let mut r: Vec<PreviewColumn> = Vec::new();
    let mut i: usize = 0;
    assert(views(r@) =~= wanted.take(0));
    while i < count
        invariant
            i <= count,
            count == schema_fields(*schema).len(),
            wanted == preview_columns(schema_fields(*schema)),
            views(r@) == wanted.take(i as int),
        decreases count - i,
    {
        let column_type = ColumnType {
            integer: schema_field_integer(schema, i),
            floating: schema_field_floating(schema, i),
            decimal: schema_field_decimal(schema, i),
        };
        let column = PreviewColumn {
            name: schema_field_name(schema, i),
            type_text: schema_field_type_text(schema, i),
            numeric: is_numeric_type(column_type),
        };
        proof {
            views_push(r@, column);
            assert(wanted.take(i + 1) =~= wanted.take(i as int).push(column@));
        }
        r.push(column);
        i += 1;
    }
    assert(wanted.take(count as int) =~= wanted);
    r
}

/// Why one of the first `n` columns of a batch cannot be shown, if one cannot.
pub open spec fn columns_failure(batch: PreviewBatch, n: nat) -> Option<Seq<char>>
    decreases n,
{
    if n == 0 {
        None
    } else {
        match columns_failure(batch, (n - 1) as nat) {
            Some(message) => Some(message),
            None => batch_column_failure(batch, n - 1),
        }
    }
}

/// Why one of some batches cannot be shown, if one cannot: the first that fails.
pub open spec fn batches_failure(batches: Seq<PreviewBatch>) -> Option<Seq<char>>
    decreases batches.len(),
{
    if batches.len() == 0 {
        None
    } else {
        match batches_failure(batches.drop_last()) {
            Some(message) => Some(message),
            None => columns_failure(batches.last(), batch_columns(batches.last())),
        }
    }
}

/// How nulls are shown.
pub const NULL_TEXT: &'static str = "null";

/// The shown values of one row, for as many columns as are asked for and are there.
pub open spec fn shown_row(batch: PreviewBatch, columns: nat, row: int) -> Seq<Seq<char>> {
    Seq::new(
        lesser(columns, batch_columns(batch)),
        |c: int| batch_cell(batch, c, row, NULL_TEXT@),
    )
}

/// The shown values of the rows of a batch.
pub open spec fn shown_rows(batch: PreviewBatch, columns: nat) -> Seq<Seq<Seq<char>>> {
    Seq::new(batch_rows(batch), |r: int| shown_row(batch, columns, r))
}

/// The shown values of the rows of some batches, one batch after the other.
pub open spec fn all_shown_rows(batches: Seq<PreviewBatch>, columns: nat) -> Seq<Seq<Seq<char>>>
    decreases batches.len(),
{
    if batches.len() == 0 {
        seq![]
    } else {
        all_shown_rows(batches.drop_last(), columns) + shown_rows(batches.last(), columns)
    }
}

/// The number of rows that some batches hold together.
pub open spec fn total_rows(batches: Seq<PreviewBatch>) -> nat
    decreases batches.len(),
{
    if batches.len() == 0 {
        0
    } else {
        total_rows(batches.drop_last()) + batch_rows(batches.last())
    }
}

/// Some batches as an HTML preview, or why they cannot be shown. Without columns nothing can
/// fail.
pub open spec fn batches_html(
    fields: Seq<SchemaFieldView>,
    batches: Seq<PreviewBatch>,
) -> Result<Seq<char>, Seq<char>> {
    let columns = preview_columns(fields);
    if fields.len() == 0 {
        Ok(preview_html(columns, seq![], total_rows(batches)))
    } else {
        match batches_failure(batches) {
            Some(message) => Err(message),
            None => Ok(
                preview_html(columns, all_shown_rows(batches, fields.len()), total_rows(batches)),
            ),
        }
    }
}

fn count_rows(batches: &Vec<PreviewBatch>) -> (r: u128)
    ensures
        r == total_rows(batches@),
{
    let mut total: u128 = 0;
    let mut i: usize = 0;
    assert(total_rows(batches@.take(0)) == 0);
    while i < batches.len()
        invariant
            i <= batches.len(),
            total == total_rows(batches@.take(i as int)),
            total <= i * usize::MAX,
        decreases batches.len() - i,
    {
        let rows: usize = batch_row_count(&batches[i]);
        assert(batches@.take(i + 1).drop_last() =~= batches@.take(i as int));
        assert(i * usize::MAX + usize::MAX == (i + 1) * usize::MAX) by (nonlinear_arith);
        assert((i + 1) * usize::MAX <= u128::MAX) by (nonlinear_arith)
            requires
                0 <= i < usize::MAX,
                usize::MAX <= u64::MAX,
        ;
        total = total + rows as u128;
        i += 1;
    }
    assert(batches@.take(batches.len() as int) =~= batches@);
    total
}

fn check_columns(batch: &PreviewBatch) -> (r: Result<(), String>)
    ensures
        match columns_failure(*batch, batch_columns(*batch)) {
            None => r is Ok,
            Some(message) => r matches Err(m) && m@ == message,
        },
        r is Ok ==> forall|c: int|
            0 <= c < batch_columns(*batch) ==> #[trigger] batch_column_failure(*batch, c) is None,
{
    let count: usize = batch_column_count(batch);
    let mut i: usize = 0;
    while i < count
        invariant
            i <= count,
            count == batch_columns(*batch),
            columns_failure(*batch, i as nat) is None,
            forall|c: int| 0 <= c < i ==> #[trigger] batch_column_failure(*batch, c) is None,
        decreases count - i,
    {
        match check_batch_column(batch, i) {
            Ok(_) => {},
            Err(message) => {
                proof {
                    failure_is_kept(*batch, (i + 1) as nat, batch_columns(*batch));
                }
                return Err(message);
            },
        }
        i += 1;
    }
    Ok(())
}

proof fn failure_is_kept(batch: PreviewBatch, n: nat, m: nat)
    requires
        n <= m,
        columns_failure(batch, n) is Some,
    ensures
        columns_failure(batch, m) == columns_failure(batch, n),
    decreases m,
{
    if n < m {
        failure_is_kept(batch, n, (m - 1) as nat);
    }
}

proof fn batch_failure_is_kept(batches: Seq<PreviewBatch>, n: int)
    requires
        0 <= n <= batches.len(),
        batches_failure(batches.take(n)) is Some,
    ensures
        batches_failure(batches) == batches_failure(batches.take(n)),
    decreases batches.len(),
{
    if n < batches.len() {
        assert(batches.drop_last().take(n) =~= batches.take(n));
        batch_failure_is_kept(batches.drop_last(), n);
    } else {
        assert(batches.take(n) =~= batches);
    }
}

fn push_shown_rows(rows: &mut Vec<Vec<String>>, batch: &PreviewBatch, columns: usize)
    requires
        forall|c: int|
            0 <= c < batch_columns(*batch) ==> #[trigger] batch_column_failure(*batch, c) is None,
    ensures
        rows_view(final(rows)@) == rows_view(old(rows)@) + shown_rows(*batch, columns as nat),
{
    let ghost before = rows_view(rows@);
    let ghost wanted = shown_rows(*batch, columns as nat);
    let row_count: usize = batch_row_count(batch);
    let column_count: usize = batch_column_count(batch);
    let width: usize = if columns < column_count {
        columns
    } else {
        column_count
    };
    let mut row: usize = 0;
    assert(before + wanted.take(0) =~= before);
    while row < row_count
        invariant
            row <= row_count,
            row_count == batch_rows(*batch),
            column_count == batch_columns(*batch),
            width == lesser(columns as nat, batch_columns(*batch)),
            width <= column_count,
            forall|c: int|
                0 <= c < batch_columns(*batch) ==> #[trigger] batch_column_failure(
                    *batch,
                    c,
                ) is None,
            before == rows_view(old(rows)@),
            wanted == shown_rows(*batch, columns as nat),
            rows_view(rows@) == before + wanted.take(row as int),
        decreases row_count - row,
    {
        let ghost shown = shown_row(*batch, columns as nat, row as int);
        let mut values: Vec<String> = Vec::new();
        let mut column: usize = 0;
        assert(views(values@) =~= shown.take(0));
        while column < width
            invariant
                column <= width,
                row < row_count,
                row_count == batch_rows(*batch),
                column_count == batch_columns(*batch),
                width == lesser(columns as nat, batch_columns(*batch)),
                width <= column_count,
                forall|c: int|
                    0 <= c < batch_columns(*batch) ==> #[trigger] batch_column_failure(
                        *batch,
                        c,
                    ) is None,
                shown == shown_row(*batch, columns as nat, row as int),
                views(values@) == shown.take(column as int),
            decreases width - column,
        {
            let value = batch_cell_text(batch, column, row, NULL_TEXT);
            proof {
                views_push(values@, value);
                assert(shown.take(column + 1) =~= shown.take(column as int).push(value@));
            }
            values.push(value);
            column += 1;
        }
        assert(shown.take(width as int) =~= shown);
        let ghost current = rows@;
        rows.push(values);
        proof {
            assert(rows_view(rows@) =~= rows_view(current).push(shown));
            assert(wanted.take(row + 1) =~= wanted.take(row as int).push(shown));
            assert(rows_view(rows@) =~= before + wanted.take(row + 1));
        }
        row += 1;
    }
    assert(wanted.take(row_count as int) =~= wanted);
}

/// Renders some batches as HTML.
pub fn preview_batches_to_html(schema: &Schema, batches: &Vec<PreviewBatch>) -> (r: Result<
    String,
    String,
>)
    ensures
        match batches_html(schema_fields(*schema), batches@) {
            Ok(html) => r matches Ok(text) && text@ == html,
            Err(message) => r matches Err(m) && m@ == message,
        },
{
    let row_count: u128 = count_rows(batches);
    let columns = columns_of(schema);
    let mut rows: Vec<Vec<String>> = Vec::new();
    assert(rows_view(rows@) =~= seq![]);
    if columns.len() == 0 {
        return Ok(preview_rows_to_html(&columns, &rows, row_count));
    }
    let ghost fields = schema_fields(*schema);
    let mut i: usize = 0;
    assert(rows_view(rows@) =~= all_shown_rows(batches@.take(0), fields.len()));
    while i < batches.len()
        invariant
            i <= batches.len(),
            fields == schema_fields(*schema),
            fields.len() > 0,
            columns@.len() == fields.len(),
            views(columns@) == preview_columns(fields),
            batches_failure(batches@.take(i as int)) is None,
            rows_view(rows@) == all_shown_rows(batches@.take(i as int), fields.len()),
        decreases batches.len() - i,
    {
        assert(batches@.take(i + 1).drop_last() =~= batches@.take(i as int));
        match check_columns(&batches[i]) {
            Ok(_) => {},
            Err(message) => {
                proof {
                    batch_failure_is_kept(batches@, i + 1);
                }
                return Err(message);
            },
        }
        push_shown_rows(&mut rows, &batches[i], columns.len());
        i += 1;
    }
    assert(batches@.take(batches.len() as int) =~= batches@);
    Ok(preview_rows_to_html(&columns, &rows, row_count))
}

} // verus!
