//! How the parts of a preview table follow each other.

use vstd::prelude::*;

use crate::engine::{
    PreviewBatch, SchemaFieldView, batch_cell, batch_column_failure, batch_columns, batch_rows,
};
use crate::html::{
    ColumnView, STYLE_CELLS, STYLE_DARK, STYLE_FOOTER, STYLE_HEADER, STYLE_MUTED, STYLE_NUMBERS,
    STYLE_ROOT, STYLE_STRIPES, STYLE_TABLE, STYLE_WRAP, all_shown_rows, batches_failure,
    batches_html, columns_failure, header_cell, header_cells, html_escaped, preview_columns,
    preview_html, shown_rows, style_block, table_row, table_rows, total_rows, value_cell,
    value_cells,
};
use crate::text::decimal;

verus! {

/// Rows are written in order: the rows of two lists, one behind the other, are the rows of the
/// first and after them the rows of the second.
pub proof fn rows_are_written_in_order(
    columns: Seq<ColumnView>,
    earlier: Seq<Seq<Seq<char>>>,
    later: Seq<Seq<Seq<char>>>,
)
    ensures
        table_rows(columns, earlier + later) == table_rows(columns, earlier) + table_rows(
            columns,
            later,
        ),
    decreases later.len(),
{
    if later.len() == 0 {
        assert(earlier + later =~= earlier);
        assert(table_rows(columns, earlier) + table_rows(columns, later) =~= table_rows(
            columns,
            earlier,
        ));
    } else {
        let all = earlier + later;
        rows_are_written_in_order(columns, earlier, later.drop_last());
        assert(all.drop_last() =~= earlier + later.drop_last());
        assert(all.last() == later.last());
        assert(table_rows(columns, earlier) + table_rows(columns, later) =~= table_rows(
            columns,
            earlier,
        ) + table_rows(columns, later.drop_last()) + table_row(columns, later.last()));
    }
}

/// One row alone is written as that row, and no row as nothing.
pub proof fn one_row_is_written_alone(columns: Seq<ColumnView>, row: Seq<Seq<char>>)
    ensures
        table_rows(columns, seq![]) == Seq::<char>::empty(),
        table_rows(columns, seq![row]) == table_row(columns, row),
{
    let rows = seq![row];
    assert(rows.last() == row);
    assert(table_rows(columns, rows.drop_last()) =~= Seq::<char>::empty());
    assert(table_rows(columns, rows) =~= table_row(columns, row));
}

/// Every row stands in the table between the rows before it and the rows behind it.
pub proof fn every_row_stands_at_its_place(
    columns: Seq<ColumnView>,
    rows: Seq<Seq<Seq<char>>>,
    i: int,
)
    requires
        0 <= i < rows.len(),
    ensures
        table_rows(columns, rows) == table_rows(columns, rows.take(i)) + table_row(columns, rows[i])
            + table_rows(columns, rows.skip(i + 1)),
{
    assert(rows =~= rows.take(i) + seq![rows[i]] + rows.skip(i + 1));
    rows_are_written_in_order(columns, rows.take(i) + seq![rows[i]], rows.skip(i + 1));
    rows_are_written_in_order(columns, rows.take(i), seq![rows[i]]);
    one_row_is_written_alone(columns, rows[i]);
}

/// Two rows stand in the table in their order.
pub proof fn earlier_rows_stand_before_later_ones(
    columns: Seq<ColumnView>,
    rows: Seq<Seq<Seq<char>>>,
    i: int,
    j: int,
)
    requires
        0 <= i < j < rows.len(),
    ensures
        table_rows(columns, rows) == table_rows(columns, rows.take(i)) + table_row(columns, rows[i])
            + table_rows(columns, rows.subrange(i + 1, j)) + table_row(columns, rows[j])
            + table_rows(columns, rows.skip(j + 1)),
{
    every_row_stands_at_its_place(columns, rows, j);
    every_row_stands_at_its_place(columns, rows.take(j), i);
    assert(rows.take(j).take(i) =~= rows.take(i));
    assert(rows.take(j).skip(i + 1) =~= rows.subrange(i + 1, j));
}

proof fn cells_of_a_longer_row(
    columns: Seq<ColumnView>,
    values: Seq<Seq<char>>,
    more_columns: Seq<ColumnView>,
    more_values: Seq<Seq<char>>,
    n: nat,
)
    requires
        n <= columns.len(),
        n <= values.len(),
    ensures
        value_cells(columns + more_columns, values + more_values, n) == value_cells(
            columns,
            values,
            n,
        ),
    decreases n,
{
    if n > 0 {
        cells_of_a_longer_row(columns, values, more_columns, more_values, (n - 1) as nat);
    }
}

/// Cells are written in the order of the columns, each value under its own column.
pub proof fn cells_are_written_in_order(
    columns: Seq<ColumnView>,
    values: Seq<Seq<char>>,
    more_columns: Seq<ColumnView>,
    more_values: Seq<Seq<char>>,
)
    requires
        columns.len() == values.len(),
        more_columns.len() == more_values.len(),
    ensures
        value_cells(
            columns + more_columns,
            values + more_values,
            columns.len() + more_columns.len(),
        ) == value_cells(columns, values, columns.len()) + value_cells(
            more_columns,
            more_values,
            more_columns.len(),
        ),
    decreases more_columns.len(),
{
    let n = more_columns.len();
    if n == 0 {
        cells_of_a_longer_row(columns, values, more_columns, more_values, columns.len());
        assert(value_cells(columns, values, columns.len()) + value_cells(
            more_columns,
            more_values,
            0,
        ) =~= value_cells(columns, values, columns.len()));
    } else {
        let front = more_columns.drop_last();
        let front_values = more_values.drop_last();
        cells_are_written_in_order(columns, values, front, front_values);
        let all = columns + more_columns;
        let all_values = values + more_values;
        let m = (columns.len() + n) as nat;
        assert(all =~= (columns + front) + seq![more_columns.last()]);
        assert(all_values =~= (values + front_values) + seq![more_values.last()]);
        cells_of_a_longer_row(
            columns + front,
            values + front_values,
            seq![more_columns.last()],
            seq![more_values.last()],
            (m - 1) as nat,
        );
        assert(more_columns =~= front + seq![more_columns.last()]);
        assert(more_values =~= front_values + seq![more_values.last()]);
        cells_of_a_longer_row(
            front,
            front_values,
            seq![more_columns.last()],
            seq![more_values.last()],
            (n - 1) as nat,
        );
        assert(all[m - 1] == more_columns[n - 1]);
        assert(all_values[m - 1] == more_values[n - 1]);
        assert(value_cells(columns, values, columns.len()) + value_cells(
            more_columns,
            more_values,
            n,
        ) =~= value_cells(columns, values, columns.len()) + value_cells(
            front,
            front_values,
            (n - 1) as nat,
        ) + value_cell(more_columns[n - 1], more_values[n - 1]));
    }
}

/// One cell holds its escaped value and, under a numeric column, the class of numbers.
pub proof fn one_cell_holds_its_value(column: ColumnView, value: Seq<char>)
    ensures
        column.numeric ==> value_cells(seq![column], seq![value], 1) == "<td"@
            + " class=\"df-num\""@ + ">"@ + html_escaped(value) + "</td>"@,
        !column.numeric ==> value_cells(seq![column], seq![value], 1) == "<td"@ + ">"@
            + html_escaped(value) + "</td>"@,
{
    reveal_strlit("");
    assert(value_cells(seq![column], seq![value], 0) =~= Seq::<char>::empty());
    assert(value_cells(seq![column], seq![value], 1) =~= value_cell(column, value));
    assert("<td"@ + ""@ =~= "<td"@);
}

/// A row of as many values as columns is written as all of its cells in one row element.
pub proof fn row_holds_all_its_cells(columns: Seq<ColumnView>, values: Seq<Seq<char>>)
    requires
        columns.len() == values.len(),
    ensures
        table_row(columns, values) == "<tr>"@ + value_cells(columns, values, columns.len())
            + "</tr>"@,
{
}

/// A row that is longer or shorter than the columns is cut to what both have.
pub proof fn row_is_cut_to_the_columns(
    columns: Seq<ColumnView>,
    values: Seq<Seq<char>>,
    more_columns: Seq<ColumnView>,
    more_values: Seq<Seq<char>>,
)
    requires
        columns.len() == values.len(),
        more_columns.len() == 0 || more_values.len() == 0,
    ensures
        table_row(columns + more_columns, values + more_values) == table_row(columns, values),
{
    cells_of_a_longer_row(columns, values, more_columns, more_values, columns.len());
}

/// Headers are written in the order of the columns.
pub proof fn headers_are_written_in_order(earlier: Seq<ColumnView>, later: Seq<ColumnView>)
    ensures
        header_cells(earlier + later) == header_cells(earlier) + header_cells(later),
    decreases later.len(),
{
    if later.len() == 0 {
        assert(earlier + later =~= earlier);
        assert(header_cells(earlier) + header_cells(later) =~= header_cells(earlier));
    } else {
        let all = earlier + later;
        headers_are_written_in_order(earlier, later.drop_last());
        assert(all.drop_last() =~= earlier + later.drop_last());
        assert(all.last() == later.last());
        assert(header_cells(earlier) + header_cells(later) =~= header_cells(earlier) + header_cells(
            later.drop_last(),
        ) + header_cell(later.last()));
    }
}

/// One header shows the escaped name and the escaped type of its column and, over a numeric
/// column, has the class of numbers.
pub proof fn one_header_shows_its_column(column: ColumnView)
    ensures
        column.numeric ==> header_cells(seq![column]) == "<th"@ + " class=\"df-num\""@ + "><span>"@
            + html_escaped(column.name) + "</span><br><span class=\"df-type\">"@ + html_escaped(
            column.type_text,
        ) + "</span></th>"@,
        !column.numeric ==> header_cells(seq![column]) == "<th"@ + "><span>"@ + html_escaped(
            column.name,
        ) + "</span><br><span class=\"df-type\">"@ + html_escaped(column.type_text)
            + "</span></th>"@,
{
    reveal_strlit("");
    let columns = seq![column];
    assert(columns.last() == column);
    assert(header_cells(columns.drop_last()) =~= Seq::<char>::empty());
    assert(header_cells(columns) =~= header_cell(column));
    assert("<th"@ + ""@ =~= "<th"@);
}

/// Every preview opens its element and its style sheet and closes the style sheet again.
pub proof fn style_sheet_is_opened_and_closed()
    ensures
        exists|rules: Seq<char>|
            style_block() == #[trigger] ("<div class=\"deltafunnel-preview\"><style>"@ + rules)
                + "</style>"@,
{
    let open = "<div class=\"deltafunnel-preview\"><style>"@;
    let rules = STYLE_ROOT@ + STYLE_WRAP@ + STYLE_TABLE@ + STYLE_CELLS@ + STYLE_HEADER@
        + STYLE_STRIPES@ + STYLE_MUTED@ + STYLE_NUMBERS@ + STYLE_FOOTER@ + STYLE_DARK@;
    assert(style_block() =~= (open + rules) + "</style>"@);
}

/// A preview with columns is the headers and, behind them, the rows, with the counts of rows and
/// columns below; a preview without columns says so and counts the rows.
pub proof fn preview_shows_headers_rows_and_counts(
    columns: Seq<ColumnView>,
    rows: Seq<Seq<Seq<char>>>,
    row_count: nat,
)
    ensures
        columns.len() > 0 ==> preview_html(columns, rows, row_count) == style_block()
            + "<div class=\"df-wrap\"><table><thead><tr>"@ + header_cells(columns)
            + "</tr></thead><tbody>"@ + table_rows(columns, rows)
            + "</tbody></table></div><div class=\"df-footer\">Showing <b>"@ + decimal(row_count)
            + "</b> rows, <b>"@ + decimal(columns.len()) + "</b> columns.</div></div>"@,
        columns.len() == 0 ==> preview_html(columns, rows, row_count) == style_block()
            + "<div class=\"df-wrap\" style=\"padding:10px\">(No columns)</div>"@
            + "<div class=\"df-footer\">Showing <b>"@ + decimal(row_count)
            + "</b> rows, <b>0</b> columns.</div></div>"@,
{
}

/// The shown columns are the schema's, in its order; integers, floating-point numbers and
/// decimals are numbers and nothing else is.
pub proof fn columns_are_those_of_the_schema(fields: Seq<SchemaFieldView>)
    ensures
        preview_columns(fields).len() == fields.len(),
        forall|i: int|
            0 <= i < fields.len() ==> {
                let column = #[trigger] preview_columns(fields)[i];
                let kind = fields[i].column_type;
                &&& column.name == fields[i].name
                &&& column.type_text == fields[i].type_text
                &&& column.numeric <==> kind.integer || kind.floating || kind.decimal
            },
{
}

/// Every row of a batch is shown, in order, and every cell of it that a column is there for.
pub proof fn rows_of_a_batch_are_shown(batch: PreviewBatch, columns: nat)
    ensures
        shown_rows(batch, columns).len() == batch_rows(batch),
        forall|r: int|
            0 <= r < batch_rows(batch) ==> {
                let row = #[trigger] shown_rows(batch, columns)[r];
                &&& row.len() <= columns
                &&& row.len() <= batch_columns(batch)
                &&& row.len() == columns || row.len() == batch_columns(batch)
                &&& forall|c: int|
                    0 <= c < row.len() ==> #[trigger] row[c] == batch_cell(
                        batch,
                        c,
                        r,
                        "null"@,
                    )
            },
{
}

/// The rows of the batches are shown in the order of the batches, and all are counted.
pub proof fn batches_are_shown_in_order(
    earlier: Seq<PreviewBatch>,
    later: Seq<PreviewBatch>,
    columns: nat,
)
    ensures
        all_shown_rows(earlier + later, columns) == all_shown_rows(earlier, columns)
            + all_shown_rows(later, columns),
        total_rows(earlier + later) == total_rows(earlier) + total_rows(later),
    decreases later.len(),
{
    if later.len() == 0 {
        assert(earlier + later =~= earlier);
        assert(all_shown_rows(earlier, columns) + all_shown_rows(later, columns)
            =~= all_shown_rows(earlier, columns));
    } else {
        let all = earlier + later;
        batches_are_shown_in_order(earlier, later.drop_last(), columns);
        assert(all.drop_last() =~= earlier + later.drop_last());
        assert(all.last() == later.last());
        assert(all_shown_rows(earlier, columns) + all_shown_rows(later, columns)
            =~= all_shown_rows(earlier, columns) + all_shown_rows(later.drop_last(), columns)
            + shown_rows(later.last(), columns));
    }
}

/// One batch alone shows its own rows and counts them.
pub proof fn one_batch_is_shown_alone(batch: PreviewBatch, columns: nat)
    ensures
        all_shown_rows(seq![batch], columns) == shown_rows(batch, columns),
        total_rows(seq![batch]) == batch_rows(batch),
        total_rows(seq![]) == 0,
{
    let batches = seq![batch];
    assert(batches.last() == batch);
    assert(all_shown_rows(batches.drop_last(), columns) =~= Seq::<Seq<Seq<char>>>::empty());
    assert(all_shown_rows(batches, columns) =~= shown_rows(batch, columns));
    assert(total_rows(batches.drop_last()) == 0);
}

/// As many rows are shown as are counted.
pub proof fn all_counted_rows_are_shown(batches: Seq<PreviewBatch>, columns: nat)
    ensures
        all_shown_rows(batches, columns).len() == total_rows(batches),
    decreases batches.len(),
{
    if batches.len() > 0 {
        all_counted_rows_are_shown(batches.drop_last(), columns);
    }
}

/// A column of a batch cannot be shown.
pub open spec fn column_fails(batch: PreviewBatch, c: int) -> bool {
    0 <= c < batch_columns(batch) && batch_column_failure(batch, c) is Some
}

/// No column of a batch before a position fails.
pub open spec fn columns_hold(batch: PreviewBatch, n: int) -> bool {
    forall|c: int| 0 <= c < n ==> (#[trigger] batch_column_failure(batch, c)) is None
}

proof fn first_column_failure(batch: PreviewBatch, n: nat)
    ensures
        columns_hold(batch, n as int) <==> columns_failure(batch, n) is None,
        columns_failure(batch, n) matches Some(message) ==> exists|c: int|
            0 <= c < n && #[trigger] batch_column_failure(batch, c) == Some(message)
                && columns_hold(batch, c),
    decreases n,
{
    if n > 0 {
        first_column_failure(batch, (n - 1) as nat);
        match columns_failure(batch, (n - 1) as nat) {
            Some(message) => {
                let c = choose|c: int|
                    0 <= c < n - 1 && #[trigger] batch_column_failure(batch, c) == Some(message)
                        && columns_hold(batch, c);
                assert(batch_column_failure(batch, c) == Some(message));
            },
            None => {
                assert(columns_hold(batch, n - 1));
                if batch_column_failure(batch, n - 1) is None {
                    assert(columns_hold(batch, n as int));
                }
            },
        }
    }
}

/// No column of any of the batches before a position fails.
pub open spec fn batches_hold(batches: Seq<PreviewBatch>, n: int) -> bool {
    forall|b: int|
        0 <= b < n ==> columns_hold(#[trigger] batches[b], batch_columns(batches[b]) as int)
}

/// A message is that of the first column, in the order of the batches and of their columns,
/// that fails.
pub open spec fn is_first_failure(batches: Seq<PreviewBatch>, message: Seq<char>) -> bool {
    exists|b: int, c: int|
        #![trigger batch_column_failure(batches[b], c)]
        0 <= b < batches.len() && column_fails(batches[b], c) && batch_column_failure(
            batches[b],
            c,
        ) == Some(message) && columns_hold(batches[b], c) && batches_hold(batches, b)
}

proof fn first_batch_failure(batches: Seq<PreviewBatch>)
    ensures
        batches_hold(batches, batches.len() as int) <==> batches_failure(batches) is None,
        batches_failure(batches) matches Some(message) ==> is_first_failure(batches, message),
    decreases batches.len(),
{
    if batches.len() > 0 {
        let front = batches.drop_last();
        let last = batches.last();
        let n = batches.len() - 1;
        first_batch_failure(front);
        first_column_failure(last, batch_columns(last));
        assert(forall|b: int| 0 <= b < n ==> front[b] == #[trigger] batches[b]);
        assert(batches[n] == last);
        match batches_failure(front) {
            Some(message) => {
                let (b, c) = choose|b: int, c: int|
                    #![trigger batch_column_failure(front[b], c)]
                    0 <= b < front.len() && column_fails(front[b], c) && batch_column_failure(
                        front[b],
                        c,
                    ) == Some(message) && columns_hold(front[b], c) && batches_hold(front, b);
                assert(front[b] == batches[b]);
                assert forall|x: int| 0 <= x < b implies columns_hold(
                    #[trigger] batches[x],
                    batch_columns(batches[x]) as int,
                ) by {
                    assert(front[x] == batches[x]);
                }
                assert(batch_column_failure(batches[b], c) == Some(message));
                assert(!columns_hold(batches[b], batch_columns(batches[b]) as int));
            },
            None => {
                assert forall|x: int| 0 <= x < n implies columns_hold(
                    #[trigger] batches[x],
                    batch_columns(batches[x]) as int,
                ) by {
                    assert(front[x] == batches[x]);
                }
                assert(batches_hold(batches, n));
                match columns_failure(last, batch_columns(last)) {
                    Some(message) => {
                        let c = choose|c: int|
                            0 <= c < batch_columns(last) && #[trigger] batch_column_failure(last, c)
                                == Some(message) && columns_hold(last, c);
                        assert(batch_column_failure(batches[n], c) == Some(message));
                        assert(!columns_hold(batches[n], batch_columns(last) as int));
                    },
                    None => {
                        assert forall|x: int| 0 <= x < batches.len() implies columns_hold(
                            #[trigger] batches[x],
                            batch_columns(batches[x]) as int,
                        ) by {
                            if x < n {
                                assert(front[x] == batches[x]);
                            }
                        }
                    },
                }
            },
        }
    }
}

/// Batches are shown where all their columns can be: the headers of the schema, the rows in
/// order, the count of rows. Where a column cannot, the first such column says why. Without
/// columns there is nothing to fail and the rows are counted alone.
pub proof fn batches_are_shown_or_the_first_failure_is(
    fields: Seq<SchemaFieldView>,
    batches: Seq<PreviewBatch>,
)
    ensures
        fields.len() == 0 ==> batches_html(fields, batches) == Ok::<Seq<char>, Seq<char>>(
            preview_html(seq![], seq![], total_rows(batches)),
        ),
        fields.len() > 0 && batches_hold(batches, batches.len() as int) ==> batches_html(
            fields,
            batches,
        ) == Ok::<Seq<char>, Seq<char>>(
            preview_html(
                preview_columns(fields),
                all_shown_rows(batches, fields.len()),
                total_rows(batches),
            ),
        ),
        fields.len() > 0 && !batches_hold(batches, batches.len() as int) ==> (batches_html(
            fields,
            batches,
        ) matches Err(message) && is_first_failure(batches, message)),
{
    first_batch_failure(batches);
    assert(fields.len() == 0 ==> preview_columns(fields) =~= seq![]);
}

} // verus!
