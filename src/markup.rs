//! The grid's markup: a ten-by-ten layout of cells whose hover style asks the
//! server for a path that names the cell and the render pass.
use crate::decimal::{dec, lemma_dec_injective, push_decimal};
use vstd::prelude::*;

verus! {

/// Side of the square grid.
pub const SIDE: usize = 10;

/// The static head of the document, written before the renderer's shell.
pub open spec fn preamble() -> Seq<char> {
    "<!DOCTYPE html>\n<head>\n    <title>Hello streaming</title>\n</head>\n<body>"@
}

/// Opens the grid's layout container.
pub open spec fn grid_open() -> Seq<char> {
    "<div style=\"display: grid; grid-template-columns: repeat(10, 1fr); grid-template-rows: repeat(10, 1fr); width: 400px; height: 400px;\">"@
}

/// Closes the grid's layout container.
pub open spec fn grid_close() -> Seq<char> {
    "</div>"@
}

/// The DOM id of cell `(i, j)` in render pass `pass`.
pub open spec fn cell_id(i: nat, j: nat, pass: nat) -> Seq<char> {
    "grid-"@ + dec(i) + "-"@ + dec(j) + "-"@ + dec(pass)
}

/// Cell ids of two different render passes differ, so two drawings of the
/// grid never share the id of a cell.
pub proof fn lemma_cell_ids_differ(i: nat, j: nat, p1: nat, p2: nat)
    requires
        p1 != p2,
    ensures
        cell_id(i, j, p1) != cell_id(i, j, p2),
{
    let head = "grid-"@ + dec(i) + "-"@ + dec(j) + "-"@;
    if cell_id(i, j, p1) == cell_id(i, j, p2) {
        assert(dec(p1) =~= cell_id(i, j, p1).subrange(head.len() as int, cell_id(i, j, p1).len() as int));
        assert(dec(p2) =~= cell_id(i, j, p2).subrange(head.len() as int, cell_id(i, j, p2).len() as int));
        lemma_dec_injective(p1, p2);
    }
}

/// The path that hovering cell `(i, j)` of render pass `pass` requests.
pub open spec fn hover_path(i: nat, j: nat, pass: nat) -> Seq<char> {
    "/hover/"@ + dec(i) + "/"@ + dec(j) + "/"@ + dec(pass)
}

/// The markup of cell `(i, j)` holding `value`, in render pass `pass`.
pub open spec fn cell_html(i: nat, j: nat, pass: nat, value: nat) -> Seq<char> {
    "<div id=\""@ + cell_id(i, j, pass)
        + "\" style=\"width: 100%; height: 100%; background-color: rgb(0%, "@ + dec(value)
        + "%, 0%);\">\n                <style>\n                #"@ + cell_id(i, j, pass)
        + ":hover {\n                    background-image: url(\""@ + hover_path(i, j, pass)
        + "\");\n                }\n                </style>\n                </div>"@
}

/// The first `j` cells of row `i`.
pub open spec fn row_html(g: [[usize; 10]; 10], pass: nat, i: nat, j: nat) -> Seq<char>
    decreases j,
{
    if j == 0 {
        Seq::empty()
    } else {
        row_html(g, pass, i, (j - 1) as nat) + cell_html(
            i,
            (j - 1) as nat,
            pass,
            g[i as int][j - 1] as nat,
        )
    }
}

/// The first `i` rows of the grid.
pub open spec fn rows_html(g: [[usize; 10]; 10], pass: nat, i: nat) -> Seq<char>
    decreases i,
{
    if i == 0 {
        Seq::empty()
    } else {
        rows_html(g, pass, (i - 1) as nat) + row_html(g, pass, (i - 1) as nat, 10)
    }
}

/// The whole grid `g`, drawn in render pass `pass`.
pub open spec fn grid_html(g: [[usize; 10]; 10], pass: nat) -> Seq<char> {
    grid_open() + rows_html(g, pass, 10) + grid_close()
}

/// Appends `first`, `sep`, `second`, `sep`, `third`, the numbers in decimal.
fn push_triple(s: &mut String, first: usize, sep: &str, second: usize, third: usize)
    ensures
        final(s)@ == old(s)@ + dec(first as nat) + sep@ + dec(second as nat) + sep@ + dec(
            third as nat,
        ),
{
    push_decimal(s, first);
    s.append(sep);
    push_decimal(s, second);
    s.append(sep);
    push_decimal(s, third);
}

/// Appends the DOM id of cell `(i, j)` in pass `pass`.
fn push_cell_id(s: &mut String, i: usize, j: usize, pass: usize)
    ensures
        final(s)@ == old(s)@ + cell_id(i as nat, j as nat, pass as nat),
{
    s.append("grid-");
    push_triple(s, i, "-", j, pass);
    assert(s@ =~= old(s)@ + cell_id(i as nat, j as nat, pass as nat));
}

/// Appends the markup of cell `(i, j)` holding `value` in pass `pass`.
fn push_cell(s: &mut String, i: usize, j: usize, pass: usize, value: usize)
    ensures
        final(s)@ == old(s)@ + cell_html(i as nat, j as nat, pass as nat, value as nat),
{
    let ghost (a, b, c, v) = (i as nat, j as nat, pass as nat, value as nat);
    s.append("<div id=\"");
    push_cell_id(s, i, j, pass);
    s.append("\" style=\"width: 100%; height: 100%; background-color: rgb(0%, ");
    push_decimal(s, value);
    s.append("%, 0%);\">\n                <style>\n                #");
    push_cell_id(s, i, j, pass);
    let ghost mid = s@;
    assert(mid =~= old(s)@ + ("<div id=\""@ + cell_id(a, b, c)
        + "\" style=\"width: 100%; height: 100%; background-color: rgb(0%, "@ + dec(v)
        + "%, 0%);\">\n                <style>\n                #"@ + cell_id(a, b, c)));
    s.append(":hover {\n                    background-image: url(\"");
    s.append("/hover/");
    push_triple(s, i, "/", j, pass);
    assert(s@ =~= mid + (":hover {\n                    background-image: url(\""@
        + hover_path(a, b, c)));
    s.append("\");\n                }\n                </style>\n                </div>");
    assert(s@ =~= old(s)@ + cell_html(a, b, c, v));
}

/// The markup of the whole grid `g` in render pass `pass`.
pub fn grid_markup(g: &[[usize; 10]; 10], pass: usize) -> (r: String)
    ensures
        r@ == grid_html(*g, pass as nat),
{
    let mut html = String::from_str(
        "<div style=\"display: grid; grid-template-columns: repeat(10, 1fr); grid-template-rows: repeat(10, 1fr); width: 400px; height: 400px;\">",
    );
    let mut i: usize = 0;
    while i < SIDE
        invariant
            i <= 10,
            html@ == grid_open() + rows_html(*g, pass as nat, i as nat),
        decreases 10 - i,
    {
        let mut j: usize = 0;
        while j < SIDE
            invariant
                i < 10,
                j <= 10,
                html@ == grid_open() + rows_html(*g, pass as nat, i as nat) + row_html(
                    *g,
                    pass as nat,
                    i as nat,
                    j as nat,
                ),
            decreases 10 - j,
        {
            let value = g[i][j];
            push_cell(&mut html, i, j, pass, value);
            assert(html@ =~= grid_open() + rows_html(*g, pass as nat, i as nat) + row_html(
                *g,
                pass as nat,
                i as nat,
                (j + 1) as nat,
            ));
            j = j + 1;
        }
        assert(html@ =~= grid_open() + rows_html(*g, pass as nat, (i + 1) as nat));
        i = i + 1;
    }
    html.append("</div>");
    html
}

} // verus!
