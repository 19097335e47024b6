use comfy_table::presets::UTF8_BORDERS_ONLY;
use comfy_table::{Cell, Color, Table};
use std::collections::BTreeMap;
use crate::registry::{decimal, entries_in_order, entry_order, lists_in_order};
use vstd::prelude::*;
use vstd::std_specs::iter::IteratorSpec;

verus! {

#[verifier::external_type_specification]
#[verifier::external_body]
pub struct ExTable(Table);

#[verifier::external_type_specification]
#[verifier::external_body]
pub struct ExCell(Cell);

/// The header row of a table, as the texts of its cells.
pub uninterp spec fn table_header(t: Table) -> Option<Seq<Seq<char>>>;

/// The body rows of a table, in order, each as the texts of its cells.
pub uninterp spec fn table_rows(t: Table) -> Seq<Seq<Seq<char>>>;

/// The border characters of a table, as `Table::current_style_as_preset` gives them back.
pub uninterp spec fn table_style(t: Table) -> Seq<char>;

/// The text that a cell holds, as `Cell::content` gives it back.
pub uninterp spec fn cell_text(c: Cell) -> Seq<char>;

/// The foreground colours that the table uses.
#[derive(Clone, Copy, Debug)]
enum Tint {
    Cyan,
    Yellow,
    Red,
    Green,
}

/// The cell texts of the row that shows one entry: its code in decimal, then its reason.
pub open spec fn row_texts(e: (u16, &'static str)) -> Seq<Seq<char>> {
    seq![decimal(e.0 as nat), e.1@]
}

/// Borders and the line under the header, with no lines between body rows.
pub open spec fn borders_only() -> Seq<char> {
    "││──╞══╡     ──┌┐└┘"@
}

/// The cell texts of the header row.
pub open spec fn header_texts() -> Seq<Seq<char>> {
    seq!["Code"@, "Description"@]
}

/// Relies on comfy_table::Table::new: the new table has no header and no rows.
#[verifier::external_body]
fn new_table() -> (t: Table)
    ensures
        table_header(t) is None,
        table_rows(t) == Seq::<Seq<Seq<char>>>::empty(),
{
    Table::new()
}

/// Relies on comfy_table::Table::load_preset with `presets::UTF8_BORDERS_ONLY`: that preset
/// names a character for each of the nineteen components, so the style becomes exactly it;
/// header and rows stay.
#[verifier::external_body]
fn use_borders_only(t: &mut Table)
    ensures
        table_style(*final(t)) == borders_only(),
        table_header(*final(t)) == table_header(*old(t)),
        table_rows(*final(t)) == table_rows(*old(t)),
{
    t.load_preset(UTF8_BORDERS_ONLY);
}

/// Relies on comfy_table::Table::set_header: the header becomes the given cells; style and
/// rows stay.
#[verifier::external_body]
fn set_header(t: &mut Table, cells: Vec<Cell>)
    ensures
        table_style(*final(t)) == table_style(*old(t)),
        table_header(*final(t)) == Some(cells@.map_values(|c: Cell| cell_text(c))),
        table_rows(*final(t)) == table_rows(*old(t)),
{
    t.set_header(cells);
}

/// Relies on comfy_table::Table::add_row: the given cells become a row after the others;
/// style and header stay.
#[verifier::external_body]
fn add_row(t: &mut Table, cells: Vec<Cell>)
    ensures
        table_style(*final(t)) == table_style(*old(t)),
        table_header(*final(t)) == table_header(*old(t)),
        table_rows(*final(t)) == table_rows(*old(t)).push(cells@.map_values(|c: Cell| cell_text(c))),
{
    t.add_row(cells);
}

/// Relies on comfy_table::Cell::new: the cell keeps the text (split at line breaks, which
/// `Cell::content` joins again).
#[verifier::external_body]
fn new_cell(text: &str) -> (c: Cell)
    ensures
        cell_text(c) == text@,
{
    Cell::new(text)
}

/// Relies on comfy_table::Cell::fg: it sets the foreground colour and keeps the text.
#[verifier::external_body]
fn paint(c: Cell, tint: Tint) -> (r: Cell)
    ensures
        cell_text(r) == cell_text(c),
{
    c.fg(
        match tint {
            Tint::Cyan => Color::Cyan,
            Tint::Yellow => Color::Yellow,
            Tint::Red => Color::Red,
            Tint::Green => Color::Green,
        },
    )
}

/// Relies on `ToString` for `u16`: its decimal digits, without sign or leading zeros.
#[verifier::external_body]
fn decimal_text(n: u16) -> (s: String)
    ensures
        s@ == decimal(n as nat),
{
    n.to_string()
}

/// A painted cell holding `text`.
fn tinted_cell(text: &str, tint: Tint) -> (c: Cell)
    ensures
        cell_text(c) == text@,
{
    paint(new_cell(text), tint)
}

/// Lays the registry out as a bordered table: a header `Code | Description`, then one
/// row per entry. The rows come in strictly ascending order of code, each entry once.
pub fn build_table(status_codes: &BTreeMap<u16, &'static str>) -> (t: Table)
    ensures
        table_style(t) == borders_only(),
        table_header(t) == Some(header_texts()),
        table_rows(t) == entries_in_order(status_codes).map_values(
            |e: (u16, &'static str)| row_texts(e),
        ),
        lists_in_order(status_codes@, entries_in_order(status_codes)),
{
    let mut t = new_table();
    use_borders_only(&mut t);
    let header = vec![tinted_cell("Code", Tint::Cyan), tinted_cell("Description", Tint::Yellow)];
    set_header(&mut t, header);
    assert(header@.map_values(|c: Cell| cell_text(c)) =~= header_texts());
    let entries = entry_order(status_codes);
    let ghost order = entries_in_order(status_codes);
    for (code, description) in it: entries
        invariant
            it.seq().unref() == order,
            table_style(t) == borders_only(),
            table_header(t) == Some(header_texts()),
            table_rows(t) == order.take(it.index() as int).map_values(
                |e: (u16, &'static str)| row_texts(e),
            ),
    {
        let digits = decimal_text(*code);
        let row = vec![tinted_cell(digits.as_str(), Tint::Red), tinted_cell(*description, Tint::Green)];
        assert(row@.map_values(|c: Cell| cell_text(c)) =~= row_texts(order[it.index() as int]));
        add_row(&mut t, row);
        assert(order.take(it.index() + 1) =~= order.take(it.index() as int).push(order[it.index() as int]));
        assert(table_rows(t) =~= order.take(it.index() + 1).map_values(
            |e: (u16, &'static str)| row_texts(e),
        ));
    }
    assert(table_rows(t) =~= order.map_values(|e: (u16, &'static str)| row_texts(e)));
    t
}

} // verus!
