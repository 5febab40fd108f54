use vstd::prelude::*;

use comfy_table::Table;

use crate::model::User;
use crate::text::{decimal, int_text, views};

verus! {

#[verifier::external_type_specification]
#[verifier::external_body]
pub struct ExTable(comfy_table::Table);

/// The data rows of a table, in order: for each row, the text of each cell.
pub uninterp spec fn table_rows(t: Table) -> Seq<Seq<Seq<char>>>;

/// The text of each cell of a table's header row, once one is set.
pub uninterp spec fn table_header(t: Table) -> Option<Seq<Seq<char>>>;

/// Relies on comfy_table::Table::new: a new table has no header and no rows.
#[verifier::external_body]
fn new_table() -> (t: Table)
    ensures
        table_rows(t) == Seq::<Seq<Seq<char>>>::empty(),
        table_header(t) == None::<Seq<Seq<char>>>,
{
    Table::new()
}

/// Relies on comfy_table::Table::load_preset: it sets the drawing style of
/// the borders only, here that of `presets::UTF8_BORDERS_ONLY`.
#[verifier::external_body]
fn draw_outer_borders_only(t: &mut Table)
    ensures
        table_rows(*final(t)) == table_rows(*old(t)),
        table_header(*final(t)) == table_header(*old(t)),
{
    t.load_preset(comfy_table::presets::UTF8_BORDERS_ONLY);
}

/// Relies on comfy_table::Table::set_header: the header row becomes one cell
/// for each text, in order (a cell splits its text into lines and gives it
/// back joined as it was).
#[verifier::external_body]
fn set_table_header(t: &mut Table, cells: Vec<String>)
    ensures
        table_header(*final(t)) == Some(views(cells@)),
        table_rows(*final(t)) == table_rows(*old(t)),
{
    t.set_header(cells);
}

/// Relies on comfy_table::Table::add_row: a row of one cell for each text is
/// added after the others.
#[verifier::external_body]
fn add_table_row(t: &mut Table, cells: Vec<String>)
    ensures
        table_rows(*final(t)) == table_rows(*old(t)).push(views(cells@)),
        table_header(*final(t)) == table_header(*old(t)),
{
    t.add_row(cells);
}

/// The leaderboard's column titles.
pub open spec fn leaderboard_header() -> Seq<Seq<char>> {
    seq!["Username"@, "Points"@]
}

/// The leaderboard row of a user: the name, then the points in decimal.
pub open spec fn leaderboard_row(u: User) -> Seq<Seq<char>> {
    seq![u.username@, decimal(u.points as int)]
}

/// The leaderboard as a table with the header (Username, Points) and one row
/// for each user, in the order given.
pub fn users_table(users: &Vec<User>) -> (t: Table)
    ensures
        table_header(t) == Some(leaderboard_header()),
        table_rows(t).len() == users@.len(),
        forall|i: int|
            0 <= i < users@.len() ==> #[trigger] table_rows(t)[i] == leaderboard_row(users@[i]),
{
    let mut t = new_table();
    draw_outer_borders_only(&mut t);
    let mut header: Vec<String> = Vec::new();
    header.push(String::from_str("Username"));
    header.push(String::from_str("Points"));
    assert(views(header@) =~= leaderboard_header());
    set_table_header(&mut t, header);
    let mut i: usize = 0;
    while i < users.len()
        invariant
            i <= users@.len(),
            table_header(t) == Some(leaderboard_header()),
            table_rows(t).len() == i,
            forall|j: int| 0 <= j < i ==> #[trigger] table_rows(t)[j] == leaderboard_row(users@[j]),
        decreases users@.len() - i,
    {
        let u = &users[i];
        let mut row: Vec<String> = Vec::new();
        row.push(String::from_str(u.username.as_str()));
        row.push(int_text(u.points));
        assert(views(row@) =~= leaderboard_row(users@[i as int]));
        add_table_row(&mut t, row);
        i = i + 1;
    }
    t
}

} // verus!
