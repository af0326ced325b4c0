//! Rows of a CSV table turned into command-line arguments.
//!
//! The header names the flags; each row gives their values. A cell `FALSE`
//! omits its flag, a cell `TRUE` gives the bare flag, and any other cell
//! gives the flag followed by the cell as its value.

use vstd::prelude::*;

use crate::text::views;

verus! {

#[verifier::external_type_specification]
#[verifier::external_body]
pub struct ExCsvError(csv::Error);

/// A header and rows of cells.
#[derive(Debug, Clone)]
pub struct TabularInput {
    pub header: Vec<String>,
    pub rows: Vec<Vec<String>>,
}

/// Why a table could not be turned into arguments.
#[derive(Debug, Clone, Copy, PartialEq, Eq, Structural)]
pub enum TabularError {
    /// The CSV text could not be read.
    Malformed,
    /// The row at this index has not as many cells as the header.
    RaggedRow(usize),
}

/// The byte that starts a comment line.
pub const COMMENT_MARKER: u8 = 35;

/// The views of rows of strings.
pub open spec fn row_views(rows: Seq<Vec<String>>) -> Seq<Seq<Seq<char>>> {
    rows.map_values(|r: Vec<String>| views(r@))
}

impl TabularInput {
    pub open spec fn header_view(&self) -> Seq<Seq<char>> {
        views(self.header@)
    }

    pub open spec fn rows_view(&self) -> Seq<Seq<Seq<char>>> {
        row_views(self.rows@)
    }

    /// Every row has exactly as many cells as the header.
    pub open spec fn rectangular(&self) -> bool {
        forall|i: int| 0 <= i < self.rows@.len() ==> #[trigger] self.rows@[i]@.len() == self.header@.len()
    }
}

/// The header and records that the CSV reader finds in `text`, with
/// `comment` as the comment byte, if it reads the text without error.
pub uninterp spec fn csv_records(text: Seq<char>, comment: u8) -> Option<(Seq<Seq<char>>, Seq<Seq<Seq<char>>>)>;

/// Relies on csv's `ReaderBuilder` with a header line, `comment` as the
/// comment byte and the default strict field count: `headers` and `records`
/// give the header and the records, and a record whose length differs from
/// the header's is an `UnequalLengths` error.
#[verifier::external_body]
fn read_csv(text: &str, comment: u8) -> (r: Result<TabularInput, csv::Error>)
    ensures
        r is Ok <==> csv_records(text@, comment) is Some,
        r matches Ok(t) ==> csv_records(text@, comment) == Some((t.header_view(), t.rows_view()))
            && t.rectangular(),
{
    let mut rdr = csv::ReaderBuilder::new().comment(Some(comment)).has_headers(true).from_reader(
        text.as_bytes(),
    );
    let header = rdr.headers()?.iter().map(String::from).collect();
    let mut rows = Vec::new();
    for record in rdr.records() {
        rows.push(record?.iter().map(String::from).collect());
    }
    Ok(TabularInput { header, rows })
}

/// The arguments that one cell gives for the flag named `h`.
pub open spec fn cell_args(h: Seq<char>, v: Seq<char>) -> Seq<Seq<char>> {
    if v == "FALSE"@ {
        seq![]
    } else if v == "TRUE"@ {
        seq!["--"@ + h]
    } else {
        seq!["--"@ + h, v]
    }
}

/// The arguments of each column, in header order.
pub open spec fn column_args(header: Seq<Seq<char>>, row: Seq<Seq<char>>) -> Seq<Seq<Seq<char>>> {
    Seq::new(header.len(), |j: int| cell_args(header[j], row[j]))
}

/// The arguments of one row: those of its columns, one after the other.
pub open spec fn row_args(header: Seq<Seq<char>>, row: Seq<Seq<char>>) -> Seq<Seq<char>> {
    column_args(header, row).flatten()
}

/// The arguments of each row, in row order.
pub open spec fn expanded(header: Seq<Seq<char>>, rows: Seq<Seq<Seq<char>>>) -> Seq<Seq<Seq<char>>> {
    Seq::new(rows.len(), |i: int| row_args(header, rows[i]))
}

/// A cell `TRUE` gives the bare flag, a cell `FALSE` gives nothing, and any
/// other cell gives the flag and the cell.
pub proof fn lemma_boolean_cells(header: Seq<Seq<char>>, row: Seq<Seq<char>>, j: int)
    requires
        0 <= j < header.len(),
    ensures
        row[j] == "TRUE"@ ==> column_args(header, row)[j] == seq!["--"@ + header[j]],
        row[j] == "FALSE"@ ==> column_args(header, row)[j].len() == 0,
        row[j] != "TRUE"@ && row[j] != "FALSE"@ ==> column_args(header, row)[j] == seq![
            "--"@ + header[j],
            row[j],
        ],
{
    reveal_strlit("TRUE");
    reveal_strlit("FALSE");
    assert("TRUE"@ != "FALSE"@) by {
        assert("TRUE"@[0] != "FALSE"@[0]);
    }
}

/// The arguments of one row with as many cells as the header.
pub fn expand_row(header: &Vec<String>, row: &Vec<String>) -> (r: Vec<String>)
    requires
        row@.len() == header@.len(),
    ensures
        views(r@) == row_args(views(header@), views(row@)),
{
    let ghost h = views(header@);
    let ghost w = views(row@);
    let yes = String::from_str("TRUE");
    let no = String::from_str("FALSE");
    let mut r: Vec<String> = Vec::new();
    let mut j: usize = 0;
    while j < header.len()
        invariant
            j <= header@.len() == row@.len(),
            h == views(header@),
            w == views(row@),
            yes@ == "TRUE"@,
            no@ == "FALSE"@,
            views(r@) == Seq::new(j as nat, |k: int| cell_args(h[k], w[k])).flatten(),
        decreases header@.len() - j,
    {
        let ghost before = views(r@);
        let value = &row[j];
        if !(*value == no) {
            let mut flag = String::from_str("--");
            flag.append(header[j].as_str());
            r.push(flag);
            if !(*value == yes) {
                r.push(value.clone());
            }
        }
        proof {
            let f = |k: int| cell_args(h[k], w[k]);
            assert(Seq::new((j + 1) as nat, f) =~= Seq::new(j as nat, f).push(f(j as int)));
            Seq::new(j as nat, f).lemma_flatten_push(f(j as int));
            assert(views(r@) =~= before + f(j as int));
        }
        j = j + 1;
    }
    assert(Seq::new(j as nat, |k: int| cell_args(h[k], w[k])) =~= column_args(h, w));
    r
}

/// Expands every row of `t`, in row order; fails on the first row whose
/// length differs from the header's.
pub fn expand(t: &TabularInput) -> (r: Result<Vec<Vec<String>>, TabularError>)
    ensures
        r is Ok <==> t.rectangular(),
        r matches Ok(v) ==> row_views(v@) == expanded(t.header_view(), t.rows_view()),
        r matches Err(e) ==> e matches TabularError::RaggedRow(i) && i < t.rows@.len()
            && t.rows@[i as int]@.len() != t.header@.len(),
{
    let mut out: Vec<Vec<String>> = Vec::new();
    let mut i: usize = 0;
    while i < t.rows.len()
        invariant
            i <= t.rows@.len(),
            forall|k: int| 0 <= k < i ==> #[trigger] t.rows@[k]@.len() == t.header@.len(),
            row_views(out@) == Seq::new(i as nat, |k: int| row_args(t.header_view(), t.rows_view()[k])),
        decreases t.rows@.len() - i,
    {
        if t.rows[i].len() != t.header.len() {
            return Err(TabularError::RaggedRow(i));
        }
        let args = expand_row(&t.header, &t.rows[i]);
        let ghost before = out@;
        out.push(args);
        assert(t.rows_view()[i as int] == views(t.rows@[i as int]@));
        assert(row_views(out@) =~= row_views(before).push(views(args@)));
        assert(row_views(out@) =~= Seq::new((i + 1) as nat, |k: int| row_args(t.header_view(), t.rows_view()[k])));
        i = i + 1;
    }
    assert(row_views(out@) =~= expanded(t.header_view(), t.rows_view()));
    Ok(out)
}

/// Reads CSV text (lines starting with `#` are comments; the first line is
/// the header) and expands its rows into arguments.
pub fn generate_options_from_csv(text: &str) -> (r: Result<Vec<Vec<String>>, TabularError>)
    ensures
        r is Ok <==> csv_records(text@, COMMENT_MARKER) is Some,
        r matches Ok(v) ==> csv_records(text@, COMMENT_MARKER) matches Some(hr)
            && row_views(v@) == expanded(hr.0, hr.1),
        r matches Err(e) ==> e == TabularError::Malformed,
{
    let t = match read_csv(text, COMMENT_MARKER) {
        Ok(t) => t,
        Err(_) => {
            return Err(TabularError::Malformed);
        },
    };
    match expand(&t) {
        Ok(v) => Ok(v),
        Err(_) => Err(TabularError::Malformed),
    }
}

} // verus!
