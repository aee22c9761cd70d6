use vstd::prelude::*;

use crate::headers::{headers_of, lowered_all, texts};
use crate::error::ExtractError;
use crate::rows::{
    joined_cells, lemma_sequential_matches_joined, read_all, row_of, row_result, all_read,
};

verus! {

/// A row that holds one data cell for each rendered header but the player's
/// is exactly as long as the column headers: the inserted position header
/// lines up with the position cell that every row carries.
pub proof fn lemma_row_aligns_with_headers(
    rendered: Seq<Seq<char>>,
    player: Seq<char>,
    position: Seq<char>,
    cells: Seq<Seq<char>>,
)
    requires
        rendered.len() >= 1,
        cells.len() + 1 == rendered.len(),
    ensures
        row_of(player, position, cells).len() == headers_of(lowered_all(rendered)).len(),
{
}

/// A row built from reads of one data cell for each rendered header but the
/// player's is exactly as long as the column headers whenever it is built,
/// whether the reads were issued all at once or one after another.
pub proof fn lemma_read_row_aligns_with_headers(
    rendered: Seq<Seq<char>>,
    player: Seq<char>,
    position: Seq<char>,
    reads: Seq<Result<String, ExtractError>>,
)
    requires
        rendered.len() >= 1,
        reads.len() + 1 == rendered.len(),
    ensures
        row_result(player, position, joined_cells(reads)) is Ok ==> row_result(
            player,
            position,
            joined_cells(reads),
        )->Ok_0.len() == headers_of(lowered_all(rendered)).len(),
        read_all(Ok(seq![player, position]), reads) is Ok ==> read_all(
            Ok(seq![player, position]),
            reads,
        )->Ok_0.len() == headers_of(lowered_all(rendered)).len(),
{
    lemma_sequential_matches_joined(seq![player, position], reads);
    if all_read(reads) {
        let cells = reads.map_values(|r: Result<String, ExtractError>| r->Ok_0@);
        lemma_row_aligns_with_headers(rendered, player, position, cells);
    }
}

/// Column headers and rows read while one table variant was active.
pub struct TableSnapshot {
    columns: Vec<String>,
    rows: Vec<Vec<String>>,
}

impl TableSnapshot {
    pub closed spec fn columns_spec(&self) -> Seq<Seq<char>> {
        texts(self.columns@)
    }

    pub closed spec fn rows_spec(&self) -> Seq<Seq<Seq<char>>> {
        self.rows@.map_values(|r: Vec<String>| texts(r@))
    }

    /// Pairs column headers with the rows read under them.
    pub fn new(columns: Vec<String>, rows: Vec<Vec<String>>) -> (s: TableSnapshot)
        ensures
            s.columns_spec() == texts(columns@),
            s.rows_spec() == rows@.map_values(|r: Vec<String>| texts(r@)),
    {
        TableSnapshot { columns, rows }
    }

    pub fn columns(&self) -> (r: &Vec<String>)
        ensures
            texts(r@) == self.columns_spec(),
    {
        &self.columns
    }

    pub fn rows(&self) -> (r: &Vec<Vec<String>>)
        ensures
            r@.map_values(|row: Vec<String>| texts(row@)) == self.rows_spec(),
    {
        &self.rows
    }
}

} // verus!
