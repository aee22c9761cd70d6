use vstd::prelude::*;

use crate::error::ExtractError;
use crate::headers::texts;

verus! {

/// The text of the player cell: the link's accessibility label, or empty
/// where the link has none.
pub open spec fn player_text(player: Option<String>) -> Seq<char> {
    match player {
        Some(s) => s@,
        None => Seq::empty(),
    }
}

/// A row: player label, position label, then the data cells in order.
pub open spec fn row_of(player: Seq<char>, position: Seq<char>, cells: Seq<Seq<char>>) -> Seq<
    Seq<char>,
> {
    seq![player, position] + cells
}

/// Every cell read succeeded.
pub open spec fn all_read(reads: Seq<Result<String, ExtractError>>) -> bool {
    forall|i: int| 0 <= i < reads.len() ==> (#[trigger] reads[i]) is Ok
}

/// `i` is the index of the first failed cell read.
pub open spec fn is_first_failure(reads: Seq<Result<String, ExtractError>>, i: int) -> bool {
    &&& 0 <= i < reads.len()
    &&& reads[i] is Err
    &&& forall|j: int| 0 <= j < i ==> (#[trigger] reads[j]) is Ok
}

/// The cells of a row whose reads were all issued before any was inspected:
/// their texts in order where every read succeeded, else the error of the
/// first one that failed.
pub open spec fn joined_cells(reads: Seq<Result<String, ExtractError>>) -> Result<
    Seq<Seq<char>>,
    ExtractError,
> {
    if all_read(reads) {
        Ok(reads.map_values(|r: Result<String, ExtractError>| r->Ok_0@))
    } else {
        let i = choose|i: int| is_first_failure(reads, i);
        Err(reads[i]->Err_0)
    }
}

/// One step of reading a row cell by cell: a failure ends the row for good.
pub open spec fn read_step(
    acc: Result<Seq<Seq<char>>, ExtractError>,
    read: Result<String, ExtractError>,
) -> Result<Seq<Seq<char>>, ExtractError> {
    match acc {
        Err(e) => Err(e),
        Ok(cells) => match read {
            Ok(s) => Ok(cells.push(s@)),
            Err(e) => Err(e),
        },
    }
}

/// The outcome of reading `reads` one after another, starting from `acc`.
pub open spec fn read_all(
    acc: Result<Seq<Seq<char>>, ExtractError>,
    reads: Seq<Result<String, ExtractError>>,
) -> Result<Seq<Seq<char>>, ExtractError>
    decreases reads.len(),
{
    if reads.len() == 0 {
        acc
    } else {
        read_step(read_all(acc, reads.drop_last()), reads.last())
    }
}

/// What a row with the given player, position and cell reads comes to.
pub open spec fn row_result(
    player: Seq<char>,
    position: Seq<char>,
    cells: Result<Seq<Seq<char>>, ExtractError>,
) -> Result<Seq<Seq<char>>, ExtractError> {
    match cells {
        Ok(c) => Ok(row_of(player, position, c)),
        Err(e) => Err(e),
    }
}

/// The texts of a row that was built, or its error.
pub open spec fn row_view(r: Result<Vec<String>, ExtractError>) -> Result<
    Seq<Seq<char>>,
    ExtractError,
> {
    match r {
        Ok(row) => Ok(texts(row@)),
        Err(e) => Err(e),
    }
}

proof fn lemma_first_failure_unique(reads: Seq<Result<String, ExtractError>>, i: int, j: int)
    requires
        is_first_failure(reads, i),
        is_first_failure(reads, j),
    ensures
        i == j,
{
    if i < j {
        assert(reads[i] is Ok);
    } else if j < i {
        assert(reads[j] is Ok);
    }
}

/// Builds a row from reads of its data cells that were all issued at once,
/// failing with the first failed read rather than leaving a cell out.
pub fn assemble_row(
    player: Option<String>,
    position: String,
    reads: Vec<Result<String, ExtractError>>,
) -> (r: Result<Vec<String>, ExtractError>)
    ensures
        row_view(r) == row_result(player_text(player), position@, joined_cells(reads@)),
{
    let mut row: Vec<String> = Vec::new();
    match player {
        Some(p) => row.push(p),
        None => row.push(String::new()),
    }
    row.push(position);
    let ghost head = texts(row@);
    assert(head =~= seq![player_text(player), position@]);
    let mut i: usize = 0;
    while i < reads.len()
        invariant
            i <= reads@.len(),
            forall|j: int| 0 <= j < i ==> (#[trigger] reads@[j]) is Ok,
            texts(row@) =~= head + reads@.take(i as int).map_values(
                |r: Result<String, ExtractError>| r->Ok_0@,
            ),
        decreases reads@.len() - i,
    {
        match &reads[i] {
            Ok(s) => {
                let ghost prev = row@;
                row.push(s.clone());
                assert(texts(row@) =~= texts(prev).push(s@));
                assert(reads@.take(i as int + 1).map_values(
                    |r: Result<String, ExtractError>| r->Ok_0@,
                ) =~= reads@.take(i as int).map_values(
                    |r: Result<String, ExtractError>| r->Ok_0@,
                ).push(s@));
            },
            Err(e) => {
                assert(is_first_failure(reads@, i as int));
                assert(!all_read(reads@));
                let ghost k = choose|k: int| is_first_failure(reads@, k);
                proof {
                    lemma_first_failure_unique(reads@, i as int, k);
                }
                return Err(*e);
            },
        }
        i = i + 1;
    }
    assert(reads@.take(reads@.len() as int) =~= reads@);
    assert(all_read(reads@));
    Ok(row)
}

/// A row read cell by cell: the cells read so far, or the failure that ended it.
pub struct RowBuilder {
    row: Vec<String>,
    failure: Option<ExtractError>,
}

impl RowBuilder {
    /// The row so far, or the failure that ended it.
    pub closed spec fn progress(&self) -> Result<Seq<Seq<char>>, ExtractError> {
        match self.failure {
            Some(e) => Err(e),
            None => Ok(texts(self.row@)),
        }
    }

    /// Starts a row with its player and position cells.
    pub fn start(player: Option<String>, position: String) -> (b: RowBuilder)
        ensures
            b.progress() == Ok::<Seq<Seq<char>>, ExtractError>(
                row_of(player_text(player), position@, Seq::empty()),
            ),
    {
        let mut row: Vec<String> = Vec::new();
        match player {
            Some(p) => row.push(p),
            None => row.push(String::new()),
        }
        row.push(position);
        let b = RowBuilder { row, failure: None };
        assert(texts(b.row@) =~= row_of(player_text(player), position@, Seq::empty()));
        b
    }

    /// Takes the outcome of the next cell read; returns whether the row is
    /// still whole, that is, whether reading should go on.
    pub fn push_read(&mut self, read: Result<String, ExtractError>) -> (go_on: bool)
        ensures
            final(self).progress() == read_step(old(self).progress(), read),
            go_on == final(self).progress() is Ok,
    {
        if self.failure.is_some() {
            return false;
        }
        match read {
            Ok(s) => {
                let ghost prev = self.row@;
                let ghost text = s@;
                self.row.push(s);
                assert(texts(self.row@) =~= texts(prev).push(text));
                true
            },
            Err(e) => {
                self.failure = Some(e);
                false
            },
        }
    }

    /// The finished row, or the failure that ended it.
    pub fn finish(self) -> (r: Result<Vec<String>, ExtractError>)
        ensures
            row_view(r) == self.progress(),
    {
        match self.failure {
            Some(e) => Err(e),
            None => Ok(self.row),
        }
    }
}

proof fn lemma_first_failure_exists(reads: Seq<Result<String, ExtractError>>)
    requires
        !all_read(reads),
    ensures
        exists|i: int| is_first_failure(reads, i),
    decreases reads.len(),
{
    let init = reads.drop_last();
    if all_read(init) {
        let k = reads.len() - 1;
        assert forall|j: int| 0 <= j < k implies (#[trigger] reads[j]) is Ok by {
            assert(reads[j] == init[j]);
        }
        assert(is_first_failure(reads, k));
    } else {
        lemma_first_failure_exists(init);
        let k = choose|i: int| is_first_failure(init, i);
        assert forall|j: int| 0 <= j < k implies (#[trigger] reads[j]) is Ok by {
            assert(reads[j] == init[j]);
        }
        assert(reads[k] == init[k]);
        assert(is_first_failure(reads, k));
    }
}

/// Reading the cells of a row one after another gives what issuing all the
/// reads at once and then inspecting them in order gives: the same cells in
/// the same order, or the same error.
pub proof fn lemma_sequential_matches_joined(
    prefix: Seq<Seq<char>>,
    reads: Seq<Result<String, ExtractError>>,
)
    ensures
        read_all(Ok(prefix), reads) == match joined_cells(reads) {
            Ok(c) => Ok(prefix + c),
            Err(e) => Err(e),
        },
    decreases reads.len(),
{
    if reads.len() == 0 {
        assert(all_read(reads));
        assert(prefix + reads.map_values(|r: Result<String, ExtractError>| r->Ok_0@) =~= prefix);
    } else {
        let init = reads.drop_last();
        lemma_sequential_matches_joined(prefix, init);
        if all_read(init) {
            let cells = init.map_values(|r: Result<String, ExtractError>| r->Ok_0@);
            match reads.last() {
                Ok(s) => {
                    assert forall|i: int| 0 <= i < reads.len() implies (#[trigger] reads[i]) is Ok by {
                        if i < init.len() {
                            assert(reads[i] == init[i]);
                        }
                    }
                    assert(reads.map_values(|r: Result<String, ExtractError>| r->Ok_0@) =~= cells.push(s@));
                    assert(prefix + cells.push(s@) =~= (prefix + cells).push(s@));
                },
                Err(e) => {
                    let k = reads.len() - 1;
                    assert forall|j: int| 0 <= j < k implies (#[trigger] reads[j]) is Ok by {
                        assert(reads[j] == init[j]);
                    }
                    assert(is_first_failure(reads, k));
                    let c = choose|i: int| is_first_failure(reads, i);
                    lemma_first_failure_unique(reads, k, c);
                },
            }
        } else {
            lemma_first_failure_exists(init);
            let k = choose|i: int| is_first_failure(init, i);
            assert forall|j: int| 0 <= j < k implies (#[trigger] reads[j]) is Ok by {
                assert(reads[j] == init[j]);
            }
            assert(reads[k] == init[k]);
            assert(is_first_failure(reads, k));
            assert(!all_read(reads));
            let c = choose|i: int| is_first_failure(reads, i);
            lemma_first_failure_unique(reads, k, c);
        }
    }
}

} // verus!
