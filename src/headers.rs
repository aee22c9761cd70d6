use vstd::prelude::*;

use crate::variant::{lower_of, lowercase};

verus! {

/// The character sequences that a list of strings holds.
pub open spec fn texts(v: Seq<String>) -> Seq<Seq<char>> {
    v.map_values(|s: String| s@)
}

/// Each string lowercased, in the same order.
pub open spec fn lowered_all(raw: Seq<Seq<char>>) -> Seq<Seq<char>> {
    raw.map_values(|s: Seq<char>| lower_of(s))
}

/// The header of the position column, which the page does not render.
pub open spec fn position_header() -> Seq<char> {
    "pos"@
}

/// The column headers of a table whose rendered headers are `lowered`: the
/// position header stands right after the first one.
pub open spec fn headers_of(lowered: Seq<Seq<char>>) -> Seq<Seq<char>> {
    lowered.insert(1, position_header())
}

/// Inserts the position header at index 1 of already lowercased headers.
pub fn insert_position_header(lowered: Vec<String>) -> (r: Vec<String>)
    requires
        lowered@.len() >= 1,
    ensures
        texts(r@) == headers_of(texts(lowered@)),
{
    let mut headers = lowered;
    headers.insert(1, "pos".to_owned());
    assert(texts(headers@) =~= headers_of(texts(lowered@)));
    headers
}

/// The column headers of the table, from the rendered header labels in
/// document order: each lowercased, with the position header inserted at index 1.
pub fn column_headers_from(raw: Vec<String>) -> (r: Vec<String>)
    requires
        raw@.len() >= 1,
    ensures
        texts(r@) == headers_of(lowered_all(texts(raw@))),
{
    let mut lowered: Vec<String> = Vec::new();
    let mut i: usize = 0;
    while i < raw.len()
        invariant
            i <= raw@.len(),
            texts(lowered@) =~= lowered_all(texts(raw@)).take(i as int),
        decreases raw@.len() - i,
    {
        let l = lowercase(raw[i].as_str());
        let ghost prev = lowered@;
        lowered.push(l);
        assert(texts(lowered@) =~= texts(prev).push(l@));
        assert(texts(raw@)[i as int] == raw@[i as int]@);
        assert(lowered_all(texts(raw@))[i as int] == l@);
        assert(lowered_all(texts(raw@)).take(i as int + 1) =~= lowered_all(texts(raw@)).take(
            i as int,
        ).push(l@));
        i = i + 1;
    }
    assert(lowered_all(texts(raw@)).take(raw@.len() as int) =~= lowered_all(texts(raw@)));
    insert_position_header(lowered)
}

/// The rendered headers of the standard table, lowercased.
pub open spec fn standard_rendered() -> Seq<Seq<char>> {
    seq![
        "player"@, "team"@, "g"@, "ab"@, "r"@, "h"@, "2b"@, "3b"@, "hr"@, "rbi"@, "bb"@, "so"@,
        "sb"@, "cs"@, "avg"@, "obp"@, "slg"@, "ops"@,
    ]
}

/// The rendered headers of the expanded table, lowercased.
pub open spec fn expanded_rendered() -> Seq<Seq<char>> {
    seq![
        "player"@, "team"@, "pa"@, "hbp"@, "sac"@, "sf"@, "gidp"@, "go/ao"@, "xbh"@, "tb"@,
        "ibb"@, "babip"@, "iso"@, "ab/hr"@, "bb/k"@, "bb%"@, "so%"@,
    ]
}

/// On the standard table the column headers are its nineteen names, with
/// the position header at index 1.
pub proof fn lemma_standard_columns(rendered: Seq<Seq<char>>)
    requires
        lowered_all(rendered) == standard_rendered(),
    ensures
        headers_of(lowered_all(rendered)) == seq![
            "player"@, "pos"@, "team"@, "g"@, "ab"@, "r"@, "h"@, "2b"@, "3b"@, "hr"@, "rbi"@,
            "bb"@, "so"@, "sb"@, "cs"@, "avg"@, "obp"@, "slg"@, "ops"@,
        ],
        headers_of(lowered_all(rendered)).len() == 19,
{
    assert(headers_of(standard_rendered()) =~= seq![
        "player"@, "pos"@, "team"@, "g"@, "ab"@, "r"@, "h"@, "2b"@, "3b"@, "hr"@, "rbi"@,
        "bb"@, "so"@, "sb"@, "cs"@, "avg"@, "obp"@, "slg"@, "ops"@,
    ]);
}

/// On the expanded table the column headers are its eighteen names, with
/// the position header at index 1.
pub proof fn lemma_expanded_columns(rendered: Seq<Seq<char>>)
    requires
        lowered_all(rendered) == expanded_rendered(),
    ensures
        headers_of(lowered_all(rendered)) == seq![
            "player"@, "pos"@, "team"@, "pa"@, "hbp"@, "sac"@, "sf"@, "gidp"@, "go/ao"@,
            "xbh"@, "tb"@, "ibb"@, "babip"@, "iso"@, "ab/hr"@, "bb/k"@, "bb%"@, "so%"@,
        ],
        headers_of(lowered_all(rendered)).len() == 18,
{
    assert(headers_of(expanded_rendered()) =~= seq![
        "player"@, "pos"@, "team"@, "pa"@, "hbp"@, "sac"@, "sf"@, "gidp"@, "go/ao"@,
        "xbh"@, "tb"@, "ibb"@, "babip"@, "iso"@, "ab/hr"@, "bb/k"@, "bb%"@, "so%"@,
    ]);
}

} // verus!
