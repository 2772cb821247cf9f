//! Locating the library roots: the primary root below the home directory,
//! and the further roots that the library description file names. The
//! description is read line by line: a line names a root when it holds the
//! key `"path"` and, after whitespace or none, a value between double
//! quotes.

use crate::paths::{join, joined};
use crate::pattern::{capture_first, first_capture};
use crate::text::{
    char_is_space, fold_backslashes, fold_separators, is_space, lemma_skip_space_front,
    lemma_skip_space_front_offset, lines_of, occurs_at, skip_space_front, split_lines, to_chars,
};
use vstd::prelude::*;

verus! {

/// The primary library root below a home directory.
pub open spec fn steam_root(home: Seq<char>) -> Seq<char> {
    joined(home, ".steam/steam"@)
}

/// The library description file of a primary root.
pub open spec fn description_path(root: Seq<char>) -> Seq<char> {
    joined(root, "steamapps/libraryfolders.vdf"@)
}

/// The regular expression of a path entry in a line of the description:
/// the key `"path"`, optional whitespace, and a non-empty value between
/// double quotes, which is its first capture group.
pub open spec fn path_pattern() -> Seq<char> {
    "\"path\"\\s*\"([^\"]+)\""@
}

/// The key of a path entry, with its quotes.
pub open spec fn path_key() -> Seq<char> {
    seq!['"', 'p', 'a', 't', 'h', '"']
}

/// Whether `value` can be the value of a path entry: it is not empty and
/// holds no double quote.
pub open spec fn is_path_value(value: Seq<char>) -> bool {
    &&& value.len() > 0
    &&& forall|i: int| 0 <= i < value.len() ==> #[trigger] value[i] != '"'
}

/// Whether `line` holds a path entry with the value `value` from index
/// `start` on: the key, then whitespace or none, then the value between
/// double quotes.
pub open spec fn path_entry_at(line: Seq<char>, value: Seq<char>, start: int) -> bool {
    &&& occurs_at(line, path_key(), start)
    &&& {
        let rest = skip_space_front(line.subrange(start + 6, line.len() as int));
        &&& rest.len() >= value.len() + 2
        &&& rest[0] == '"'
        &&& rest.subrange(1, value.len() as int + 1) == value
        &&& rest[value.len() as int + 1] == '"'
    }
}

/// Whether `line` holds a path entry with the value `value`.
pub open spec fn holds_path_entry(line: Seq<char>, value: Seq<char>) -> bool {
    is_path_value(value) && exists|start: int| path_entry_at(line, value, start)
}

/// The value that a search found in a line, when the line does hold a path
/// entry with it.
pub open spec fn accepted_path(line: Seq<char>, found: Option<Seq<char>>) -> Option<Seq<char>> {
    match found {
        Some(value) => if holds_path_entry(line, value) {
            Some(value)
        } else {
            None
        },
        None => None,
    }
}

/// The path that a line of the description names: what the search of this
/// one line finds, when the line holds a path entry with it.
pub open spec fn line_path(line: Seq<char>) -> Option<Seq<char>> {
    accepted_path(line, first_capture(path_pattern(), 1, line))
}

/// The paths that the lines name, line by line.
pub open spec fn line_paths(lines: Seq<Seq<char>>) -> Seq<Option<Seq<char>>> {
    Seq::new(lines.len(), |i: int| line_path(lines[i]))
}

/// The paths that were found, in order, each with its doubled backslashes
/// folded into forward slashes; where none was found, none is added.
pub open spec fn normalized_paths(found: Seq<Option<Seq<char>>>) -> Seq<Seq<char>>
    decreases found.len(),
{
    if found.len() == 0 {
        Seq::empty()
    } else {
        let before = normalized_paths(found.drop_last());
        match found.last() {
            Some(path) => before.push(fold_separators(path)),
            None => before,
        }
    }
}

/// The library roots: the primary root, then the paths that were found, in
/// their order.
pub open spec fn library_roots(primary: Seq<char>, found: Seq<Option<Seq<char>>>) -> Seq<
    Seq<char>,
> {
    seq![primary] + normalized_paths(found)
}

/// Why the library roots could not be located.
#[derive(Clone, Copy, Debug, PartialEq, Eq, Structural)]
pub enum LocateError {
    /// The description file is missing or could not be read.
    Unreadable,
    /// The description file holds nothing.
    Empty,
}

/// The library roots that a description gives: the primary root, then the
/// paths that its lines name, in the order of the lines. Without a
/// description, or with an empty one, there are none to be had.
pub open spec fn described_roots(primary: Seq<char>, description: Option<Seq<char>>) -> Result<
    Seq<Seq<char>>,
    LocateError,
> {
    match description {
        None => Err(LocateError::Unreadable),
        Some(text) => if text.len() == 0 {
            Err(LocateError::Empty)
        } else {
            Ok(library_roots(primary, line_paths(lines_of(text))))
        },
    }
}

/// The primary library root below `home`.
pub fn steam_root_path(home: &str) -> (root: String)
    ensures
        root@ == steam_root(home@),
{
    join(home, ".steam/steam")
}

/// The library description file of the primary root `root`.
pub fn description_file(root: &str) -> (path: String)
    ensures
        path@ == description_path(root@),
{
    join(root, "steamapps/libraryfolders.vdf")
}

/// Puts the library roots together from the primary root and the paths
/// found in the description.
pub fn collect_roots(primary: &str, found: &Vec<Option<String>>) -> (roots: Vec<String>)
    ensures
        roots.deep_view() == library_roots(primary@, found.deep_view()),
        roots.len() >= 1,
        roots[0]@ == primary@,
{
    let mut roots: Vec<String> = Vec::new();
    roots.push(String::from_str(primary));
    let mut i: usize = 0;
    proof {
        assert(found.deep_view().take(0) =~= Seq::<Option<Seq<char>>>::empty());
        assert(roots.deep_view() =~= seq![primary@] + normalized_paths(
            found.deep_view().take(0),
        ));
    }
    while i < found.len()
        invariant
            i <= found.len(),
            roots.len() >= 1,
            roots[0]@ == primary@,
            roots.deep_view() == seq![primary@] + normalized_paths(
                found.deep_view().take(i as int),
            ),
        decreases found.len() - i,
    {
        let ghost before = roots.deep_view();
        proof {
            let upto = found.deep_view().take(i + 1);
            assert(upto.drop_last() =~= found.deep_view().take(i as int));
            assert(upto.last() == found@[i as int].deep_view());
        }
        match &found[i] {
            Some(path) => {
                let folded = fold_backslashes(path.as_str());
                roots.push(folded);
                assert(roots.deep_view() =~= before.push(fold_separators(path@)));
                assert(roots.deep_view() =~= seq![primary@] + normalized_paths(
                    found.deep_view().take(i + 1),
                ));
            },
            None => {},
        }
        i += 1;
    }
    assert(found.deep_view().take(found.len() as int) =~= found.deep_view());
    roots
}

/// Tests whether the characters `line` hold a path entry with the value
/// `value` from index `start` on.
fn entry_at(line: &Vec<char>, value: &Vec<char>, start: usize) -> (b: bool)
    requires
        start + 6 <= line.len(),
    ensures
        b == path_entry_at(line@, value@, start as int),
{
    let n: usize = line.len();
    let m: usize = value.len();
    let ghost key = line@.subrange(start as int, start + 6);
    if !(line[start] == '"' && line[start + 1] == 'p' && line[start + 2] == 'a' && line[start + 3]
        == 't' && line[start + 4] == 'h' && line[start + 5] == '"') {
        assert(key[0] == line@[start as int] && key[1] == line@[start + 1] && key[2] == line@[start
            + 2] && key[3] == line@[start + 3] && key[4] == line@[start + 4] && key[5]
            == line@[start + 5]);
        return false;
    }
    assert(key =~= path_key());
    let mut j: usize = start + 6;
    while j < n && char_is_space(line[j])
        invariant
            start + 6 <= j <= n,
            n == line@.len(),
            forall|i: int| start + 6 <= i < j ==> is_space(#[trigger] line@[i]),
        decreases n - j,
    {
        j += 1;
    }
    let ghost tail = line@.subrange(start + 6, n as int);
    let ghost rest = skip_space_front(tail);
    proof {
        assert forall|i: int| 0 <= i < j - (start + 6) implies is_space(#[trigger] tail[i]) by {
            assert(tail[i] == line@[i + start + 6]);
        }
        lemma_skip_space_front(tail, j - (start + 6));
        assert(rest =~= line@.subrange(j as int, n as int));
    }
    if n - j < 2 || n - j - 2 < m {
        return false;
    }
    if line[j] != '"' || line[j + 1 + m] != '"' {
        assert(rest[0] == line@[j as int] && rest[m + 1] == line@[j + 1 + m]);
        return false;
    }
    let mut k: usize = 0;
    while k < m
        invariant
            k <= m,
            m == value@.len(),
            n == line@.len(),
            j + m + 2 <= n,
            start + 6 <= n,
            rest == line@.subrange(j as int, n as int),
            rest == skip_space_front(line@.subrange(start + 6, n as int)),
            forall|i: int| 0 <= i < k ==> line@[j + 1 + i] == value@[i],
        decreases m - k,
    {
        if line[j + 1 + k] != value[k] {
            assert(rest.subrange(1, m + 1)[k as int] == line@[j + 1 + k]);
            return false;
        }
        k += 1;
    }
    assert(rest.subrange(1, m + 1) =~= value@);
    true
}

/// Tests whether `line` holds a path entry with the value `value`.
pub fn holds_path(line: &str, value: &str) -> (b: bool)
    ensures
        b == holds_path_entry(line@, value@),
{
    let l = to_chars(line);
    let v = to_chars(value);
    let n: usize = l.len();
    let m: usize = v.len();
    if m == 0 {
        return false;
    }
    let mut k: usize = 0;
    while k < m
        invariant
            k <= m,
            m == v@.len(),
            v@ == value@,
            forall|i: int| 0 <= i < k ==> #[trigger] v@[i] != '"',
        decreases m - k,
    {
        if v[k] == '"' {
            return false;
        }
        k += 1;
    }
    assert(is_path_value(value@));
    if n < 6 {
        assert forall|start: int| !path_entry_at(line@, value@, start) by {}
        return false;
    }
    let mut start: usize = 0;
    while start <= n - 6
        invariant
            6 <= n,
            n == l@.len(),
            l@ == line@,
            v@ == value@,
            is_path_value(value@),
            start <= n - 6 + 1,
            forall|s: int| 0 <= s < start ==> !path_entry_at(line@, value@, s),
        decreases n - 6 + 1 - start,
    {
        if entry_at(&l, &v, start) {
            return true;
        }
        start += 1;
    }
    assert forall|s: int| !path_entry_at(line@, value@, s) by {}
    false
}

/// Accepts the value that a search found in `line` if the line holds a path
/// entry with it.
pub fn accept_path(line: &str, found: Option<String>) -> (path: Option<String>)
    ensures
        path.deep_view() == accepted_path(line@, found.deep_view()),
{
    match found {
        Some(value) => if holds_path(line, value.as_str()) {
            Some(value)
        } else {
            None
        },
        None => None,
    }
}

/// The path that a line of the description names, if it names one.
///
/// The value is searched for with [`path_pattern`] and accepted when the
/// line does hold a path entry with it. That a path handed back stands in
/// the line as the value of a path entry is proved; that the search finds
/// the value of every line that has one is taken from the `regex` crate.
pub fn path_of_line(line: &str) -> (path: Option<String>)
    ensures
        path.deep_view() == line_path(line@),
        path matches Some(value) ==> holds_path_entry(line@, value@),
{
    accept_path(line, capture_first("\"path\"\\s*\"([^\"]+)\"", 1, line))
}

/// Locates the library roots from the text of the description file;
/// `description` is absent when the file is missing or unreadable. The
/// primary root comes first, then the paths that the lines of the file
/// name, in the order of the lines. A line that does not hold a path entry
/// adds nothing, whatever stands in the lines around it.
pub fn find_steam_libraries(primary: &str, description: Option<&str>) -> (roots: Result<
    Vec<String>,
    LocateError,
>)
    ensures
        match roots {
            Ok(list) => {
                &&& described_roots(primary@, description.deep_view()) == Ok::<
                    Seq<Seq<char>>,
                    LocateError,
                >(list.deep_view())
                &&& list.len() >= 1
                &&& list[0]@ == primary@
            },
            Err(error) => described_roots(primary@, description.deep_view()) == Err::<
                Seq<Seq<char>>,
                LocateError,
            >(error),
        },
{
    match description {
        None => Err(LocateError::Unreadable),
        Some(text) => {
            if text.unicode_len() == 0 {
                Err(LocateError::Empty)
            } else {
                let lines = split_lines(text);
                let mut found: Vec<Option<String>> = Vec::new();
                let mut i: usize = 0;
                while i < lines.len()
                    invariant
                        i <= lines.len(),
                        found.len() == i,
                        forall|j: int|
                            0 <= j < i ==> (#[trigger] found@[j]).deep_view() == line_path(
                                lines@[j]@,
                            ),
                    decreases lines.len() - i,
                {
                    found.push(path_of_line(lines[i].as_str()));
                    i += 1;
                }
                assert(found.deep_view() =~= line_paths(lines.deep_view()));
                Ok(collect_roots(primary, &found))
            }
        },
    }
}

/// The paths keep the order of the lines: those of one part of the lines
/// come before those of the part after it, and a line that names no path
/// adds none.
pub proof fn lemma_normalized_paths_add(
    first: Seq<Option<Seq<char>>>,
    second: Seq<Option<Seq<char>>>,
)
    ensures
        normalized_paths(first + second) == normalized_paths(first) + normalized_paths(second),
        normalized_paths(seq![None::<Seq<char>>]) == Seq::<Seq<char>>::empty(),
    decreases second.len(),
{
    let none = seq![None::<Seq<char>>];
    assert(none.drop_last().len() == 0);
    assert(normalized_paths(none.drop_last()) =~= Seq::<Seq<char>>::empty());
    assert(none.last() is None);
    assert(normalized_paths(none) == normalized_paths(none.drop_last()));
    if second.len() == 0 {
        assert(first + second =~= first);
        assert(normalized_paths(first) + normalized_paths(second) =~= normalized_paths(first));
    } else {
        let whole = first + second;
        assert(whole.drop_last() =~= first + second.drop_last());
        assert(whole.last() == second.last());
        lemma_normalized_paths_add(first, second.drop_last());
        let before = normalized_paths(second.drop_last());
        match second.last() {
            Some(path) => {
                assert((normalized_paths(first) + before).push(fold_separators(path))
                    =~= normalized_paths(first) + before.push(fold_separators(path)));
            },
            None => {},
        }
    }
}

/// The roots follow what was found: when a path was found every time, the
/// roots are the primary root and then, in order, each path with its
/// separators folded.
pub proof fn lemma_roots_follow_paths(primary: Seq<char>, found: Seq<Option<Seq<char>>>)
    requires
        forall|i: int| 0 <= i < found.len() ==> (#[trigger] found[i]) is Some,
    ensures
        library_roots(primary, found).len() == found.len() + 1,
        library_roots(primary, found)[0] == primary,
        forall|i: int|
            0 <= i < found.len() ==> #[trigger] library_roots(primary, found)[i + 1]
                == fold_separators(found[i]->0),
    decreases found.len(),
{
    if found.len() > 0 {
        let before = found.drop_last();
        lemma_roots_follow_paths(primary, before);
        assert(normalized_paths(found) == normalized_paths(before).push(
            fold_separators(found.last()->0),
        ));
        assert(library_roots(primary, found) =~= library_roots(primary, before).push(
            fold_separators(found.last()->0),
        ));
        assert forall|i: int| 0 <= i < found.len() implies #[trigger] library_roots(
            primary,
            found,
        )[i + 1] == fold_separators(found[i]->0) by {
            if i < before.len() {
                assert(library_roots(primary, before)[i + 1] == fold_separators(before[i]->0));
                assert(before[i] == found[i]);
            }
        }
    }
}

/// Whether the key of a path entry stands in `line` at `start` and the
/// value between double quotes, of which the first is at `open`, with
/// nothing between key and value but whitespace.
pub open spec fn entry_stands_at(line: Seq<char>, value: Seq<char>, start: int, open: int) -> bool {
    &&& occurs_at(line, path_key(), start)
    &&& start + 6 <= open
    &&& open + value.len() + 1 < line.len()
    &&& forall|i: int| start + 6 <= i < open ==> is_space(#[trigger] line[i])
    &&& line[open] == '"'
    &&& line.subrange(open + 1, open + 1 + value.len()) == value
    &&& line[open + 1 + value.len()] == '"'
}

/// Whether `line` holds double quotes at four places in rising order.
pub open spec fn quotes_at(line: Seq<char>, a: int, b: int, c: int, d: int) -> bool {
    &&& 0 <= a < b < c < d < line.len()
    &&& line[a] == '"'
    &&& line[b] == '"'
    &&& line[c] == '"'
    &&& line[d] == '"'
}

/// A path entry stands in its line: the key, after it nothing but
/// whitespace up to a double quote, then the value, and a double quote that
/// closes it within the line. So a value whose closing quote is missing is
/// none, and no value reaches into another line.
pub proof fn lemma_entry_stands_in_line(line: Seq<char>, value: Seq<char>) -> (at: (int, int))
    requires
        holds_path_entry(line, value),
    ensures
        entry_stands_at(line, value, at.0, at.1),
{
    let start = choose|start: int| path_entry_at(line, value, start);
    let tail = line.subrange(start + 6, line.len() as int);
    let gap = lemma_skip_space_front_offset(tail);
    let rest = skip_space_front(tail);
    let open = start + 6 + gap;
    assert(rest =~= line.subrange(open, line.len() as int));
    assert forall|i: int| start + 6 <= i < open implies is_space(#[trigger] line[i]) by {
        assert(line[i] == tail[i - start - 6]);
    }
    assert(rest[0] == line[open]);
    assert(rest[value.len() as int + 1] == line[open + 1 + value.len()]);
    assert(rest.subrange(1, value.len() as int + 1) =~= line.subrange(
        open + 1,
        open + 1 + value.len(),
    ));
    (start, open)
}

/// A path entry takes four double quotes: two around the key and two
/// around the value. A line with fewer names no root.
pub proof fn lemma_entry_takes_four_quotes(line: Seq<char>, value: Seq<char>)
    requires
        holds_path_entry(line, value),
    ensures
        exists|a: int, b: int, c: int, d: int| quotes_at(line, a, b, c, d),
{
    let (start, open) = lemma_entry_stands_in_line(line, value);
    let key = line.subrange(start, start + 6);
    assert(key[0] == line[start] && key[5] == line[start + 5]);
    assert(quotes_at(line, start, start + 5, open, open + 1 + value.len()));
}

/// A line that is short of double quotes names no root, whatever the
/// search makes of it: so a line whose value lacks its closing quote, with
/// the three quotes it has.
pub proof fn lemma_line_short_of_quotes_names_no_root(line: Seq<char>)
    requires
        forall|a: int, b: int, c: int, d: int| !quotes_at(line, a, b, c, d),
    ensures
        line_path(line) is None,
{
    let found = first_capture(path_pattern(), 1, line);
    if found is Some && holds_path_entry(line, found->0) {
        lemma_entry_takes_four_quotes(line, found->0);
    }
}

/// Where a path was found, it was found in a line that holds it: each path
/// that the lines name is the value of a path entry of its own line.
pub proof fn lemma_line_paths_stand_in_their_lines(lines: Seq<Seq<char>>, i: int)
    requires
        0 <= i < lines.len(),
        line_paths(lines)[i] is Some,
    ensures
        holds_path_entry(lines[i], line_paths(lines)[i]->0),
{
}

/// Every path among the normalized ones was found: it is the folded form
/// of one of the paths found.
pub proof fn lemma_normalized_paths_were_found(found: Seq<Option<Seq<char>>>, k: int)
    requires
        0 <= k < normalized_paths(found).len(),
    ensures
        exists|i: int|
            0 <= i < found.len() && (#[trigger] found[i]) is Some && normalized_paths(found)[k]
                == fold_separators(found[i]->0),
    decreases found.len(),
{
    if found.len() > 0 {
        let before = found.drop_last();
        let last = found.len() - 1;
        if k < normalized_paths(before).len() {
            lemma_normalized_paths_were_found(before, k);
            let i = choose|i: int|
                0 <= i < before.len() && (#[trigger] before[i]) is Some && normalized_paths(
                    before,
                )[k] == fold_separators(before[i]->0);
            assert(found[i] == before[i]);
        } else {
            assert(found[last] is Some);
        }
    }
}

/// A root comes from one line: every root after the primary one is the
/// folded value of a path entry that one line of the description holds.
/// Text of other lines is no part of it.
pub proof fn lemma_roots_come_from_lines(primary: Seq<char>, text: Seq<char>, k: int)
    requires
        text.len() > 0,
        1 <= k < described_roots(primary, Some(text))->Ok_0.len(),
    ensures
        exists|i: int, value: Seq<char>|
            0 <= i < lines_of(text).len() && #[trigger] holds_path_entry(lines_of(text)[i], value)
                && described_roots(primary, Some(text))->Ok_0[k] == fold_separators(value),
{
    let lines = lines_of(text);
    let found = line_paths(lines);
    lemma_normalized_paths_were_found(found, k - 1);
    let i = choose|i: int|
        0 <= i < found.len() && (#[trigger] found[i]) is Some && normalized_paths(found)[k - 1]
            == fold_separators(found[i]->0);
    lemma_line_paths_stand_in_their_lines(lines, i);
    assert(holds_path_entry(lines[i], found[i]->0));
}

/// A description is tolerated: whatever a description that is not empty
/// holds, it gives roots, the primary root first. Only a description that
/// is missing or empty gives none.
pub proof fn lemma_description_is_tolerated(primary: Seq<char>, description: Option<Seq<char>>)
    ensures
        described_roots(primary, description) is Ok <==> description is Some
            && description->0.len() > 0,
        described_roots(primary, description) matches Ok(roots) ==> roots.len() >= 1 && roots[0]
            == primary,
{
}

} // verus!
