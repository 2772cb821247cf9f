//! Resolving a sandbox: reading the inventory tool's listing, extracting an
//! application id from a listing line, and finding the sandbox directory of
//! an id among the library roots.

use crate::host::{has_succeeded, succeeded, Inspection, Reply};
use crate::paths::{join, joined};
use crate::pattern::{capture_first, first_capture};
use crate::probe::{find_first_directory, first_directory, is_directory, lemma_first_directory};
use crate::text::{
    all_digits, char_is_digit, contains, decode, decoded, find_text, is_digit, lines_of,
    split_lines, to_chars,
};
use vstd::prelude::*;

verus! {

/// The text that marks a listing line as an externally registered entry.
pub open spec fn shortcut_marker() -> Seq<char> {
    "Non-Steam shortcut:"@
}

/// Whether a listing line is an externally registered entry.
pub open spec fn is_shortcut_line(line: Seq<char>) -> bool {
    contains(line, shortcut_marker())
}

/// The lines of a listing that are externally registered entries, in order.
pub open spec fn shortcut_lines(text: Seq<char>) -> Seq<Seq<char>> {
    lines_of(text).filter(|line: Seq<char>| is_shortcut_line(line))
}

/// Why a listing could not be used.
#[derive(Clone, Copy, Debug, PartialEq, Eq, Structural)]
pub enum ListError {
    /// The inventory tool did not exit with status zero.
    ToolFailed,
    /// The inventory tool's output is not UTF-8.
    InvalidEncoding,
}

/// The entries that a run of the inventory tool lists: its exit status has
/// to be zero and its output UTF-8.
pub open spec fn listing(code: Option<i32>, output: Seq<u8>) -> Result<Seq<Seq<char>>, ListError> {
    if code != Some(0i32) {
        Err(ListError::ToolFailed)
    } else {
        match decoded(output) {
            None => Err(ListError::InvalidEncoding),
            Some(text) => Ok(shortcut_lines(text)),
        }
    }
}

/// The name of the inventory tool.
pub open spec fn inventory_tool() -> Seq<char> {
    "protontricks"@
}

/// Tells from the reply to the lookup of the inventory tool whether the
/// tool is installed: the lookup has to exit with status zero.
pub fn check_protontricks(lookup: &Reply) -> (installed: bool)
    ensures
        installed == succeeded(lookup@),
{
    has_succeeded(lookup)
}

/// Reads the listing that the inventory tool printed.
pub fn list_nonsteam_games(code: Option<i32>, output: &Vec<u8>) -> (games: Result<
    Vec<String>,
    ListError,
>)
    ensures
        match games {
            Ok(lines) => listing(code, output@) == Ok::<Seq<Seq<char>>, ListError>(
                lines.deep_view(),
            ),
            Err(error) => listing(code, output@) == Err::<Seq<Seq<char>>, ListError>(error),
        },
{
    let ended_well = match code {
        Some(c) => c == 0,
        None => false,
    };
    if !ended_well {
        return Err(ListError::ToolFailed);
    }
    let text = match decode(output) {
        Some(text) => text,
        None => {
            return Err(ListError::InvalidEncoding);
        },
    };
    let lines = split_lines(text);
    let ghost keep = |line: Seq<char>| is_shortcut_line(line);
    let mut games: Vec<String> = Vec::new();
    let mut i: usize = 0;
    proof {
        reveal(Seq::filter);
        assert(lines.deep_view().take(0) =~= Seq::<Seq<char>>::empty());
        assert(games.deep_view() =~= Seq::<Seq<char>>::empty());
    }
    while i < lines.len()
        invariant
            i <= lines.len(),
            keep == (|line: Seq<char>| is_shortcut_line(line)),
            games.deep_view() == lines.deep_view().take(i as int).filter(keep),
        decreases lines.len() - i,
    {
        let line = &lines[i];
        let ghost before = games.deep_view();
        proof {
            reveal(Seq::filter);
            let upto = lines.deep_view().take(i + 1);
            assert(upto.drop_last() =~= lines.deep_view().take(i as int));
            assert(upto.last() == line@);
        }
        if find_text(line.as_str(), "Non-Steam shortcut:") {
            games.push(line.clone());
            assert(games.deep_view() =~= before.push(line@));
        }
        i += 1;
    }
    assert(lines.deep_view().take(lines.len() as int) =~= lines.deep_view());
    Ok(games)
}

/// The regular expression of a trailing application id: a run of decimal
/// digits, which is its first capture group, between parentheses at the end
/// of the text.
pub open spec fn id_pattern() -> Seq<char> {
    "\\(([0-9]+)\\)$"@
}

/// Whether `line` ends in `id` between parentheses, with `id` a run of at
/// least one decimal digit.
pub open spec fn ends_with_id(line: Seq<char>, id: Seq<char>) -> bool {
    &&& id.len() > 0
    &&& all_digits(id)
    &&& line.len() >= id.len() + 2
    &&& line.subrange(line.len() - id.len() - 2, line.len() as int) == seq!['('] + id + seq![')']
}

/// The id that a search found, when the line does end in it.
pub open spec fn accepted_id(line: Seq<char>, found: Option<Seq<char>>) -> Option<Seq<char>> {
    match found {
        Some(id) => if ends_with_id(line, id) {
            Some(id)
        } else {
            None
        },
        None => None,
    }
}

/// A line has at most one trailing id: two digit runs that the line ends
/// in between parentheses are the same run. So an id that is accepted is
/// the id of the line, whatever the search that found it.
pub proof fn lemma_trailing_id_is_unique(line: Seq<char>, a: Seq<char>, b: Seq<char>)
    requires
        ends_with_id(line, a),
        ends_with_id(line, b),
    ensures
        a == b,
{
    let n = line.len() as int;
    let tail_a = line.subrange(n - a.len() - 2, n);
    let tail_b = line.subrange(n - b.len() - 2, n);
    let want_a = seq!['('] + a + seq![')'];
    let want_b = seq!['('] + b + seq![')'];
    if a.len() < b.len() {
        // The parenthesis that opens `a` would be a digit of `b`.
        let k = b.len() - a.len();
        assert(tail_a[0] == want_a[0]);
        assert(tail_b[k] == want_b[k]);
        assert(want_b[k] == b[k - 1]);
        assert(is_digit(b[k - 1]));
    } else if b.len() < a.len() {
        let k = a.len() - b.len();
        assert(tail_b[0] == want_b[0]);
        assert(tail_a[k] == want_a[k]);
        assert(want_a[k] == a[k - 1]);
        assert(is_digit(a[k - 1]));
    } else {
        assert forall|i: int| 0 <= i < a.len() implies a[i] == b[i] by {
            assert(want_a[i + 1] == a[i]);
            assert(want_b[i + 1] == b[i]);
            assert(tail_a[i + 1] == tail_b[i + 1]);
        }
        assert(a =~= b);
    }
}

/// Tests whether `line` ends in `id` between parentheses, with `id` a run
/// of at least one decimal digit.
pub fn ends_in_id(line: &str, id: &str) -> (b: bool)
    ensures
        b == ends_with_id(line@, id@),
{
    let l = to_chars(line);
    let d = to_chars(id);
    let n: usize = l.len();
    let m: usize = d.len();
    if m == 0 || n < 2 || n - 2 < m {
        return false;
    }
    let start: usize = n - m - 2;
    let ghost tail = line@.subrange(start as int, n as int);
    let ghost want = seq!['('] + id@ + seq![')'];
    if l[start] != '(' || l[n - 1] != ')' {
        assert(tail[0] == l@[start as int] && tail[m + 1] == l@[n - 1]);
        assert(want[0] == '(' && want[m + 1] == ')');
        return false;
    }
    let mut j: usize = 0;
    while j < m
        invariant
            j <= m,
            m == d@.len(),
            n == l@.len(),
            start + m + 2 == n,
            l@ == line@,
            d@ == id@,
            tail == line@.subrange(start as int, n as int),
            want == seq!['('] + id@ + seq![')'],
            forall|k: int| 0 <= k < j ==> is_digit(#[trigger] d@[k]),
            forall|k: int| 0 <= k < j ==> l@[start + 1 + k] == d@[k],
        decreases m - j,
    {
        if !char_is_digit(d[j]) || l[start + 1 + j] != d[j] {
            assert(tail[j + 1] == l@[start + 1 + j] && want[j + 1] == d@[j as int]);
            return false;
        }
        j += 1;
    }
    assert(tail =~= want);
    true
}

/// Accepts the id that a search found in `line` if the line ends in it
/// between parentheses and it is a run of decimal digits.
pub fn accept_id(line: &str, found: Option<String>) -> (id: Option<String>)
    ensures
        id.deep_view() == accepted_id(line@, found.deep_view()),
{
    match found {
        Some(id) => if ends_in_id(line, id.as_str()) {
            Some(id)
        } else {
            None
        },
        None => None,
    }
}

/// Extracts the application id from a listing line: the run of decimal
/// digits between parentheses at the very end of the line, if the line ends
/// that way.
///
/// The id is searched for with [`id_pattern`] and accepted when the line
/// does end in it. That an id handed back is the trailing id of the line is
/// proved; that the search finds the id of every line that has one is
/// taken from the `regex` crate.
pub fn extract_appid(line: &str) -> (id: Option<String>)
    ensures
        id.deep_view() == accepted_id(line@, first_capture(id_pattern(), 1, line@)),
        id matches Some(digits) ==> ends_with_id(line@, digits@),
{
    accept_id(line, capture_first("\\(([0-9]+)\\)$", 1, line))
}

/// The sandbox directory of `app_id` below a library root.
pub open spec fn prefix_candidate(root: Seq<char>, app_id: Seq<char>) -> Seq<char> {
    joined(root, "steamapps/compatdata/"@ + app_id + "/pfx"@)
}

/// The sandbox directories of `app_id` below each of the roots, in order.
pub open spec fn prefix_candidates(app_id: Seq<char>, roots: Seq<Seq<char>>) -> Seq<Seq<char>> {
    Seq::new(roots.len(), |i: int| prefix_candidate(roots[i], app_id))
}

/// The sandbox of `app_id`: its directory below the first root where the
/// host saw one. `seen[i]` is what the host saw at the candidate below
/// `roots[i]`.
pub open spec fn prefix_path(
    app_id: Seq<char>,
    roots: Seq<Seq<char>>,
    seen: Seq<Inspection>,
) -> Option<Seq<char>> {
    match first_directory(seen, roots.len() as int) {
        Some(i) => Some(prefix_candidate(roots[i], app_id)),
        None => None,
    }
}

/// The sandbox directory of `app_id` below `root`.
pub fn prefix_candidate_path(root: &str, app_id: &str) -> (path: String)
    ensures
        path@ == prefix_candidate(root@, app_id@),
{
    let mut rel = String::from_str("steamapps/compatdata/");
    rel.append(app_id);
    rel.append("/pfx");
    join(root, rel.as_str())
}

/// The places to inspect for the sandbox of `app_id`, one per library root.
pub fn prefix_candidate_paths(app_id: &str, libraries: &Vec<String>) -> (paths: Vec<String>)
    ensures
        paths.deep_view() == prefix_candidates(app_id@, libraries.deep_view()),
{
    let mut paths: Vec<String> = Vec::new();
    let mut i: usize = 0;
    while i < libraries.len()
        invariant
            i <= libraries.len(),
            paths.len() == i,
            forall|j: int| 0 <= j < i ==> paths@[j]@ == prefix_candidate(libraries@[j]@, app_id@),
        decreases libraries.len() - i,
    {
        paths.push(prefix_candidate_path(libraries[i].as_str(), app_id));
        i += 1;
    }
    assert(paths.deep_view() =~= prefix_candidates(app_id@, libraries.deep_view()));
    paths
}

/// Finds the sandbox of `app_id`: the candidate below the first library
/// root at which the host saw a directory. `seen[i]` is the inspection of
/// the candidate below `libraries[i]`; roots without one count as absent.
pub fn find_prefix_path(app_id: &str, libraries: &Vec<String>, seen: &Vec<Inspection>) -> (found:
    Option<String>)
    ensures
        found.deep_view() == prefix_path(app_id@, libraries.deep_view(), seen@),
{
    match find_first_directory(seen, libraries.len()) {
        Some(i) => {
            proof {
                lemma_first_directory(seen@, libraries.len() as int);
            }
            Some(prefix_candidate_path(libraries[i].as_str(), app_id))
        },
        None => None,
    }
}

/// Primary first: when the host saw a directory at the candidate below the
/// first root, that candidate is the sandbox, whatever it saw below the
/// other roots.
pub proof fn lemma_primary_root_wins(
    app_id: Seq<char>,
    roots: Seq<Seq<char>>,
    seen: Seq<Inspection>,
)
    requires
        roots.len() > 0,
        seen.len() > 0,
        is_directory(seen[0]),
    ensures
        prefix_path(app_id, roots, seen) == Some(prefix_candidate(roots[0], app_id)),
{
}

/// First match wins: the sandbox lies below the earliest root with a
/// directory, and there is none exactly when no root has one.
pub proof fn lemma_resolution_order(app_id: Seq<char>, roots: Seq<Seq<char>>, seen: Seq<Inspection>)
    ensures
        match prefix_path(app_id, roots, seen) {
            Some(path) => exists|i: int|
                {
                    &&& 0 <= i < roots.len()
                    &&& i < seen.len()
                    &&& is_directory(seen[i])
                    &&& path == prefix_candidate(#[trigger] roots[i], app_id)
                    &&& forall|j: int| 0 <= j < i ==> !is_directory(#[trigger] seen[j])
                },
            None => forall|j: int|
                0 <= j < roots.len() && j < seen.len() ==> !is_directory(#[trigger] seen[j]),
        },
{
    lemma_first_directory(seen, roots.len() as int);
}

} // verus!
