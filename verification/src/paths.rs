//! Names of files: the scratch file of a run, and where an executable is
//! looked for.

use std::path::PathBuf;
use vstd::prelude::*;

verus! {

/// `std::path::PathBuf`, carried through as it is.
#[verifier::external_type_specification]
#[verifier::external_body]
pub struct ExPathBuf(PathBuf);

/// The final component of a path as text, if it has one; what is not valid
/// UTF-8 in it is replaced.
pub uninterp spec fn lossy_file_name(path: PathBuf) -> Option<Seq<char>>;

/// `Path::file_name`, made text by `OsStr::to_string_lossy`: the final
/// component of the path, `None` where the path ends in `..` or has no
/// component.
#[verifier::external_body]
pub(crate) fn path_file_name(path: &PathBuf) -> (name: Option<String>)
    ensures
        match name {
            Some(text) => lossy_file_name(*path) == Some(text@),
            None => lossy_file_name(*path) is None,
        },
{
    match path.file_name() {
        Some(name) => Some(name.to_string_lossy().into_owned()),
        None => None,
    }
}

/// The scratch file for an input file with the given name: in `/tmp`, the
/// name (or `tmp` where there is none) with `.out` behind.
pub open spec fn scratch_path_spec(base: Option<Seq<char>>) -> Seq<char> {
    "/tmp/"@ + (match base {
        Some(name) => name,
        None => "tmp"@,
    }) + ".out"@
}

/// The path of the scratch file for an input file with the given name.
pub fn scratch_path(base: Option<&str>) -> (path: String)
    ensures
        path@ == scratch_path_spec(
            match base {
                Some(name) => Some(name@),
                None => None,
            },
        ),
{
    let mut path = String::from_str("/tmp/");
    match base {
        Some(name) => path.append(name),
        None => path.append("tmp"),
    }
    path.append(".out");
    path
}

/// The pieces of `s` between the separators: one more than there are
/// separators, empty pieces included.
pub open spec fn split_on(s: Seq<char>, separator: char) -> Seq<Seq<char>>
    decreases s.len(),
{
    if s.len() == 0 {
        seq![Seq::empty()]
    } else {
        let before = split_on(s.drop_last(), separator);
        if s.last() == separator {
            before.push(Seq::empty())
        } else {
            before.drop_last().push(before.last().push(s.last()))
        }
    }
}

/// The pieces put together again, with the separator between each two.
pub open spec fn rejoin(pieces: Seq<Seq<char>>, separator: char) -> Seq<char>
    decreases pieces.len(),
{
    if pieces.len() == 0 {
        Seq::empty()
    } else if pieces.len() == 1 {
        pieces[0]
    } else {
        rejoin(pieces.drop_last(), separator) + seq![separator] + pieces.last()
    }
}

/// Splitting loses nothing and leaves no separator behind: there is at
/// least one piece, no piece holds the separator, and the pieces with the
/// separator between them are the text that was split.
pub proof fn lemma_split_on(s: Seq<char>, separator: char)
    ensures
        split_on(s, separator).len() >= 1,
        forall|k: int|
            0 <= k < split_on(s, separator).len() ==> !(#[trigger] split_on(s, separator)[k]).contains(
                separator,
            ),
        rejoin(split_on(s, separator), separator) == s,
    decreases s.len(),
{
    let pieces = split_on(s, separator);
    if s.len() == 0 {
        assert(pieces[0] =~= s);
    } else {
        let shorter = s.drop_last();
        let before = split_on(shorter, separator);
        lemma_split_on(shorter, separator);
        if s.last() == separator {
            assert(pieces.drop_last() =~= before);
            assert(pieces.last() =~= Seq::<char>::empty());
            assert(rejoin(pieces, separator) =~= shorter.push(separator));
            assert(shorter.push(separator) =~= s);
            assert forall|k: int| 0 <= k < pieces.len() implies !(#[trigger] pieces[k]).contains(
                separator,
            ) by {
                if k < before.len() {
                    assert(pieces[k] == before[k]);
                }
            }
        } else {
            let grown = before.last().push(s.last());
            assert(pieces.last() == grown);
            assert(pieces.drop_last() =~= before.drop_last());
            assert forall|k: int| 0 <= k < pieces.len() implies !(#[trigger] pieces[k]).contains(
                separator,
            ) by {
                if k < before.len() - 1 {
                    assert(pieces[k] == before[k]);
                } else {
                    assert(!before[before.len() - 1].contains(separator));
                    if grown.contains(separator) {
                        let i = choose|i: int| 0 <= i < grown.len() && grown[i] == separator;
                        if i < grown.len() - 1 {
                            assert(before.last()[i] == separator);
                        }
                    }
                }
            }
            if before.len() == 1 {
                assert(rejoin(before, separator) == before[0]);
                assert(rejoin(pieces, separator) == grown);
                assert(grown =~= s);
            } else {
                assert(rejoin(pieces, separator) =~= rejoin(before.drop_last(), separator) + seq![
                    separator,
                ] + before.last() + seq![s.last()]);
                assert(rejoin(before, separator).push(s.last()) =~= s);
            }
        }
    }
}

/// A file name behind a directory, with a `/` between the two unless the
/// directory is empty or ends in one.
pub open spec fn join_path(dir: Seq<char>, name: Seq<char>) -> Seq<char> {
    if dir.len() > 0 && dir.last() != '/' {
        dir + seq!['/'] + name
    } else {
        dir + name
    }
}

/// Where an executable is looked for: in each directory of the search
/// path, in their order.
pub open spec fn search_candidates_spec(name: Seq<char>, search_path: Seq<char>) -> Seq<Seq<char>> {
    split_on(search_path, ':').map_values(|dir: Seq<char>| join_path(dir, name))
}

/// The texts of a vector of strings.
pub open spec fn texts(v: Seq<String>) -> Seq<Seq<char>> {
    v.map_values(|s: String| s@)
}

/// Whether the name holds a path separator, so that it is used as it is.
pub fn has_separator(filename: &str) -> (found: bool)
    ensures
        found == filename@.contains('/'),
{
    let n = filename.unicode_len();
    let mut i: usize = 0;
    while i < n
        invariant
            n == filename@.len(),
            i <= n,
            forall|k: int| 0 <= k < i ==> filename@[k] != '/',
        decreases n - i,
    {
        if filename.get_char(i) == '/' {
            return true;
        }
        i = i + 1;
    }
    false
}

/// The path of a file in a directory.
pub fn join(dir: &str, name: &str) -> (path: String)
    ensures
        path@ == join_path(dir@, name@),
{
    let n = dir.unicode_len();
    let mut path = String::from_str(dir);
    if n > 0 && dir.get_char(n - 1) != '/' {
        proof {
            reveal_strlit("/");
            assert("/"@ =~= seq!['/']);
        }
        path.append("/");
    }
    path.append(name);
    path
}

proof fn lemma_texts_push(
    candidates: Seq<String>,
    candidate: String,
    done: Seq<Seq<char>>,
    piece: Seq<char>,
    name: Seq<char>,
)
    requires
        texts(candidates) == done.map_values(|dir: Seq<char>| join_path(dir, name)),
        candidate@ == join_path(piece, name),
    ensures
        texts(candidates.push(candidate)) == done.push(piece).map_values(
            |dir: Seq<char>| join_path(dir, name),
        ),
{
    let place = |dir: Seq<char>| join_path(dir, name);
    let left = texts(candidates.push(candidate));
    let right = done.push(piece).map_values(place);
    assert(texts(candidates).len() == done.len());
    assert(left.len() == right.len());
    assert forall|k: int| 0 <= k < left.len() implies left[k] == right[k] by {
        if k < done.len() {
            assert(left[k] == texts(candidates)[k]);
            assert(right[k] == done.map_values(place)[k]);
        }
    }
    assert(left =~= right);
}

/// The paths at which an executable that was named without a directory is
/// looked for, given the search path: its directories are parted by `:`.
pub fn search_candidates(filename: &str, search_path: &str) -> (candidates: Vec<String>)
    ensures
        texts(candidates@) == search_candidates_spec(filename@, search_path@),
{
    let n = search_path.unicode_len();
    let ghost whole = search_path@;
    let ghost place = |dir: Seq<char>| join_path(dir, filename@);
    let mut candidates: Vec<String> = Vec::new();
    let ghost mut done: Seq<Seq<char>> = Seq::empty();
    let mut start: usize = 0;
    let mut i: usize = 0;
    proof {
        assert(whole.take(0) =~= Seq::<char>::empty());
        assert(split_on(whole.take(0), ':') =~= done.push(whole.subrange(0, 0)));
        assert(texts(candidates@) =~= done.map_values(place));
    }
    while i < n
        invariant
            n == whole.len(),
            whole == search_path@,
            place == (|dir: Seq<char>| join_path(dir, filename@)),
            start <= i <= n,
            split_on(whole.take(i as int), ':') == done.push(
                whole.subrange(start as int, i as int),
            ),
            texts(candidates@) == done.map_values(place),
        decreases n - i,
    {
        let c = search_path.get_char(i);
        proof {
            assert(whole.take(i + 1).drop_last() =~= whole.take(i as int));
            assert(whole.take(i + 1).last() == c);
            let before = done.push(whole.subrange(start as int, i as int));
            assert(before.drop_last() =~= done);
            assert(whole.subrange(start as int, i as int).push(c) =~= whole.subrange(
                start as int,
                i + 1,
            ));
        }
        if c == ':' {
            let dir = search_path.substring_char(start, i);
            let candidate = join(dir, filename);
            proof {
                let piece = whole.subrange(start as int, i as int);
                lemma_texts_push(candidates@, candidate, done, piece, filename@);
                assert(whole.subrange(i + 1, i + 1) =~= Seq::<char>::empty());
                done = done.push(piece);
            }
            candidates.push(candidate);
            start = i + 1;
        }
        i = i + 1;
    }
    let dir = search_path.substring_char(start, n);
    let candidate = join(dir, filename);
    proof {
        let piece = whole.subrange(start as int, n as int);
        assert(whole.take(n as int) =~= whole);
        lemma_texts_push(candidates@, candidate, done, piece, filename@);
    }
    candidates.push(candidate);
    candidates
}

/// The first candidate that exists, or the bare file name where none does.
/// `exists` says of each candidate whether it is there.
pub fn first_existing(filename: &str, candidates: &Vec<String>, exists: &Vec<bool>) -> (path:
    String)
    requires
        candidates.len() == exists.len(),
    ensures
        (forall|i: int| 0 <= i < exists.len() ==> !exists[i]) ==> path@ == filename@,
        forall|i: int|
            0 <= i < exists.len() && exists[i] && (forall|j: int| 0 <= j < i ==> !exists[j])
                ==> path@ == (#[trigger] candidates[i])@,
{
    let mut i: usize = 0;
    while i < candidates.len()
        invariant
            candidates.len() == exists.len(),
            i <= candidates.len(),
            forall|j: int| 0 <= j < i ==> !exists[j],
        decreases candidates.len() - i,
    {
        if exists[i] {
            let found = candidates[i].clone();
            assert forall|k: int|
                0 <= k < exists.len() && exists[k] && (forall|j: int|
                    0 <= j < k ==> !exists[j]) implies found@ == (#[trigger] candidates[k])@ by {
                if k < i {
                    assert(!exists[k]);
                } else if k > i {
                    assert(!exists[i as int]);
                }
            }
            return found;
        }
        i = i + 1;
    }
    String::from_str(filename)
}

} // verus!
