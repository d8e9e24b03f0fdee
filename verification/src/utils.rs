//! Where the runtime's shared library may be found.
//!
//! Paths are byte strings, as the operating system hands them out, with `/`
//! between their components. The functions here compute the ordered list of
//! places to look at; whether a file is there is for the caller to test.

use vstd::prelude::*;
use vstd::slice::slice_to_vec;
use vstd::string::StringSliceAdditionalSpecFns;

verus! {

/// The byte that separates the components of a path.
pub const PATH_SEPARATOR: u8 = 0x2f;

/// The byte that separates the entries of a search-path list.
pub const LIST_SEPARATOR: u8 = 0x3a;

/// The byte that, alone in a component, names the current directory.
pub const DOT: u8 = 0x2e;

/// What a vector of byte strings holds.
pub open spec fn paths_view(paths: Vec<Vec<u8>>) -> Seq<Seq<u8>> {
    paths@.map_values(|p: Vec<u8>| p@)
}

/// The pieces of `s` between occurrences of `sep`: every separator ends one
/// piece and starts the next, so there is one piece more than separators.
pub open spec fn pieces(s: Seq<u8>, sep: u8) -> Seq<Seq<u8>>
    decreases s.len(),
{
    if s.len() == 0 {
        seq![Seq::<u8>::empty()]
    } else {
        let before = pieces(s.drop_last(), sep);
        if s.last() == sep {
            before.push(Seq::<u8>::empty())
        } else {
            before.drop_last().push(before.last().push(s.last()))
        }
    }
}

/// Splits `s` at every occurrence of `sep`.
pub fn split(s: &[u8], sep: u8) -> (out: Vec<Vec<u8>>)
    ensures
        paths_view(out) == pieces(s@, sep),
        out@.len() >= 1,
{
    let mut out: Vec<Vec<u8>> = Vec::new();
    let mut cur: Vec<u8> = Vec::new();
    let mut i: usize = 0;
    assert(s@.take(0) =~= Seq::<u8>::empty());
    assert(paths_view(out).push(cur@) =~= pieces(s@.take(0), sep));
    while i < s.len()
        invariant
            i <= s.len(),
            paths_view(out).push(cur@) == pieces(s@.take(i as int), sep),
        decreases s.len() - i,
    {
        let ghost prefix = s@.take(i as int);
        let ghost next = s@.take(i + 1);
        let ghost old_out = paths_view(out);
        let ghost old_cur = cur@;
        assert(next.drop_last() =~= prefix);
        assert(next.last() == s@[i as int]);
        if s[i] == sep {
            out.push(cur);
            cur = Vec::new();
            assert(paths_view(out) =~= old_out.push(old_cur));
            assert(paths_view(out).push(cur@) =~= pieces(next, sep));
        } else {
            cur.push(s[i]);
            assert(old_out.push(old_cur).drop_last() =~= old_out);
            assert(paths_view(out).push(cur@) =~= pieces(next, sep));
        }
        i += 1;
    }
    assert(s@.take(i as int) =~= s@);
    let ghost old_out = paths_view(out);
    let ghost old_cur = cur@;
    out.push(cur);
    assert(paths_view(out) =~= old_out.push(old_cur));
    out
}

/// Whether a path starts at the root directory.
pub open spec fn has_root(p: Seq<u8>) -> bool {
    p.len() > 0 && p[0] == PATH_SEPARATOR
}

/// The path that results from appending `name` to the directory `dir`: a
/// rooted `name` replaces `dir`, otherwise `name` follows `dir`, after a
/// separator unless `dir` is empty or already ends in one.
pub open spec fn joined(dir: Seq<u8>, name: Seq<u8>) -> Seq<u8> {
    if has_root(name) {
        name
    } else if dir.len() == 0 || dir.last() == PATH_SEPARATOR {
        dir + name
    } else {
        dir.push(PATH_SEPARATOR) + name
    }
}

/// Appends `name` to the directory `dir`.
pub fn join(dir: &[u8], name: &[u8]) -> (out: Vec<u8>)
    ensures
        out@ == joined(dir@, name@),
{
    if name.len() > 0 && name[0] == PATH_SEPARATOR {
        return slice_to_vec(name);
    }
    let mut out: Vec<u8> = slice_to_vec(dir);
    if dir.len() > 0 && dir[dir.len() - 1] != PATH_SEPARATOR {
        out.push(PATH_SEPARATOR);
    }
    let ghost head = out@;
    let mut i: usize = 0;
    while i < name.len()
        invariant
            i <= name.len(),
            out@ == head + name@.take(i as int),
        decreases name.len() - i,
    {
        out.push(name[i]);
        assert(name@.take(i + 1) =~= name@.take(i as int).push(name@[i as int]));
        assert(out@ =~= head + name@.take(i + 1));
        i += 1;
    }
    assert(name@.take(i as int) =~= name@);
    out
}

/// Whether a piece of a path names something: it is neither empty (two
/// separators in a row, or one at an end) nor the current directory.
pub open spec fn is_named(piece: Seq<u8>) -> bool {
    piece.len() > 0 && piece != seq![DOT]
}

/// The named components of a path, in order.
pub open spec fn components(p: Seq<u8>) -> Seq<Seq<u8>> {
    pieces(p, PATH_SEPARATOR).filter(|piece: Seq<u8>| is_named(piece))
}

/// Whether a path begins with the current directory, as `.` and `./lib` do.
pub open spec fn starts_at_cur_dir(p: Seq<u8>) -> bool {
    pieces(p, PATH_SEPARATOR)[0] == seq![DOT]
}

/// Whether two byte strings name the same path: both rooted or both not, both
/// or neither beginning with the current directory, and the same named
/// components. Repeated separators, a trailing separator and `.` inside a
/// path make no difference.
pub open spec fn same_path(a: Seq<u8>, b: Seq<u8>) -> bool {
    &&& has_root(a) == has_root(b)
    &&& starts_at_cur_dir(a) == starts_at_cur_dir(b)
    &&& components(a) == components(b)
}

/// Naming the same path is an equivalence: every path names the same path
/// as itself, and the relation holds both ways round and carries over.
pub proof fn lemma_same_path_equivalence(a: Seq<u8>, b: Seq<u8>, c: Seq<u8>)
    ensures
        same_path(a, a),
        same_path(a, b) == same_path(b, a),
        same_path(a, b) && same_path(b, c) ==> same_path(a, c),
{
}

fn bytes_eq(a: &Vec<u8>, b: &Vec<u8>) -> (r: bool)
    ensures
        r == (a@ == b@),
{
    if a.len() != b.len() {
        return false;
    }
    let mut i: usize = 0;
    while i < a.len()
        invariant
            i <= a.len(),
            a.len() == b.len(),
            a@.take(i as int) == b@.take(i as int),
        decreases a.len() - i,
    {
        if a[i] != b[i] {
            return false;
        }
        assert(a@.take(i + 1) =~= a@.take(i as int).push(a@[i as int]));
        assert(b@.take(i + 1) =~= b@.take(i as int).push(b@[i as int]));
        i += 1;
    }
    assert(a@.take(i as int) =~= a@);
    assert(b@.take(i as int) =~= b@);
    true
}

fn is_dot(piece: &Vec<u8>) -> (r: bool)
    ensures
        r == (piece@ == seq![DOT]),
{
    let r = piece.len() == 1 && piece[0] == DOT;
    assert(r == (piece@ =~= seq![DOT]));
    r
}

fn named_components(p: &[u8]) -> (out: (Vec<Vec<u8>>, bool))
    ensures
        paths_view(out.0) == components(p@),
        out.1 == starts_at_cur_dir(p@),
{
    let all = split(p, PATH_SEPARATOR);
    let ghost all_view = paths_view(all);
    let ghost pred = |piece: Seq<u8>| is_named(piece);
    let first_is_dot = is_dot(&all[0]);
    let mut kept: Vec<Vec<u8>> = Vec::new();
    let mut i: usize = 0;
    proof {
        reveal(Seq::filter);
        assert(all_view.take(0) =~= Seq::<Seq<u8>>::empty());
        assert(paths_view(kept) =~= all_view.take(0).filter(pred));
    }
    while i < all.len()
        invariant
            i <= all.len(),
            all_view == paths_view(all),
            pred == (|piece: Seq<u8>| is_named(piece)),
            paths_view(kept) == all_view.take(i as int).filter(pred),
        decreases all.len() - i,
    {
        let ghost old_kept = paths_view(kept);
        proof {
            reveal(Seq::filter);
            assert(all_view.take(i + 1).drop_last() =~= all_view.take(i as int));
            assert(all_view.take(i + 1).last() == all@[i as int]@);
        }
        if all[i].len() > 0 && !is_dot(&all[i]) {
            let piece = all[i].clone();
            assert(piece@ =~= all@[i as int]@);
            kept.push(piece);
            assert(paths_view(kept) =~= old_kept.push(all@[i as int]@));
        }
        i += 1;
    }
    assert(all_view.take(i as int) =~= all_view);
    (kept, first_is_dot)
}

fn paths_eq(a: &Vec<Vec<u8>>, b: &Vec<Vec<u8>>) -> (r: bool)
    ensures
        r == (paths_view(*a) == paths_view(*b)),
{
    if a.len() != b.len() {
        assert(paths_view(*a).len() != paths_view(*b).len());
        return false;
    }
    let mut i: usize = 0;
    while i < a.len()
        invariant
            i <= a.len(),
            a.len() == b.len(),
            forall|k: int| 0 <= k < i ==> a@[k]@ == b@[k]@,
        decreases a.len() - i,
    {
        if !bytes_eq(&a[i], &b[i]) {
            assert(paths_view(*a)[i as int] != paths_view(*b)[i as int]);
            return false;
        }
        i += 1;
    }
    assert(paths_view(*a) =~= paths_view(*b));
    true
}

/// Tells whether two byte strings name the same path.
pub fn is_same_path(a: &[u8], b: &[u8]) -> (r: bool)
    ensures
        r == same_path(a@, b@),
{
    let a_root = a.len() > 0 && a[0] == PATH_SEPARATOR;
    let b_root = b.len() > 0 && b[0] == PATH_SEPARATOR;
    let (a_parts, a_dot) = named_components(a);
    let (b_parts, b_dot) = named_components(b);
    a_root == b_root && a_dot == b_dot && paths_eq(&a_parts, &b_parts)
}

/// Whether no path before position `i` of `c` names the same path as the one
/// at `i`.
pub open spec fn first_of_its_kind(c: Seq<Seq<u8>>, i: int) -> bool {
    forall|j: int| 0 <= j < i ==> !same_path(#[trigger] c[j], c[i])
}

/// The paths of `c` without repetitions: of the paths that name the same
/// place only the first stays, and the order is kept.
pub open spec fn unique_paths(c: Seq<Seq<u8>>) -> Seq<Seq<u8>>
    decreases c.len(),
{
    if c.len() == 0 {
        c
    } else {
        let before = unique_paths(c.drop_last());
        if first_of_its_kind(c, c.len() - 1) {
            before.push(c.last())
        } else {
            before
        }
    }
}

/// Every path that stays is one of the given paths.
pub proof fn lemma_unique_paths_from(c: Seq<Seq<u8>>, k: int)
    requires
        0 <= k < unique_paths(c).len(),
    ensures
        exists|j: int| 0 <= j < c.len() && #[trigger] c[j] == unique_paths(c)[k],
    decreases c.len(),
{
    if c.len() > 0 {
        let before = unique_paths(c.drop_last());
        if k < before.len() {
            lemma_unique_paths_from(c.drop_last(), k);
            let j = choose|j: int| 0 <= j < c.drop_last().len() && #[trigger] c.drop_last()[j] == before[k];
            assert(c[j] == unique_paths(c)[k]);
        } else {
            assert(c[c.len() - 1] == unique_paths(c)[k]);
        }
    }
}

/// Every given path is named by one of the paths that stay.
pub proof fn lemma_unique_paths_cover(c: Seq<Seq<u8>>, j: int)
    requires
        0 <= j < c.len(),
    ensures
        exists|k: int| 0 <= k < unique_paths(c).len() && same_path(#[trigger] unique_paths(c)[k], c[j]),
    decreases c.len(),
{
    let before = unique_paths(c.drop_last());
    let last = c.len() - 1;
    if j < last {
        lemma_unique_paths_cover(c.drop_last(), j);
        let k = choose|k: int| 0 <= k < before.len() && same_path(#[trigger] before[k], c.drop_last()[j]);
        assert(unique_paths(c)[k] == before[k]);
    } else if first_of_its_kind(c, last) {
        assert(unique_paths(c)[before.len() as int] == c[j]);
    } else {
        let i = choose|i: int| 0 <= i < last && same_path(#[trigger] c[i], c[last]);
        lemma_unique_paths_cover(c.drop_last(), i);
        let k = choose|k: int| 0 <= k < before.len() && same_path(#[trigger] before[k], c.drop_last()[i]);
        assert(unique_paths(c)[k] == before[k]);
        assert(same_path(unique_paths(c)[k], c[j]));
    }
}

/// No two of the paths that stay name the same place.
pub proof fn lemma_unique_paths_distinct(c: Seq<Seq<u8>>, a: int, b: int)
    requires
        0 <= a < b < unique_paths(c).len(),
    ensures
        !same_path(unique_paths(c)[a], unique_paths(c)[b]),
    decreases c.len(),
{
    if c.len() > 0 {
        let before = unique_paths(c.drop_last());
        if b < before.len() {
            lemma_unique_paths_distinct(c.drop_last(), a, b);
        } else {
            lemma_unique_paths_from(c.drop_last(), a);
            let j = choose|j: int| 0 <= j < c.drop_last().len() && #[trigger] c.drop_last()[j] == before[a];
            assert(c[j] == before[a]);
            assert(!same_path(c[j], c[c.len() - 1]));
        }
    }
}

/// Drops every path that names the same place as an earlier one.
pub fn dedup_paths(c: &Vec<Vec<u8>>) -> (kept: Vec<Vec<u8>>)
    ensures
        paths_view(kept) == unique_paths(paths_view(*c)),
        forall|a: int, b: int|
            0 <= a < b < kept@.len() ==> !same_path(#[trigger] kept@[a]@, #[trigger] kept@[b]@),
{
    let ghost all = paths_view(*c);
    let mut kept: Vec<Vec<u8>> = Vec::new();
    let mut i: usize = 0;
    assert(all.take(0) =~= Seq::<Seq<u8>>::empty());
    assert(paths_view(kept) =~= unique_paths(all.take(0)));
    while i < c.len()
        invariant
            i <= c.len(),
            all == paths_view(*c),
            paths_view(kept) == unique_paths(all.take(i as int)),
        decreases c.len() - i,
    {
        let ghost seen = all.take(i as int);
        let ghost next = all.take(i + 1);
        let ghost old_kept = paths_view(kept);
        assert(next.drop_last() =~= seen);
        assert(next.last() == c@[i as int]@);
        let mut found = false;
        let mut k: usize = 0;
        while k < kept.len()
            invariant
                k <= kept.len(),
                i < c.len(),
                found == exists|m: int| 0 <= m < k && same_path(#[trigger] kept@[m]@, c@[i as int]@),
            decreases kept.len() - k,
        {
            if is_same_path(kept[k].as_slice(), c[i].as_slice()) {
                found = true;
            }
            k += 1;
        }
        proof {
            if found {
                let m = choose|m: int| 0 <= m < kept@.len() && same_path(#[trigger] kept@[m]@, c@[i as int]@);
                assert(old_kept[m] == kept@[m]@);
                lemma_unique_paths_from(seen, m);
                let j = choose|j: int| 0 <= j < seen.len() && #[trigger] seen[j] == unique_paths(seen)[m];
                assert(next[j] == seen[j]);
                assert(same_path(next[j], next[i as int]));
                assert(!first_of_its_kind(next, i as int));
            } else {
                assert forall|j: int| 0 <= j < i implies !same_path(#[trigger] next[j], next[i as int]) by {
                    lemma_unique_paths_cover(seen, j);
                    let m = choose|m: int| 0 <= m < unique_paths(seen).len() && same_path(#[trigger] unique_paths(seen)[m], seen[j]);
                    assert(old_kept[m] == kept@[m]@);
                    assert(seen[j] == next[j]);
                    if same_path(next[j], next[i as int]) {
                        assert(same_path(kept@[m]@, c@[i as int]@));
                    }
                }
                assert(first_of_its_kind(next, i as int));
            }
        }
        if !found {
            let path = c[i].clone();
            assert(path@ =~= c@[i as int]@);
            kept.push(path);
            assert(paths_view(kept) =~= old_kept.push(c@[i as int]@));
        }
        i += 1;
    }
    assert(all.take(i as int) =~= all);
    proof {
        assert forall|a: int, b: int| 0 <= a < b < kept@.len() implies !same_path(
            #[trigger] kept@[a]@,
            #[trigger] kept@[b]@,
        ) by {
            lemma_unique_paths_distinct(all, a, b);
            assert(paths_view(kept)[a] == kept@[a]@);
            assert(paths_view(kept)[b] == kept@[b]@);
        }
    }
    kept
}

/// The directories that are always searched, in order.
pub open spec fn default_dirs() -> Seq<Seq<u8>> {
    seq![
        "/usr/lib".spec_bytes(),
        "/usr/local/lib".spec_bytes(),
        "/usr/lib/aarch64-linux-gnu".spec_bytes(),
        "/usr/local/lib/aarch64-linux-gnu".spec_bytes(),
        "/lib".spec_bytes(),
        "/lib/aarch64-linux-gnu".spec_bytes(),
        "/opt/lib".spec_bytes(),
    ]
}

/// The file names under which the runtime's library is distributed.
pub open spec fn library_names() -> Seq<Seq<u8>> {
    seq!["librknnrt.so".spec_bytes(), "librknnmrt.so".spec_bytes()]
}

/// The directories to search: the fixed ones, then the entries of the
/// search-path list if there is one, then `.local/lib` under the home
/// directory if there is one.
pub open spec fn search_dirs(search_path: Option<Seq<u8>>, home: Option<Seq<u8>>) -> Seq<Seq<u8>> {
    default_dirs() + (match search_path {
        Some(list) => pieces(list, LIST_SEPARATOR),
        None => Seq::<Seq<u8>>::empty(),
    }) + (match home {
        Some(dir) => seq![joined(dir, ".local/lib".spec_bytes())],
        None => Seq::<Seq<u8>>::empty(),
    })
}

/// Every library name under every directory: directory by directory, and
/// within one directory name by name.
pub open spec fn candidates(dirs: Seq<Seq<u8>>) -> Seq<Seq<u8>> {
    Seq::new(
        2 * dirs.len(),
        |i: int| joined(dirs[i / 2], library_names()[i % 2]),
    )
}

/// What an optional byte string holds.
pub open spec fn opt_bytes(o: Option<&[u8]>) -> Option<Seq<u8>> {
    match o {
        Some(s) => Some(s@),
        None => None,
    }
}

fn fixed_dirs() -> (dirs: Vec<Vec<u8>>)
    ensures
        paths_view(dirs) == default_dirs(),
{
    let mut dirs: Vec<Vec<u8>> = Vec::new();
    dirs.push(slice_to_vec("/usr/lib".as_bytes()));
    dirs.push(slice_to_vec("/usr/local/lib".as_bytes()));
    dirs.push(slice_to_vec("/usr/lib/aarch64-linux-gnu".as_bytes()));
    dirs.push(slice_to_vec("/usr/local/lib/aarch64-linux-gnu".as_bytes()));
    dirs.push(slice_to_vec("/lib".as_bytes()));
    dirs.push(slice_to_vec("/lib/aarch64-linux-gnu".as_bytes()));
    dirs.push(slice_to_vec("/opt/lib".as_bytes()));
    assert(paths_view(dirs) =~= default_dirs());
    dirs
}

/// The directories to search, given the value of the search-path variable
/// and the home directory, where the environment has them.
pub fn library_search_dirs(search_path: Option<&[u8]>, home: Option<&[u8]>) -> (dirs: Vec<Vec<u8>>)
    ensures
        paths_view(dirs) == search_dirs(opt_bytes(search_path), opt_bytes(home)),
{
    let mut dirs = fixed_dirs();
    let ghost fixed = paths_view(dirs);
    let ghost mut listed = Seq::<Seq<u8>>::empty();
    if let Some(list) = search_path {
        let entries = split(list, LIST_SEPARATOR);
        proof {
            listed = paths_view(entries);
        }
        let mut i: usize = 0;
        while i < entries.len()
            invariant
                i <= entries.len(),
                listed == paths_view(entries),
                paths_view(dirs) == fixed + listed.take(i as int),
            decreases entries.len() - i,
        {
            let ghost old_dirs = paths_view(dirs);
            let entry = entries[i].clone();
            assert(entry@ =~= entries@[i as int]@);
            dirs.push(entry);
            assert(paths_view(dirs) =~= old_dirs.push(entries@[i as int]@));
            assert(listed.take(i + 1) =~= listed.take(i as int).push(listed[i as int]));
            assert(paths_view(dirs) =~= fixed + listed.take(i + 1));
            i += 1;
        }
        assert(listed.take(i as int) =~= listed);
    }
    assert(paths_view(dirs) =~= fixed + listed);
    if let Some(dir) = home {
        let ghost old_dirs = paths_view(dirs);
        let local = join(dir, ".local/lib".as_bytes());
        dirs.push(local);
        assert(paths_view(dirs) =~= old_dirs.push(joined(dir@, ".local/lib".spec_bytes())));
    }
    assert(paths_view(dirs) =~= search_dirs(opt_bytes(search_path), opt_bytes(home)));
    dirs
}

/// Every library name under every one of `dirs`.
pub fn library_paths_in(dirs: &Vec<Vec<u8>>) -> (out: Vec<Vec<u8>>)
    ensures
        paths_view(out) == candidates(paths_view(*dirs)),
{
    let ghost all = candidates(paths_view(*dirs));
    let mut out: Vec<Vec<u8>> = Vec::new();
    let mut i: usize = 0;
    assert(paths_view(out) =~= all.take(0));
    while i < dirs.len()
        invariant
            i <= dirs.len(),
            all == candidates(paths_view(*dirs)),
            paths_view(out) == all.take(2 * i),
        decreases dirs.len() - i,
    {
        let ghost old_out = paths_view(out);
        let first = join(dirs[i].as_slice(), "librknnrt.so".as_bytes());
        let second = join(dirs[i].as_slice(), "librknnmrt.so".as_bytes());
        assert(first@ == all[2 * i]);
        assert(second@ == all[2 * i + 1]);
        out.push(first);
        out.push(second);
        assert(paths_view(out) =~= old_out.push(all[2 * i]).push(all[2 * i + 1]));
        assert(paths_view(out) =~= all.take(2 * (i + 1)));
        i += 1;
    }
    assert(all.take(2 * i) =~= all);
    out
}

/// The places where the runtime's library may be, in the order in which they
/// are to be tried: each library name under each search directory, and no
/// place twice, even where one directory is listed by several sources.
pub fn library_candidates(search_path: Option<&[u8]>, home: Option<&[u8]>) -> (found: Vec<Vec<u8>>)
    ensures
        paths_view(found) == unique_paths(
            candidates(search_dirs(opt_bytes(search_path), opt_bytes(home))),
        ),
        forall|a: int, b: int|
            0 <= a < b < found@.len() ==> !same_path(#[trigger] found@[a]@, #[trigger] found@[b]@),
{
    let dirs = library_search_dirs(search_path, home);
    let all = library_paths_in(&dirs);
    dedup_paths(&all)
}

} // verus!
