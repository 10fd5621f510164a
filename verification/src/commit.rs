//! The pure decisions of recording a commit: which files the new
//! commit lists, who authored it, its identity, and the status entries that
//! announce it.
//!
//! Committed files are kept as `(path, bytes)` pairs in ascending byte order of
//! their paths, with no path twice: the order and uniqueness of a map keyed
//! by `String`.

use vstd::prelude::*;
use vstd::utf8::*;
use crate::digest::{blake3_digest, blake3_hash};
use crate::text::{hex_encode, i64_to_decimal, lower_hex, signed_decimal, usize_to_decimal, decimal};

verus! {

/// `i` splits `a` and `b` at their first difference, with `a` below `b`
/// there: either `a` ends at `i` while `b` goes on, or both go on and
/// `a[i] < b[i]`.
pub open spec fn lex_split(a: Seq<u8>, b: Seq<u8>, i: int) -> bool {
    &&& 0 <= i <= a.len()
    &&& i <= b.len()
    &&& a.take(i) == b.take(i)
    &&& ((i == a.len() && i < b.len()) || (i < a.len() && i < b.len() && a[i] < b[i]))
}

/// Byte-lexicographic strict order: the order of `[u8]`, and of `str`
/// (which compares the UTF-8 bytes).
pub open spec fn bytes_lt(a: Seq<u8>, b: Seq<u8>) -> bool {
    exists|i: int| #[trigger] lex_split(a, b, i)
}

/// The strict order of `String` paths: their UTF-8 encodings compared byte
/// by byte.
pub open spec fn path_lt(a: Seq<char>, b: Seq<char>) -> bool {
    bytes_lt(encode_utf8(a), encode_utf8(b))
}

/// No byte sequence lies below itself.
pub proof fn lemma_bytes_lt_irreflexive(a: Seq<u8>)
    ensures
        !bytes_lt(a, a),
{
}

/// The byte order is transitive.
pub proof fn lemma_bytes_lt_transitive(a: Seq<u8>, b: Seq<u8>, c: Seq<u8>)
    requires
        bytes_lt(a, b),
        bytes_lt(b, c),
    ensures
        bytes_lt(a, c),
{
    let i = choose|i: int| #[trigger] lex_split(a, b, i);
    let j = choose|j: int| #[trigger] lex_split(b, c, j);
    if i < j {
        assert(b.take(i) == c.take(j).take(i));
        assert(b.take(i) =~= b.take(j).take(i));
        assert(a.take(i) == c.take(i));
        assert(b.take(j)[i] == b[i]);
        assert(c.take(j)[i] == c[i]);
        assert(lex_split(a, c, i));
    } else if j < i {
        assert(a.take(j) =~= a.take(i).take(j));
        assert(b.take(j) =~= b.take(i).take(j));
        assert(a.take(j) == c.take(j));
        assert(a.take(i)[j] == a[j]);
        assert(b.take(i)[j] == b[j]);
        assert(lex_split(a, c, j));
    } else {
        assert(lex_split(a, c, i));
    }
}

/// Two paths with the same encoding are the same path.
pub proof fn lemma_encoding_injective(a: Seq<char>, b: Seq<char>)
    requires
        encode_utf8(a) == encode_utf8(b),
    ensures
        a == b,
{
    encode_utf8_decode_utf8(a);
    encode_utf8_decode_utf8(b);
}

/// No path lies below itself, so ordered paths differ.
pub proof fn lemma_path_lt_irreflexive(a: Seq<char>, b: Seq<char>)
    requires
        path_lt(a, b),
    ensures
        a != b,
{
    lemma_bytes_lt_irreflexive(encode_utf8(a));
}

/// The path order is transitive.
pub proof fn lemma_path_lt_transitive(a: Seq<char>, b: Seq<char>, c: Seq<char>)
    requires
        path_lt(a, b),
        path_lt(b, c),
    ensures
        path_lt(a, c),
{
    lemma_bytes_lt_transitive(encode_utf8(a), encode_utf8(b), encode_utf8(c));
}

/// The outcome of comparing two paths.
pub enum PathOrder {
    Less,
    Equal,
    Greater,
}

/// Compares two paths as `String`'s `Ord` does: byte by byte over UTF-8.
pub fn path_order(a: &str, b: &str) -> (res: PathOrder)
    ensures
        res is Less <==> path_lt(a@, b@),
        res is Equal <==> a@ == b@,
        res is Greater <==> path_lt(b@, a@),
{
    let x = a.as_bytes();
    let y = b.as_bytes();
    let ghost xs = encode_utf8(a@);
    let ghost ys = encode_utf8(b@);
    assert(x@ == xs);
    assert(y@ == ys);
    let n: usize = if x.len() < y.len() {
        x.len()
    } else {
        y.len()
    };
    let mut i: usize = 0;
    loop
        invariant
            i <= n,
            n <= x@.len(),
            n <= y@.len(),
            n == x@.len() || n == y@.len(),
            x@ == xs,
            y@ == ys,
            xs.take(i as int) =~= ys.take(i as int),
        ensures
            i <= n,
            xs.take(i as int) =~= ys.take(i as int),
            i < n ==> xs[i as int] != ys[i as int],
        decreases n - i,
    {
        if i == n {
            break;
        }
        if x[i] != y[i] {
            break;
        }
        assert(xs.take(i + 1) =~= xs.take(i as int).push(xs[i as int]));
        assert(ys.take(i + 1) =~= ys.take(i as int).push(ys[i as int]));
        i = i + 1;
    }
    let ghost ii = i as int;
    let res = if i < n {
        if x[i] < y[i] {
            assert(lex_split(xs, ys, ii));
            PathOrder::Less
        } else {
            assert(lex_split(ys, xs, ii));
            PathOrder::Greater
        }
    } else if x.len() < y.len() {
        assert(xs.take(ii) =~= ys.take(ii));
        assert(lex_split(xs, ys, ii));
        PathOrder::Less
    } else if y.len() < x.len() {
        assert(lex_split(ys, xs, ii));
        PathOrder::Greater
    } else {
        assert(xs =~= xs.take(ii));
        assert(ys =~= ys.take(ii));
        proof {
            lemma_encoding_injective(a@, b@);
        }
        PathOrder::Equal
    };
    proof {
        match res {
            PathOrder::Less => {
                lemma_bytes_lt_irreflexive(xs);
                if bytes_lt(ys, xs) {
                    lemma_bytes_lt_transitive(xs, ys, xs);
                }
            },
            PathOrder::Greater => {
                lemma_bytes_lt_irreflexive(xs);
                if bytes_lt(xs, ys) {
                    lemma_bytes_lt_transitive(xs, ys, xs);
                }
            },
            PathOrder::Equal => {
                lemma_bytes_lt_irreflexive(xs);
            },
        }
    }
    res
}

/// The path of an entry.
pub open spec fn entry_path(e: (String, Vec<u8>)) -> Seq<char> {
    e.0@
}

/// The bytes of an entry.
pub open spec fn entry_bytes(e: (String, Vec<u8>)) -> Seq<u8> {
    e.1@
}

/// Entries in strictly ascending path order (so no path occurs twice).
pub open spec fn sorted_by_path(v: Seq<(String, Vec<u8>)>) -> bool {
    forall|i: int, j: int|
        0 <= i < j < v.len() ==> path_lt(#[trigger] entry_path(v[i]), #[trigger] entry_path(v[j]))
}

/// `v` lists exactly the entries of `m`, one per path, in ascending path
/// order.
pub open spec fn lists_exactly(v: Seq<(String, Vec<u8>)>, m: Map<Seq<char>, Seq<u8>>) -> bool {
    &&& sorted_by_path(v)
    &&& forall|i: int|
        0 <= i < v.len() ==> m.contains_key(#[trigger] entry_path(v[i])) && m[entry_path(v[i])]
            == entry_bytes(v[i])
    &&& forall|k: Seq<char>|
        m.contains_key(k) ==> exists|i: int| 0 <= i < v.len() && #[trigger] entry_path(v[i]) == k
}

/// The map that inserting `s` in order builds: a later entry for a path
/// replaces an earlier one.
pub open spec fn entries_map(s: Seq<(String, Vec<u8>)>) -> Map<Seq<char>, Seq<u8>>
    decreases s.len(),
{
    if s.len() == 0 {
        Map::empty()
    } else {
        entries_map(s.drop_last()).insert(entry_path(s.last()), entry_bytes(s.last()))
    }
}

/// The paths named in `paths`.
pub open spec fn path_set(paths: Seq<String>) -> Set<Seq<char>> {
    Set::new(|k: Seq<char>| exists|i: int| 0 <= i < paths.len() && #[trigger] paths[i]@ == k)
}

/// The files a new commit lists: the head files, less the deleted paths,
/// with the staged files laid over them (a staged file replaces a head
/// one of the same path).
pub open spec fn committed_files(
    head: Seq<(String, Vec<u8>)>,
    deleted: Seq<String>,
    staged: Seq<(String, Vec<u8>)>,
) -> Map<Seq<char>, Seq<u8>> {
    entries_map(head).remove_keys(path_set(deleted)).union_prefer_right(entries_map(staged))
}

proof fn lemma_sorted_distinct(v: Seq<(String, Vec<u8>)>, i: int, j: int)
    requires
        sorted_by_path(v),
        0 <= i < v.len(),
        0 <= j < v.len(),
        i != j,
    ensures
        entry_path(v[i]) != entry_path(v[j]),
{
    if i < j {
        lemma_path_lt_irreflexive(entry_path(v[i]), entry_path(v[j]));
    } else {
        lemma_path_lt_irreflexive(entry_path(v[j]), entry_path(v[i]));
    }
}

/// Copies a byte vector.
fn copy_bytes(bytes: &Vec<u8>) -> (res: Vec<u8>)
    ensures
        res@ == bytes@,
{
    let mut res: Vec<u8> = Vec::new();
    let mut i: usize = 0;
    while i < bytes.len()
        invariant
            i <= bytes.len(),
            res@ == bytes@.take(i as int),
        decreases bytes.len() - i,
    {
        res.push(bytes[i]);
        assert(bytes@.take(i + 1) =~= bytes@.take(i as int).push(bytes@[i as int]));
        i = i + 1;
    }
    assert(bytes@.take(bytes.len() as int) =~= bytes@);
    res
}

/// The first position whose path is not below `path`, and whether the
/// entry there has exactly that path.
fn find_slot(entries: &Vec<(String, Vec<u8>)>, path: &str) -> (res: (usize, bool))
    requires
        sorted_by_path(entries@),
    ensures
        res.0 <= entries@.len(),
        forall|j: int| 0 <= j < res.0 ==> path_lt(#[trigger] entry_path(entries@[j]), path@),
        res.1 ==> res.0 < entries@.len() && entry_path(entries@[res.0 as int]) == path@,
        !res.1 ==> forall|j: int|
            res.0 <= j < entries@.len() ==> path_lt(path@, #[trigger] entry_path(entries@[j])),
{
    let n = entries.len();
    let mut i: usize = 0;
    while i < n
        invariant
            i <= n,
            n == entries@.len(),
            sorted_by_path(entries@),
            forall|j: int| 0 <= j < i ==> path_lt(#[trigger] entry_path(entries@[j]), path@),
        decreases n - i,
    {
        match path_order(entries[i].0.as_str(), path) {
            PathOrder::Less => {
                i = i + 1;
            },
            PathOrder::Equal => {
                return (i, true);
            },
            PathOrder::Greater => {
                assert forall|j: int| i <= j < entries@.len() implies path_lt(
                    path@,
                    #[trigger] entry_path(entries@[j]),
                ) by {
                    if j > i {
                        assert(path_lt(entry_path(entries@[i as int]), entry_path(entries@[j])));
                        lemma_path_lt_transitive(
                            path@,
                            entry_path(entries@[i as int]),
                            entry_path(entries@[j]),
                        );
                    }
                }
                return (i, false);
            },
        }
    }
    (i, false)
}

/// Sets the bytes of `path`, adding the entry at its place in the order if
/// the path is new.
fn upsert_entry(
    entries: &mut Vec<(String, Vec<u8>)>,
    path: String,
    bytes: Vec<u8>,
    Ghost(m): Ghost<Map<Seq<char>, Seq<u8>>>,
)
    requires
        lists_exactly(old(entries)@, m),
    ensures
        lists_exactly(final(entries)@, m.insert(path@, bytes@)),
{
    let ghost k = path@;
    let ghost b = bytes@;
    let ghost old_v = entries@;
    let (slot, found) = find_slot(entries, path.as_str());
    let ghost m2 = m.insert(k, b);
    if found {
        entries.set(slot, (path, bytes));
        let ghost v = entries@;
        assert(v.len() == old_v.len());
        assert forall|i: int, j: int| 0 <= i < j < v.len() implies path_lt(
            #[trigger] entry_path(v[i]),
            #[trigger] entry_path(v[j]),
        ) by {
            assert(entry_path(v[i]) == entry_path(old_v[i]));
            assert(entry_path(v[j]) == entry_path(old_v[j]));
        }
        assert forall|i: int| 0 <= i < v.len() implies m2.contains_key(
            #[trigger] entry_path(v[i]),
        ) && m2[entry_path(v[i])] == entry_bytes(v[i]) by {
            if i != slot {
                lemma_sorted_distinct(old_v, i, slot as int);
            }
        }
        assert forall|q: Seq<char>| m2.contains_key(q) implies exists|i: int|
            0 <= i < v.len() && #[trigger] entry_path(v[i]) == q by {
            if q == k {
                assert(entry_path(v[slot as int]) == q);
            } else {
                let i = choose|i: int| 0 <= i < old_v.len() && #[trigger] entry_path(old_v[i]) == q;
                assert(entry_path(v[i]) == q);
            }
        }
    } else {
        entries.insert(slot, (path, bytes));
        let ghost v = entries@;
        let ghost s = slot as int;
        assert(v.len() == old_v.len() + 1);
        assert(entry_path(v[s]) == k);
        assert forall|i: int| 0 <= i < v.len() && i != s implies #[trigger] entry_path(v[i])
            == entry_path(old_v[if i < s {
            i
        } else {
            i - 1
        }]) by {}
        assert forall|i: int, j: int| 0 <= i < j < v.len() implies path_lt(
            #[trigger] entry_path(v[i]),
            #[trigger] entry_path(v[j]),
        ) by {
            if j == s {
                assert(entry_path(v[i]) == entry_path(old_v[i]));
            } else if i == s {
                assert(entry_path(v[j]) == entry_path(old_v[j - 1]));
            } else {
                let oi = if i < s {
                    i
                } else {
                    i - 1
                };
                let oj = if j < s {
                    j
                } else {
                    j - 1
                };
                assert(entry_path(v[i]) == entry_path(old_v[oi]));
                assert(entry_path(v[j]) == entry_path(old_v[oj]));
                assert(oi < oj);
            }
        }
        assert forall|i: int| 0 <= i < v.len() implies m2.contains_key(
            #[trigger] entry_path(v[i]),
        ) && m2[entry_path(v[i])] == entry_bytes(v[i]) by {
            if i < s {
                assert(v[i] == old_v[i]);
                lemma_path_lt_irreflexive(entry_path(old_v[i]), k);
            } else if i > s {
                assert(v[i] == old_v[i - 1]);
                lemma_path_lt_irreflexive(k, entry_path(old_v[i - 1]));
            }
        }
        assert forall|q: Seq<char>| m2.contains_key(q) implies exists|i: int|
            0 <= i < v.len() && #[trigger] entry_path(v[i]) == q by {
            if q == k {
                assert(entry_path(v[s]) == q);
            } else {
                let i = choose|i: int| 0 <= i < old_v.len() && #[trigger] entry_path(old_v[i]) == q;
                if i < s {
                    assert(v[i] == old_v[i]);
                    assert(entry_path(v[i]) == q);
                } else {
                    assert(v[i + 1] == old_v[i]);
                    assert(entry_path(v[i + 1]) == q);
                }
            }
        }
    }
}

/// Drops the entry of `path`, if there is one.
fn remove_entry(
    entries: &mut Vec<(String, Vec<u8>)>,
    path: &str,
    Ghost(m): Ghost<Map<Seq<char>, Seq<u8>>>,
)
    requires
        lists_exactly(old(entries)@, m),
    ensures
        lists_exactly(final(entries)@, m.remove(path@)),
{
    let ghost old_v = entries@;
    let ghost k = path@;
    let ghost m2 = m.remove(k);
    let (slot, found) = find_slot(entries, path);
    if found {
        let _ = entries.remove(slot);
        let ghost v = entries@;
        let ghost s = slot as int;
        assert forall|i: int| 0 <= i < v.len() implies #[trigger] v[i] == old_v[if i < s {
            i
        } else {
            i + 1
        }] by {}
        assert forall|i: int, j: int| 0 <= i < j < v.len() implies path_lt(
            #[trigger] entry_path(v[i]),
            #[trigger] entry_path(v[j]),
        ) by {
            let oi = if i < s {
                i
            } else {
                i + 1
            };
            let oj = if j < s {
                j
            } else {
                j + 1
            };
            assert(v[i] == old_v[oi]);
            assert(v[j] == old_v[oj]);
        }
        assert forall|i: int| 0 <= i < v.len() implies m2.contains_key(
            #[trigger] entry_path(v[i]),
        ) && m2[entry_path(v[i])] == entry_bytes(v[i]) by {
            let oi = if i < s {
                i
            } else {
                i + 1
            };
            assert(v[i] == old_v[oi]);
            lemma_sorted_distinct(old_v, oi, s);
        }
        assert forall|q: Seq<char>| m2.contains_key(q) implies exists|i: int|
            0 <= i < v.len() && #[trigger] entry_path(v[i]) == q by {
            let i = choose|i: int| 0 <= i < old_v.len() && #[trigger] entry_path(old_v[i]) == q;
            assert(i != s);
            if i < s {
                assert(v[i] == old_v[i]);
                assert(entry_path(v[i]) == q);
            } else {
                assert(v[i - 1] == old_v[i]);
                assert(entry_path(v[i - 1]) == q);
            }
        }
    } else {
        assert forall|i: int| 0 <= i < old_v.len() implies m2.contains_key(
            #[trigger] entry_path(old_v[i]),
        ) && m2[entry_path(old_v[i])] == entry_bytes(old_v[i]) by {
            if i < slot {
                lemma_path_lt_irreflexive(entry_path(old_v[i]), k);
            } else {
                lemma_path_lt_irreflexive(k, entry_path(old_v[i]));
            }
        }
        assert forall|q: Seq<char>| m2.contains_key(q) implies exists|i: int|
            0 <= i < old_v.len() && #[trigger] entry_path(old_v[i]) == q by {
            assert(m.contains_key(q));
        }
    }
}

/// Why a commit could not be recorded.
#[derive(Debug, Clone, Copy, PartialEq, Eq)]
pub enum CommitError {
    /// Nothing is staged and no committed file was deleted.
    NothingStaged,
}

impl CommitError {
    /// The message the command reports.
    pub fn message(&self) -> (res: String)
        ensures
            res@ == "Nothing staged"@,
    {
        String::from_str("Nothing staged")
    }
}

/// The files a new commit lists, in ascending path order.
///
/// `head` are the files of the last commit (a later entry for a path
/// replaces an earlier one), `deleted` the paths of `head` that no longer
/// exist in the worktree, `staged` the files staged since. With nothing
/// staged and nothing deleted there is nothing to commit.
pub fn merge_tracked_files(
    head: &Vec<(String, Vec<u8>)>,
    deleted: &Vec<String>,
    staged: &Vec<(String, Vec<u8>)>,
) -> (res: Result<Vec<(String, Vec<u8>)>, CommitError>)
    ensures
        res is Err <==> staged@.len() == 0 && deleted@.len() == 0,
        res matches Ok(files) ==> lists_exactly(files@, committed_files(head@, deleted@, staged@)),
{
    if staged.len() == 0 && deleted.len() == 0 {
        return Err(CommitError::NothingStaged);
    }
    let mut entries: Vec<(String, Vec<u8>)> = Vec::new();
    let mut i: usize = 0;
    while i < head.len()
        invariant
            i <= head.len(),
            lists_exactly(entries@, entries_map(head@.take(i as int))),
        decreases head.len() - i,
    {
        let ghost m = entries_map(head@.take(i as int));
        let path = head[i].0.clone();
        let bytes = copy_bytes(&head[i].1);
        upsert_entry(&mut entries, path, bytes, Ghost(m));
        assert(head@.take(i + 1).drop_last() =~= head@.take(i as int));
        i = i + 1;
    }
    assert(head@.take(head.len() as int) =~= head@);
    let ghost base = entries_map(head@);
    let mut d: usize = 0;
    while d < deleted.len()
        invariant
            d <= deleted.len(),
            base == entries_map(head@),
            lists_exactly(entries@, base.remove_keys(path_set(deleted@.take(d as int)))),
        decreases deleted.len() - d,
    {
        let ghost m = base.remove_keys(path_set(deleted@.take(d as int)));
        remove_entry(&mut entries, deleted[d].as_str(), Ghost(m));
        assert(path_set(deleted@.take(d + 1)) =~= path_set(deleted@.take(d as int)).insert(
            deleted@[d as int]@,
        )) by {
            assert forall|q: Seq<char>| path_set(deleted@.take(d + 1)).contains(q) implies path_set(
                deleted@.take(d as int),
            ).insert(deleted@[d as int]@).contains(q) by {
                let w = choose|w: int|
                    0 <= w < deleted@.take(d + 1).len() && #[trigger] deleted@.take(d + 1)[w]@ == q;
                if w < d {
                    assert(deleted@.take(d as int)[w] == deleted@.take(d + 1)[w]);
                }
            }
            assert forall|q: Seq<char>| path_set(deleted@.take(d as int)).insert(
                deleted@[d as int]@,
            ).contains(q) implies path_set(deleted@.take(d + 1)).contains(q) by {
                if q == deleted@[d as int]@ {
                    assert(deleted@.take(d + 1)[d as int]@ == q);
                } else {
                    let w = choose|w: int|
                        0 <= w < deleted@.take(d as int).len() && #[trigger] deleted@.take(
                            d as int,
                        )[w]@ == q;
                    assert(deleted@.take(d + 1)[w] == deleted@.take(d as int)[w]);
                }
            }
        }
        assert(base.remove_keys(path_set(deleted@.take(d + 1))) =~= m.remove(deleted@[d as int]@));
        d = d + 1;
    }
    assert(deleted@.take(deleted.len() as int) =~= deleted@);
    let ghost kept = base.remove_keys(path_set(deleted@));
    let mut s: usize = 0;
    while s < staged.len()
        invariant
            s <= staged.len(),
            kept == entries_map(head@).remove_keys(path_set(deleted@)),
            lists_exactly(entries@, kept.union_prefer_right(entries_map(staged@.take(s as int)))),
        decreases staged.len() - s,
    {
        let ghost m = kept.union_prefer_right(entries_map(staged@.take(s as int)));
        let path = staged[s].0.clone();
        let bytes = copy_bytes(&staged[s].1);
        upsert_entry(&mut entries, path, bytes, Ghost(m));
        assert(staged@.take(s + 1).drop_last() =~= staged@.take(s as int));
        assert(kept.union_prefer_right(entries_map(staged@.take(s + 1))) =~= m.insert(
            entry_path(staged@[s as int]),
            entry_bytes(staged@[s as int]),
        ));
        s = s + 1;
    }
    assert(staged@.take(staged.len() as int) =~= staged@);
    Ok(entries)
}

/// The author recorded on a commit: `GIT_AUTHOR_NAME` when set, else
/// `USER`, else `unknown`.
pub fn choose_author(git_author_name: Option<String>, user: Option<String>) -> (res: String)
    ensures
        git_author_name matches Some(a) ==> res@ == a@,
        git_author_name is None ==> (user matches Some(u) ==> res@ == u@),
        git_author_name is None && user is None ==> res@ == "unknown"@,
{
    match git_author_name {
        Some(author) => author,
        None => match user {
            Some(u) => u,
            None => String::from_str("unknown"),
        },
    }
}

/// The commit time in nanoseconds: the clock's nanosecond reading when it
/// has one, else its seconds times one billion.
pub fn commit_timestamp_ns(nanos: Option<i64>, seconds: i64) -> (res: i64)
    requires
        nanos is None ==> i64::MIN <= seconds * 1_000_000_000 <= i64::MAX,
    ensures
        nanos matches Some(n) ==> res == n,
        nanos is None ==> res == seconds * 1_000_000_000,
{
    match nanos {
        Some(n) => n,
        None => seconds * 1_000_000_000,
    }
}

/// The identity of a commit: the BLAKE3 digest of its draft encoding (the
/// commit with an all-zero id), with its lowercase hex spelling.
pub fn commit_identity(draft_bytes: &[u8]) -> (res: ([u8; 32], String))
    ensures
        res.0@ == blake3_digest(draft_bytes@),
        res.1@ == lower_hex(res.0@),
{
    let id = blake3_hash(draft_bytes);
    let id_hex = hex_encode(id.as_slice());
    (id, id_hex)
}

/// The status entries written for the serializer daemon after a commit, in
/// the order they are written.
pub fn commit_sr_entries(
    id_hex: &str,
    files_count: usize,
    message: &str,
    author: &str,
    timestamp_ns: i64,
) -> (res: Vec<(String, String)>)
    ensures
        res@.len() == 6,
        res@[0].0@ == "action"@ && res@[0].1@ == "commit"@,
        res@[1].0@ == "commit_id"@ && res@[1].1@ == id_hex@,
        res@[2].0@ == "files_count"@ && res@[2].1@ == decimal(files_count as nat),
        res@[3].0@ == "message"@ && res@[3].1@ == message@,
        res@[4].0@ == "author"@ && res@[4].1@ == author@,
        res@[5].0@ == "timestamp_ns"@ && res@[5].1@ == signed_decimal(timestamp_ns as int),
{
    let mut res: Vec<(String, String)> = Vec::new();
    res.push((String::from_str("action"), String::from_str("commit")));
    res.push((String::from_str("commit_id"), String::from_str(id_hex)));
    res.push((String::from_str("files_count"), usize_to_decimal(files_count)));
    res.push((String::from_str("message"), String::from_str(message)));
    res.push((String::from_str("author"), String::from_str(author)));
    res.push((String::from_str("timestamp_ns"), i64_to_decimal(timestamp_ns)));
    res
}

} // verus!
