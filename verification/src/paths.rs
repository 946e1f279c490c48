//! File system paths as Unix has them: bytes, of which `/` separates the
//! components.

use vstd::prelude::*;
use vstd::utf8::*;

verus! {

/// The environment variable that names the home directory.
pub const HOME_VARIABLE: &'static str = "HOME";

/// The environment variable that names the directories in which programs lie.
pub const SEARCH_PATH_VARIABLE: &'static str = "PATH";

/// The pieces of `s` between the occurrences of `sep`: one more than there are
/// occurrences.
pub open spec fn split(s: Seq<u8>, sep: u8) -> Seq<Seq<u8>>
    decreases s.len(),
{
    if s.len() == 0 {
        seq![Seq::<u8>::empty()]
    } else {
        let pieces = split(s.drop_last(), sep);
        if s.last() == sep {
            pieces.push(Seq::<u8>::empty())
        } else {
            pieces.drop_last().push(pieces.last().push(s.last()))
        }
    }
}

/// The bytes of an optional borrowed path.
pub open spec fn option_bytes(path: Option<&[u8]>) -> Option<Seq<u8>> {
    match path {
        Some(p) => Some(p@),
        None => None,
    }
}

/// The bytes of an optional path.
pub open spec fn option_path(path: Option<Vec<u8>>) -> Option<Seq<u8>> {
    match path {
        Some(p) => Some(p@),
        None => None,
    }
}

/// The contents of a list of byte strings.
pub open spec fn views(items: Seq<Vec<u8>>) -> Seq<Seq<u8>> {
    items.map_values(|v: Vec<u8>| v@)
}

/// The pieces of `s` between the occurrences of `sep`.
pub fn split_bytes(s: &[u8], sep: u8) -> (pieces: Vec<Vec<u8>>)
    ensures
        views(pieces@) == split(s@, sep),
{
    let mut pieces: Vec<Vec<u8>> = Vec::new();
    let mut current: Vec<u8> = Vec::new();
    let mut i: usize = 0;
    proof {
        assert(s@.take(0) =~= Seq::empty());
        assert(views(pieces@).push(current@) =~= split(s@.take(0), sep));
    }
    while i < s.len()
        invariant
            i <= s@.len(),
            views(pieces@).push(current@) == split(s@.take(i as int), sep),
        decreases s@.len() - i,
    {
        let b: u8 = s[i];
        let ghost before = views(pieces@);
        let ghost piece = current@;
        proof {
            assert(s@.take(i + 1).drop_last() =~= s@.take(i as int));
            assert(before.push(piece).drop_last() =~= before);
        }
        if b == sep {
            pieces.push(current);
            current = Vec::new();
            proof {
                assert(views(pieces@) =~= before.push(piece));
            }
        } else {
            current.push(b);
        }
        i = i + 1;
    }
    proof {
        assert(s@.take(i as int) =~= s@);
    }
    let ghost before = views(pieces@);
    let ghost piece = current@;
    pieces.push(current);
    proof {
        assert(views(pieces@) =~= before.push(piece));
    }
    pieces
}

/// A piece of a path that names something: neither empty nor `.`.
pub open spec fn is_name(piece: Seq<u8>) -> bool {
    piece.len() > 0 && piece != seq![0x2eu8]
}

/// What stands before the names of a path: `/` where the path is absolute, `.`
/// where it begins with that piece, else nothing.
pub open spec fn path_head(path: Seq<u8>) -> Seq<Seq<u8>> {
    if path.len() > 0 && path[0] == 0x2f {
        seq![seq![0x2fu8]]
    } else if split(path, 0x2f)[0] == seq![0x2eu8] {
        seq![seq![0x2eu8]]
    } else {
        Seq::empty()
    }
}

/// The names of a path, in order.
pub open spec fn path_names(path: Seq<u8>) -> Seq<Seq<u8>> {
    split(path, 0x2f).filter(|piece: Seq<u8>| is_name(piece))
}

/// The components of a path. Repeated separators, a separator at the end and `.`
/// anywhere but at the beginning make no difference to them.
pub open spec fn components(path: Seq<u8>) -> Seq<Seq<u8>> {
    path_head(path) + path_names(path)
}

/// The components of `base` are the first components of `path`.
pub open spec fn starts_with(path: Seq<u8>, base: Seq<u8>) -> bool {
    components(base).is_prefix_of(components(path))
}

/// `rel` as seen from `base`: `rel` itself where it is absolute.
pub open spec fn joined(base: Seq<u8>, rel: Seq<u8>) -> Seq<u8> {
    if rel.len() > 0 && rel[0] == 0x2f {
        rel
    } else if base.len() > 0 && base.last() != 0x2f {
        base.push(0x2f) + rel
    } else {
        base + rel
    }
}

fn same_bytes(a: &[u8], b: &[u8]) -> (same: bool)
    ensures
        same == (a@ == b@),
{
    if a.len() != b.len() {
        return false;
    }
    let mut i: usize = 0;
    while i < a.len()
        invariant
            i <= a@.len(),
            a@.len() == b@.len(),
            a@.take(i as int) == b@.take(i as int),
        decreases a@.len() - i,
    {
        if a[i] != b[i] {
            proof {
                assert(a@[i as int] != b@[i as int]);
            }
            return false;
        }
        i = i + 1;
        proof {
            assert(a@.take(i as int) =~= a@.take(i - 1).push(a@[i - 1]));
            assert(b@.take(i as int) =~= b@.take(i - 1).push(b@[i - 1]));
        }
    }
    proof {
        assert(a@.take(i as int) =~= a@);
        assert(b@.take(i as int) =~= b@);
    }
    true
}

fn is_name_bytes(piece: &[u8]) -> (r: bool)
    ensures
        r == is_name(piece@),
{
    if piece.len() == 0 {
        false
    } else if piece.len() == 1 {
        proof {
            assert(piece@ =~= seq![piece@[0]]);
        }
        piece[0] != 0x2e
    } else {
        true
    }
}

proof fn lemma_split_non_empty(s: Seq<u8>, sep: u8)
    ensures
        split(s, sep).len() > 0,
    decreases s.len(),
{
    if s.len() > 0 {
        lemma_split_non_empty(s.drop_last(), sep);
    }
}

/// The components of `path`.
pub fn path_components(path: &[u8]) -> (parts: Vec<Vec<u8>>)
    ensures
        views(parts@) == components(path@),
{
    let pieces = split_bytes(path, 0x2f);
    let ghost split_path = split(path@, 0x2f);
    proof {
        lemma_split_non_empty(path@, 0x2f);
        assert(views(pieces@)[0] == pieces@[0]@);
    }
    let mut parts: Vec<Vec<u8>> = Vec::new();
    if path.len() > 0 && path[0] == 0x2f {
        parts.push(vec![0x2f]);
        proof {
            assert(parts@[0]@ =~= seq![0x2fu8]);
            assert(views(parts@) =~= seq![seq![0x2fu8]]);
        }
    } else if pieces[0].len() == 1 && pieces[0][0] == 0x2e {
        parts.push(vec![0x2e]);
        proof {
            assert(pieces@[0]@ =~= seq![0x2eu8]);
            assert(parts@[0]@ =~= seq![0x2eu8]);
            assert(views(parts@) =~= seq![seq![0x2eu8]]);
        }
    } else {
        proof {
            assert(views(parts@) =~= Seq::empty());
        }
    }
    let ghost head = path_head(path@);
    let ghost pred = |piece: Seq<u8>| is_name(piece);
    proof {
        reveal(Seq::filter);
        assert(split_path.take(0) =~= Seq::empty());
        assert(views(parts@) =~= head + split_path.take(0).filter(pred));
    }
    for piece in it: pieces.into_iter()
        invariant
            views(it.seq()) == split_path,
            pred == (|piece: Seq<u8>| is_name(piece)),
            views(parts@) == head + split_path.take(it.index()).filter(pred),
    {
        let ghost i = it.index();
        let ghost before = views(parts@);
        proof {
            reveal(Seq::filter);
            assert(split_path.take(i + 1).drop_last() =~= split_path.take(i));
            assert(split_path.take(i + 1).last() == split_path[i]);
            assert(views(it.seq())[i] == it.seq()[i]@);
            assert(piece@ == split_path[i]);
        }
        if is_name_bytes(piece.as_slice()) {
            parts.push(piece);
            proof {
                assert(views(parts@) =~= before.push(split_path[i]));
                assert(views(parts@) =~= head + split_path.take(i + 1).filter(pred));
            }
        }
    }
    proof {
        assert(split_path.take(split_path.len() as int) =~= split_path);
    }
    parts
}

/// Whether `path` begins with the components of `base`.
pub fn path_starts_with(path: &[u8], base: &[u8]) -> (r: bool)
    ensures
        r == starts_with(path@, base@),
{
    let parts = path_components(path);
    let prefix = path_components(base);
    proof {
        assert(views(parts@).len() == parts@.len());
        assert(views(prefix@).len() == prefix@.len());
    }
    if prefix.len() > parts.len() {
        return false;
    }
    let mut i: usize = 0;
    while i < prefix.len()
        invariant
            i <= prefix@.len() <= parts@.len(),
            views(parts@) == components(path@),
            views(prefix@) == components(base@),
            forall|j: int| 0 <= j < i ==> #[trigger] views(parts@)[j] == views(prefix@)[j],
        decreases prefix@.len() - i,
    {
        proof {
            assert(views(parts@)[i as int] == parts@[i as int]@);
            assert(views(prefix@)[i as int] == prefix@[i as int]@);
        }
        if !same_bytes(parts[i].as_slice(), prefix[i].as_slice()) {
            proof {
                assert(views(parts@).take(prefix@.len() as int)[i as int] != views(
                    prefix@,
                )[i as int]);
            }
            return false;
        }
        i = i + 1;
    }
    proof {
        assert(views(parts@).take(prefix@.len() as int) =~= views(prefix@));
    }
    true
}

/// Whether two paths have the same components.
pub fn same_path(a: &[u8], b: &[u8]) -> (r: bool)
    ensures
        r == (components(a@) == components(b@)),
{
    let r = path_starts_with(a, b) && path_starts_with(b, a);
    proof {
        if r {
            assert(components(a@) =~= components(b@));
        }
    }
    r
}

/// `rel` as seen from `base`.
pub fn path_join(base: &[u8], rel: &[u8]) -> (path: Vec<u8>)
    ensures
        path@ == joined(base@, rel@),
{
    let mut path: Vec<u8> = Vec::new();
    if !(rel.len() > 0 && rel[0] == 0x2f) {
        path.extend_from_slice(base);
        proof {
            assert(path@ =~= base@);
        }
        if base.len() > 0 && base[base.len() - 1] != 0x2f {
            path.push(0x2f);
        }
    }
    path.extend_from_slice(rel);
    proof {
        assert(path@ =~= joined(base@, rel@));
    }
    path
}

/// `pieces` in a row, with `sep` between each two of them.
pub open spec fn rejoined(pieces: Seq<Seq<u8>>, sep: u8) -> Seq<u8>
    decreases pieces.len(),
{
    if pieces.len() == 0 {
        Seq::empty()
    } else if pieces.len() == 1 {
        pieces[0]
    } else {
        rejoined(pieces.drop_last(), sep).push(sep) + pieces.last()
    }
}

/// Splitting loses nothing: the pieces, with the separator between them, are
/// the bytes that were split, and no piece holds a separator.
pub proof fn law_split_rejoins(s: Seq<u8>, sep: u8)
    ensures
        rejoined(split(s, sep), sep) == s,
        forall|i: int| 0 <= i < split(s, sep).len() ==> !(#[trigger] split(s, sep)[i]).contains(sep),
    decreases s.len(),
{
    let pieces = split(s, sep);
    if s.len() > 0 {
        let front = split(s.drop_last(), sep);
        law_split_rejoins(s.drop_last(), sep);
        lemma_split_non_empty(s.drop_last(), sep);
        if s.last() == sep {
            assert(pieces.drop_last() =~= front);
            assert(rejoined(pieces, sep) =~= s);
        } else {
            assert(pieces.drop_last() =~= front.drop_last());
            assert(s =~= s.drop_last().push(s.last()));
            if front.len() == 1 {
                assert(rejoined(pieces, sep) == front[0].push(s.last()));
            } else {
                let stem = rejoined(front.drop_last(), sep).push(sep);
                assert(s.drop_last() == stem + front.last());
                assert(rejoined(pieces, sep) == stem + front.last().push(s.last()));
                assert(rejoined(pieces, sep) =~= s);
            }
            assert forall|i: int| 0 <= i < pieces.len() implies !(#[trigger] pieces[i]).contains(
                sep,
            ) by {
                assert(!front[i].contains(sep));
                if i == pieces.len() - 1 {
                    assert(pieces[i] == front[i].push(s.last()));
                    assert(!pieces[i].contains(sep));
                }
            }
        }
    }
}

pub(crate) proof fn lemma_split_concat(a: Seq<u8>, b: Seq<u8>, sep: u8)
    ensures
        split(a.push(sep) + b, sep) == split(a, sep) + split(b, sep),
    decreases b.len(),
{
    let whole = a.push(sep) + b;
    if b.len() == 0 {
        assert(whole.drop_last() =~= a);
        assert(split(whole, sep) =~= split(a, sep) + split(b, sep));
    } else {
        lemma_split_concat(a, b.drop_last(), sep);
        lemma_split_non_empty(b.drop_last(), sep);
        assert(whole.drop_last() =~= a.push(sep) + b.drop_last());
        assert(split(whole, sep) =~= split(a, sep) + split(b, sep));
    }
}

proof fn lemma_join_names(base: Seq<u8>, rel: Seq<u8>)
    requires
        base.len() > 0,
        rel.len() > 0 ==> rel[0] != 0x2f,
    ensures
        path_names(joined(base, rel)) == path_names(base) + path_names(rel),
        path_head(joined(base, rel)) == path_head(base),
{
    let pred = |piece: Seq<u8>| is_name(piece);
    let path = joined(base, rel);
    lemma_split_non_empty(base, 0x2f);
    lemma_split_non_empty(rel, 0x2f);
    let stem = if base.last() == 0x2f {
        base.drop_last()
    } else {
        base
    };
    assert(path =~= stem.push(0x2f) + rel);
    lemma_split_concat(stem, rel, 0x2f);
    lemma_split_non_empty(stem, 0x2f);
    Seq::filter_distributes_over_add(split(stem, 0x2f), split(rel, 0x2f), pred);
    if base.last() == 0x2f {
        let empty = seq![Seq::<u8>::empty()];
        assert(split(base, 0x2f) =~= split(stem, 0x2f) + empty);
        Seq::filter_distributes_over_add(split(stem, 0x2f), empty, pred);
        assert(!pred(empty[0]));
        empty.lemma_all_neg_filter_empty(pred);
        assert(path_names(base) =~= path_names(stem));
    }
    assert(path[0] == base[0]);
    assert(split(path, 0x2f)[0] == split(base, 0x2f)[0]);
}

proof fn lemma_empty_path()
    ensures
        components(Seq::empty()) == Seq::<Seq<u8>>::empty(),
{
    let pred = |piece: Seq<u8>| is_name(piece);
    let pieces = split(Seq::empty(), 0x2f);
    assert(!pred(pieces[0]));
    pieces.lemma_all_neg_filter_empty(pred);
    assert(path_names(Seq::empty()) =~= Seq::empty());
    assert(components(Seq::empty()) =~= Seq::<Seq<u8>>::empty());
}

/// Joining puts the components of the relative path behind those of the base.
/// The relative path does not begin with `.`, which has no place but the first.
pub proof fn law_join_appends_components(base: Seq<u8>, rel: Seq<u8>)
    requires
        path_head(rel).len() == 0,
    ensures
        components(joined(base, rel)) == components(base) + components(rel),
{
    if base.len() == 0 {
        assert(base =~= Seq::empty());
        lemma_empty_path();
        assert(joined(base, rel) =~= rel);
        assert(components(joined(base, rel)) =~= components(base) + components(rel));
    } else {
        lemma_join_names(base, rel);
        assert(components(joined(base, rel)) =~= components(base) + components(rel));
    }
}

/// A `.` at the beginning of a relative path is lost when the path is joined to
/// something.
pub proof fn law_join_drops_current_directory(base: Seq<u8>, rel: Seq<u8>)
    requires
        base.len() > 0,
        path_head(rel) == seq![seq![0x2eu8]],
    ensures
        components(rel)[0] == seq![0x2eu8],
        components(joined(base, rel)) == components(base) + components(rel).drop_first(),
{
    if rel.len() > 0 && rel[0] == 0x2f {
        assert(path_head(rel)[0][0] == 0x2f);
        assert(path_head(rel)[0][0] == 0x2e);
    }
    lemma_join_names(base, rel);
    assert(components(rel).drop_first() =~= path_names(rel));
    assert(components(joined(base, rel)) =~= components(base) + components(rel).drop_first());
}

/// A separator more at the end of a path makes no difference to its components.
pub proof fn law_separator_at_the_end_is_no_component(path: Seq<u8>)
    requires
        path.len() > 0,
    ensures
        components(path.push(0x2f)) == components(path),
{
    let pred = |piece: Seq<u8>| is_name(piece);
    let longer = path.push(0x2f);
    let empty = seq![Seq::<u8>::empty()];
    lemma_split_non_empty(path, 0x2f);
    assert(longer.drop_last() =~= path);
    assert(split(longer, 0x2f) =~= split(path, 0x2f) + empty);
    Seq::filter_distributes_over_add(split(path, 0x2f), empty, pred);
    assert(!pred(empty[0]));
    empty.lemma_all_neg_filter_empty(pred);
    assert(path_names(longer) =~= path_names(path));
    assert(longer[0] == path[0]);
    assert(split(longer, 0x2f)[0] == split(path, 0x2f)[0]);
}

/// The smallest paths: a name without a separator is its own only component, `..`
/// among them, the root is one, a lone `.` is one, and the empty path has none.
pub proof fn law_smallest_paths(name: Seq<u8>)
    requires
        name.len() > 0,
        !name.contains(0x2f),
    ensures
        components(name) == seq![name],
        components(seq![0x2fu8]) == seq![seq![0x2fu8]],
        components(Seq::empty()) == Seq::<Seq<u8>>::empty(),
{
    let pred = |piece: Seq<u8>| is_name(piece);
    let one = seq![name];
    lemma_empty_path();
    lemma_unsplit(name, 0x2f);
    assert(name.contains(name[0]));
    reveal(Seq::filter);
    assert(one.drop_last() =~= Seq::empty());
    assert(one.last() == name);
    if is_name(name) {
        assert(one.filter(pred) =~= one);
        assert(components(name) =~= one);
    } else {
        assert(one.filter(pred) =~= Seq::empty());
        assert(components(name) =~= one);
    }
    let root = seq![0x2fu8];
    let nothing = Seq::<u8>::empty();
    assert(root =~= nothing.push(0x2f) + nothing);
    lemma_split_concat(nothing, nothing, 0x2f);
    let pieces = split(root, 0x2f);
    assert forall|i: int| 0 <= i < pieces.len() implies !pred(#[trigger] pieces[i]) by {}
    pieces.lemma_all_neg_filter_empty(pred);
    assert(path_names(root) =~= Seq::empty());
    assert(components(root) =~= seq![root]);
}

/// A path stands under another exactly if each component of that one is its own in
/// the same place: a name that merely begins like another is a different one.
pub proof fn law_path_stands_under_its_first_components(path: Seq<u8>, base: Seq<u8>)
    ensures
        starts_with(path, base) <==> components(base).len() <= components(path).len() && (forall|
            i: int,
        |
            0 <= i < components(base).len() ==> #[trigger] components(base)[i] == components(
                path,
            )[i]),
{
    let whole = components(path);
    let first = components(base);
    if first.len() <= whole.len() && (forall|i: int|
        0 <= i < first.len() ==> #[trigger] first[i] == whole[i]) {
        assert(whole.take(first.len() as int) =~= first);
    }
    if starts_with(path, base) {
        assert forall|i: int| 0 <= i < first.len() implies #[trigger] first[i] == whole[i] by {
            assert(whole.take(first.len() as int)[i] == whole[i]);
        }
    }
}

/// What is joined to a base keeps both as they are, with one separator between
/// them where the base does not end with one; an absolute path takes the place of
/// the base.
pub proof fn law_join_keeps_both_parts(base: Seq<u8>, rel: Seq<u8>)
    ensures
        rel.len() > 0 && rel[0] == 0x2f ==> joined(base, rel) == rel,
        rel.len() == 0 || rel[0] != 0x2f ==> {
            let path = joined(base, rel);
            let between = path.len() - base.len() - rel.len();
            &&& base.is_prefix_of(path)
            &&& path.skip(path.len() - rel.len()) == rel
            &&& between == 0 || (between == 1 && path[base.len() as int] == 0x2f)
            &&& between == 1 <==> base.len() > 0 && base.last() != 0x2f
        },
{
    let path = joined(base, rel);
    if rel.len() == 0 || rel[0] != 0x2f {
        assert(path.take(base.len() as int) =~= base);
        assert(path.skip(path.len() - rel.len()) =~= rel);
    }
}

/// What is joined to a base stands under it.
pub proof fn law_join_stays_under_base(base: Seq<u8>, rel: Seq<u8>)
    requires
        path_head(rel).len() == 0,
    ensures
        starts_with(joined(base, rel), base),
{
    law_join_appends_components(base, rel);
    assert((components(base) + components(rel)).take(components(base).len() as int)
        =~= components(base));
}

pub(crate) proof fn lemma_unsplit(s: Seq<u8>, sep: u8)
    requires
        !s.contains(sep),
    ensures
        split(s, sep) == seq![s],
    decreases s.len(),
{
    if s.len() > 0 {
        let front = s.drop_last();
        assert forall|i: int| 0 <= i < front.len() implies front[i] != sep by {
            assert(s.contains(s[i]));
        }
        lemma_unsplit(front, sep);
        assert(s.contains(s.last()));
        assert(split(s, sep) =~= seq![s]) by {
            assert(front.push(s.last()) =~= s);
        }
    } else {
        assert(s =~= Seq::empty());
        assert(split(s, sep) =~= seq![s]);
    }
}

pub(crate) proof fn lemma_single_name(name: Seq<u8>)
    requires
        name.len() > 1,
        forall|i: int| 0 <= i < name.len() ==> name[i] != 0x2f,
    ensures
        path_head(name).len() == 0,
        path_names(name) == seq![name],
        components(name) == seq![name],
{
    let pred = |piece: Seq<u8>| is_name(piece);
    lemma_unsplit(name, 0x2f);
    assert(seq![0x2eu8].len() == 1);
    reveal(Seq::filter);
    let one = seq![name];
    assert(one.drop_last() =~= Seq::empty());
    assert(pred(one.last()));
    assert(one.filter(pred) =~= one);
    assert(components(name) =~= seq![name]);
}

/// Where the programs of the search path `search_path` named `tool` would
/// stand, in the order of the path; none without a search path.
pub open spec fn program_candidates(search_path: Option<Seq<u8>>, tool: Seq<u8>) -> Seq<Seq<u8>> {
    match search_path {
        Some(dirs) => split(dirs, 0x3a).map_values(|dir: Seq<u8>| joined(dir, tool)),
        None => Seq::empty(),
    }
}

/// The files that a lookup of `tool` in the colon-separated `search_path` looks
/// at, in order.
pub fn which_candidates(search_path: Option<&[u8]>, tool: &str) -> (candidates: Vec<Vec<u8>>)
    ensures
        views(candidates@) == program_candidates(
            match search_path {
                Some(p) => Some(p@),
                None => None,
            },
            encode_utf8(tool@),
        ),
{
    let mut candidates: Vec<Vec<u8>> = Vec::new();
    match search_path {
        Some(p) => {
            let dirs = split_bytes(p, 0x3a);
            let mut i: usize = 0;
            while i < dirs.len()
                invariant
                    i <= dirs@.len(),
                    views(dirs@) == split(p@, 0x3a),
                    candidates@.len() == i,
                    forall|j: int|
                        0 <= j < i ==> (#[trigger] candidates@[j])@ == joined(
                            views(dirs@)[j],
                            encode_utf8(tool@),
                        ),
                decreases dirs@.len() - i,
            {
                candidates.push(path_join(dirs[i].as_slice(), tool.as_bytes()));
                i = i + 1;
            }
            proof {
                assert(views(candidates@) =~= program_candidates(Some(p@), encode_utf8(tool@)));
            }
        },
        None => {
            proof {
                assert(views(candidates@) =~= Seq::empty());
            }
        },
    }
    candidates
}

/// The first of `candidates` that is a file, where `is_file` says so of each.
/// A candidate of which nothing is said is none.
pub fn which(candidates: Vec<Vec<u8>>, is_file: &Vec<bool>) -> (found: Option<Vec<u8>>)
    ensures
        found is None <==> (forall|i: int|
            0 <= i < candidates@.len() && i < is_file@.len() ==> !(#[trigger] is_file@[i])),
        found matches Some(p) ==> exists|k: int|
            {
                &&& 0 <= k < candidates@.len()
                &&& k < is_file@.len()
                &&& #[trigger] is_file@[k]
                &&& forall|i: int| 0 <= i < k ==> !(#[trigger] is_file@[i])
                &&& p == candidates@[k]
            },
{
    let mut rest = candidates;
    let mut i: usize = 0;
    while i < rest.len() && i < is_file.len()
        invariant
            rest@ == candidates@,
            i <= candidates@.len(),
            i <= is_file@.len(),
            forall|j: int| 0 <= j < i ==> !(#[trigger] is_file@[j]),
        decreases candidates@.len() - i,
    {
        if is_file[i] {
            return Some(rest.swap_remove(i));
        }
        i = i + 1;
    }
    None
}

proof fn lemma_rejoined_splits(pieces: Seq<Seq<u8>>, sep: u8)
    requires
        pieces.len() > 0,
        forall|i: int| 0 <= i < pieces.len() ==> !(#[trigger] pieces[i]).contains(sep),
    ensures
        split(rejoined(pieces, sep), sep) == pieces,
    decreases pieces.len(),
{
    if pieces.len() == 1 {
        lemma_unsplit(pieces[0], sep);
        assert(seq![pieces[0]] =~= pieces);
    } else {
        let front = pieces.drop_last();
        assert forall|i: int| 0 <= i < front.len() implies !(#[trigger] front[i]).contains(sep) by {
            assert(front[i] == pieces[i]);
        }
        lemma_rejoined_splits(front, sep);
        assert(!pieces[pieces.len() - 1].contains(sep));
        lemma_split_concat(rejoined(front, sep), pieces.last(), sep);
        lemma_unsplit(pieces.last(), sep);
        assert(front + seq![pieces.last()] =~= pieces);
    }
}

/// A program is looked for in every directory of the search path, in the order of
/// the path and nowhere else: in each there is one place where it would stand. An
/// empty directory counts, and without a search path there is nowhere to look.
pub proof fn law_every_directory_is_searched(dirs: Seq<Seq<u8>>, tool: Seq<u8>)
    requires
        dirs.len() > 0,
        forall|i: int| 0 <= i < dirs.len() ==> !(#[trigger] dirs[i]).contains(0x3a),
    ensures
        ({
            let places = program_candidates(Some(rejoined(dirs, 0x3a)), tool);
            &&& places.len() == dirs.len()
            &&& forall|i: int|
                0 <= i < dirs.len() ==> #[trigger] places[i] == joined(dirs[i], tool)
        }),
        program_candidates(None, tool).len() == 0,
{
    lemma_rejoined_splits(dirs, 0x3a);
}

/// The contents of lists and of optional paths are those of the values that they
/// hold, one for one.
pub proof fn law_views_keep_the_bytes(items: Seq<Vec<u8>>)
    ensures
        views(items).len() == items.len(),
        forall|i: int| 0 <= i < items.len() ==> #[trigger] views(items)[i] == items[i]@,
        forall|p: Vec<u8>| #[trigger] option_path(Some(p)) == Some(p@),
        forall|p: &[u8]| #[trigger] option_bytes(Some(p)) == Some(p@),
        option_path(None) is None,
        option_bytes(None) is None,
{
}

} // verus!
