//! `/`-separated paths, as the server reads them on Unix: joining a path
//! onto a base, splitting a path into its components, and testing whether
//! one path lies under another. A component is stated by its text: `/` for
//! the root, `.` for a leading current-directory marker, `..` for a parent
//! step, and the name itself otherwise.

use vstd::prelude::*;
use crate::text::str_equal;

verus! {

/// The pieces of `s` between separators, empty pieces included.
pub open spec fn split_slash(s: Seq<char>) -> Seq<Seq<char>>
    decreases s.len(),
{
    if s.len() == 0 {
        seq![Seq::<char>::empty()]
    } else {
        let r = split_slash(s.drop_last());
        if s.last() == '/' {
            r.push(Seq::<char>::empty())
        } else {
            r.update(r.len() - 1, r.last().push(s.last()))
        }
    }
}

/// Whether a piece between separators carries no component (empty or `.`).
pub open spec fn is_skipped_piece(g: Seq<char>) -> bool {
    g.len() == 0 || g == seq!['.']
}

/// The components named by a list of pieces: empty pieces and `.` drop out.
pub open spec fn body_parts(segs: Seq<Seq<char>>) -> Seq<Seq<char>>
    decreases segs.len(),
{
    if segs.len() == 0 {
        Seq::<Seq<char>>::empty()
    } else {
        let r = body_parts(segs.drop_last());
        if is_skipped_piece(segs.last()) {
            r
        } else {
            r.push(segs.last())
        }
    }
}

/// Whether the path begins at the root.
pub open spec fn is_absolute(p: Seq<char>) -> bool {
    p.len() > 0 && p[0] == '/'
}

/// Whether a relative path opens with a `.` component.
pub open spec fn starts_with_cur_dir(p: Seq<char>) -> bool {
    p.len() > 0 && p[0] == '.' && (p.len() == 1 || p[1] == '/')
}

/// The components of a path, each given by its text.
pub open spec fn path_components(p: Seq<char>) -> Seq<Seq<char>> {
    let body = body_parts(split_slash(p));
    if is_absolute(p) {
        seq![seq!['/']] + body
    } else if starts_with_cur_dir(p) {
        seq![seq!['.']] + body
    } else {
        body
    }
}

/// The text of a parent-directory component.
pub open spec fn parent_dir_text() -> Seq<char> {
    seq!['.', '.']
}

/// Whether a path holds a parent-directory (`..`) component.
pub open spec fn has_parent_component(p: Seq<char>) -> bool {
    path_components(p).contains(parent_dir_text())
}

/// Whether `p` lies under `base`: the components of `base` open those of `p`.
pub open spec fn path_starts_with(p: Seq<char>, base: Seq<char>) -> bool {
    path_components(base).is_prefix_of(path_components(p))
}

/// `rel` adjoined to `base`: an absolute `rel` replaces `base`; otherwise a
/// separator is put between them unless `base` is empty or already ends in one.
pub open spec fn path_join(base: Seq<char>, rel: Seq<char>) -> Seq<char> {
    if is_absolute(rel) || base.len() == 0 {
        rel
    } else if base.last() == '/' {
        base + rel
    } else {
        base.push('/') + rel
    }
}

proof fn lemma_split_nonempty(s: Seq<char>)
    ensures
        split_slash(s).len() >= 1,
    decreases s.len(),
{
    if s.len() > 0 {
        lemma_split_nonempty(s.drop_last());
    }
}

/// Adjoins `rel` to `base`.
pub fn join_path(base: &str, rel: &str) -> (r: String)
    ensures
        r@ == path_join(base@, rel@),
{
    let rel_len = rel.unicode_len();
    let base_len = base.unicode_len();
    if (rel_len > 0 && rel.get_char(0) == '/') || base_len == 0 {
        return rel.to_owned();
    }
    let mut out = base.to_owned();
    if base.get_char(base_len - 1) != '/' {
        out.append("/");
        proof {
            reveal_strlit("/");
            assert(base@ + "/"@ =~= base@.push('/'));
        }
    }
    out.append(rel);
    out
}

/// The texts of a vector of strings.
pub open spec fn texts(v: Seq<String>) -> Seq<Seq<char>> {
    v.map_values(|x: String| x@)
}

/// The components of `p`, each as its text.
pub fn components(p: &str) -> (r: Vec<String>)
    ensures
        texts(r@) == path_components(p@),
{
    let n = p.unicode_len();
    let mut out: Vec<String> = Vec::new();
    let mut start: usize = 0;
    let mut i: usize = 0;
    proof {
        assert(p@.subrange(0, 0) =~= Seq::<char>::empty());
        assert(texts(out@) =~= body_parts(split_slash(p@.subrange(0, 0)).drop_last()));
    }
    while i < n
        invariant
            n == p@.len(),
            start <= i <= n,
            split_slash(p@.subrange(0, i as int)).len() >= 1,
            split_slash(p@.subrange(0, i as int)).last() =~= p@.subrange(start as int, i as int),
            texts(out@) == body_parts(split_slash(p@.subrange(0, i as int)).drop_last()),
        decreases n - i,
    {
        let c = p.get_char(i);
        let ghost pre = p@.subrange(0, i as int);
        let ghost post = p@.subrange(0, i + 1);
        proof {
            assert(post.drop_last() =~= pre);
            assert(post.last() == c);
            lemma_split_nonempty(pre);
        }
        if c == '/' {
            let piece = p.substring_char(start, i);
            let ghost segs = split_slash(pre);
            proof {
                assert(split_slash(post) == segs.push(Seq::<char>::empty()));
                assert(split_slash(post).drop_last() =~= segs);
                assert(segs =~= segs.drop_last().push(segs.last()));
            }
            let skip = piece.unicode_len() == 0 || (piece.unicode_len() == 1 && piece.get_char(0) == '.');
            proof {
                if piece@.len() == 1 && piece@[0] == '.' {
                    assert(piece@ =~= seq!['.']);
                }
            }
            if !skip {
                let ghost old_out = out@;
                out.push(piece.to_owned());
                proof {
                    assert(texts(out@) =~= texts(old_out).push(piece@));
                }
            }
            start = i + 1;
            proof {
                assert(p@.subrange(start as int, i + 1) =~= Seq::<char>::empty());
            }
        } else {
            proof {
                let segs = split_slash(pre);
                assert(split_slash(post) == segs.update(segs.len() - 1, segs.last().push(c)));
                assert(split_slash(post).drop_last() =~= segs.drop_last());
                assert(p@.subrange(start as int, i + 1) =~= p@.subrange(start as int, i as int).push(c));
            }
        }
        i = i + 1;
    }
    // the last piece
    let piece = p.substring_char(start, n);
    proof {
        assert(p@.subrange(0, n as int) =~= p@);
        lemma_split_nonempty(p@);
        let segs = split_slash(p@);
        assert(segs =~= segs.drop_last().push(segs.last()));
        if piece@.len() == 1 && piece@[0] == '.' {
            assert(piece@ =~= seq!['.']);
        }
    }
    let skip = piece.unicode_len() == 0 || (piece.unicode_len() == 1 && piece.get_char(0) == '.');
    if !skip {
        let ghost old_out = out@;
        out.push(piece.to_owned());
        proof {
            assert(texts(out@) =~= texts(old_out).push(piece@));
        }
    }
    let ghost body = texts(out@);
    // the leading marker
    if n > 0 && p.get_char(0) == '/' {
        let mut full: Vec<String> = Vec::new();
        let ghost old_out = out@;
        let marker = "/".to_owned();
        let ghost mv = marker;
        full.push(marker);
        full.append(&mut out);
        proof {
            reveal_strlit("/");
            assert(full@ =~= seq![mv] + old_out);
            assert(mv@ =~= seq!['/']);
            assert(texts(full@) =~= seq![seq!['/']] + body);
        }
        full
    } else if n > 0 && p.get_char(0) == '.' && (n == 1 || p.get_char(1) == '/') {
        let mut full: Vec<String> = Vec::new();
        let ghost old_out = out@;
        let marker = ".".to_owned();
        let ghost mv = marker;
        full.push(marker);
        full.append(&mut out);
        proof {
            reveal_strlit(".");
            assert(full@ =~= seq![mv] + old_out);
            assert(mv@ =~= seq!['.']);
            assert(texts(full@) =~= seq![seq!['.']] + body);
        }
        full
    } else {
        out
    }
}

/// Whether `p` holds a `..` component.
pub fn has_parent_dir(p: &str) -> (r: bool)
    ensures
        r == has_parent_component(p@),
{
    let parts = components(p);
    let ghost want = parent_dir_text();
    let dots = "..";
    proof {
        reveal_strlit("..");
        assert(dots@ =~= want);
    }
    let mut i: usize = 0;
    while i < parts.len()
        invariant
            want == parent_dir_text(),
            dots@ == want,
            i <= parts@.len(),
            texts(parts@) == path_components(p@),
            forall|j: int| 0 <= j < i ==> texts(parts@)[j] != want,
        decreases parts@.len() - i,
    {
        let part = parts[i].as_str();
        if str_equal(part, dots) {
            assert(texts(parts@)[i as int] == want);
            assert(path_components(p@)[i as int] == want);
            return true;
        }
        i = i + 1;
    }
    assert forall|j: int| 0 <= j < path_components(p@).len() implies path_components(p@)[j] != want by {
        assert(texts(parts@)[j] != want);
    }
    false
}

/// Whether `p` lies under `base`, component by component.
pub fn starts_with_path(p: &str, base: &str) -> (r: bool)
    ensures
        r == path_starts_with(p@, base@),
{
    let pc = components(p);
    let bc = components(base);
    if bc.len() > pc.len() {
        return false;
    }
    let mut i: usize = 0;
    while i < bc.len()
        invariant
            i <= bc@.len(),
            bc@.len() <= pc@.len(),
            texts(pc@) == path_components(p@),
            texts(bc@) == path_components(base@),
            forall|j: int| 0 <= j < i ==> texts(bc@)[j] == texts(pc@)[j],
        decreases bc@.len() - i,
    {
        if bc[i] != pc[i] {
            assert(texts(bc@)[i as int] != texts(pc@)[i as int]);
            return false;
        }
        i = i + 1;
    }
    assert(texts(bc@) =~= texts(pc@).subrange(0, bc@.len() as int));
    true
}

proof fn lemma_split_concat_sep(a: Seq<char>, b: Seq<char>)
    ensures
        split_slash(a.push('/') + b) == split_slash(a) + split_slash(b),
    decreases b.len(),
{
    let x = a.push('/') + b;
    if b.len() == 0 {
        assert(x =~= a.push('/'));
        assert(x.drop_last() =~= a);
        assert(split_slash(a).push(Seq::<char>::empty()) =~= split_slash(a) + split_slash(b));
    } else {
        let bp = b.drop_last();
        lemma_split_concat_sep(a, bp);
        lemma_split_nonempty(bp);
        assert(x.drop_last() =~= a.push('/') + bp);
        assert(x.last() == b.last());
        let sa = split_slash(a);
        let sb = split_slash(bp);
        if b.last() == '/' {
            assert((sa + sb).push(Seq::<char>::empty()) =~= sa + sb.push(Seq::<char>::empty()));
        } else {
            assert((sa + sb).update((sa + sb).len() - 1, (sa + sb).last().push(b.last()))
                =~= sa + sb.update(sb.len() - 1, sb.last().push(b.last())));
        }
    }
}

proof fn lemma_body_concat(x: Seq<Seq<char>>, y: Seq<Seq<char>>)
    ensures
        body_parts(x + y) == body_parts(x) + body_parts(y),
    decreases y.len(),
{
    if y.len() == 0 {
        assert(x + y =~= x);
        assert(body_parts(x) + body_parts(y) =~= body_parts(x));
    } else {
        lemma_body_concat(x, y.drop_last());
        assert((x + y).drop_last() =~= x + y.drop_last());
        assert((x + y).last() == y.last());
        if !is_skipped_piece(y.last()) {
            assert((body_parts(x) + body_parts(y.drop_last())).push(y.last())
                =~= body_parts(x) + body_parts(y.drop_last()).push(y.last()));
        }
    }
}

/// The components of a relative path joined onto a non-empty base are the
/// components of the base followed by the named pieces of the relative path.
proof fn lemma_components_join(base: Seq<char>, rel: Seq<char>)
    requires
        base.len() > 0,
        !is_absolute(rel),
    ensures
        path_components(path_join(base, rel)) == path_components(base) + body_parts(split_slash(rel)),
{
    let j = path_join(base, rel);
    let br = body_parts(split_slash(rel));
    if base.last() == '/' {
        let d = base.drop_last();
        assert(base =~= d.push('/'));
        assert(j =~= d.push('/') + rel);
        lemma_split_concat_sep(d, rel);
        lemma_body_concat(split_slash(d), split_slash(rel));
        assert(base.drop_last() =~= d);
        assert(split_slash(base) == split_slash(d).push(Seq::<char>::empty()));
        assert(split_slash(base).drop_last() =~= split_slash(d));
        assert(body_parts(split_slash(base)) == body_parts(split_slash(d)));
    } else {
        assert(j =~= base.push('/') + rel);
        lemma_split_concat_sep(base, rel);
        lemma_body_concat(split_slash(base), split_slash(rel));
    }
    let bb = body_parts(split_slash(base));
    assert(body_parts(split_slash(j)) == bb + br);
    assert(j[0] == base[0]);
    if base.len() == 1 {
        if base.last() != '/' {
            assert(j[1] == '/');
        }
    } else {
        assert(j[1] == base[1]);
    }
    assert(is_absolute(j) == is_absolute(base));
    assert(starts_with_cur_dir(j) == starts_with_cur_dir(base));
    if is_absolute(base) {
        assert(seq![seq!['/']] + (bb + br) =~= (seq![seq!['/']] + bb) + br);
    } else if starts_with_cur_dir(base) {
        assert(seq![seq!['.']] + (bb + br) =~= (seq![seq!['.']] + bb) + br);
    }
}

/// A relative path joined onto a non-empty base lies under that base, and
/// the components it adds past the base are those the relative path names.
pub proof fn law_join_stays_under_base(base: Seq<char>, rel: Seq<char>)
    requires
        base.len() > 0,
        !is_absolute(rel),
    ensures
        path_starts_with(path_join(base, rel), base),
        path_components(path_join(base, rel)).subrange(
            path_components(base).len() as int,
            path_components(path_join(base, rel)).len() as int,
        ) == body_parts(split_slash(rel)),
        body_parts(split_slash(rel)).contains(parent_dir_text()) <==> has_parent_component(rel),
        has_parent_component(path_join(base, rel)) <==> (has_parent_component(base) || has_parent_component(rel)),
{
    lemma_components_join(base, rel);
    let cb = path_components(base);
    let br = body_parts(split_slash(rel));
    let cj = path_components(path_join(base, rel));
    assert(cj.subrange(0, cb.len() as int) =~= cb);
    assert(cj.subrange(cb.len() as int, cj.len() as int) =~= br);
    let dd = parent_dir_text();
    let cr = path_components(rel);
    // the components of `rel` are its named pieces behind at most a `.` marker
    assert(br.contains(dd) <==> cr.contains(dd)) by {
        if br.contains(dd) {
            let k = choose|k: int| 0 <= k < br.len() && br[k] == dd;
            if starts_with_cur_dir(rel) {
                assert(cr[k + 1] == dd);
            } else {
                assert(cr[k] == dd);
            }
        }
        if cr.contains(dd) {
            let k = choose|k: int| 0 <= k < cr.len() && cr[k] == dd;
            if starts_with_cur_dir(rel) {
                assert(cr[0] =~= seq!['.']);
                assert(cr[0].len() != dd.len());
                assert(k != 0);
                assert(br[k - 1] == dd);
            } else {
                assert(br[k] == dd);
            }
        }
    }
    assert(cj.contains(dd) <==> (cb.contains(dd) || br.contains(dd))) by {
        if cj.contains(dd) {
            let k = choose|k: int| 0 <= k < cj.len() && cj[k] == dd;
            if k < cb.len() {
                assert(cb[k] == dd);
            } else {
                assert(br[k - cb.len()] == dd);
            }
        }
        if cb.contains(dd) {
            let k = choose|k: int| 0 <= k < cb.len() && cb[k] == dd;
            assert(cj[k] == dd);
        }
        if br.contains(dd) {
            let k = choose|k: int| 0 <= k < br.len() && br[k] == dd;
            assert(cj[k + cb.len()] == dd);
        }
    }
}

/// An absolute path joined onto any base is itself; a relative path joined
/// onto a base keeps the base in front and itself at the end, with at most
/// one separator put between them.
pub proof fn law_join_shape(base: Seq<char>, rel: Seq<char>)
    ensures
        (rel.len() > 0 && rel[0] == '/') ==> path_join(base, rel) == rel,
        !(rel.len() > 0 && rel[0] == '/') ==> {
            let j = path_join(base, rel);
            &&& base.is_prefix_of(j)
            &&& rel.is_suffix_of(j)
            &&& base.len() + rel.len() <= j.len() <= base.len() + rel.len() + 1
            &&& (j.len() == base.len() + rel.len() + 1 ==> j[base.len() as int] == '/')
        },
{
    let j = path_join(base, rel);
    if !(rel.len() > 0 && rel[0] == '/') {
        if base.len() == 0 {
            assert(j.subrange(0, 0) =~= base);
            assert(j.subrange(0, j.len() as int) =~= rel);
        } else if base.last() == '/' {
            assert(j.subrange(0, base.len() as int) =~= base);
            assert(j.subrange(j.len() - rel.len(), j.len() as int) =~= rel);
        } else {
            assert(j.subrange(0, base.len() as int) =~= base);
            assert(j.subrange(j.len() - rel.len(), j.len() as int) =~= rel);
        }
    }
}

/// The pieces rejoined with a separator between each two.
pub open spec fn join_with_slash(segs: Seq<Seq<char>>) -> Seq<char>
    decreases segs.len(),
{
    if segs.len() == 0 {
        Seq::<char>::empty()
    } else if segs.len() == 1 {
        segs[0]
    } else {
        join_with_slash(segs.drop_last()).push('/') + segs.last()
    }
}

/// A path splits into at least one piece; no piece holds a separator; and
/// the pieces, rejoined with separators, give back the path. These three
/// facts fix the pieces of every path.
pub proof fn law_split_slash_pieces(s: Seq<char>)
    ensures
        split_slash(s).len() >= 1,
        forall|k: int, j: int|
            0 <= k < split_slash(s).len() && 0 <= j < split_slash(s)[k].len()
                ==> #[trigger] split_slash(s)[k][j] != '/',
        join_with_slash(split_slash(s)) == s,
    decreases s.len(),
{
    if s.len() > 0 {
        let sp = s.drop_last();
        law_split_slash_pieces(sp);
        let r = split_slash(sp);
        let c = s.last();
        assert(sp.push(c) =~= s);
        if c == '/' {
            let n = r.push(Seq::<char>::empty());
            assert(n.drop_last() =~= r);
            assert(join_with_slash(n) =~= join_with_slash(r).push('/') + Seq::<char>::empty());
        } else {
            let n = r.update(r.len() - 1, r.last().push(c));
            assert forall|k: int, j: int| 0 <= k < n.len() && 0 <= j < n[k].len() implies #[trigger] n[k][j] != '/' by {
                if k == r.len() - 1 && j == n[k].len() - 1 {
                } else {
                    assert(n[k][j] == r[k][j]);
                }
            }
            if r.len() == 1 {
                assert(join_with_slash(n) == n[0]);
                assert(n[0] =~= r[0].push(c));
            } else {
                assert(n.drop_last() =~= r.drop_last());
                let x = join_with_slash(r.drop_last()).push('/');
                assert(join_with_slash(r) == x + r.last());
                assert(x + r.last().push(c) =~= (x + r.last()).push(c));
            }
        }
    }
}

/// A named piece of a path stays among its components exactly when it is
/// not empty and not `.`.
proof fn lemma_body_contains(segs: Seq<Seq<char>>, x: Seq<char>)
    ensures
        body_parts(segs).contains(x) <==> (segs.contains(x) && !(x.len() == 0 || x == seq!['.'])),
    decreases segs.len(),
{
    if segs.len() > 0 {
        let d = segs.drop_last();
        lemma_body_contains(d, x);
        let bd = body_parts(d);
        if segs.contains(x) {
            let k = choose|k: int| 0 <= k < segs.len() && segs[k] == x;
            if k < segs.len() - 1 {
                assert(d[k] == x);
            }
        }
        if d.contains(x) {
            let k = choose|k: int| 0 <= k < d.len() && d[k] == x;
            assert(segs[k] == x);
        }
        if !is_skipped_piece(segs.last()) {
            let b = bd.push(segs.last());
            if b.contains(x) {
                let k = choose|k: int| 0 <= k < b.len() && b[k] == x;
                if k < bd.len() {
                    assert(bd[k] == x);
                }
            }
            if bd.contains(x) {
                let k = choose|k: int| 0 <= k < bd.len() && bd[k] == x;
                assert(b[k] == x);
            }
            assert(b[bd.len() as int] == segs.last());
        }
    }
}

proof fn lemma_body_is_filter(segs: Seq<Seq<char>>)
    ensures
        body_parts(segs) == segs.filter(|g: Seq<char>| !(g.len() == 0 || g == seq!['.'])),
    decreases segs.len(),
{
    reveal(Seq::filter);
    if segs.len() > 0 {
        lemma_body_is_filter(segs.drop_last());
    }
}

/// The components of a path are its root (`/`) or leading `.` marker, if
/// any, followed by its pieces between separators in order, leaving out the
/// empty pieces and the `.` pieces; every other piece appears unchanged.
pub proof fn law_components_are_named_pieces(p: Seq<char>)
    ensures
        path_components(p) == (if p.len() > 0 && p[0] == '/' {
            seq![seq!['/']]
        } else if p.len() > 0 && p[0] == '.' && (p.len() == 1 || p[1] == '/') {
            seq![seq!['.']]
        } else {
            Seq::<Seq<char>>::empty()
        }) + split_slash(p).filter(|g: Seq<char>| !(g.len() == 0 || g == seq!['.'])),
{
    lemma_body_is_filter(split_slash(p));
    let b = body_parts(split_slash(p));
    if !(p.len() > 0 && p[0] == '/') && !(p.len() > 0 && p[0] == '.' && (p.len() == 1 || p[1] == '/')) {
        assert(Seq::<Seq<char>>::empty() + b =~= b);
    }
}

/// A path has a parent step exactly when one of its pieces between
/// separators is `..`.
pub proof fn law_parent_step_is_a_piece(p: Seq<char>)
    ensures
        has_parent_component(p) <==> split_slash(p).contains(seq!['.', '.']),
{
    let dd = seq!['.', '.'];
    let b = body_parts(split_slash(p));
    let c = path_components(p);
    lemma_body_contains(split_slash(p), dd);
    assert(dd.len() == 2);
    assert(dd != seq!['.']) by {
        assert(seq!['.'].len() == 1);
    }
    if is_absolute(p) || starts_with_cur_dir(p) {
        assert(c[0].len() == 1);
        if c.contains(dd) {
            let k = choose|k: int| 0 <= k < c.len() && c[k] == dd;
            assert(k != 0);
            assert(b[k - 1] == dd);
        }
        if b.contains(dd) {
            let k = choose|k: int| 0 <= k < b.len() && b[k] == dd;
            assert(c[k + 1] == dd);
        }
    }
}

} // verus!
