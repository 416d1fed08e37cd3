use vstd::prelude::*;
use vstd::string::*;
use crate::text::{join_strings, join_with, views};

verus! {

/// A directory path written so that it ends in a separator.
pub open spec fn dir_form(root: Seq<char>) -> Seq<char> {
    if root.len() > 0 && root.last() == '/' {
        root
    } else {
        root.push('/')
    }
}

/// Whether a path starts at the file-system root.
pub open spec fn is_absolute(path: Seq<char>) -> bool {
    path.len() > 0 && path[0] == '/'
}

/// `path` placed under `root`: an absolute `path` stands for itself, and an
/// empty `root` adds nothing.
pub open spec fn joined(root: Seq<char>, path: Seq<char>) -> Seq<char> {
    if is_absolute(path) || root.len() == 0 {
        path
    } else {
        dir_form(root) + path
    }
}

/// The pieces of `s` between separators, empty pieces included.
pub open spec fn pieces(s: Seq<char>) -> Seq<Seq<char>>
    decreases s.len(),
{
    if s.len() == 0 {
        seq![Seq::empty()]
    } else {
        let prev = pieces(s.drop_last());
        if s.last() == '/' {
            prev.push(Seq::empty())
        } else {
            prev.update(prev.len() - 1, prev.last().push(s.last()))
        }
    }
}

/// Whether a piece names a component: it is neither empty nor `.`.
pub open spec fn is_component(p: Seq<char>) -> bool {
    p.len() > 0 && p != seq!['.']
}

/// The pieces that name components, in order.
pub open spec fn keep(ps: Seq<Seq<char>>) -> Seq<Seq<char>>
    decreases ps.len(),
{
    if ps.len() == 0 {
        Seq::empty()
    } else if is_component(ps.last()) {
        keep(ps.drop_last()).push(ps.last())
    } else {
        keep(ps.drop_last())
    }
}

/// The components of a path: repeated separators and `.` pieces do not count.
pub open spec fn components(s: Seq<char>) -> Seq<Seq<char>> {
    keep(pieces(s))
}

/// Whether `path` lies lexically under `root`, `root` itself included: both
/// are absolute or both relative, and the components of `root` begin those of
/// `path`.
pub open spec fn is_under(root: Seq<char>, path: Seq<char>) -> bool {
    is_absolute(root) == is_absolute(path) && components(root).is_prefix_of(components(path))
}

/// The components of `path` after those of `root`, joined by separators.
pub open spec fn relative_to(root: Seq<char>, path: Seq<char>) -> Seq<char> {
    join_with(components(path).skip(components(root).len() as int), seq!['/'])
}

/// Whether no piece of a list holds a separator.
pub open spec fn no_separators(ps: Seq<Seq<char>>) -> bool {
    forall|i: int, j: int| 0 <= i < ps.len() && 0 <= j < ps[i].len() ==> ps[i][j] != '/'
}

/// Whether every piece of a list is a component without a separator.
pub open spec fn all_components(ps: Seq<Seq<char>>) -> bool {
    no_separators(ps) && forall|i: int| 0 <= i < ps.len() ==> is_component(#[trigger] ps[i])
}

pub proof fn lemma_pieces_nonempty(s: Seq<char>)
    ensures
        pieces(s).len() >= 1,
    decreases s.len(),
{
    if s.len() > 0 {
        lemma_pieces_nonempty(s.drop_last());
    }
}

pub proof fn lemma_pieces_no_separators(s: Seq<char>)
    ensures
        no_separators(pieces(s)),
    decreases s.len(),
{
    if s.len() > 0 {
        lemma_pieces_nonempty(s.drop_last());
        lemma_pieces_no_separators(s.drop_last());
        let prev = pieces(s.drop_last());
        if s.last() != '/' {
            let q = pieces(s);
            assert forall|i: int, j: int| 0 <= i < q.len() && 0 <= j < q[i].len() implies q[i][j]
                != '/' by {
                if i == prev.len() - 1 && j == prev.last().len() {
                } else {
                    assert(q[i][j] == prev[i][j]);
                }
            }
        } else {
            let q = pieces(s);
            assert forall|i: int, j: int| 0 <= i < q.len() && 0 <= j < q[i].len() implies q[i][j]
                != '/' by {
                assert(i < prev.len());
                assert(q[i] == prev[i]);
            }
        }
    }
}

pub proof fn lemma_keep_components(ps: Seq<Seq<char>>)
    requires
        no_separators(ps),
    ensures
        all_components(keep(ps)),
        keep(ps).len() <= ps.len(),
    decreases ps.len(),
{
    if ps.len() > 0 {
        let d = ps.drop_last();
        assert forall|i: int, j: int| 0 <= i < d.len() && 0 <= j < d[i].len() implies d[i][j]
            != '/' by {
            assert(d[i] == ps[i]);
        }
        lemma_keep_components(d);
        let k = keep(ps);
        if is_component(ps.last()) {
            assert forall|i: int, j: int| 0 <= i < k.len() && 0 <= j < k[i].len() implies k[i][j]
                != '/' by {
                if i == k.len() - 1 {
                    assert(k[i] == ps[ps.len() - 1]);
                } else {
                    assert(k[i] == keep(d)[i]);
                }
            }
            assert forall|i: int| 0 <= i < k.len() implies is_component(#[trigger] k[i]) by {
                if i < k.len() - 1 {
                    assert(k[i] == keep(d)[i]);
                }
            }
        }
    }
}

/// The components of a path are components without separators.
pub proof fn lemma_components_wf(s: Seq<char>)
    ensures
        all_components(components(s)),
{
    lemma_pieces_no_separators(s);
    lemma_keep_components(pieces(s));
}

/// Joined components start with the first one's first character.
pub proof fn lemma_join_first(parts: Seq<Seq<char>>)
    requires
        parts.len() > 0,
        parts[0].len() > 0,
    ensures
        join_with(parts, seq!['/']).len() > 0,
        join_with(parts, seq!['/'])[0] == parts[0][0],
    decreases parts.len(),
{
    if parts.len() > 1 {
        lemma_join_first(parts.drop_last());
    }
}

/// Components joined by separators form a relative path.
pub proof fn lemma_join_relative(parts: Seq<Seq<char>>)
    requires
        all_components(parts),
    ensures
        !is_absolute(join_with(parts, seq!['/'])),
{
    if parts.len() > 0 {
        assert(is_component(parts[0]));
        lemma_join_first(parts);
        assert(parts[0][0] != '/');
    }
}

proof fn lemma_skip_components(parts: Seq<Seq<char>>, k: int)
    requires
        all_components(parts),
        0 <= k <= parts.len(),
    ensures
        all_components(parts.skip(k)),
{
    let q = parts.skip(k);
    assert forall|i: int| 0 <= i < q.len() implies is_component(#[trigger] q[i]) by {
        assert(q[i] == parts[i + k]);
    }
    assert forall|i: int, j: int| 0 <= i < q.len() && 0 <= j < q[i].len() implies q[i][j]
        != '/' by {
        assert(q[i] == parts[i + k]);
    }
}

/// What is left after a root is a relative path.
pub proof fn lemma_relative_to_relative(root: Seq<char>, path: Seq<char>)
    requires
        is_under(root, path),
    ensures
        !is_absolute(relative_to(root, path)),
{
    lemma_components_wf(path);
    lemma_skip_components(components(path), components(root).len() as int);
    lemma_join_relative(components(path).skip(components(root).len() as int));
}

/// Places `path` under the directory `root`.
pub fn join_under_root(root: &str, path: &str) -> (r: String)
    ensures
        r@ == joined(root@, path@),
{
    let n = root.unicode_len();
    let m = path.unicode_len();
    if (m > 0 && path.get_char(0) == '/') || n == 0 {
        return String::from_str(path);
    }
    let mut out = String::from_str(root);
    if root.get_char(n - 1) != '/' {
        out.append("/");
        proof {
            reveal_strlit("/");
        }
    }
    out.append(path);
    out
}

proof fn lemma_pieces_append(x: Seq<char>, b: Seq<char>)
    requires
        pieces(x).last() == Seq::<char>::empty(),
    ensures
        pieces(x + b) == pieces(x).drop_last() + pieces(b),
    decreases b.len(),
{
    lemma_pieces_nonempty(x);
    if b.len() == 0 {
        assert(x + b =~= x);
        assert(pieces(x).drop_last() + pieces(b) =~= pieces(x));
    } else {
        let b0 = b.drop_last();
        lemma_pieces_append(x, b0);
        lemma_pieces_nonempty(b0);
        assert((x + b).drop_last() =~= x + b0);
        assert((x + b).last() == b.last());
        let lhs = pieces(x + b);
        let rhs = pieces(x).drop_last() + pieces(b);
        assert(lhs =~= rhs);
    }
}

proof fn lemma_keep_add(a: Seq<Seq<char>>, b: Seq<Seq<char>>)
    ensures
        keep(a + b) == keep(a) + keep(b),
    decreases b.len(),
{
    if b.len() == 0 {
        assert(a + b =~= a);
        assert(keep(a) + keep(b) =~= keep(a));
    } else {
        lemma_keep_add(a, b.drop_last());
        assert((a + b).drop_last() =~= a + b.drop_last());
        assert((a + b).last() == b.last());
        assert(keep(a + b) =~= keep(a) + keep(b));
    }
}

proof fn lemma_keep_one(p: Seq<char>)
    ensures
        keep(seq![p]) == (if is_component(p) {
            seq![p]
        } else {
            Seq::<Seq<char>>::empty()
        }),
{
    let one = seq![p];
    assert(one.drop_last() =~= Seq::<Seq<char>>::empty());
    assert(one.last() == p);
    assert(keep(Seq::<Seq<char>>::empty()) == Seq::<Seq<char>>::empty());
    if is_component(p) {
        assert(Seq::<Seq<char>>::empty().push(p) =~= one);
    }
}

proof fn lemma_pieces_single(s: Seq<char>)
    requires
        forall|i: int| 0 <= i < s.len() ==> s[i] != '/',
    ensures
        pieces(s) == seq![s],
    decreases s.len(),
{
    if s.len() > 0 {
        lemma_pieces_single(s.drop_last());
        assert(s.drop_last().push(s.last()) =~= s);
        assert(pieces(s) =~= seq![s]);
    } else {
        assert(s =~= Seq::<char>::empty());
    }
}

/// A directory ends in an empty piece and has the components of its root.
proof fn lemma_dir_form(root: Seq<char>)
    requires
        root.len() > 0,
    ensures
        pieces(dir_form(root)).last() == Seq::<char>::empty(),
        keep(pieces(dir_form(root)).drop_last()) == components(root),
        dir_form(root)[0] == root[0],
{
    let d = dir_form(root);
    let base = if root.last() == '/' {
        root.drop_last()
    } else {
        root
    };
    assert(d.drop_last() =~= base);
    assert(pieces(d) == pieces(base).push(Seq::<char>::empty()));
    assert(pieces(d).drop_last() =~= pieces(base));
    if root.last() == '/' {
        assert(keep(pieces(root)) == keep(pieces(base)));
    }
}

/// Joining components with separators and splitting again gives them back.
proof fn lemma_components_of_join(cs: Seq<Seq<char>>)
    requires
        all_components(cs),
    ensures
        components(join_with(cs, seq!['/'])) == cs,
    decreases cs.len(),
{
    if cs.len() == 0 {
        assert(pieces(Seq::<char>::empty()) =~= seq![Seq::<char>::empty()]);
        lemma_keep_one(Seq::<char>::empty());
        assert(keep(seq![Seq::<char>::empty()]) =~= cs);
    } else {
        let last = cs.last();
        assert(is_component(cs[cs.len() - 1]));
        lemma_pieces_single(last);
        let single = seq![last];
        lemma_keep_one(last);
        if cs.len() == 1 {
            assert(join_with(cs, seq!['/']) == cs[0]);
            assert(cs =~= single);
        } else {
            let d = cs.drop_last();
            assert(all_components(d)) by {
                assert forall|i: int| 0 <= i < d.len() implies is_component(#[trigger] d[i]) by {
                    assert(d[i] == cs[i]);
                }
                assert forall|i: int, j: int| 0 <= i < d.len() && 0 <= j < d[i].len() implies d[i][j]
                    != '/' by {
                    assert(d[i] == cs[i]);
                }
            }
            lemma_components_of_join(d);
            let jd = join_with(d, seq!['/']);
            let x = jd + seq!['/'];
            assert(x.drop_last() =~= jd);
            lemma_pieces_nonempty(jd);
            assert(pieces(x) == pieces(jd).push(Seq::<char>::empty()));
            assert(pieces(x).drop_last() =~= pieces(jd));
            lemma_pieces_append(x, last);
            lemma_keep_add(pieces(jd), single);
            assert(cs =~= d + single);
        }
    }
}

/// Placing a relative path under a root and taking the root off again gives
/// a relative path with the same components.
pub proof fn lemma_join_then_strip(root: Seq<char>, path: Seq<char>)
    requires
        !is_absolute(path),
    ensures
        is_under(root, joined(root, path)),
        components(relative_to(root, joined(root, path))) == components(path),
        !is_absolute(relative_to(root, joined(root, path))),
{
    let j = joined(root, path);
    if root.len() > 0 {
        let d = dir_form(root);
        lemma_dir_form(root);
        lemma_pieces_append(d, path);
        lemma_keep_add(pieces(d).drop_last(), pieces(path));
        assert(components(j) == components(root) + components(path));
        if path.len() > 0 {
            assert(j[0] == d[0]);
        } else {
            assert(j =~= d);
        }
        assert(components(root).is_prefix_of(components(j)));
        assert(components(j).skip(components(root).len() as int) =~= components(path));
    } else {
        assert(components(root).len() == 0) by {
            assert(root =~= Seq::<char>::empty());
            assert(pieces(root) =~= seq![Seq::<char>::empty()]);
            lemma_keep_one(Seq::<char>::empty());
        }
        assert(components(j).skip(0) =~= components(path));
    }
    lemma_relative_to_relative(root, j);
    lemma_components_wf(path);
    lemma_components_of_join(components(path));
}

/// The pieces of `s` between separators.
fn split_pieces(s: &str) -> (r: Vec<String>)
    ensures
        views(r@) == pieces(s@),
{
    let n = s.unicode_len();
    let mut out: Vec<String> = Vec::new();
    let mut start: usize = 0;
    let mut i: usize = 0;
    assert(s@.take(0) =~= Seq::<char>::empty());
    assert(views(out@) =~= Seq::<Seq<char>>::empty());
    assert(s@.subrange(0, 0) =~= Seq::<char>::empty());
    while i < n
        invariant
            n == s@.len(),
            start <= i <= n,
            views(out@).push(s@.subrange(start as int, i as int)) =~= pieces(s@.take(i as int)),
        decreases n - i,
    {
        let c = s.get_char(i);
        proof {
            lemma_pieces_nonempty(s@.take(i as int));
            assert(s@.take(i as int + 1).drop_last() =~= s@.take(i as int));
            assert(s@.take(i as int + 1).last() == c);
        }
        let ghost before = views(out@);
        if c == '/' {
            let piece = String::from_str(s.substring_char(start, i));
            out.push(piece);
            assert(views(out@) =~= before.push(piece@));
            start = i + 1;
            assert(s@.subrange(start as int, i as int + 1) =~= Seq::<char>::empty());
            assert(views(out@).push(s@.subrange(start as int, i as int + 1)) =~= pieces(
                s@.take(i as int + 1),
            ));
        } else {
            assert(s@.subrange(start as int, i as int + 1) =~= s@.subrange(
                start as int,
                i as int,
            ).push(c));
            assert(views(out@).push(s@.subrange(start as int, i as int + 1)) =~= pieces(
                s@.take(i as int + 1),
            ));
        }
        i = i + 1;
    }
    let ghost before = views(out@);
    let last = String::from_str(s.substring_char(start, n));
    out.push(last);
    assert(views(out@) =~= before.push(last@));
    assert(s@.take(n as int) =~= s@);
    out
}

/// The components of the path `s`.
fn components_of(s: &str) -> (r: Vec<String>)
    ensures
        views(r@) == components(s@),
{
    let ps = split_pieces(s);
    let mut out: Vec<String> = Vec::new();
    let mut i: usize = 0;
    while i < ps.len()
        invariant
            i <= ps@.len(),
            views(ps@) == pieces(s@),
            views(out@) =~= keep(views(ps@).take(i as int)),
        decreases ps@.len() - i,
    {
        let p = &ps[i];
        let len = p.as_str().unicode_len();
        let is_dot = len == 1 && p.as_str().get_char(0) == '.';
        let ghost before = views(out@);
        assert(views(ps@).take(i as int + 1).drop_last() =~= views(ps@).take(i as int));
        if len > 0 && !is_dot {
            out.push(p.clone());
            assert(views(out@) =~= before.push(ps@[i as int]@));
        } else {
            assert(!is_component(p@)) by {
                if len == 1 {
                    assert(p@ =~= seq!['.']);
                }
            }
        }
        i = i + 1;
    }
    assert(views(ps@).take(ps@.len() as int) =~= views(ps@));
    out
}

/// Whether a path starts at the file-system root.
fn starts_at_root(s: &str) -> (r: bool)
    ensures
        r == is_absolute(s@),
{
    s.unicode_len() > 0 && s.get_char(0) == '/'
}

/// Takes the directory `root` off the front of `path`, component by
/// component; `None` where `path` does not lie under `root`. What is left is
/// a relative path.
pub fn strip_root(root: &str, path: &str) -> (r: Option<String>)
    ensures
        r.is_some() == is_under(root@, path@),
        r matches Some(rel) ==> rel@ == relative_to(root@, path@) && !is_absolute(rel@),
{
    if starts_at_root(root) != starts_at_root(path) {
        return None;
    }
    let rc = components_of(root);
    let pc = components_of(path);
    if rc.len() > pc.len() {
        return None;
    }
    let mut i: usize = 0;
    while i < rc.len()
        invariant
            i <= rc@.len() <= pc@.len(),
            views(rc@) == components(root@),
            views(pc@) == components(path@),
            forall|j: int| 0 <= j < i ==> components(root@)[j] == components(path@)[j],
        decreases rc@.len() - i,
    {
        if rc[i] != pc[i] {
            assert(components(root@)[i as int] != components(path@)[i as int]);
            return None;
        }
        i = i + 1;
    }
    let mut rest: Vec<String> = Vec::new();
    let mut j: usize = rc.len();
    while j < pc.len()
        invariant
            rc@.len() <= j <= pc@.len(),
            views(pc@) == components(path@),
            views(rest@) =~= components(path@).subrange(rc@.len() as int, j as int),
        decreases pc@.len() - j,
    {
        let ghost before = views(rest@);
        let c = pc[j].clone();
        rest.push(c);
        assert(views(rest@) =~= before.push(c@));
        j = j + 1;
    }
    assert(components(path@).subrange(rc@.len() as int, pc@.len() as int) =~= components(
        path@,
    ).skip(rc@.len() as int));
    proof {
        reveal_strlit("/");
        assert("/"@ =~= seq!['/']);
        lemma_relative_to_relative(root@, path@);
    }
    Some(join_strings(&rest, "/"))
}

} // verus!
