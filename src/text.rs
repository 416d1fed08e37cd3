use vstd::prelude::*;
use vstd::string::*;

verus! {

/// The parts joined in order, with `sep` between each two neighbours.
pub open spec fn join_with(parts: Seq<Seq<char>>, sep: Seq<char>) -> Seq<char>
    decreases parts.len(),
{
    if parts.len() == 0 {
        Seq::empty()
    } else if parts.len() == 1 {
        parts[0]
    } else {
        join_with(parts.drop_last(), sep) + sep + parts.last()
    }
}

/// The character views of a list of strings.
pub open spec fn views(v: Seq<String>) -> Seq<Seq<char>> {
    v.map_values(|s: String| s@)
}

/// Joins `parts` with `sep` between each two neighbours.
pub fn join_strings(parts: &Vec<String>, sep: &str) -> (r: String)
    ensures
        r@ == join_with(views(parts@), sep@),
{
    let mut out = String::new();
    let mut i: usize = 0;
    while i < parts.len()
        invariant
            i <= parts@.len(),
            out@ == join_with(views(parts@).take(i as int), sep@),
        decreases parts@.len() - i,
    {
        let ghost prev = views(parts@).take(i as int);
        assert(views(parts@).take(i as int + 1).drop_last() =~= prev);
        if i > 0 {
            out.append(sep);
        }
        out.append(parts[i].as_str());
        i = i + 1;
    }
    assert(views(parts@).take(i as int) =~= views(parts@));
    out
}


/// The pieces of `s` between dots, as `str::split('.')` yields them: one more
/// piece than there are dots, empty pieces included.
pub open spec fn split_dots(s: Seq<char>) -> Seq<Seq<char>>
    decreases s.len(),
{
    if s.len() == 0 {
        seq![Seq::empty()]
    } else {
        let prev = split_dots(s.drop_last());
        if s.last() == '.' {
            prev.push(Seq::empty())
        } else {
            prev.update(prev.len() - 1, prev.last().push(s.last()))
        }
    }
}

pub proof fn lemma_split_dots_nonempty(s: Seq<char>)
    ensures
        split_dots(s).len() >= 1,
    decreases s.len(),
{
    if s.len() > 0 {
        lemma_split_dots_nonempty(s.drop_last());
    }
}

/// A dot-separated domain with its pieces in reverse order.
pub open spec fn reversed_domain(s: Seq<char>) -> Seq<char> {
    join_with(split_dots(s).reverse(), seq!['.'])
}

/// Reverses the dot-separated pieces of `domain`: `com.example.app` gives
/// `app.example.com`.
pub fn reverse_domain(domain: &str) -> (r: String)
    ensures
        r@ == reversed_domain(domain@),
{
    let n = domain.unicode_len();
    let mut pieces: Vec<String> = Vec::new();
    let mut start: usize = 0;
    let mut i: usize = 0;
    assert(domain@.take(0) =~= Seq::<char>::empty());
    assert(views(pieces@) =~= Seq::<Seq<char>>::empty());
    assert(domain@.subrange(0, 0) =~= Seq::<char>::empty());
    while i < n
        invariant
            n == domain@.len(),
            start <= i <= n,
            views(pieces@).push(domain@.subrange(start as int, i as int)) =~= split_dots(
                domain@.take(i as int),
            ),
        decreases n - i,
    {
        let c = domain.get_char(i);
        proof {
            lemma_split_dots_nonempty(domain@.take(i as int));
            assert(domain@.take(i as int + 1).drop_last() =~= domain@.take(i as int));
            assert(domain@.take(i as int + 1).last() == c);
        }
        let ghost before = views(pieces@);
        if c == '.' {
            let piece = String::from_str(domain.substring_char(start, i));
            pieces.push(piece);
            assert(views(pieces@) =~= before.push(piece@));
            start = i + 1;
            assert(domain@.subrange(start as int, i as int + 1) =~= Seq::<char>::empty());
            assert(views(pieces@).push(domain@.subrange(start as int, i as int + 1)) =~= split_dots(
                domain@.take(i as int + 1),
            ));
        } else {
            assert(domain@.subrange(start as int, i as int + 1) =~= domain@.subrange(
                start as int,
                i as int,
            ).push(c));
            assert(views(pieces@).push(domain@.subrange(start as int, i as int + 1)) =~= split_dots(
                domain@.take(i as int + 1),
            ));
        }
        i = i + 1;
    }
    let ghost before = views(pieces@);
    let last = String::from_str(domain.substring_char(start, n));
    pieces.push(last);
    assert(views(pieces@) =~= before.push(last@));
    assert(domain@.take(n as int) =~= domain@);
    let ghost all = views(pieces@);
    let mut rev: Vec<String> = Vec::new();
    let mut j: usize = pieces.len();
    while j > 0
        invariant
            j <= pieces@.len(),
            all == views(pieces@),
            views(rev@) =~= all.reverse().take(pieces@.len() - j),
        decreases j,
    {
        j = j - 1;
        let ghost before = views(rev@);
        let piece = pieces[j].clone();
        rev.push(piece);
        assert(views(rev@) =~= before.push(piece@));
        assert(all[j as int] == piece@);
        assert(views(rev@) =~= all.reverse().take(pieces@.len() - j));
    }
    assert(all.reverse().take(pieces@.len() as int) =~= all.reverse());
    proof {
        reveal_strlit(".");
        assert(".".view() =~= seq!['.']);
    }
    join_strings(&rev, ".")
}

} // verus!
