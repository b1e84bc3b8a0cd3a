//! Building the lyrics-provider request from a committed search query.
//!
//! A query such as `t: <title>, a: <artist>` is cut into tokens: the text is
//! split on commas, each piece is trimmed and split again on colons. A token
//! that is exactly the letter `t` or `a` (either case) marks the token after
//! it, trimmed, as the title or artist value. The request is well formed
//! exactly when every marker has a following token and exactly two markers
//! occur; the provider call itself is made outside the library.

use vstd::prelude::*;

use crate::chars::{is_whitespace, is_whitespace_char};

verus! {

/// `s` cut at every occurrence of `d`: the pieces between delimiters, in
/// order, the empty piece included. An empty text is one empty piece.
pub open spec fn split_on(s: Seq<char>, d: char) -> Seq<Seq<char>>
    decreases s.len(),
{
    if s.len() == 0 {
        seq![Seq::empty()]
    } else if s[0] == d {
        seq![Seq::<char>::empty()] + split_on(s.drop_first(), d)
    } else {
        let rest = split_on(s.drop_first(), d);
        seq![seq![s[0]] + rest[0]] + rest.drop_first()
    }
}

/// Splitting yields at least one piece.
pub proof fn lemma_split_on_nonempty(s: Seq<char>, d: char)
    ensures
        split_on(s, d).len() >= 1,
    decreases s.len(),
{
    if s.len() > 0 && s[0] != d {
        lemma_split_on_nonempty(s.drop_first(), d);
    }
}

/// `s` without its leading and trailing whitespace.
pub open spec fn trim(s: Seq<char>) -> Seq<char>
    decreases s.len(),
{
    if s.len() == 0 {
        s
    } else if is_whitespace_char(s[0]) {
        trim(s.drop_first())
    } else if is_whitespace_char(s[s.len() - 1]) {
        trim(s.drop_last())
    } else {
        s
    }
}

/// The tokens of a query: the comma pieces, each trimmed and then cut again
/// at its colons.
pub open spec fn tokens_of(q: Seq<char>) -> Seq<Seq<char>> {
    split_on(q, ',').map_values(|p: Seq<char>| split_on(trim(p), ':')).flatten()
}

/// The query parameter a token marks: `t` names the title and `a` the
/// artist, either letter in either case, and nothing else is a marker.
pub open spec fn marker_of(t: Seq<char>) -> Option<char> {
    if t.len() == 1 && (t[0] == 't' || t[0] == 'T') {
        Some('t')
    } else if t.len() == 1 && (t[0] == 'a' || t[0] == 'A') {
        Some('a')
    } else {
        None
    }
}

/// The (marker, value) pairs named by the tokens from index `i` on: each
/// marker token takes the token after it, trimmed, as its value. No pairing
/// exists if some marker is the last token.
pub open spec fn collect_pairs(ts: Seq<Seq<char>>, i: int) -> Option<Seq<(char, Seq<char>)>>
    decreases ts.len() - i,
{
    if i < 0 || i >= ts.len() {
        Some(Seq::empty())
    } else {
        match marker_of(ts[i]) {
            Some(m) => if i + 1 >= ts.len() {
                None
            } else {
                match collect_pairs(ts, i + 1) {
                    Some(ps) => Some(seq![(m, trim(ts[i + 1]))] + ps),
                    None => None,
                }
            },
            None => collect_pairs(ts, i + 1),
        }
    }
}

/// The request a query builds: its (marker, value) pairs, provided every
/// marker has a value and the markers number exactly two (one title and one
/// artist in the common case). Anything else is no request.
pub open spec fn query_params(q: Seq<char>) -> Option<Seq<(char, Seq<char>)>> {
    match collect_pairs(tokens_of(q), 0) {
        Some(ps) => if ps.len() == 2 {
            Some(ps)
        } else {
            None
        },
        None => None,
    }
}

/// The character sequences a list of character vectors holds.
pub open spec fn vecs_view(vs: Seq<Vec<char>>) -> Seq<Seq<char>> {
    vs.map_values(|v: Vec<char>| v@)
}

/// The (marker, value) pairs a list of vector pairs holds.
pub open spec fn pairs_view(ps: Seq<(char, Vec<char>)>) -> Seq<(char, Seq<char>)> {
    ps.map_values(|p: (char, Vec<char>)| (p.0, p.1@))
}

/// The pieces left of splitting once the piece under construction and the
/// rest of the text are taken into account.
spec fn prepend_first(cur: Seq<char>, ss: Seq<Seq<char>>) -> Seq<Seq<char>> {
    seq![cur + ss[0]] + ss.drop_first()
}

/// Cut `q` at every occurrence of `d`.
pub fn split_on_exec(q: &Vec<char>, d: char) -> (r: Vec<Vec<char>>)
    ensures
        vecs_view(r@) == split_on(q@, d),
{
    let mut done: Vec<Vec<char>> = Vec::new();
    let mut cur: Vec<char> = Vec::new();
    let mut i: usize = 0;
    proof {
        assert(q@.skip(0) =~= q@);
        lemma_split_on_nonempty(q@, d);
        assert(prepend_first(cur@, split_on(q@, d)) =~~= split_on(q@, d));
        assert(vecs_view(done@) + prepend_first(cur@, split_on(q@.skip(0), d)) =~~= split_on(
            q@,
            d,
        ));
    }
    while i < q.len()
        invariant
            i <= q.len(),
            vecs_view(done@) + prepend_first(cur@, split_on(q@.skip(i as int), d)) == split_on(
                q@,
                d,
            ),
        decreases q.len() - i,
    {
        let ghost s_i = q@.skip(i as int);
        proof {
            assert(s_i.len() > 0);
            assert(s_i[0] == q@[i as int]);
            assert(s_i.drop_first() =~= q@.skip(i as int + 1));
            lemma_split_on_nonempty(s_i.drop_first(), d);
        }
        let c = q[i];
        if c == d {
            let finished = cur;
            cur = Vec::new();
            done.push(finished);
            proof {
                assert(split_on(s_i, d) =~~= seq![Seq::<char>::empty()] + split_on(
                    s_i.drop_first(),
                    d,
                ));
                assert(prepend_first(finished@, split_on(s_i, d)) =~~= seq![finished@] + split_on(
                    s_i.drop_first(),
                    d,
                ));
                assert(prepend_first(cur@, split_on(s_i.drop_first(), d)) =~~= split_on(
                    s_i.drop_first(),
                    d,
                ));
                assert(vecs_view(done@) =~~= vecs_view(done@.drop_last()) + seq![finished@]);
                assert(vecs_view(done@) + prepend_first(cur@, split_on(q@.skip(i as int + 1), d))
                    =~~= split_on(q@, d));
            }
        } else {
            cur.push(c);
            proof {
                let rest = split_on(s_i.drop_first(), d);
                assert(split_on(s_i, d) =~~= seq![seq![s_i[0]] + rest[0]] + rest.drop_first());
                assert(cur@.drop_last() + (seq![s_i[0]] + rest[0]) =~= cur@ + rest[0]);
                assert(prepend_first(cur@.drop_last(), split_on(s_i, d)) =~~= prepend_first(
                    cur@,
                    rest,
                ));
                assert(vecs_view(done@) + prepend_first(cur@, split_on(q@.skip(i as int + 1), d))
                    =~~= split_on(q@, d));
            }
        }
        i = i + 1;
    }
    proof {
        assert(q@.skip(i as int) =~= Seq::<char>::empty());
        assert(split_on(q@.skip(i as int), d) =~~= seq![Seq::<char>::empty()]);
        assert(prepend_first(cur@, seq![Seq::<char>::empty()]) =~~= seq![cur@]);
    }
    done.push(cur);
    proof {
        assert(vecs_view(done@) =~~= vecs_view(done@.drop_last()) + seq![done@.last()@]);
        assert(vecs_view(done@) =~~= split_on(q@, d));
    }
    done
}

/// Copy `v` without its leading and trailing whitespace.
pub fn trim_exec(v: &Vec<char>) -> (r: Vec<char>)
    ensures
        r@ == trim(v@),
{
    let mut a: usize = 0;
    proof {
        assert(v@.skip(0) =~= v@);
    }
    while a < v.len() && is_whitespace(v[a])
        invariant
            a <= v.len(),
            trim(v@) == trim(v@.skip(a as int)),
        decreases v.len() - a,
    {
        proof {
            assert(v@.skip(a as int).drop_first() =~= v@.skip(a as int + 1));
        }
        a = a + 1;
    }
    if a == v.len() {
        proof {
            assert(v@.skip(a as int) =~= Seq::<char>::empty());
        }
        Vec::new()
    } else {
        let mut b: usize = v.len();
        proof {
            assert(v@.skip(a as int) =~= v@.subrange(a as int, b as int));
        }
        while b > a + 1 && is_whitespace(v[b - 1])
            invariant
                a < b <= v.len(),
                !is_whitespace_char(v@[a as int]),
                trim(v@) == trim(v@.subrange(a as int, b as int)),
            decreases b,
        {
            proof {
                let s = v@.subrange(a as int, b as int);
                assert(s[0] == v@[a as int]);
                assert(s[s.len() - 1] == v@[b - 1]);
                assert(s.drop_last() =~= v@.subrange(a as int, b as int - 1));
            }
            b = b - 1;
        }
        proof {
            let s = v@.subrange(a as int, b as int);
            assert(s[0] == v@[a as int]);
            assert(s[s.len() - 1] == v@[b - 1]);
            assert(trim(s) =~= s);
        }
        let mut r: Vec<char> = Vec::new();
        let mut k: usize = a;
        while k < b
            invariant
                a <= k <= b <= v.len(),
                r@ == v@.subrange(a as int, k as int),
            decreases b - k,
        {
            r.push(v[k]);
            proof {
                assert(v@.subrange(a as int, k as int + 1) =~= v@.subrange(a as int, k as int)
                    + seq![v@[k as int]]);
            }
            k = k + 1;
        }
        r
    }
}

/// Cut a query into its tokens: comma pieces, trimmed, cut again at colons.
pub fn tokenize(q: &Vec<char>) -> (r: Vec<Vec<char>>)
    ensures
        vecs_view(r@) == tokens_of(q@),
{
    let parts = split_on_exec(q, ',');
    let ghost f = |p: Seq<char>| split_on(trim(p), ':');
    let ghost mapped = split_on(q@, ',').map_values(f);
    let mut out: Vec<Vec<char>> = Vec::new();
    let mut k: usize = 0;
    proof {
        assert(mapped.take(0) =~= Seq::<Seq<Seq<char>>>::empty());
        assert(vecs_view(out@) =~= mapped.take(0).flatten());
    }
    while k < parts.len()
        invariant
            k <= parts.len(),
            vecs_view(parts@) == split_on(q@, ','),
            mapped == split_on(q@, ',').map_values(f),
            f == (|p: Seq<char>| split_on(trim(p), ':')),
            vecs_view(out@) == mapped.take(k as int).flatten(),
        decreases parts.len() - k,
    {
        let t = trim_exec(&parts[k]);
        let mut sub = split_on_exec(&t, ':');
        let ghost old_out = out@;
        let ghost sub_view = vecs_view(sub@);
        out.append(&mut sub);
        proof {
            assert(sub_view =~= f(parts@[k as int]@));
            assert(vecs_view(out@) =~= vecs_view(old_out) + sub_view);
            assert(mapped.take(k as int + 1) =~= mapped.take(k as int).push(
                mapped[k as int],
            ));
            assert(mapped[k as int] == f(vecs_view(parts@)[k as int]));
            Seq::lemma_flatten_push(mapped.take(k as int), mapped[k as int]);
            assert(vecs_view(out@) =~= mapped.take(k as int + 1).flatten());
        }
        k = k + 1;
    }
    proof {
        assert(mapped.take(parts@.len() as int) =~= mapped);
    }
    out
}

/// Whether a token marks a query parameter, and which.
fn marker_of_exec(t: &Vec<char>) -> (r: Option<char>)
    ensures
        r == marker_of(t@),
{
    if t.len() == 1 {
        let c = t[0];
        if c == 't' || c == 'T' {
            Some('t')
        } else if c == 'a' || c == 'A' {
            Some('a')
        } else {
            None
        }
    } else {
        None
    }
}

/// The request a committed search query builds: the title and artist pairs
/// for the lyrics provider, or nothing if some marker token lacks a value or
/// the markers do not number exactly two. The caller appends its fixed
/// format parameter and performs the call.
pub fn build_lyrics_query(q: &Vec<char>) -> (r: Option<Vec<(char, Vec<char>)>>)
    ensures
        match r {
            Some(ps) => query_params(q@) == Some(pairs_view(ps@)),
            None => query_params(q@) is None,
        },
{
    let ts = tokenize(q);
    let ghost tsv = tokens_of(q@);
    let mut acc: Vec<(char, Vec<char>)> = Vec::new();
    let mut i: usize = 0;
    proof {
        assert(pairs_view(acc@) =~= Seq::<(char, Seq<char>)>::empty());
    }
    while i < ts.len()
        invariant
            i <= ts.len(),
            vecs_view(ts@) == tsv,
            tsv == tokens_of(q@),
            match collect_pairs(tsv, 0) {
                Some(all) => collect_pairs(tsv, i as int) matches Some(ps) && all == pairs_view(
                    acc@,
                ) + ps,
                None => collect_pairs(tsv, i as int) is None,
            },
        decreases ts.len() - i,
    {
        match marker_of_exec(&ts[i]) {
            Some(m) => {
                if i + 1 >= ts.len() {
                    proof {
                        assert(collect_pairs(tsv, i as int) is None);
                    }
                    return None;
                }
                let value = trim_exec(&ts[i + 1]);
                acc.push((m, value));
                proof {
                    assert(marker_of(tsv[i as int]) == Some(m));
                    if collect_pairs(tsv, i as int + 1) is Some {
                        let ps = collect_pairs(tsv, i as int + 1)->Some_0;
                        assert(collect_pairs(tsv, i as int) == Some(
                            seq![(m, trim(tsv[i as int + 1]))] + ps,
                        ));
                        assert(pairs_view(acc@) =~= pairs_view(acc@.drop_last()) + seq![
                            (m, trim(tsv[i as int + 1])),
                        ]);
                        if collect_pairs(tsv, 0) is Some {
                            assert(collect_pairs(tsv, 0)->Some_0 =~= pairs_view(acc@) + ps);
                        }
                    }
                }
                i = i + 1;
            },
            None => {
                proof {
                    assert(collect_pairs(tsv, i as int) == collect_pairs(tsv, i as int + 1));
                }
                i = i + 1;
            },
        }
    }
    proof {
        assert(i >= tsv.len());
        assert(collect_pairs(tsv, i as int) == Some(Seq::<(char, Seq<char>)>::empty()));
        if collect_pairs(tsv, 0) is Some {
            assert(collect_pairs(tsv, 0)->Some_0 =~= pairs_view(acc@));
        }
    }
    if acc.len() == 2 {
        Some(acc)
    } else {
        None
    }
}

} // verus!
