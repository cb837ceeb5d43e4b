//! Text helpers: joining with a separator, repeating a character.

use vstd::prelude::*;
use vstd::string::*;

verus! {

/// The parts joined with `sep` between each two neighbours, as
/// `[String]::join` does.
pub open spec fn joined<A>(parts: Seq<Seq<A>>, sep: Seq<A>) -> Seq<A>
    decreases parts.len(),
{
    if parts.len() == 0 {
        Seq::empty()
    } else if parts.len() == 1 {
        parts[0]
    } else {
        joined(parts.drop_last(), sep) + sep + parts.last()
    }
}

/// The texts held by a list of strings.
pub open spec fn texts(parts: Seq<String>) -> Seq<Seq<char>> {
    parts.map_values(|p: String| p@)
}

/// Joins the strings with `sep` between each two neighbours.
pub fn join(parts: &Vec<String>, sep: &str) -> (r: String)
    ensures
        r@ == joined(texts(parts@), sep@),
{
    let mut r = String::new();
    let n = parts.len();
    let ghost all = texts(parts@);
    let mut i: usize = 0;
    while i < n
        invariant
            n == parts@.len(),
            all == texts(parts@),
            i <= n,
            r@ == joined(all.take(i as int), sep@),
        decreases n - i,
    {
        let ghost before = all.take(i as int);
        if i > 0 {
            r.append(sep);
        }
        r.append(parts[i].as_str());
        proof {
            let after = all.take(i + 1);
            assert(after.drop_last() =~= before);
            assert(after.last() == parts@[i as int]@);
            if i == 0 {
                assert(before =~= Seq::<Seq<char>>::empty());
                assert(after =~= seq![parts@[0]@]);
            }
        }
        i = i + 1;
    }
    assert(all.take(n as int) =~= all);
    r
}

/// `n` copies of the character `c`.
pub open spec fn repeated(c: char, n: nat) -> Seq<char> {
    Seq::new(n, |i: int| c)
}

/// Joining one more part puts the separator and that part after what the
/// parts before it join to, however many parts there are.
pub proof fn lemma_joined_push<A>(parts: Seq<Seq<A>>, p: Seq<A>, sep: Seq<A>)
    requires
        parts.len() > 0,
    ensures
        joined(parts.push(p), sep) == joined(parts, sep) + sep + p,
{
    assert(parts.push(p).drop_last() =~= parts);
}

/// The total length of the parts.
pub open spec fn total_len<A>(parts: Seq<Seq<A>>) -> nat
    decreases parts.len(),
{
    if parts.len() == 0 {
        0
    } else {
        total_len(parts.drop_last()) + parts.last().len()
    }
}

/// A joined text is as long as its parts together plus one separator
/// between each two neighbours, whatever the number of parts.
pub proof fn lemma_joined_len<A>(parts: Seq<Seq<A>>, sep: Seq<A>)
    requires
        parts.len() > 0,
    ensures
        joined(parts, sep).len() == total_len(parts) + (parts.len() - 1) * sep.len(),
    decreases parts.len(),
{
    if parts.len() == 1 {
        assert(parts.drop_last().len() == 0);
        assert(total_len(parts.drop_last()) == 0);
    } else {
        lemma_joined_len(parts.drop_last(), sep);
        assert((parts.len() - 1) * sep.len() == (parts.len() - 2) * sep.len() + sep.len()) by (nonlinear_arith);
    }
}

/// The texts of a list of strings are the strings' texts, one for one.
pub proof fn lemma_texts(parts: Seq<String>)
    ensures
        texts(parts).len() == parts.len(),
        forall|i: int| 0 <= i < parts.len() ==> #[trigger] texts(parts)[i] == parts[i]@,
{
}

/// `n` copies of `c` are `n` characters long, each of them `c`.
pub proof fn lemma_repeated(c: char, n: nat)
    ensures
        repeated(c, n).len() == n,
        forall|i: int| 0 <= i < n ==> #[trigger] repeated(c, n)[i] == c,
{
}

} // verus!
