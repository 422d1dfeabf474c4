//! Whitespace tokenization of input lines.
//!
//! A line is split on runs of whitespace into tokens; the first token names
//! the command and the rest are its arguments. There is no quoting and no
//! escaping: a whitespace character always separates tokens.

use vstd::prelude::*;

verus! {

/// The characters treated as token separators (ASCII whitespace).
pub open spec fn is_space(c: char) -> bool {
    c == ' ' || c == '\t' || c == '\n' || c == '\r' || c == '\u{000B}' || c == '\u{000C}'
}

/// Runtime check for [`is_space`].
pub fn is_space_char(c: char) -> (r: bool)
    ensures
        r == is_space(c),
{
    c == ' ' || c == '\t' || c == '\n' || c == '\r' || c == '\u{000B}' || c == '\u{000C}'
}

/// The tokens of `s` when a partial token `cur` has already been read:
/// scanning left to right, a whitespace character closes the current token
/// (if any) and any other character extends it.
pub open spec fn split_rec(s: Seq<char>, cur: Seq<char>) -> Seq<Seq<char>>
    decreases s.len(),
{
    if s.len() == 0 {
        if cur.len() == 0 {
            Seq::empty()
        } else {
            seq![cur]
        }
    } else if is_space(s[0]) {
        if cur.len() == 0 {
            split_rec(s.skip(1), Seq::empty())
        } else {
            seq![cur] + split_rec(s.skip(1), Seq::empty())
        }
    } else {
        split_rec(s.skip(1), cur.push(s[0]))
    }
}

/// The whitespace-separated tokens of `s`, in order.
pub open spec fn tokens_of(s: Seq<char>) -> Seq<Seq<char>> {
    split_rec(s, Seq::empty())
}

/// The character sequences of a sequence of strings.
pub open spec fn views_of(ts: Seq<String>) -> Seq<Seq<char>> {
    ts.map_values(|t: String| t@)
}

/// The concatenation of `ts`, in order, with nothing inserted between
/// elements.
pub open spec fn concat_all(ts: Seq<Seq<char>>) -> Seq<char>
    decreases ts.len(),
{
    if ts.len() == 0 {
        Seq::empty()
    } else {
        ts[0] + concat_all(ts.skip(1))
    }
}

/// The length and elements of `views_of` follow its argument pointwise.
pub proof fn lemma_views_of_index(ts: Seq<String>, i: int)
    requires
        0 <= i < ts.len(),
    ensures
        views_of(ts).len() == ts.len(),
        views_of(ts)[i] == ts[i]@,
{
}

/// Removing the first string and then taking views is taking views and
/// then dropping the first sequence.
pub proof fn lemma_views_of_remove_first(ts: Seq<String>)
    requires
        ts.len() > 0,
    ensures
        views_of(ts.remove(0)) == views_of(ts).skip(1),
{
    assert forall|i: int| 0 <= i < ts.len() - 1 implies views_of(ts.remove(0))[i] == views_of(
        ts,
    ).skip(1)[i] by {
        assert(ts.remove(0)[i] == ts[i + 1]);
        lemma_views_of_index(ts.remove(0), i);
        lemma_views_of_index(ts, i + 1);
    }
    assert(views_of(ts.remove(0)) =~= views_of(ts).skip(1));
}

/// Every token produced by `split_rec` is non-empty: a token is only ever
/// emitted after at least one non-whitespace character extended it.
proof fn lemma_split_rec_tokens_nonempty(s: Seq<char>, cur: Seq<char>)
    ensures
        forall|k: int|
            0 <= k < split_rec(s, cur).len() ==> #[trigger] split_rec(s, cur)[k].len() > 0,
    decreases s.len(),
{
    if s.len() == 0 {
        if cur.len() > 0 {
            assert(split_rec(s, cur) == seq![cur]);
            assert(split_rec(s, cur)[0] == cur);
        }
    } else if is_space(s[0]) {
        lemma_split_rec_tokens_nonempty(s.skip(1), Seq::empty());
        if cur.len() > 0 {
            assert forall|k: int| 0 <= k < split_rec(s, cur).len() implies #[trigger] split_rec(
                s,
                cur,
            )[k].len() > 0 by {
                assert(split_rec(s, cur) == seq![cur] + split_rec(s.skip(1), Seq::<char>::empty()));
                if k == 0 {
                    assert(split_rec(s, cur)[0] == cur);
                } else {
                    assert(split_rec(s, cur)[k] == split_rec(s.skip(1), Seq::<char>::empty())[k
                        - 1]);
                }
            }
        }
    } else {
        lemma_split_rec_tokens_nonempty(s.skip(1), cur.push(s[0]));
        assert(split_rec(s, cur) == split_rec(s.skip(1), cur.push(s[0])));
    }
}

/// Every whitespace-separated token of a line is non-empty; in particular a
/// line that yields any token at all yields a non-empty command name.
pub proof fn lemma_tokens_nonempty(s: Seq<char>)
    ensures
        forall|k: int| 0 <= k < tokens_of(s).len() ==> #[trigger] tokens_of(s)[k].len() > 0,
{
    lemma_split_rec_tokens_nonempty(s, Seq::empty());
}

/// A line consisting only of whitespace (or empty) yields no tokens.
pub proof fn lemma_whitespace_only_yields_no_tokens(s: Seq<char>)
    requires
        forall|i: int| 0 <= i < s.len() ==> is_space(#[trigger] s[i]),
    ensures
        tokens_of(s).len() == 0,
{
    lemma_all_space_split_rec_empty(s);
}

proof fn lemma_all_space_split_rec_empty(s: Seq<char>)
    requires
        forall|i: int| 0 <= i < s.len() ==> is_space(#[trigger] s[i]),
    ensures
        split_rec(s, Seq::empty()) == Seq::<Seq<char>>::empty(),
    decreases s.len(),
{
    if s.len() > 0 {
        assert(forall|i: int|
            0 <= i < s.skip(1).len() ==> is_space(#[trigger] s.skip(1)[i]) && s.skip(1)[i] == s[i
            + 1]);
        lemma_all_space_split_rec_empty(s.skip(1));
    }
}

/// Split `line` into its whitespace-separated tokens.
pub fn split_line(line: &str) -> (r: Vec<String>)
    ensures
        views_of(r@) == tokens_of(line@),
{
    let n = line.unicode_len();
    let mut out: Vec<String> = Vec::new();
    let mut i: usize = 0;
    proof {
        assert(line@.skip(0) =~= line@);
        assert(views_of(out@) =~= Seq::<Seq<char>>::empty());
        assert(views_of(out@) + split_rec(line@, Seq::empty()) =~= split_rec(line@, Seq::empty()));
    }
    while i < n
        invariant
            n == line@.len(),
            i <= n,
            tokens_of(line@) == views_of(out@) + split_rec(line@.skip(i as int), Seq::empty()),
        decreases n - i,
    {
        proof {
            assert(line@.skip(i as int)[0] == line@[i as int]);
            assert(line@.skip(i as int).skip(1) =~= line@.skip(i as int + 1));
        }
        let c = line.get_char(i);
        if is_space_char(c) {
            i += 1;
        } else {
            let start = i;
            proof {
                assert(Seq::<char>::empty().push(line@[i as int]) =~= line@.subrange(
                    i as int,
                    i as int + 1,
                ));
                assert(split_rec(line@.skip(i as int), Seq::empty()) == split_rec(
                    line@.skip(i as int + 1),
                    Seq::<char>::empty().push(line@[i as int]),
                ));
            }
            i += 1;
            while i < n && !is_space_char(line.get_char(i))
                invariant
                    n == line@.len(),
                    start < i <= n,
                    tokens_of(line@) == views_of(out@) + split_rec(
                        line@.skip(i as int),
                        line@.subrange(start as int, i as int),
                    ),
                decreases n - i,
            {
                proof {
                    assert(line@.skip(i as int)[0] == line@[i as int]);
                    assert(line@.skip(i as int).skip(1) =~= line@.skip(i as int + 1));
                    assert(line@.subrange(start as int, i as int).push(line@[i as int]) =~= line@
                        .subrange(start as int, i as int + 1));
                }
                i += 1;
            }
            let token = String::from_str(line.substring_char(start, i));
            proof {
                let cur = line@.subrange(start as int, i as int);
                if i == n {
                    assert(line@.skip(i as int).len() == 0);
                    assert(split_rec(line@.skip(i as int), cur) == seq![cur]);
                } else {
                    assert(line@.skip(i as int)[0] == line@[i as int]);
                    assert(line@.skip(i as int).skip(1) =~= line@.skip(i as int + 1));
                    assert(split_rec(line@.skip(i as int), cur) == seq![cur] + split_rec(
                        line@.skip(i as int + 1),
                        Seq::<char>::empty(),
                    ));
                    assert(split_rec(line@.skip(i as int), Seq::<char>::empty()) == split_rec(
                        line@.skip(i as int + 1),
                        Seq::<char>::empty(),
                    ));
                }
                assert(views_of(out@.push(token)) =~= views_of(out@).push(token@));
                assert(views_of(out@) + seq![cur] =~= views_of(out@).push(cur));
            }
            out.push(token);
        }
    }
    proof {
        assert(line@.skip(n as int).len() == 0);
        assert(tokens_of(line@) =~= views_of(out@));
    }
    out
}

/// Concatenate `tokens` in order, with no separator between them.
pub fn join_tokens(tokens: &Vec<String>) -> (r: String)
    ensures
        r@ == concat_all(views_of(tokens@)),
{
    let ghost vs = views_of(tokens@);
    let mut acc = String::new();
    let mut j: usize = 0;
    proof {
        assert(vs.skip(0) =~= vs);
    }
    while j < tokens.len()
        invariant
            j <= tokens@.len(),
            vs == views_of(tokens@),
            vs.len() == tokens@.len(),
            concat_all(vs) == acc@ + concat_all(vs.skip(j as int)),
        decreases tokens@.len() - j,
    {
        proof {
            assert(vs.skip(j as int)[0] == vs[j as int]);
            assert(vs[j as int] == tokens@[j as int]@);
            assert(vs.skip(j as int).skip(1) =~= vs.skip(j as int + 1));
            assert(concat_all(vs.skip(j as int)) == vs[j as int] + concat_all(
                vs.skip(j as int + 1),
            ));
            assert((acc@ + vs[j as int]) + concat_all(vs.skip(j as int + 1)) =~= acc@ + (vs[j
                as int] + concat_all(vs.skip(j as int + 1))));
        }
        let t = &tokens[j];
        acc.append(t.as_str());
        j += 1;
    }
    proof {
        assert(vs.skip(j as int).len() == 0);
        assert(concat_all(vs.skip(j as int)) == Seq::<char>::empty());
        assert(acc@ + Seq::<char>::empty() =~= acc@);
    }
    acc
}

} // verus!
