//! Splitting a command line into words.

use vstd::prelude::*;

verus! {

/// Unicode `White_Space`: the characters that `char::is_whitespace` accepts.
pub open spec fn is_space(c: char) -> bool {
    let u = c as u32;
    ||| 0x09 <= u <= 0x0D
    ||| u == 0x20
    ||| u == 0x85
    ||| u == 0xA0
    ||| u == 0x1680
    ||| 0x2000 <= u <= 0x200A
    ||| u == 0x2028
    ||| u == 0x2029
    ||| u == 0x202F
    ||| u == 0x205F
    ||| u == 0x3000
}

/// A word: non-empty, and free of whitespace.
pub open spec fn is_word(w: Seq<char>) -> bool {
    w.len() > 0 && forall|k: int| 0 <= k < w.len() ==> !is_space(#[trigger] w[k])
}

/// The words of `s`: its maximal runs of non-whitespace characters, in order.
pub open spec fn tokens(s: Seq<char>) -> Seq<Seq<char>>
    decreases s.len(),
{
    if s.len() == 0 {
        Seq::empty()
    } else {
        let pre = s.drop_last();
        let c = s.last();
        let t = tokens(pre);
        if is_space(c) {
            t
        } else if pre.len() > 0 && !is_space(pre.last()) {
            t.update(t.len() - 1, t.last().push(c))
        } else {
            t.push(seq![c])
        }
    }
}

/// The words `ws` written out with one space between neighbours.
pub open spec fn join_spaced(ws: Seq<Seq<char>>) -> Seq<char>
    decreases ws.len(),
{
    if ws.len() == 0 {
        Seq::empty()
    } else if ws.len() == 1 {
        ws[0]
    } else {
        join_spaced(ws.drop_last()) + seq![' '] + ws.last()
    }
}

/// The character views of a sequence of strings.
pub open spec fn views(v: Seq<String>) -> Seq<Seq<char>> {
    v.map_values(|w: String| w@)
}

/// A line that ends inside a word has at least one word.
proof fn lemma_tokens_nonempty(s: Seq<char>)
    requires
        s.len() > 0,
        !is_space(s.last()),
    ensures
        tokens(s).len() > 0,
    decreases s.len(),
{
    let pre = s.drop_last();
    if pre.len() > 0 && !is_space(pre.last()) {
        lemma_tokens_nonempty(pre);
    }
}

/// A word written after a break (or at the start) becomes one more token.
proof fn lemma_tokens_append_word(q: Seq<char>, w: Seq<char>)
    requires
        q.len() == 0 || is_space(q.last()),
        is_word(w),
    ensures
        tokens(q + w) == tokens(q).push(w),
    decreases w.len(),
{
    let s = q + w;
    assert(s.drop_last() =~= q + w.drop_last());
    assert(s.last() == w.last());
    if w.len() == 1 {
        assert(q + w.drop_last() =~= q);
        assert(seq![w.last()] =~= w);
    } else {
        let w0 = w.drop_last();
        assert(is_word(w0)) by {
            assert forall|k: int| 0 <= k < w0.len() implies !is_space(#[trigger] w0[k]) by {
                assert(w0[k] == w[k]);
            }
        }
        lemma_tokens_append_word(q, w0);
        assert(s.drop_last().last() == w[w.len() - 2]);
        let t = tokens(q).push(w0);
        assert(w0.push(w.last()) =~= w);
        assert(t.update(t.len() - 1, t.last().push(w.last())) =~= tokens(q).push(w));
    }
}

/// Re-joining words with single spaces and splitting the result again gives
/// back the same words.
pub proof fn lemma_split_join(ws: Seq<Seq<char>>)
    requires
        forall|i: int| 0 <= i < ws.len() ==> is_word(#[trigger] ws[i]),
    ensures
        tokens(join_spaced(ws)) == ws,
    decreases ws.len(),
{
    if ws.len() == 1 {
        lemma_tokens_append_word(Seq::empty(), ws[0]);
        assert(Seq::<char>::empty() + ws[0] =~= ws[0]);
        assert(Seq::<Seq<char>>::empty().push(ws[0]) =~= ws);
    } else if ws.len() > 1 {
        let init = ws.drop_last();
        lemma_split_join(init);
        let q = join_spaced(init) + seq![' '];
        assert(q.drop_last() =~= join_spaced(init));
        lemma_tokens_append_word(q, ws.last());
        assert(init.push(ws.last()) =~= ws);
    }
}

/// A line made of whitespace alone has no words.
pub proof fn lemma_blank_has_no_tokens(s: Seq<char>)
    requires
        forall|k: int| 0 <= k < s.len() ==> is_space(#[trigger] s[k]),
    ensures
        tokens(s) == Seq::<Seq<char>>::empty(),
    decreases s.len(),
{
    if s.len() > 0 {
        let pre = s.drop_last();
        assert forall|k: int| 0 <= k < pre.len() implies is_space(#[trigger] pre[k]) by {
            assert(pre[k] == s[k]);
        }
        lemma_blank_has_no_tokens(pre);
        assert(is_space(s[s.len() - 1]));
    }
}

/// Whether `c` is whitespace, as `char::is_whitespace` decides it.
pub fn is_whitespace(c: char) -> (r: bool)
    ensures
        r == is_space(c),
{
    let u = c as u32;
    (0x09 <= u && u <= 0x0D) || u == 0x20 || u == 0x85 || u == 0xA0 || u == 0x1680 || (0x2000
        <= u && u <= 0x200A) || u == 0x2028 || u == 0x2029 || u == 0x202F || u == 0x205F || u
        == 0x3000
}

/// Splits `line` on runs of whitespace into its words, in order.
pub fn lsh_split_line(line: &str) -> (r: Vec<String>)
    ensures
        views(r@) == tokens(line@),
{
    let ghost s = line@;
    let n = line.unicode_len();
    let mut done: Vec<String> = Vec::new();
    let mut start: usize = 0;
    let mut in_word = false;
    let mut i: usize = 0;
    while i < n
        invariant
            s == line@,
            n == s.len(),
            start <= i <= n,
            in_word == (i > 0 && !is_space(s[i - 1])),
            in_word ==> start < i,
            in_word ==> views(done@).push(s.subrange(start as int, i as int)) == tokens(
                s.subrange(0, i as int),
            ),
            !in_word ==> views(done@) == tokens(s.subrange(0, i as int)),
        decreases n - i,
    {
        let c = line.get_char(i);
        let ghost pre = s.subrange(0, i as int);
        let ghost cur = s.subrange(0, i as int + 1);
        assert(cur.drop_last() =~= pre);
        assert(cur.last() == c);
        if is_whitespace(c) {
            if in_word {
                let w = line.substring_char(start, i).to_owned();
                done.push(w);
                assert(views(done@) =~= tokens(pre));
            }
            in_word = false;
        } else {
            if in_word {
                proof {
                    lemma_tokens_nonempty(pre);
                    let t = tokens(pre);
                    assert(s.subrange(start as int, i as int).push(c) =~= s.subrange(
                        start as int,
                        i as int + 1,
                    ));
                    assert(t.update(t.len() - 1, t.last().push(c)) =~= views(done@).push(
                        s.subrange(start as int, i as int + 1),
                    ));
                }
            } else {
                start = i;
                assert(seq![c] =~= s.subrange(start as int, i as int + 1));
                assert(views(done@).push(seq![c]) =~= views(done@).push(
                    s.subrange(start as int, i as int + 1),
                ));
            }
            in_word = true;
        }
        i = i + 1;
    }
    if in_word {
        let w = line.substring_char(start, n).to_owned();
        done.push(w);
    }
    assert(s.subrange(0, n as int) =~= s);
    proof {
        if in_word {
            assert(views(done@) =~= tokens(s));
        }
    }
    done
}

} // verus!
