//! Greedy word wrap over whatever measure the caller has.
use vstd::prelude::*;
use crate::text::{blanks, chars_of, join3, mark_blanks, push_char, texts, trim, trimmed};

verus! {

/// The words in the first `n` characters of a text: its runs of characters that are not blank.
pub open spec fn words_to(s: Seq<char>, blank: Seq<bool>, n: int) -> Seq<Seq<char>>
    decreases n,
{
    if n <= 0 {
        Seq::empty()
    } else {
        let before = words_to(s, blank, n - 1);
        if blank[n - 1] {
            before
        } else if n > 1 && !blank[n - 2] && before.len() > 0 {
            before.update(before.len() - 1, before.last().push(s[n - 1]))
        } else {
            before.push(seq![s[n - 1]])
        }
    }
}

/// The words of a text: its runs of characters that are not white space.
pub open spec fn words(s: Seq<char>) -> Seq<Seq<char>> {
    words_to(s, blanks(s), s.len() as int)
}

/// Words with a space between each two.
pub open spec fn spaced(ws: Seq<Seq<char>>) -> Seq<char>
    decreases ws.len(),
{
    if ws.len() == 0 {
        Seq::empty()
    } else if ws.len() == 1 {
        ws[0]
    } else {
        spaced(ws.drop_last()) + seq![' '] + ws.last()
    }
}

/// The parts of the first `n` groups, one after another.
pub open spec fn flat<A>(groups: Seq<Seq<A>>, n: int) -> Seq<A>
    decreases n,
{
    if n <= 0 {
        Seq::empty()
    } else {
        flat(groups, n - 1) + groups[n - 1]
    }
}

/// The text of each group of words.
pub open spec fn lines_of(groups: Seq<Seq<Seq<char>>>) -> Seq<Seq<char>> {
    Seq::new(groups.len(), |i: int| spaced(groups[i]))
}

/// Whether the measure may answer `yes` of a text.
pub open spec fn answers<F: Fn(&str) -> bool>(fits: F, text: Seq<char>, yes: bool) -> bool {
    exists|t: &str| t@ == text && #[trigger] call_ensures(fits, (t,), yes)
}

/// Whether a line grew word by word, each time within the measure.
pub open spec fn grown<F: Fn(&str) -> bool>(fits: F, line: Seq<Seq<char>>) -> bool {
    &&& line.len() >= 1
    &&& forall|k: int| 2 <= k <= line.len() ==> answers(fits, spaced(#[trigger] line.take(k)), true)
}

/// Whether words were laid out greedily: each line grown within the measure, and broken only
/// where its next word did not fit.
pub open spec fn greedy<F: Fn(&str) -> bool>(fits: F, groups: Seq<Seq<Seq<char>>>) -> bool {
    &&& forall|i: int| 0 <= i < groups.len() ==> grown(fits, #[trigger] groups[i])
    &&& forall|i: int|
        0 <= i < groups.len() - 1 ==> answers(
            fits,
            spaced(#[trigger] groups[i]) + seq![' '] + groups[i + 1][0],
            false,
        )
}

/// Whether `lines` is words wrapped: one empty line where there are none.
pub open spec fn wrapped_words<F: Fn(&str) -> bool>(fits: F, ws: Seq<Seq<char>>, lines: Seq<Seq<char>>) -> bool {
    if ws.len() == 0 {
        lines == seq![Seq::<char>::empty()]
    } else {
        exists|groups: Seq<Seq<Seq<char>>>|
            #[trigger] greedy(fits, groups) && flat(groups, groups.len() as int) == ws && lines == lines_of(groups)
    }
}

/// Whether `lines` is a text wrapped.
pub open spec fn wrapped<F: Fn(&str) -> bool>(fits: F, text: Seq<char>, lines: Seq<Seq<char>>) -> bool {
    wrapped_words(fits, words(text), lines)
}

proof fn lemma_words(s: Seq<char>, blank: Seq<bool>, n: int)
    ensures
        n > 0 && !blank[n - 1] ==> words_to(s, blank, n).len() > 0,
    decreases n,
{
    if n > 0 {
        lemma_words(s, blank, n - 1);
    }
}

proof fn lemma_spaced_push(ws: Seq<Seq<char>>, w: Seq<char>)
    requires
        ws.len() > 0,
    ensures
        spaced(ws.push(w)) == spaced(ws) + seq![' '] + w,
{
    assert(ws.push(w).drop_last() =~= ws);
}

proof fn lemma_spaced_join(a: Seq<Seq<char>>, b: Seq<Seq<char>>)
    requires
        a.len() > 0,
        b.len() > 0,
    ensures
        spaced(a + b) == spaced(a) + seq![' '] + spaced(b),
    decreases b.len(),
{
    if b.len() == 1 {
        assert(a + b =~= a.push(b[0]));
        lemma_spaced_push(a, b[0]);
    } else {
        let c = b.drop_last();
        lemma_spaced_join(a, c);
        assert(a + b =~= (a + c).push(b.last()));
        lemma_spaced_push(a + c, b.last());
        lemma_spaced_push(c, b.last());
        assert(b =~= c.push(b.last()));
        assert(spaced(a + b) =~= spaced(a) + seq![' '] + spaced(b));
    }
}

/// The first `n` lines, with spaces between them, are the words of the first `n` groups with spaces
/// between them.
proof fn lemma_lines_hold_words(groups: Seq<Seq<Seq<char>>>, n: int)
    requires
        1 <= n <= groups.len(),
        forall|i: int| 0 <= i < groups.len() ==> (#[trigger] groups[i]).len() >= 1,
    ensures
        spaced(lines_of(groups).take(n)) == spaced(flat(groups, n)),
        flat(groups, n).len() >= 1,
    decreases n,
{
    let lines = lines_of(groups);
    if n == 1 {
        assert(lines.take(1) =~= seq![spaced(groups[0])]);
        assert(flat(groups, 0) =~= Seq::empty());
        assert(flat(groups, 1) =~= groups[0]);
    } else {
        lemma_lines_hold_words(groups, n - 1);
        assert(lines.take(n) =~= lines.take(n - 1).push(spaced(groups[n - 1])));
        lemma_spaced_push(lines.take(n - 1), spaced(groups[n - 1]));
        lemma_spaced_join(flat(groups, n - 1), groups[n - 1]);
    }
}

/// Wrapping loses no word and splits none: the lines, with spaces between them, are the text's
/// words with spaces between them.
pub proof fn law_wrap_loses_no_word<F: Fn(&str) -> bool>(fits: F, text: Seq<char>, lines: Seq<Seq<char>>)
    requires
        wrapped(fits, text, lines),
    ensures
        spaced(lines) == spaced(words(text)),
        lines.len() >= 1,
{
    if words(text).len() > 0 {
        let groups = choose|groups: Seq<Seq<Seq<char>>>|
            #[trigger] greedy(fits, groups) && flat(groups, groups.len() as int) == words(text) && lines == lines_of(
                groups,
            );
        assert forall|i: int| 0 <= i < groups.len() implies (#[trigger] groups[i]).len() >= 1 by {
            assert(grown(fits, groups[i]));
        }
        lemma_lines_hold_words(groups, groups.len() as int);
        assert(lines_of(groups).take(groups.len() as int) =~= lines_of(groups));
    }
}

/// The words of a text whose blanks are marked.
pub fn words_marked(chars: &Vec<char>, blank: &Vec<bool>) -> (r: Vec<String>)
    requires
        blank.len() == chars.len(),
    ensures
        texts(r@) == words_to(chars@, blank@, chars.len() as int),
{
    let mut out: Vec<String> = Vec::new();
    let mut in_word: bool = false;
    let mut i: usize = 0;
    assert(texts(out@) =~= Seq::empty());
    while i < chars.len()
        invariant
            i <= chars.len(),
            blank.len() == chars.len(),
            texts(out@) == words_to(chars@, blank@, i as int),
            in_word == (i > 0 && !blank@[i - 1]),
        decreases chars.len() - i,
    {
        let ghost next = words_to(chars@, blank@, i + 1);
        let ghost before = out@;
        proof {
            lemma_words(chars@, blank@, i as int);
            assert(texts(before).len() == before.len());
        }
        let c: char = chars[i];
        if blank[i] {
            in_word = false;
        } else if in_word {
            match out.pop() {
                Some(mut word) => {
                    assert(texts(before)[before.len() - 1] == word@);
                    push_char(&mut word, c);
                    out.push(word);
                },
                None => {},
            }
            assert(texts(out@) =~= next);
        } else {
            let mut word = String::new();
            push_char(&mut word, c);
            assert(word@ =~= seq![c]);
            out.push(word);
            in_word = true;
            assert(texts(out@) =~= next);
        }
        i = i + 1;
    }
    out
}

/// The words of a text.
pub fn words_of(text: &str) -> (r: Vec<String>)
    ensures
        texts(r@) == words(text@),
{
    let chars = chars_of(text);
    let blank = mark_blanks(&chars);
    words_marked(&chars, &blank)
}

/// Wraps a text: words go on a line for as long as `fits` says so of the line. A word that does
/// not fit by itself stands alone and overflows.
pub fn wrap<F: Fn(&str) -> bool>(text: &str, fits: &F) -> (r: Vec<String>)
    requires
        forall|t: &str| call_requires(*fits, (t,)),
    ensures
        wrapped(*fits, text@, texts(r@)),
{
    let all = words_of(text);
    wrap_words(&all, fits)
}

/// Wraps words: they go on a line for as long as `fits` says so of the line.
pub fn wrap_words<F: Fn(&str) -> bool>(all: &Vec<String>, fits: &F) -> (r: Vec<String>)
    requires
        forall|t: &str| call_requires(*fits, (t,)),
    ensures
        wrapped_words(*fits, texts(all@), texts(r@)),
{
    let ghost ws = texts(all@);
    let mut lines: Vec<String> = Vec::new();
    if all.len() == 0 {
        assert(ws.len() == 0);
        let blank = String::new();
        assert(blank@ =~= Seq::<char>::empty());
        lines.push(blank);
        assert(texts(lines@) =~= seq![Seq::<char>::empty()]);
        return lines;
    }
    let ghost mut groups: Seq<Seq<Seq<char>>> = Seq::empty();
    let ghost mut cur: Seq<Seq<char>> = seq![ws[0]];
    let mut line: String = all[0].clone();
    let mut i: usize = 1;
    proof {
        assert(ws[0] == all@[0]@);
        assert(flat(groups, 0) + cur =~= ws.take(1));
        assert(texts(lines@) =~= lines_of(groups));
    }
    while i < all.len()
        invariant
            forall|t: &str| call_requires(*fits, (t,)),
            ws == texts(all@),
            1 <= i <= all.len(),
            cur.len() >= 1,
            line@ == spaced(cur),
            grown(*fits, cur),
            forall|k: int| 0 <= k < groups.len() ==> grown(*fits, #[trigger] groups[k]),
            forall|k: int|
                0 <= k < groups.len() - 1 ==> answers(
                    *fits,
                    spaced(#[trigger] groups[k]) + seq![' '] + groups[k + 1][0],
                    false,
                ),
            groups.len() > 0 ==> answers(*fits, spaced(groups.last()) + seq![' '] + cur[0], false),
            flat(groups, groups.len() as int) + cur == ws.take(i as int),
            texts(lines@) == lines_of(groups),
        decreases all.len() - i,
    {
        let candidate = join3(line.as_str(), " ", all[i].as_str());
        let ghost w = ws[i as int];
        proof {
            assert(w == all@[i as int]@);
            reveal_strlit(" ");
            assert(" "@ =~= seq![' ']);
            assert(candidate@ == spaced(cur) + seq![' '] + w);
            lemma_spaced_push(cur, w);
            assert(ws.take(i + 1) =~= ws.take(i as int).push(w));
        }
        let t: &str = candidate.as_str();
        if fits(t) {
            proof {
                let longer = cur.push(w);
                assert(answers(*fits, candidate@, true)) by {
                    assert(t@ == candidate@);
                    assert(call_ensures(*fits, (t,), true));
                }
                assert forall|k: int| 2 <= k <= longer.len() implies answers(
                    *fits,
                    spaced(#[trigger] longer.take(k)),
                    true,
                ) by {
                    if k < longer.len() {
                        assert(longer.take(k) =~= cur.take(k));
                    } else {
                        assert(longer.take(k) =~= longer);
                    }
                }
                assert(flat(groups, groups.len() as int) + longer =~= ws.take(i + 1));
                cur = longer;
            }
            line = candidate;
        } else {
            proof {
                assert(answers(*fits, candidate@, false)) by {
                    assert(t@ == candidate@);
                    assert(call_ensures(*fits, (t,), false));
                }
                lemma_flat_push(groups, cur);
                let more = groups.push(cur);
                let one = seq![w];
                assert(flat(more, more.len() as int) + one =~= ws.take(i + 1));
                assert forall|k: int| 0 <= k < more.len() - 1 implies answers(
                    *fits,
                    spaced(#[trigger] more[k]) + seq![' '] + more[k + 1][0],
                    false,
                ) by {
                    if k < groups.len() - 1 {
                        assert(answers(*fits, spaced(groups[k]) + seq![' '] + groups[k + 1][0], false));
                    } else {
                        assert(more[k] == groups.last());
                    }
                }
                assert(grown(*fits, one)) by {
                    assert forall|k: int| 2 <= k <= one.len() implies answers(
                        *fits,
                        spaced(#[trigger] one.take(k)),
                        true,
                    ) by {}
                }
            }
            let ghost before = lines@;
            let full = line;
            let ghost fv = full@;
            lines.push(full);
            line = all[i].clone();
            proof {
                assert(texts(lines@) =~= texts(before).push(fv));
                assert(lines_of(groups.push(cur)) =~= lines_of(groups).push(spaced(cur)));
                groups = groups.push(cur);
                cur = seq![w];
                assert(spaced(cur) =~= w);
            }
        }
        i = i + 1;
    }
    let ghost before = lines@;
    let ghost lv = line@;
    lines.push(line);
    proof {
        lemma_flat_push(groups, cur);
        let more = groups.push(cur);
        assert(texts(lines@) =~= texts(before).push(lv));
        assert(lines_of(more) =~= lines_of(groups).push(spaced(cur)));
        assert(ws.take(ws.len() as int) =~= ws);
        assert forall|k: int| 0 <= k < more.len() - 1 implies answers(
            *fits,
            spaced(#[trigger] more[k]) + seq![' '] + more[k + 1][0],
            false,
        ) by {
            if k < groups.len() - 1 {
                assert(answers(*fits, spaced(groups[k]) + seq![' '] + groups[k + 1][0], false));
            } else {
                assert(more[k] == groups.last());
            }
        }
        assert(greedy(*fits, more));
        assert(flat(more, more.len() as int) == ws);
    }
    lines
}

proof fn lemma_flat_prefix<A>(groups: Seq<Seq<A>>, g: Seq<A>, n: int)
    requires
        0 <= n <= groups.len(),
    ensures
        flat(groups.push(g), n) == flat(groups, n),
    decreases n,
{
    if n > 0 {
        lemma_flat_prefix(groups, g, n - 1);
    }
}

proof fn lemma_flat_push<A>(groups: Seq<Seq<A>>, g: Seq<A>)
    ensures
        flat(groups.push(g), (groups.len() + 1) as int) == flat(groups, groups.len() as int) + g,
{
    lemma_flat_prefix(groups, g, groups.len() as int);
}

/// Whether `lines` is what one source line becomes: a blank one stays blank, one of at most
/// `safe` characters stays as it is, and any other is wrapped.
pub open spec fn laid_out<F: Fn(&str) -> bool>(
    fits: F,
    safe: usize,
    source: Seq<char>,
    lines: Seq<Seq<char>>,
) -> bool {
    if trimmed(source).len() == 0 {
        lines == seq![Seq::<char>::empty()]
    } else if source.len() <= safe {
        lines == seq![source]
    } else {
        wrapped(fits, source, lines)
    }
}

/// Whether `lines` is a document laid out, source line by source line.
pub open spec fn document<F: Fn(&str) -> bool>(
    fits: F,
    safe: usize,
    source: Seq<Seq<char>>,
    lines: Seq<Seq<char>>,
) -> bool {
    exists|parts: Seq<Seq<Seq<char>>>|
        parts.len() == source.len() && #[trigger] flat(parts, parts.len() as int) == lines && (forall|i: int|
            0 <= i < source.len() ==> laid_out(fits, safe, source[i], #[trigger] parts[i]))
}

fn lay_out<F: Fn(&str) -> bool>(source: &str, safe: usize, fits: &F) -> (r: Vec<String>)
    requires
        forall|t: &str| call_requires(*fits, (t,)),
    ensures
        laid_out(*fits, safe, source@, texts(r@)),
{
    let mut out: Vec<String> = Vec::new();
    if trim(source).as_str().unicode_len() == 0 {
        let blank = String::new();
        assert(blank@ =~= Seq::<char>::empty());
        out.push(blank);
        assert(texts(out@) =~= seq![Seq::<char>::empty()]);
        return out;
    }
    if source.unicode_len() <= safe {
        out.push(source.to_owned());
        assert(texts(out@) =~= seq![source@]);
        return out;
    }
    wrap(source, fits)
}

/// Lays a document out. Lines of at most `safe` characters, which cannot be too wide, are not
/// measured.
pub fn wrap_document<F: Fn(&str) -> bool>(source: &Vec<String>, safe: usize, fits: F) -> (r: Vec<String>)
    requires
        forall|t: &str| call_requires(fits, (t,)),
    ensures
        document(fits, safe, texts(source@), texts(r@)),
{
    let ghost all = texts(source@);
    let ghost mut parts: Seq<Seq<Seq<char>>> = Seq::empty();
    let mut out: Vec<String> = Vec::new();
    let mut i: usize = 0;
    assert(texts(out@) =~= flat(parts, 0));
    while i < source.len()
        invariant
            forall|t: &str| call_requires(fits, (t,)),
            all == texts(source@),
            i <= source.len(),
            parts.len() == i,
            texts(out@) == flat(parts, i as int),
            forall|k: int| 0 <= k < i ==> laid_out(fits, safe, all[k], #[trigger] parts[k]),
        decreases source.len() - i,
    {
        assert(all[i as int] == source@[i as int]@);
        let mut lines = lay_out(source[i].as_str(), safe, &fits);
        let ghost lv = texts(lines@);
        let ghost before = texts(out@);
        out.append(&mut lines);
        proof {
            assert(texts(out@) =~= before + lv);
            lemma_flat_push(parts, lv);
            parts = parts.push(lv);
        }
        i = i + 1;
    }
    proof {
        assert(flat(parts, parts.len() as int) == texts(out@));
    }
    out
}

} // verus!
