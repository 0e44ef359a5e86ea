//! Text helpers: comparison, joining, decimal numbers and trimming, all over character sequences.
use vstd::prelude::*;
use vstd::string::*;
use crate::seqs::views;

verus! {

/// The characters of each string of a list.
pub open spec fn texts(v: Seq<String>) -> Seq<Seq<char>> {
    views(v)
}

/// The characters of an optional string.
pub open spec fn text_of(s: Option<String>) -> Option<Seq<char>> {
    match s {
        Some(t) => Some(t@),
        None => None,
    }
}

/// The characters of optional words.
pub open spec fn literal_of(s: Option<&'static str>) -> Option<Seq<char>> {
    match s {
        Some(t) => Some(t@),
        None => None,
    }
}

/// Whether two texts hold the same characters.
pub fn same_text(a: &str, b: &str) -> (r: bool)
    ensures
        r == (a@ == b@),
{
    a.to_owned() == b.to_owned()
}

/// Whether an optional text is `b`.
pub fn is_text(a: &Option<String>, b: &str) -> (r: bool)
    ensures
        r == (text_of(*a) == Some(b@)),
{
    match a {
        Some(t) => same_text(t.as_str(), b),
        None => false,
    }
}

/// The first position of `s` in a list.
pub fn find_text(v: &Vec<String>, s: &str) -> (r: Option<usize>)
    ensures
        match (r, texts(v@).index_of_first(s@)) {
            (Some(k), Some(p)) => k == p && k < v.len() && v[k as int]@ == s@,
            (None, None) => true,
            _ => false,
        },
        r is Some <==> texts(v@).contains(s@),
{
    let mut i: usize = 0;
    while i < v.len()
        invariant
            i <= v.len(),
            forall|k: int| 0 <= k < i ==> (#[trigger] texts(v@)[k]) != s@,
        decreases v.len() - i,
    {
        if same_text(v[i].as_str(), s) {
            proof {
                assert(texts(v@)[i as int] == s@);
                texts(v@).index_of_first_ensures(s@);
            }
            return Some(i);
        }
        i = i + 1;
    }
    proof {
        texts(v@).index_of_first_ensures(s@);
    }
    None
}

/// Whether a list holds `s`.
pub fn has_text(v: &Vec<String>, s: &str) -> (r: bool)
    ensures
        r == texts(v@).contains(s@),
{
    find_text(v, s).is_some()
}

/// Whether two lists hold the same texts in the same order.
pub fn same_texts(a: &Vec<String>, b: &Vec<String>) -> (r: bool)
    ensures
        r == (texts(a@) == texts(b@)),
{
    if a.len() != b.len() {
        assert(texts(a@).len() != texts(b@).len());
        return false;
    }
    let mut i: usize = 0;
    while i < a.len()
        invariant
            a.len() == b.len(),
            i <= a.len(),
            forall|k: int| 0 <= k < i ==> (#[trigger] a[k])@ == b[k]@,
        decreases a.len() - i,
    {
        if !(a[i] == b[i]) {
            assert(texts(a@)[i as int] != texts(b@)[i as int]);
            return false;
        }
        i = i + 1;
    }
    assert(texts(a@) =~= texts(b@));
    true
}

/// A copy of a list.
pub fn copy_texts(v: &Vec<String>) -> (r: Vec<String>)
    ensures
        texts(r@) == texts(v@),
{
    let r = v.clone();
    assert(r@ =~= v@);
    r
}

/// The characters of a text.
pub fn chars_of(s: &str) -> (r: Vec<char>)
    ensures
        r@ == s@,
{
    let n: usize = s.unicode_len();
    let mut out: Vec<char> = Vec::new();
    let mut i: usize = 0;
    while i < n
        invariant
            n == s@.len(),
            i <= n,
            out@ == s@.subrange(0, i as int),
        decreases n - i,
    {
        out.push(s.get_char(i));
        i = i + 1;
        assert(out@ =~= s@.subrange(0, i as int));
    }
    assert(out@ =~= s@);
    out
}

/// Whether `a` comes before `b`, or is `b`, character by character in code order.
pub open spec fn lex_le(a: Seq<char>, b: Seq<char>) -> bool
    decreases a.len(),
{
    if a.len() == 0 {
        true
    } else if b.len() == 0 {
        false
    } else if a[0] != b[0] {
        (a[0] as int) < (b[0] as int)
    } else {
        lex_le(a.drop_first(), b.drop_first())
    }
}

pub proof fn lemma_lex_le_transitive(a: Seq<char>, b: Seq<char>, c: Seq<char>)
    requires
        lex_le(a, b),
        lex_le(b, c),
    ensures
        lex_le(a, c),
    decreases a.len(),
{
    if a.len() > 0 && b.len() > 0 && c.len() > 0 && a[0] == b[0] && b[0] == c[0] {
        lemma_lex_le_transitive(a.drop_first(), b.drop_first(), c.drop_first());
    }
}

pub proof fn lemma_lex_le_total(a: Seq<char>, b: Seq<char>)
    ensures
        lex_le(a, b) || lex_le(b, a),
        lex_le(a, a),
    decreases a.len() + b.len(),
{
    if a.len() > 0 {
        lemma_lex_le_total(a.drop_first(), if b.len() > 0 {
            b.drop_first()
        } else {
            b
        });
    }
}

pub proof fn lemma_lex_le_antisymmetric(a: Seq<char>, b: Seq<char>)
    requires
        lex_le(a, b),
        lex_le(b, a),
    ensures
        a == b,
    decreases a.len(),
{
    if a.len() > 0 && b.len() > 0 {
        lemma_lex_le_antisymmetric(a.drop_first(), b.drop_first());
        assert(a =~= seq![a[0]] + a.drop_first());
        assert(b =~= seq![b[0]] + b.drop_first());
    } else {
        assert(a =~= b);
    }
}

/// [`lex_le`] of two character lists.
pub fn chars_le(a: &Vec<char>, b: &Vec<char>) -> (r: bool)
    ensures
        r == lex_le(a@, b@),
{
    let mut i: usize = 0;
    assert(a@.subrange(0, a@.len() as int) =~= a@);
    assert(b@.subrange(0, b@.len() as int) =~= b@);
    while i < a.len() && i < b.len() && a[i] == b[i]
        invariant
            i <= a.len(),
            i <= b.len(),
            lex_le(a@, b@) == lex_le(a@.subrange(i as int, a@.len() as int), b@.subrange(i as int, b@.len() as int)),
        decreases a.len() - i,
    {
        proof {
            let x = a@.subrange(i as int, a@.len() as int);
            let y = b@.subrange(i as int, b@.len() as int);
            assert(x.drop_first() =~= a@.subrange(i + 1, a@.len() as int));
            assert(y.drop_first() =~= b@.subrange(i + 1, b@.len() as int));
        }
        i = i + 1;
    }
    if i >= a.len() {
        true
    } else if i >= b.len() {
        false
    } else {
        let x: char = a[i];
        let y: char = b[i];
        x < y
    }
}

/// What `str::to_lowercase` makes of a text.
pub uninterp spec fn lowercase_of(s: Seq<char>) -> Seq<char>;

/// `str::to_lowercase`: the result is a function of the text alone, named [`lowercase_of`].
#[verifier::external_body]
pub(crate) fn lowercase(s: &str) -> (r: String)
    ensures
        r@ == lowercase_of(s@),
{
    s.to_lowercase()
}

/// Whether a character is white space: it has Unicode's `White_Space` property.
pub open spec fn is_white_space(c: char) -> bool {
    ||| '\u{9}' <= c <= '\u{d}'
    ||| c == ' ' || c == '\u{85}' || c == '\u{a0}' || c == '\u{1680}'
    ||| '\u{2000}' <= c <= '\u{200a}'
    ||| c == '\u{2028}' || c == '\u{2029}' || c == '\u{202f}' || c == '\u{205f}' || c == '\u{3000}'
}

/// [`is_white_space`] of a character.
pub fn white_space(c: char) -> (r: bool)
    ensures
        r == is_white_space(c),
{
    ('\u{9}' <= c && c <= '\u{d}') || c == ' ' || c == '\u{85}' || c == '\u{a0}' || c == '\u{1680}' || ('\u{2000}'
        <= c && c <= '\u{200a}') || c == '\u{2028}' || c == '\u{2029}' || c == '\u{202f}' || c == '\u{205f}' || c
        == '\u{3000}'
}

/// Which characters of a text are white space.
pub open spec fn blanks(s: Seq<char>) -> Seq<bool> {
    Seq::new(s.len(), |i: int| is_white_space(s[i]))
}

/// Marks the white space of a text.
pub fn mark_blanks(chars: &Vec<char>) -> (r: Vec<bool>)
    ensures
        r@ == blanks(chars@),
{
    let mut out: Vec<bool> = Vec::new();
    let mut i: usize = 0;
    while i < chars.len()
        invariant
            i <= chars.len(),
            out.len() == i,
            forall|k: int| 0 <= k < i ==> out[k] == is_white_space(chars[k]),
        decreases chars.len() - i,
    {
        out.push(white_space(chars[i]));
        i = i + 1;
    }
    assert(out@ =~= blanks(chars@));
    out
}

/// The first position from `i` on that is not blank.
pub open spec fn lead_end(blank: Seq<bool>, i: int) -> int
    decreases blank.len() - i,
{
    if 0 <= i < blank.len() && blank[i] {
        lead_end(blank, i + 1)
    } else {
        i
    }
}

/// The end of what stands before the blanks at the end of `from..to`.
pub open spec fn tail_begin(blank: Seq<bool>, from: int, to: int) -> int
    decreases to,
{
    if 0 <= from < to <= blank.len() && blank[to - 1] {
        tail_begin(blank, from, to - 1)
    } else {
        to
    }
}

/// A text without the blanks at either end.
pub open spec fn trimmed_by(s: Seq<char>, blank: Seq<bool>) -> Seq<char> {
    s.subrange(lead_end(blank, 0), tail_begin(blank, lead_end(blank, 0), s.len() as int))
}

/// A text without white space at either end.
pub open spec fn trimmed(s: Seq<char>) -> Seq<char> {
    trimmed_by(s, blanks(s))
}

/// `s` without the characters that are marked at either end.
pub fn trim_marked(s: &str, blank: &Vec<bool>) -> (r: String)
    requires
        blank.len() == s@.len(),
    ensures
        r@ == trimmed_by(s@, blank@),
{
    let n: usize = s.unicode_len();
    let mut from: usize = 0;
    while from < n && blank[from]
        invariant
            n == s@.len(),
            n == blank.len(),
            from <= n,
            lead_end(blank@, 0) == lead_end(blank@, from as int),
        decreases n - from,
    {
        from = from + 1;
    }
    let mut to: usize = n;
    while to > from && blank[to - 1]
        invariant
            n == s@.len(),
            n == blank.len(),
            from <= to <= n,
            tail_begin(blank@, from as int, n as int) == tail_begin(blank@, from as int, to as int),
        decreases to,
    {
        to = to - 1;
    }
    s.substring_char(from, to).to_owned()
}

/// `s` without white space at either end.
pub fn trim(s: &str) -> (r: String)
    ensures
        r@ == trimmed(s@),
{
    let blank = mark_blanks(&chars_of(s));
    trim_marked(s, &blank)
}

/// One decimal digit.
pub open spec fn digit_char(d: nat) -> char {
    ('0' as u32 + d) as char
}

/// `n` in decimal, without leading zeros.
pub open spec fn decimal(n: nat) -> Seq<char>
    decreases n,
{
    if n < 10 {
        seq![digit_char(n)]
    } else {
        decimal(n / 10).push(digit_char(n % 10))
    }
}

fn digit_text(d: u128) -> (r: &'static str)
    requires
        d < 10,
    ensures
        r@ == seq![digit_char(d as nat)],
{
    proof {
        reveal_strlit("0");
        reveal_strlit("1");
        reveal_strlit("2");
        reveal_strlit("3");
        reveal_strlit("4");
        reveal_strlit("5");
        reveal_strlit("6");
        reveal_strlit("7");
        reveal_strlit("8");
        reveal_strlit("9");
    }
    let r = match d {
        0 => "0",
        1 => "1",
        2 => "2",
        3 => "3",
        4 => "4",
        5 => "5",
        6 => "6",
        7 => "7",
        8 => "8",
        _ => "9",
    };
    assert(r@ =~= seq![digit_char(d as nat)]);
    r
}

/// `n` in decimal.
pub fn decimal_text(n: u128) -> (r: String)
    ensures
        r@ == decimal(n as nat),
    decreases n,
{
    if n < 10 {
        digit_text(n).to_owned()
    } else {
        let mut r = decimal_text(n / 10);
        r.append(digit_text(n % 10));
        assert(r@ =~= decimal((n / 10) as nat).push(digit_char((n % 10) as nat)));
        r
    }
}

/// Two texts joined.
pub fn join2(a: &str, b: &str) -> (r: String)
    ensures
        r@ == a@ + b@,
{
    let mut r = a.to_owned();
    r.append(b);
    r
}

/// Three texts joined.
pub fn join3(a: &str, b: &str, c: &str) -> (r: String)
    ensures
        r@ == a@ + b@ + c@,
{
    let mut r = join2(a, b);
    r.append(c);
    r
}

/// `String::push`: the character is appended at the end.
#[verifier::external_body]
pub(crate) fn push_char(s: &mut String, c: char)
    ensures
        final(s)@ == old(s)@.push(c),
{
    s.push(c)
}

/// A text without its last character, if it has one. That an erase takes exactly one character is a
/// choice made here, and the same in every form.
pub open spec fn erased(s: Seq<char>) -> Seq<char> {
    if s.len() > 0 {
        s.drop_last()
    } else {
        s
    }
}

/// Erases the last character. Reports whether there was one.
pub fn erase(s: &mut String) -> (r: bool)
    ensures
        final(s)@ == erased(old(s)@),
        r == (old(s)@.len() > 0),
{
    let n: usize = s.as_str().unicode_len();
    if n == 0 {
        return false;
    }
    let shorter = s.as_str().substring_char(0, n - 1).to_owned();
    *s = shorter;
    assert(s@ =~= old(s)@.drop_last());
    true
}

/// A text with a character added, where it is still shorter than `max`.
pub open spec fn typed(s: Seq<char>, c: char, max: usize) -> Seq<char> {
    if s.len() < max {
        s.push(c)
    } else {
        s
    }
}

/// Types a character into a field that holds at most `max`.
pub fn type_char(s: &mut String, c: char, max: usize)
    ensures
        final(s)@ == typed(old(s)@, c, max),
{
    if s.as_str().unicode_len() < max {
        push_char(s, c);
    }
}

/// Different numbers read differently.
pub proof fn lemma_decimal_injective(a: nat, b: nat)
    requires
        decimal(a) == decimal(b),
    ensures
        a == b,
    decreases a,
{
    lemma_decimal_len(a);
    lemma_decimal_len(b);
    if a < 10 {
        if b >= 10 {
            lemma_decimal_len(b / 10);
            assert(decimal(a).len() == 1);
        } else {
            assert(decimal(a)[0] == digit_char(a));
            assert(decimal(b)[0] == digit_char(b));
            lemma_digit_injective(a, b);
        }
    } else if b < 10 {
        lemma_decimal_len(a / 10);
        assert(decimal(b).len() == 1);
    } else {
        assert(decimal(a).drop_last() =~= decimal(a / 10));
        assert(decimal(b).drop_last() =~= decimal(b / 10));
        assert(decimal(a).last() == digit_char(a % 10));
        assert(decimal(b).last() == digit_char(b % 10));
        lemma_decimal_injective(a / 10, b / 10);
        lemma_digit_injective(a % 10, b % 10);
    }
}

proof fn lemma_digit_injective(a: nat, b: nat)
    requires
        a < 10,
        b < 10,
        digit_char(a) == digit_char(b),
    ensures
        a == b,
{
    assert(digit_char(a) as int == 48 + a);
    assert(digit_char(b) as int == 48 + b);
}

proof fn lemma_decimal_len(n: nat)
    ensures
        decimal(n).len() >= 1,
    decreases n,
{
    if n >= 10 {
        lemma_decimal_len(n / 10);
    }
}

/// A run of blanks at the front ends where the first other character stands, or at the end.
proof fn lemma_lead_end(blank: Seq<bool>, i: int)
    requires
        0 <= i <= blank.len(),
    ensures
        i <= lead_end(blank, i) <= blank.len(),
        forall|k: int| i <= k < lead_end(blank, i) ==> #[trigger] blank[k],
        lead_end(blank, i) < blank.len() ==> !blank[lead_end(blank, i)],
    decreases blank.len() - i,
{
    if i < blank.len() && blank[i] {
        lemma_lead_end(blank, i + 1);
    }
}

/// A run of blanks at the back begins after the last other character.
proof fn lemma_tail_begin(blank: Seq<bool>, from: int, to: int)
    requires
        0 <= from <= to <= blank.len(),
    ensures
        from <= tail_begin(blank, from, to) <= to,
        forall|k: int| tail_begin(blank, from, to) <= k < to ==> #[trigger] blank[k],
        tail_begin(blank, from, to) > from ==> !blank[tail_begin(blank, from, to) - 1],
    decreases to,
{
    if from < to && blank[to - 1] {
        lemma_tail_begin(blank, from, to - 1);
    }
}

/// What is left of a text without the white space around it is a stretch of the text that neither begins nor
/// ends with any, and all that was taken off is white space.
pub proof fn law_trimmed(s: Seq<char>)
    ensures
        exists|a: int, b: int|
            0 <= a <= b <= s.len() && trimmed(s) == #[trigger] s.subrange(a, b) && (forall|k: int|
                0 <= k < a || b <= k < s.len() ==> is_white_space(#[trigger] s[k])),
        trimmed(s).len() > 0 ==> !is_white_space(trimmed(s)[0]) && !is_white_space(trimmed(s).last()),
        trimmed(s).len() == 0 <==> (forall|k: int| 0 <= k < s.len() ==> is_white_space(#[trigger] s[k])),
{
    let blank = blanks(s);
    let a = lead_end(blank, 0);
    lemma_lead_end(blank, 0);
    let b = tail_begin(blank, a, s.len() as int);
    lemma_tail_begin(blank, a, s.len() as int);
    assert(trimmed(s) == s.subrange(a, b));
    assert forall|k: int| 0 <= k < a || b <= k < s.len() implies is_white_space(#[trigger] s[k]) by {
        assert(blank[k]);
    }
    if a < b {
        assert(!blank[a]);
        assert(!blank[b - 1]);
        assert(!is_white_space(s[a]));
    }
}

/// The number that a text of digits stands for.
pub open spec fn number_of(s: Seq<char>) -> int
    decreases s.len(),
{
    if s.len() == 0 {
        0
    } else {
        number_of(s.drop_last()) * 10 + (s.last() as int - '0' as int)
    }
}

/// A number written out reads as that number, is all digits, and has no zero in front of others.
pub proof fn law_decimal_reads_back(n: nat)
    ensures
        number_of(decimal(n)) == n,
        decimal(n).len() >= 1,
        forall|k: int| 0 <= k < decimal(n).len() ==> '0' <= #[trigger] decimal(n)[k] <= '9',
        n > 0 ==> decimal(n)[0] != '0',
    decreases n,
{
    if n < 10 {
        assert(decimal(n).drop_last() =~= Seq::<char>::empty());
        assert(number_of(Seq::<char>::empty()) == 0);
        assert(decimal(n).last() == digit_char(n));
    } else {
        law_decimal_reads_back(n / 10);
        let d = decimal(n);
        assert(d.drop_last() =~= decimal(n / 10));
        assert(d.last() == digit_char(n % 10));
        assert forall|k: int| 0 <= k < d.len() implies '0' <= #[trigger] d[k] <= '9' by {
            if k < d.len() - 1 {
                assert(d[k] == decimal(n / 10)[k]);
            }
        }
        assert(d[0] == decimal(n / 10)[0]);
    }
}

/// Of two texts the one with the lower character where they first differ comes first, and a text comes
/// before every longer one that begins with it.
pub proof fn law_text_order(a: Seq<char>, b: Seq<char>, k: int)
    requires
        0 <= k <= a.len(),
        k <= b.len(),
        forall|j: int| 0 <= j < k ==> a[j] == b[j],
    ensures
        k < a.len() && k < b.len() && (a[k] as int) < (b[k] as int) ==> lex_le(a, b) && !lex_le(b, a),
        k == a.len() ==> lex_le(a, b),
        k == a.len() && k < b.len() ==> !lex_le(b, a),
    decreases k,
{
    if k > 0 {
        assert(a[0] == b[0]);
        assert forall|j: int| 0 <= j < k - 1 implies a.drop_first()[j] == b.drop_first()[j] by {
            assert(a[j + 1] == b[j + 1]);
        }
        law_text_order(a.drop_first(), b.drop_first(), k - 1);
    }
}

/// Typing adds one character at the end while there is room, and erasing takes the last one off.
pub proof fn law_typing(s: Seq<char>, c: char, max: usize)
    ensures
        s.len() < max ==> typed(s, c, max).len() == s.len() + 1 && typed(s, c, max).last() == c && erased(
            typed(s, c, max),
        ) == s,
        s.len() >= max ==> typed(s, c, max) == s,
        s.len() > 0 ==> erased(s) == s.subrange(0, s.len() - 1),
        erased(Seq::empty()) == Seq::<char>::empty(),
{
}

} // verus!
