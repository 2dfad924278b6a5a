//! Character-level text handling: whitespace, line and word splitting,
//! trimming, substring search and decimal numbers, each with a specification
//! over the characters of the text.
use vstd::prelude::*;
use vstd::string::*;

verus! {

broadcast use vstd::string::group_string_axioms;

/// The characters that carry the Unicode `White_Space` property.
pub open spec fn is_space(c: char) -> bool {
    let u = c as u32;
    ||| 0x09 <= u <= 0x0D
    ||| u == 0x20
    ||| u == 0x85
    ||| u == 0xA0
    ||| u == 0x1680
    ||| 0x2000 <= u <= 0x200A
    ||| u == 0x2028
    ||| u == 0x2029
    ||| u == 0x202F
    ||| u == 0x205F
    ||| u == 0x3000
}

/// Whether `c` is a Unicode white-space character.
pub fn is_whitespace(c: char) -> (b: bool)
    ensures
        b == is_space(c),
{
    let u = c as u32;
    (0x09 <= u && u <= 0x0D) || u == 0x20 || u == 0x85 || u == 0xA0 || u == 0x1680 || (0x2000
        <= u && u <= 0x200A) || u == 0x2028 || u == 0x2029 || u == 0x202F || u == 0x205F || u
        == 0x3000
}

pub open spec fn is_digit(c: char) -> bool {
    '0' <= c <= '9'
}

/// Whether `c` is one of the ASCII digits `0` to `9`.
pub fn is_ascii_digit(c: char) -> (b: bool)
    ensures
        b == is_digit(c),
{
    '0' <= c && c <= '9'
}

/// `String::push`, which std documents as appending the given `char` to the
/// end of the string. The contract claims that the string's characters grow
/// by exactly `ch`.
pub assume_specification[ String::push ](s: &mut String, ch: char)
    ensures
        final(s)@ == old(s)@.push(ch),
;

/// The characters of `s`, in order.
pub fn chars_of(s: &str) -> (v: Vec<char>)
    ensures
        v@ == s@,
{
    let mut v: Vec<char> = Vec::new();
    for c in it: s.chars()
        invariant
            v@ == it.seq().take(it.index() as int),
            it.seq() == s@,
    {
        v.push(c);
    }
    v
}

/// The string made of the characters `cs`.
pub fn string_of(cs: &[char]) -> (s: String)
    ensures
        s@ == cs@,
{
    let mut s = String::new();
    let mut i: usize = 0;
    while i < cs.len()
        invariant
            i <= cs.len(),
            s@ == cs@.take(i as int),
        decreases cs.len() - i,
    {
        s.push(cs[i]);
        i = i + 1;
        assert(cs@.take(i as int) == cs@.take(i - 1).push(cs@[i - 1]));
    }
    assert(cs@.take(cs.len() as int) == cs@);
    s
}


// ---- trimming -------------------------------------------------------------

/// `s` without its leading white space.
pub open spec fn trim_start(s: Seq<char>) -> Seq<char>
    decreases s.len(),
{
    if s.len() > 0 && is_space(s[0]) {
        trim_start(s.drop_first())
    } else {
        s
    }
}

/// `s` without its trailing white space.
pub open spec fn trim_end(s: Seq<char>) -> Seq<char>
    decreases s.len(),
{
    if s.len() > 0 && is_space(s.last()) {
        trim_end(s.drop_last())
    } else {
        s
    }
}

/// `s` without leading and trailing white space.
pub open spec fn trim(s: Seq<char>) -> Seq<char> {
    trim_end(trim_start(s))
}

proof fn lemma_trim_start_skip(s: Seq<char>, i: int)
    requires
        0 <= i <= s.len(),
        forall|k: int| 0 <= k < i ==> is_space(#[trigger] s[k]),
        i == s.len() || !is_space(s[i]),
    ensures
        trim_start(s) == s.skip(i),
    decreases i,
{
    if i == 0 {
        assert(s.skip(0) == s);
    } else {
        let t = s.drop_first();
        assert forall|k: int| 0 <= k < i - 1 implies is_space(#[trigger] t[k]) by {
            assert(t[k] == s[k + 1]);
        }
        if i - 1 < t.len() {
            assert(t[i - 1] == s[i]);
        }
        lemma_trim_start_skip(t, i - 1);
        assert(t.skip(i - 1) == s.skip(i));
    }
}

proof fn lemma_trim_end_take(s: Seq<char>, j: int)
    requires
        0 <= j <= s.len(),
        forall|k: int| j <= k < s.len() ==> is_space(#[trigger] s[k]),
        j == 0 || !is_space(s[j - 1]),
    ensures
        trim_end(s) == s.take(j),
    decreases s.len() - j,
{
    if j == s.len() {
        assert(s.take(j) == s);
        if s.len() > 0 {
            assert(s.last() == s[j - 1]);
        }
    } else {
        let t = s.drop_last();
        assert(is_space(s.last()));
        assert forall|k: int| j <= k < t.len() implies is_space(#[trigger] t[k]) by {
            assert(t[k] == s[k]);
        }
        if j > 0 {
            assert(t[j - 1] == s[j - 1]);
        }
        lemma_trim_end_take(t, j);
        assert(t.take(j) == s.take(j));
    }
}

/// The characters of `s` between the first and the last one that is not
/// white space, as positions `(start, end)`.
pub fn trim_bounds(s: &[char]) -> (r: (usize, usize))
    ensures
        r.0 <= r.1 <= s.len(),
        trim(s@) == s@.subrange(r.0 as int, r.1 as int),
{
    let mut i: usize = 0;
    while i < s.len() && is_whitespace(s[i])
        invariant
            i <= s.len(),
            forall|k: int| 0 <= k < i ==> is_space(#[trigger] s@[k]),
        decreases s.len() - i,
    {
        i = i + 1;
    }
    let mut j: usize = s.len();
    while j > i && is_whitespace(s[j - 1])
        invariant
            i <= j <= s.len(),
            forall|k: int| j <= k < s.len() ==> is_space(#[trigger] s@[k]),
        decreases j,
    {
        j = j - 1;
    }
    proof {
        lemma_trim_start_skip(s@, i as int);
        let t = s@.skip(i as int);
        assert forall|k: int| j - i <= k < t.len() implies is_space(#[trigger] t[k]) by {
            assert(t[k] == s@[k + i]);
        }
        if j - i > 0 {
            assert(t[j - i - 1] == s@[j - 1]);
        }
        lemma_trim_end_take(t, j - i);
        assert(t.take(j - i) == s@.subrange(i as int, j as int));
    }
    (i, j)
}

/// `s` without leading and trailing white space.
pub fn trim_chars(s: &[char]) -> (r: Vec<char>)
    ensures
        r@ == trim(s@),
{
    let (a, b) = trim_bounds(s);
    slice_range(s, a, b)
}

/// The characters `s[from..to]` as a vector.
pub fn slice_range(s: &[char], from: usize, to: usize) -> (r: Vec<char>)
    requires
        from <= to <= s.len(),
    ensures
        r@ == s@.subrange(from as int, to as int),
{
    let mut r: Vec<char> = Vec::new();
    let mut k: usize = from;
    while k < to
        invariant
            from <= k <= to <= s.len(),
            r@ == s@.subrange(from as int, k as int),
        decreases to - k,
    {
        r.push(s[k]);
        k = k + 1;
        assert(r@ == s@.subrange(from as int, k as int));
    }
    r
}

/// `s` without leading and trailing white space.
pub fn trim_str(s: &str) -> (r: String)
    ensures
        r@ == trim(s@),
{
    let cs = chars_of(s);
    let t = trim_chars(cs.as_slice());
    string_of(t.as_slice())
}

// ---- substring search -----------------------------------------------------

/// `needle` occurs in `hay` starting at position `i`.
pub open spec fn occurs_at(hay: Seq<char>, needle: Seq<char>, i: int) -> bool {
    0 <= i && i + needle.len() <= hay.len() && hay.subrange(i, i + needle.len()) == needle
}

/// The first position at or after `i` where `needle` occurs in `hay`.
pub open spec fn find_from(hay: Seq<char>, needle: Seq<char>, i: nat) -> Option<int>
    decreases hay.len() + 1 - i,
{
    if i + needle.len() > hay.len() {
        None
    } else if occurs_at(hay, needle, i as int) {
        Some(i as int)
    } else {
        find_from(hay, needle, i + 1)
    }
}

/// The first position where `needle` occurs in `hay`, as `str::find` gives it
/// (counted in characters).
pub open spec fn find(hay: Seq<char>, needle: Seq<char>) -> Option<int> {
    find_from(hay, needle, 0)
}

pub proof fn lemma_find_from(hay: Seq<char>, needle: Seq<char>, i: nat)
    ensures
        find_from(hay, needle, i) matches Some(p) ==> {
            &&& i <= p
            &&& occurs_at(hay, needle, p)
            &&& forall|q: int| i <= q < p ==> !occurs_at(hay, needle, q)
        },
        find_from(hay, needle, i) is None ==> forall|q: int|
            i <= q ==> !#[trigger] occurs_at(hay, needle, q),
    decreases hay.len() + 1 - i,
{
    if i + needle.len() <= hay.len() && !occurs_at(hay, needle, i as int) {
        lemma_find_from(hay, needle, i + 1);
    }
}

/// Whether `needle` occurs in `hay` at position `i`.
pub fn occurs_at_exec(hay: &[char], needle: &[char], i: usize) -> (b: bool)
    ensures
        b == occurs_at(hay@, needle@, i as int),
{
    if i > hay.len() || needle.len() > hay.len() - i {
        return false;
    }
    let mut k: usize = 0;
    while k < needle.len()
        invariant
            k <= needle.len(),
            i + needle.len() <= hay.len(),
            forall|m: int| 0 <= m < k ==> hay@[i + m] == needle@[m],
        decreases needle.len() - k,
    {
        if hay[i + k] != needle[k] {
            assert(hay@.subrange(i as int, i + needle.len())[k as int] != needle@[k as int]);
            return false;
        }
        k = k + 1;
    }
    assert(hay@.subrange(i as int, i + needle.len()) == needle@);
    true
}

/// The first position where `needle` occurs in `hay`.
pub fn find_chars(hay: &[char], needle: &[char]) -> (r: Option<usize>)
    ensures
        match r {
            Some(p) => find(hay@, needle@) == Some(p as int),
            None => find(hay@, needle@) is None,
        },
{
    if needle.len() > hay.len() {
        return None;
    }
    if needle.len() == 0 {
        assert(hay@.subrange(0, 0) == needle@);
        return Some(0);
    }
    let mut i: usize = 0;
    while i <= hay.len() - needle.len()
        invariant
            0 < needle.len() <= hay.len(),
            i <= hay.len() - needle.len() + 1,
            find(hay@, needle@) == find_from(hay@, needle@, i as nat),
        decreases hay.len() - i,
    {
        if occurs_at_exec(hay, needle, i) {
            return Some(i);
        }
        i = i + 1;
    }
    None
}


// ---- lines ----------------------------------------------------------------

/// The end of the line that starts at `i`: the position of the next `\n`,
/// or the end of the text.
pub open spec fn line_end(s: Seq<char>, i: int) -> int
    decreases s.len() - i,
{
    if i >= s.len() || s[i] == '\n' {
        i
    } else {
        line_end(s, i + 1)
    }
}

pub proof fn lemma_line_end(s: Seq<char>, i: int)
    requires
        0 <= i <= s.len(),
    ensures
        i <= line_end(s, i) <= s.len(),
        line_end(s, i) < s.len() ==> s[line_end(s, i)] == '\n',
        forall|k: int| i <= k < line_end(s, i) ==> s[k] != '\n',
    decreases s.len() - i,
{
    if i < s.len() && s[i] != '\n' {
        lemma_line_end(s, i + 1);
    }
}

/// A line without the `\r` of a `\r\n` ending.
pub open spec fn strip_cr(l: Seq<char>) -> Seq<char> {
    if l.len() > 0 && l.last() == '\r' {
        l.drop_last()
    } else {
        l
    }
}

/// The lines of `s` from position `i` on, as `str::lines` splits them: at
/// each `\n`, dropping a `\r` right before it; a final `\n` opens no new line.
pub open spec fn lines_from(s: Seq<char>, i: int) -> Seq<Seq<char>>
    decreases s.len() - i,
{
    if i < 0 || i >= s.len() {
        Seq::empty()
    } else {
        let e = line_end(s, i);
        proof {
            lemma_line_end(s, i);
        }
        if e < s.len() {
            seq![strip_cr(s.subrange(i, e))] + lines_from(s, e + 1)
        } else {
            seq![s.subrange(i, e)]
        }
    }
}

/// The lines of `s`, as `str::lines` gives them.
pub open spec fn text_lines(s: Seq<char>) -> Seq<Seq<char>> {
    lines_from(s, 0)
}

/// The views of a vector of character vectors.
pub open spec fn views(v: Seq<Vec<char>>) -> Seq<Seq<char>> {
    v.map_values(|l: Vec<char>| l@)
}

/// The lines of `s`, split as `str::lines` does.
pub fn split_lines(s: &[char]) -> (r: Vec<Vec<char>>)
    ensures
        views(r@) == text_lines(s@),
{
    let mut r: Vec<Vec<char>> = Vec::new();
    let mut start: usize = 0;
    while start < s.len()
        invariant
            start <= s.len(),
            text_lines(s@) == views(r@) + lines_from(s@, start as int),
        decreases s.len() - start,
    {
        let mut e: usize = start;
        while e < s.len() && s[e] != '\n'
            invariant
                start <= e <= s.len(),
                line_end(s@, start as int) == line_end(s@, e as int),
            decreases s.len() - e,
        {
            e = e + 1;
        }
        proof {
            lemma_line_end(s@, start as int);
        }
        let ghost before = views(r@);
        if e < s.len() {
            let mut line = slice_range(s, start, e);
            if line.len() > 0 && line[line.len() - 1] == '\r' {
                line.pop();
            }
            r.push(line);
            assert(views(r@) == before + seq![strip_cr(s@.subrange(start as int, e as int))]);
            start = e + 1;
        } else {
            let line = slice_range(s, start, e);
            r.push(line);
            assert(views(r@) == before + seq![s@.subrange(start as int, e as int)]);
            assert(lines_from(s@, s.len() as int) == Seq::<Seq<char>>::empty());
            start = e;
        }
    }
    assert(lines_from(s@, start as int) == Seq::<Seq<char>>::empty());
    r
}

// ---- words ----------------------------------------------------------------

/// The first position at or after `i` that is not white space.
pub open spec fn skip_space(s: Seq<char>, i: int) -> int
    decreases s.len() - i,
{
    if 0 <= i < s.len() && is_space(s[i]) {
        skip_space(s, i + 1)
    } else {
        i
    }
}

/// The end of the word that starts at `i`.
pub open spec fn word_end(s: Seq<char>, i: int) -> int
    decreases s.len() - i,
{
    if 0 <= i < s.len() && !is_space(s[i]) {
        word_end(s, i + 1)
    } else {
        i
    }
}

pub proof fn lemma_skip_space(s: Seq<char>, i: int)
    requires
        0 <= i <= s.len(),
    ensures
        i <= skip_space(s, i) <= s.len(),
        skip_space(s, i) < s.len() ==> !is_space(s[skip_space(s, i)]),
    decreases s.len() - i,
{
    if i < s.len() && is_space(s[i]) {
        lemma_skip_space(s, i + 1);
    }
}

pub proof fn lemma_word_end(s: Seq<char>, i: int)
    requires
        0 <= i <= s.len(),
    ensures
        i <= word_end(s, i) <= s.len(),
        i < s.len() && !is_space(s[i]) ==> i < word_end(s, i),
        word_end(s, i) < s.len() ==> is_space(s[word_end(s, i)]),
    decreases s.len() - i,
{
    if i < s.len() && !is_space(s[i]) {
        lemma_word_end(s, i + 1);
    }
}

/// The words of `s` from position `i` on: the maximal runs of characters that
/// are not white space, as `str::split_whitespace` gives them.
pub open spec fn words_from(s: Seq<char>, i: int) -> Seq<Seq<char>>
    decreases s.len() - i,
{
    if i < 0 || i > s.len() {
        Seq::empty()
    } else {
        let b = skip_space(s, i);
        proof {
            lemma_skip_space(s, i);
            lemma_word_end(s, b);
        }
        if b >= s.len() {
            Seq::empty()
        } else {
            seq![s.subrange(b, word_end(s, b))] + words_from(s, word_end(s, b))
        }
    }
}

/// The words of `s`, as `str::split_whitespace` gives them.
pub open spec fn words(s: Seq<char>) -> Seq<Seq<char>> {
    words_from(s, 0)
}

/// The words of `s`, split as `str::split_whitespace` does.
pub fn split_words(s: &[char]) -> (r: Vec<Vec<char>>)
    ensures
        views(r@) == words(s@),
{
    let mut r: Vec<Vec<char>> = Vec::new();
    let mut i: usize = 0;
    loop
        invariant
            i <= s.len(),
            words(s@) == views(r@) + words_from(s@, i as int),
        decreases s.len() - i,
    {
        let mut b: usize = i;
        while b < s.len() && is_whitespace(s[b])
            invariant
                i <= b <= s.len(),
                skip_space(s@, i as int) == skip_space(s@, b as int),
            decreases s.len() - b,
        {
            b = b + 1;
        }
        if b >= s.len() {
            return r;
        }
        let mut e: usize = b;
        while e < s.len() && !is_whitespace(s[e])
            invariant
                b <= e <= s.len(),
                word_end(s@, b as int) == word_end(s@, e as int),
            decreases s.len() - e,
        {
            e = e + 1;
        }
        proof {
            lemma_word_end(s@, b as int);
        }
        let ghost before = views(r@);
        r.push(slice_range(s, b, e));
        assert(views(r@) == before + seq![s@.subrange(b as int, e as int)]);
        i = e;
    }
}

// ---- decimal numbers ------------------------------------------------------

/// The digit character for `d < 10`.
pub open spec fn digit_char(d: nat) -> char {
    seq!['0', '1', '2', '3', '4', '5', '6', '7', '8', '9'][d as int]
}

/// The decimal representation of `n`, without leading zeros.
pub open spec fn decimal(n: nat) -> Seq<char>
    decreases n,
{
    if n < 10 {
        seq![digit_char(n)]
    } else {
        decimal(n / 10).push(digit_char(n % 10))
    }
}

fn digit_to_char(d: u64) -> (c: char)
    requires
        d < 10,
    ensures
        c == digit_char(d as nat),
{
    if d == 0 { '0' }
    else if d == 1 { '1' }
    else if d == 2 { '2' }
    else if d == 3 { '3' }
    else if d == 4 { '4' }
    else if d == 5 { '5' }
    else if d == 6 { '6' }
    else if d == 7 { '7' }
    else if d == 8 { '8' }
    else { '9' }
}

/// Appends the decimal representation of `n` to `out`.
pub fn push_decimal(out: &mut String, n: u64)
    ensures
        final(out)@ == old(out)@ + decimal(n as nat),
    decreases n,
{
    if n < 10 {
        out.push(digit_to_char(n));
    } else {
        push_decimal(out, n / 10);
        out.push(digit_to_char(n % 10));
    }
}

/// The decimal representation of `n`, as `u64::to_string` gives it.
pub fn u64_to_string(n: u64) -> (s: String)
    ensures
        s@ == decimal(n as nat),
{
    let mut s = String::new();
    push_decimal(&mut s, n);
    s
}

/// The value of a sequence of decimal digits.
pub open spec fn digits_value(s: Seq<char>) -> nat
    decreases s.len(),
{
    if s.len() == 0 {
        0
    } else {
        digits_value(s.drop_last()) * 10 + ((s.last() as u32) - 48) as nat
    }
}

proof fn lemma_digits_value_mono(s: Seq<char>, j: int, k: int)
    requires
        0 <= j <= k <= s.len(),
        forall|m: int| 0 <= m < s.len() ==> is_digit(#[trigger] s[m]),
    ensures
        digits_value(s.take(j)) <= digits_value(s.take(k)),
    decreases k - j,
{
    if j < k {
        lemma_digits_value_mono(s, j, k - 1);
        assert(s.take(k).drop_last() == s.take(k - 1));
        assert(s.take(k).last() == s[k - 1]);
    }
}

/// The value of the decimal digits `s`, or `None` where it does not fit in a
/// `u64` (as `str::parse::<u64>` decides for a non-empty run of digits).
pub fn parse_digits(s: &[char]) -> (r: Option<u64>)
    requires
        forall|m: int| 0 <= m < s.len() ==> is_digit(#[trigger] s@[m]),
    ensures
        match r {
            Some(v) => v == digits_value(s@),
            None => digits_value(s@) > u64::MAX,
        },
{
    let mut v: u64 = 0;
    let mut i: usize = 0;
    while i < s.len()
        invariant
            i <= s.len(),
            forall|m: int| 0 <= m < s.len() ==> is_digit(#[trigger] s@[m]),
            v == digits_value(s@.take(i as int)),
        decreases s.len() - i,
    {
        let d = (s[i] as u32 - 48) as u64;
        assert(s@.take(i + 1).drop_last() == s@.take(i as int));
        assert(s@.take(i + 1).last() == s@[i as int]);
        proof {
            lemma_digits_value_mono(s@, i + 1, s.len() as int);
            assert(s@.take(s.len() as int) == s@);
        }
        match v.checked_mul(10) {
            Some(t) => match t.checked_add(d) {
                Some(n) => {
                    v = n;
                },
                None => {
                    return None;
                },
            },
            None => {
                return None;
            },
        }
        i = i + 1;
    }
    assert(s@.take(s.len() as int) == s@);
    Some(v)
}


// ---- ordering -------------------------------------------------------------

/// `a` sorts strictly before `b`, character by character; this is the order
/// of `str` (the byte order of UTF-8 keeps the order of code points).
pub open spec fn lex_lt(a: Seq<char>, b: Seq<char>) -> bool
    decreases a.len(),
{
    if a.len() == 0 {
        b.len() > 0
    } else if b.len() == 0 {
        false
    } else if a[0] < b[0] {
        true
    } else if a[0] > b[0] {
        false
    } else {
        lex_lt(a.drop_first(), b.drop_first())
    }
}

pub proof fn lemma_lex_irreflexive(a: Seq<char>)
    ensures
        !lex_lt(a, a),
    decreases a.len(),
{
    if a.len() > 0 {
        lemma_lex_irreflexive(a.drop_first());
    }
}

pub proof fn lemma_lex_total(a: Seq<char>, b: Seq<char>)
    ensures
        lex_lt(a, b) || a == b || lex_lt(b, a),
    decreases a.len(),
{
    if a.len() > 0 && b.len() > 0 && a[0] == b[0] {
        lemma_lex_total(a.drop_first(), b.drop_first());
        if a.drop_first() == b.drop_first() {
            assert(a == seq![a[0]] + a.drop_first());
            assert(b == seq![b[0]] + b.drop_first());
        }
    } else if a.len() == 0 && b.len() == 0 {
        assert(a == b);
    }
}

pub proof fn lemma_lex_asymmetric(a: Seq<char>, b: Seq<char>)
    ensures
        lex_lt(a, b) ==> !lex_lt(b, a),
    decreases a.len(),
{
    if a.len() > 0 && b.len() > 0 && a[0] == b[0] {
        lemma_lex_asymmetric(a.drop_first(), b.drop_first());
    }
}

pub proof fn lemma_lex_transitive(a: Seq<char>, b: Seq<char>, c: Seq<char>)
    requires
        lex_lt(a, b),
        lex_lt(b, c),
    ensures
        lex_lt(a, c),
    decreases a.len(),
{
    if a.len() > 0 && b.len() > 0 && c.len() > 0 && a[0] == b[0] && b[0] == c[0] {
        lemma_lex_transitive(a.drop_first(), b.drop_first(), c.drop_first());
    }
}

/// Whether `a` sorts strictly before `b`.
pub fn lex_less(a: &[char], b: &[char]) -> (r: bool)
    ensures
        r == lex_lt(a@, b@),
{
    let mut i: usize = 0;
    assert(a@.skip(0) == a@ && b@.skip(0) == b@);
    while i < a.len() && i < b.len()
        invariant
            i <= a.len(),
            i <= b.len(),
            lex_lt(a@, b@) == lex_lt(a@.skip(i as int), b@.skip(i as int)),
        decreases a.len() - i,
    {
        if a[i] < b[i] {
            return true;
        }
        if a[i] > b[i] {
            return false;
        }
        assert(a@.skip(i as int).drop_first() == a@.skip(i + 1));
        assert(b@.skip(i as int).drop_first() == b@.skip(i + 1));
        i = i + 1;
    }
    i < b.len()
}

/// Whether `a` and `b` hold the same characters.
pub fn chars_eq(a: &[char], b: &[char]) -> (r: bool)
    ensures
        r == (a@ == b@),
{
    if a.len() != b.len() {
        return false;
    }
    let mut i: usize = 0;
    while i < a.len()
        invariant
            i <= a.len() == b.len(),
            forall|m: int| 0 <= m < i ==> a@[m] == b@[m],
        decreases a.len() - i,
    {
        if a[i] != b[i] {
            return false;
        }
        i = i + 1;
    }
    assert(a@ == b@);
    true
}

} // verus!
