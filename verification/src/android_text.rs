//! Text that the Android tooling reads and rewrites: the `versionCode` of a
//! Gradle build file, the device list of `adb devices`, the AVD list of the
//! emulator, and the badging dumps of two artifacts.
use vstd::prelude::*;
use vstd::string::*;
use crate::text::{
    chars_of, chars_eq, decimal, digits_value, find, find_chars, is_ascii_digit, is_digit,
    is_space, is_whitespace, parse_digits, push_decimal, skip_space, slice_range, split_lines,
    split_words, string_of, text_lines, trim, trim_chars, views, words,
};

verus! {

// ---- versionCode ----------------------------------------------------------

/// The end of the run of digits that starts at `i`.
pub open spec fn digit_run_end(s: Seq<char>, i: int) -> int
    decreases s.len() - i,
{
    if 0 <= i < s.len() && is_digit(s[i]) {
        digit_run_end(s, i + 1)
    } else {
        i
    }
}

pub proof fn lemma_digit_run_end(s: Seq<char>, i: int)
    requires
        0 <= i <= s.len(),
    ensures
        i <= digit_run_end(s, i) <= s.len(),
        forall|k: int| i <= k < digit_run_end(s, i) ==> is_digit(#[trigger] s[k]),
        digit_run_end(s, i) < s.len() ==> !is_digit(s[digit_run_end(s, i)]),
    decreases s.len() - i,
{
    if i < s.len() && is_digit(s[i]) {
        lemma_digit_run_end(s, i + 1);
    }
}

/// Where the number of the first `versionCode` of `text` would start: past
/// the keyword, white space, an optional `=`, and white space again.
pub open spec fn number_start(text: Seq<char>, idx: int) -> int {
    let p1 = skip_space(text, idx + 11);
    let p2 = if p1 < text.len() && text[p1] == '=' {
        p1 + 1
    } else {
        p1
    };
    skip_space(text, p2)
}

/// Where the number of the first `versionCode` of `text` stands: the run of
/// digits at `number_start`. There is none where the keyword is missing or
/// something other than digits follows the optional `=` and white space
/// (`versionCode N` and `versionCode = N` declare `N`).
pub open spec fn version_code_site(text: Seq<char>) -> Option<(int, int)> {
    match find(text, "versionCode"@) {
        None => None,
        Some(idx) => {
            let ds = number_start(text, idx);
            if 0 <= ds < text.len() && is_digit(text[ds]) {
                Some((ds, digit_run_end(text, ds)))
            } else {
                None
            }
        },
    }
}

/// Skips white space in `text` from `i` on.
fn skip_space_at(text: &[char], i: usize) -> (r: usize)
    requires
        i <= text@.len(),
    ensures
        r as int == skip_space(text@, i as int),
        i <= r <= text@.len(),
{
    let mut j: usize = i;
    while j < text.len() && is_whitespace(text[j])
        invariant
            i <= j <= text.len(),
            skip_space(text@, i as int) == skip_space(text@, j as int),
        decreases text.len() - j,
    {
        j = j + 1;
    }
    j
}

/// The `versionCode` that `text` declares, if its digits fit in a `u64`.
pub open spec fn declared_version_code(text: Seq<char>) -> Option<nat> {
    match version_code_site(text) {
        None => None,
        Some((ds, de)) => if digits_value(text.subrange(ds, de)) <= u64::MAX {
            Some(digits_value(text.subrange(ds, de)))
        } else {
            None
        },
    }
}

/// `text` with the declared `versionCode` replaced by `new`.
pub open spec fn with_version_code(text: Seq<char>, new: nat) -> Seq<char> {
    let (ds, de) = version_code_site(text)->0;
    text.take(ds) + decimal(new) + text.skip(de)
}

/// Finds the digits of the declared `versionCode`: their positions and
/// value, or `None` where there are none or they do not fit in a `u64`.
fn find_version_code(text: &[char]) -> (r: Option<(usize, usize, u64)>)
    ensures
        match r {
            Some((ds, de, v)) => {
                &&& ds <= de <= text@.len()
                &&& version_code_site(text@) == Some((ds as int, de as int))
                &&& declared_version_code(text@) == Some(v as nat)
            },
            None => declared_version_code(text@) is None,
        },
{
    let keyword = chars_of("versionCode");
    proof {
        reveal_strlit("versionCode");
    }
    let idx = match find_chars(text, keyword.as_slice()) {
        Some(i) => i,
        None => {
            return None;
        },
    };
    proof {
        crate::text::lemma_find_from(text@, keyword@, 0);
        assert(keyword@.len() == 11);
        assert(crate::text::occurs_at(text@, keyword@, idx as int));
        assert(idx + 11 <= text@.len());
    }
    assert(idx + 11 <= text.len());
    let p1 = skip_space_at(text, idx + 11);
    let p2 = if p1 < text.len() && text[p1] == '=' {
        p1 + 1
    } else {
        p1
    };
    let ds = skip_space_at(text, p2);
    if ds >= text.len() || !is_ascii_digit(text[ds]) {
        return None;
    }
    let mut de: usize = ds;
    while de < text.len() && is_ascii_digit(text[de])
        invariant
            ds <= de <= text.len(),
            digit_run_end(text@, ds as int) == digit_run_end(text@, de as int),
            forall|k: int| ds <= k < de ==> is_digit(#[trigger] text@[k]),
        decreases text.len() - de,
    {
        de = de + 1;
    }
    let digits = slice_range(text, ds, de);
    match parse_digits(digits.as_slice()) {
        Some(v) => Some((ds, de, v)),
        None => None,
    }
}

/// The `versionCode` that `text` declares, where its digits fit in a `u64`.
pub fn version_code_in(text: &str) -> (r: Option<u64>)
    ensures
        match r {
            Some(v) => declared_version_code(text@) == Some(v as nat),
            None => declared_version_code(text@) is None,
        },
{
    let cs = chars_of(text);
    match find_version_code(cs.as_slice()) {
        Some((_, _, v)) => Some(v),
        None => None,
    }
}

/// Increments the declared `versionCode` of a build file's `text`: returns
/// the old and new values and the rewritten text, or `None` when the text
/// declares none that fits in a `u64`.
pub fn bump_version_code(text: &str) -> (r: Option<(u64, u64, String)>)
    requires
        declared_version_code(text@) != Some(u64::MAX as nat),
    ensures
        match r {
            Some((old, new, updated)) => {
                &&& declared_version_code(text@) == Some(old as nat)
                &&& new == old + 1
                &&& updated@ == with_version_code(text@, new as nat)
            },
            None => declared_version_code(text@) is None,
        },
{
    let cs = chars_of(text);
    match find_version_code(cs.as_slice()) {
        None => None,
        Some((ds, de, old)) => {
            let new = old + 1;
            let head = slice_range(cs.as_slice(), 0, ds);
            let tail = slice_range(cs.as_slice(), de, cs.len());
            let mut updated = string_of(head.as_slice());
            push_decimal(&mut updated, new);
            let tail_s = string_of(tail.as_slice());
            updated.append(tail_s.as_str());
            proof {
                assert(cs@.subrange(0, ds as int) == cs@.take(ds as int));
                assert(cs@.subrange(de as int, cs@.len() as int) == cs@.skip(de as int));
            }
            Some((old, new, updated))
        },
    }
}

/// The views of the texts of the build files tried for a `versionCode`
/// (`None` for one that could not be read).
pub open spec fn text_views(texts: Seq<Option<String>>) -> Seq<Option<Seq<char>>> {
    texts.map_values(|o: Option<String>| crate::auth::opt_view(o))
}

/// The first of `texts`, from index `k` on, that declares a `versionCode`.
pub open spec fn first_declaring(texts: Seq<Option<Seq<char>>>, k: int) -> Option<int>
    decreases texts.len() - k,
{
    if k < 0 || k >= texts.len() {
        None
    } else if texts[k] matches Some(t) && declared_version_code(t) is Some {
        Some(k)
    } else {
        first_declaring(texts, k + 1)
    }
}

/// Bumps the `versionCode` of the first build file that declares one, of
/// the files tried in order (`None` for one that could not be read): returns
/// which file, the old and new values and its rewritten text, or `None`
/// when no file declares one. The other files stay as they are.
pub fn bump_first_declared(texts: &[Option<String>]) -> (r: Option<(usize, u64, u64, String)>)
    requires
        match first_declaring(text_views(texts@), 0) {
            Some(i) => declared_version_code(text_views(texts@)[i]->0) != Some(u64::MAX as nat),
            None => true,
        },
    ensures
        match first_declaring(text_views(texts@), 0) {
            None => r is None,
            Some(i) => r matches Some((j, old, new, updated)) && {
                let t = text_views(texts@)[i]->0;
                &&& j == i
                &&& declared_version_code(t) == Some(old as nat)
                &&& new == old + 1
                &&& updated@ == with_version_code(t, new as nat)
            },
        },
{
    let ghost v = text_views(texts@);
    let mut k: usize = 0;
    while k < texts.len()
        invariant
            k <= texts@.len(),
            v == text_views(texts@),
            first_declaring(v, 0) == first_declaring(v, k as int),
            match first_declaring(v, 0) {
                Some(i) => declared_version_code(v[i]->0) != Some(u64::MAX as nat),
                None => true,
            },
        decreases texts@.len() - k,
    {
        assert(v[k as int] == crate::auth::opt_view(texts@[k as int]));
        if let Some(t) = &texts[k] {
            if let Some(found) = bump_version_code(t.as_str()) {
                return Some((k, found.0, found.1, found.2));
            }
        }
        k = k + 1;
    }
    None
}

/// Bumping rewrites only the number: the text before and after it is kept.
pub proof fn law_bump_keeps_surroundings(text: Seq<char>, new: nat)
    requires
        version_code_site(text) is Some,
    ensures
        ({
            let (ds, de) = version_code_site(text)->0;
            let out = with_version_code(text, new);
            &&& out.take(ds) == text.take(ds)
            &&& out.skip(ds + decimal(new).len()) == text.skip(de)
            &&& out.subrange(ds, ds + decimal(new).len()) == decimal(new)
        }),
{
    let (ds, de) = version_code_site(text)->0;
    lemma_digit_run_end(text, ds);
    let out = with_version_code(text, new);
    assert(out.take(ds) == text.take(ds));
    assert(out.skip(ds + decimal(new).len()) == text.skip(de));
    assert(out.subrange(ds, ds + decimal(new).len()) == decimal(new));
}


// ---- adb devices ----------------------------------------------------------

/// The serial on a line of `adb devices`, where the device on it is in the
/// `device` state: the first word, when the second is `device`.
pub open spec fn ready_serial(line: Seq<char>) -> Option<Seq<char>> {
    let w = words(line);
    if w.len() >= 2 && w[1] == "device"@ {
        Some(w[0])
    } else {
        None
    }
}

/// The first ready serial on the lines from index `k` on.
pub open spec fn first_ready_serial_from(lines: Seq<Seq<char>>, k: int) -> Option<Seq<char>>
    decreases lines.len() - k,
{
    if k < 0 || k >= lines.len() {
        None
    } else {
        match ready_serial(lines[k]) {
            Some(s) => Some(s),
            None => first_ready_serial_from(lines, k + 1),
        }
    }
}

/// The serial of the first device or emulator in the `device` state in the
/// output of `adb devices` (its first line is a header).
pub open spec fn device_serial(output: Seq<char>) -> Option<Seq<char>> {
    first_ready_serial_from(text_lines(output), 1)
}

/// The serial of the first device or emulator in the `device` state, read
/// from the output of `adb devices`.
pub fn first_device_serial(output: &str) -> (r: Option<String>)
    ensures
        match r {
            Some(s) => device_serial(output@) == Some(s@),
            None => device_serial(output@) is None,
        },
{
    let cs = chars_of(output);
    let lines = split_lines(cs.as_slice());
    let device = chars_of("device");
    let mut k: usize = 1;
    while k < lines.len()
        invariant
            1 <= k,
            views(lines@) == text_lines(cs@),
            device@ == "device"@,
            device_serial(output@) == first_ready_serial_from(views(lines@), k as int),
        decreases lines.len() - k,
    {
        let w = split_words(lines[k].as_slice());
        assert(views(lines@)[k as int] == lines@[k as int]@);
        if w.len() >= 2 && chars_eq(w[1].as_slice(), device.as_slice()) {
            assert(views(w@)[1] == w@[1]@);
            assert(views(w@)[0] == w@[0]@);
            return Some(string_of(w[0].as_slice()));
        }
        proof {
            if views(w@).len() >= 2 {
                assert(views(w@)[1] == w@[1]@);
            }
        }
        k = k + 1;
    }
    None
}

// ---- emulator -list-avds --------------------------------------------------

/// The first line from index `k` on that is not blank, trimmed.
pub open spec fn first_nonblank_from(lines: Seq<Seq<char>>, k: int) -> Option<Seq<char>>
    decreases lines.len() - k,
{
    if k < 0 || k >= lines.len() {
        None
    } else if trim(lines[k]).len() > 0 {
        Some(trim(lines[k]))
    } else {
        first_nonblank_from(lines, k + 1)
    }
}

/// The name of the first AVD that `emulator -list-avds` lists: its first line
/// that is not blank, trimmed.
pub fn first_avd_name(output: &str) -> (r: Option<String>)
    ensures
        match r {
            Some(s) => first_nonblank_from(text_lines(output@), 0) == Some(s@),
            None => first_nonblank_from(text_lines(output@), 0) is None,
        },
{
    let cs = chars_of(output);
    let lines = split_lines(cs.as_slice());
    let mut k: usize = 0;
    while k < lines.len()
        invariant
            views(lines@) == text_lines(cs@),
            first_nonblank_from(text_lines(output@), 0) == first_nonblank_from(
                views(lines@),
                k as int,
            ),
        decreases lines.len() - k,
    {
        assert(views(lines@)[k as int] == lines@[k as int]@);
        let t = trim_chars(lines[k].as_slice());
        if t.len() > 0 {
            return Some(string_of(t.as_slice()));
        }
        k = k + 1;
    }
    None
}

/// The argument that launches the AVD `name`.
pub fn avd_launch_arg(name: &str) -> (r: String)
    ensures
        r@ == "@"@ + name@,
{
    let mut r = String::from_str("@");
    r.append(name);
    r
}

// ---- chunks ---------------------------------------------------------------

/// The views of a vector of byte vectors.
pub open spec fn byte_views(v: Seq<Vec<u8>>) -> Seq<Seq<u8>> {
    v.map_values(|b: Vec<u8>| b@)
}

/// The pieces of `pieces` one after another.
pub open spec fn concat(pieces: Seq<Seq<u8>>) -> Seq<u8>
    decreases pieces.len(),
{
    if pieces.len() == 0 {
        Seq::empty()
    } else {
        concat(pieces.drop_last()) + pieces.last()
    }
}

/// `pieces` cut `bytes` into runs of `size`, the last one possibly shorter
/// and none empty: what `<[u8]>::chunks` gives.
pub open spec fn is_chunking(pieces: Seq<Seq<u8>>, bytes: Seq<u8>, size: nat) -> bool {
    &&& concat(pieces) == bytes
    &&& forall|i: int| 0 <= i < pieces.len() - 1 ==> (#[trigger] pieces[i]).len() == size
    &&& forall|i: int| 0 <= i < pieces.len() ==> 0 < (#[trigger] pieces[i]).len() <= size
}

/// Splits `bytes` into pieces of `size` bytes, the last one possibly
/// shorter, as `<[u8]>::chunks` does.
pub fn chunk_bytes(bytes: &[u8], size: usize) -> (r: Vec<Vec<u8>>)
    requires
        size > 0,
    ensures
        is_chunking(byte_views(r@), bytes@, size as nat),
{
    let mut r: Vec<Vec<u8>> = Vec::new();
    let mut start: usize = 0;
    assert(byte_views(r@) =~= Seq::<Seq<u8>>::empty());
    assert(bytes@.take(0) =~= Seq::<u8>::empty());
    while start < bytes.len()
        invariant
            size > 0,
            start <= bytes.len(),
            is_chunking(byte_views(r@), bytes@.take(start as int), size as nat),
            r@.len() > 0 && start < bytes.len() ==> r@.last()@.len() == size,
        decreases bytes.len() - start,
    {
        let end = if bytes.len() - start >= size {
            start + size
        } else {
            bytes.len()
        };
        let mut piece: Vec<u8> = Vec::new();
        let mut k: usize = start;
        while k < end
            invariant
                start <= k <= end <= bytes.len(),
                piece@ == bytes@.subrange(start as int, k as int),
            decreases end - k,
        {
            piece.push(bytes[k]);
            k = k + 1;
            assert(piece@ == bytes@.subrange(start as int, k as int));
        }
        let ghost before = byte_views(r@);
        let ghost old_r = r@;
        r.push(piece);
        proof {
            let after = byte_views(r@);
            assert(after.drop_last() == before);
            assert(after.last() == bytes@.subrange(start as int, end as int));
            assert(bytes@.take(end as int) == bytes@.take(start as int) + bytes@.subrange(
                start as int,
                end as int,
            ));
            assert forall|i: int| 0 <= i < after.len() - 1 implies (#[trigger] after[i]).len()
                == size by {
                assert(after[i] == before[i]);
                if i == before.len() - 1 {
                    assert(before[i] == old_r.last()@);
                }
            }
            assert forall|i: int| 0 <= i < after.len() implies 0 < (
            #[trigger] after[i]).len() <= size by {
                if i < before.len() {
                    assert(after[i] == before[i]);
                }
            }
        }
        if end < bytes.len() {
            assert(end == start + size);
        }
        start = end;
    }
    assert(bytes@.take(bytes.len() as int) == bytes@);
    r
}


// ---- badging differences --------------------------------------------------

/// `sorted` with `x` added at its place in the order, unless it is there.
pub open spec fn insert_sorted(sorted: Seq<Seq<char>>, x: Seq<char>) -> Seq<Seq<char>>
    decreases sorted.len(),
{
    if sorted.len() == 0 {
        seq![x]
    } else if sorted[0] == x {
        sorted
    } else if lex_lt(x, sorted[0]) {
        seq![x] + sorted
    } else {
        seq![sorted[0]] + insert_sorted(sorted.drop_first(), x)
    }
}

/// The distinct elements of `s`, in ascending order (the order of a
/// `BTreeSet<&str>`).
pub open spec fn sorted_distinct(s: Seq<Seq<char>>) -> Seq<Seq<char>>
    decreases s.len(),
{
    if s.len() == 0 {
        Seq::empty()
    } else {
        insert_sorted(sorted_distinct(s.drop_last()), s.last())
    }
}

/// The elements of `a` that are not in `b`, in the order of `a`.
pub open spec fn only_in(a: Seq<Seq<char>>, b: Seq<Seq<char>>) -> Seq<Seq<char>>
    decreases a.len(),
{
    if a.len() == 0 {
        Seq::empty()
    } else if b.contains(a.last()) {
        only_in(a.drop_last(), b)
    } else {
        only_in(a.drop_last(), b).push(a.last())
    }
}

/// At most `n` of the first elements of `s`.
pub open spec fn at_most(s: Seq<Seq<char>>, n: nat) -> Seq<Seq<char>> {
    if s.len() > n {
        s.take(n as int)
    } else {
        s
    }
}

/// The lines of `a` that `b` lacks, distinct and in ascending order, at most
/// `n` of them (the first `n` of the sorted set difference).
pub open spec fn line_difference(a: Seq<char>, b: Seq<char>, n: nat) -> Seq<Seq<char>> {
    at_most(sorted_distinct(only_in(text_lines(a), text_lines(b))), n)
}

use crate::text::{lex_lt, lex_less, lemma_lex_total, lemma_lex_irreflexive,
    lemma_lex_transitive, lemma_lex_asymmetric};

proof fn lemma_insert_prefix(r: Seq<Seq<char>>, x: Seq<char>, k: int)
    requires
        0 <= k <= r.len(),
        forall|j: int| 0 <= j < k ==> r[j] != x && !lex_lt(x, #[trigger] r[j]),
    ensures
        insert_sorted(r, x) == r.take(k) + insert_sorted(r.skip(k), x),
    decreases k,
{
    if k == 0 {
        assert(r.take(0) + r.skip(0) == r);
        assert(r.skip(0) == r);
    } else {
        let t = r.drop_first();
        assert forall|j: int| 0 <= j < k - 1 implies t[j] != x && !lex_lt(x, #[trigger] t[j]) by {
            assert(t[j] == r[j + 1]);
        }
        lemma_insert_prefix(t, x, k - 1);
        assert(t.skip(k - 1) == r.skip(k));
        assert(seq![r[0]] + t.take(k - 1) == r.take(k));
        assert(r[0] != x && !lex_lt(x, r[0]));
    }
}

fn contains_line(lines: &Vec<Vec<char>>, x: &Vec<char>) -> (b: bool)
    ensures
        b == views(lines@).contains(x@),
{
    let mut j: usize = 0;
    while j < lines.len()
        invariant
            j <= lines.len(),
            forall|k: int| 0 <= k < j ==> lines@[k]@ != x@,
        decreases lines.len() - j,
    {
        if chars_eq(lines[j].as_slice(), x.as_slice()) {
            assert(views(lines@)[j as int] == x@);
            return true;
        }
        j = j + 1;
    }
    proof {
        if views(lines@).contains(x@) {
            let k = choose|k: int| 0 <= k < lines@.len() && views(lines@)[k] == x@;
            assert(lines@[k]@ == x@);
        }
    }
    false
}

fn insert_line(sorted: &mut Vec<Vec<char>>, x: Vec<char>)
    ensures
        views(final(sorted)@) == insert_sorted(views(old(sorted)@), x@),
{
    let ghost r = views(sorted@);
    let mut k: usize = 0;
    while k < sorted.len() && !chars_eq(sorted[k].as_slice(), x.as_slice()) && !lex_less(
        x.as_slice(),
        sorted[k].as_slice(),
    )
        invariant
            k <= sorted.len(),
            r == views(sorted@),
            forall|j: int| 0 <= j < k ==> r[j] != x@ && !lex_lt(x@, #[trigger] r[j]),
        decreases sorted.len() - k,
    {
        assert(r[k as int] == sorted@[k as int]@);
        k = k + 1;
    }
    proof {
        lemma_insert_prefix(r, x@, k as int);
    }
    if k < sorted.len() && chars_eq(sorted[k].as_slice(), x.as_slice()) {
        assert(r[k as int] == x@);
        assert(r.skip(k as int)[0] == x@);
        assert(r.take(k as int) + r.skip(k as int) == r);
        return;
    }
    let ghost xv = x@;
    sorted.insert(k, x);
    proof {
        if k < r.len() {
            assert(r[k as int] == r.skip(k as int)[0]);
            assert(lex_lt(xv, r.skip(k as int)[0]));
        }
        assert(views(sorted@) == r.take(k as int) + (seq![xv] + r.skip(k as int)));
    }
}

/// The first `n` lines of `a` that `b` lacks, distinct and in ascending
/// order: what the APK diff lists as removed (or, swapped, as added).
pub fn badging_difference(a: &str, b: &str, n: usize) -> (r: Vec<String>)
    ensures
        crate::modal::string_views(r@) == line_difference(a@, b@, n as nat),
{
    let ac = chars_of(a);
    let bc = chars_of(b);
    let la = split_lines(ac.as_slice());
    let lb = split_lines(bc.as_slice());
    let mut sorted: Vec<Vec<char>> = Vec::new();
    let mut i: usize = 0;
    while i < la.len()
        invariant
            i <= la.len(),
            views(la@) == text_lines(a@),
            views(lb@) == text_lines(b@),
            views(sorted@) == sorted_distinct(only_in(views(la@).take(i as int), views(lb@))),
        decreases la.len() - i,
    {
        let x = la[i].clone();
        assert(views(la@).take(i + 1).drop_last() == views(la@).take(i as int));
        assert(views(la@).take(i + 1).last() == la@[i as int]@);
        if !contains_line(&lb, &x) {
            let ghost pre = only_in(views(la@).take(i as int), views(lb@));
            insert_line(&mut sorted, x);
            assert(only_in(views(la@).take(i + 1), views(lb@)).drop_last() == pre);
        }
        i = i + 1;
    }
    assert(views(la@).take(la.len() as int) == views(la@));
    let mut r: Vec<String> = Vec::new();
    let mut k: usize = 0;
    while k < sorted.len() && k < n
        invariant
            k <= sorted.len(),
            k <= n,
            crate::modal::string_views(r@) == views(sorted@).take(k as int),
            views(sorted@) == sorted_distinct(only_in(text_lines(a@), text_lines(b@))),
        decreases sorted.len() - k,
    {
        let line = string_of(sorted[k].as_slice());
        let ghost before = crate::modal::string_views(r@);
        assert(views(sorted@)[k as int] == sorted@[k as int]@);
        r.push(line);
        assert(crate::modal::string_views(r@) == before.push(line@));
        assert(views(sorted@).take(k + 1) == views(sorted@).take(k as int).push(
            views(sorted@)[k as int],
        ));
        k = k + 1;
    }
    proof {
        if views(sorted@).len() <= n {
            assert(views(sorted@).take(k as int) == views(sorted@));
        }
    }
    r
}


/// Each element sorts strictly before every later one.
pub open spec fn strictly_sorted(s: Seq<Seq<char>>) -> bool {
    forall|i: int, j: int| 0 <= i < j < s.len() ==> lex_lt(#[trigger] s[i], #[trigger] s[j])
}

proof fn lemma_insert_sorted(r: Seq<Seq<char>>, x: Seq<char>)
    requires
        strictly_sorted(r),
    ensures
        strictly_sorted(insert_sorted(r, x)),
        forall|y: Seq<char>| #[trigger] insert_sorted(r, x).contains(y) <==> (r.contains(y) || y == x),
    decreases r.len(),
{
    let out = insert_sorted(r, x);
    if r.len() == 0 {
        assert(out == seq![x]);
        assert forall|y: Seq<char>| out.contains(y) <==> (r.contains(y) || y == x) by {
            if out.contains(y) {
                let k = choose|k: int| 0 <= k < out.len() && out[k] == y;
                assert(k == 0);
            }
            if y == x {
                assert(out[0] == y);
            }
        }
    } else if r[0] == x {
        assert forall|y: Seq<char>| out.contains(y) <==> (r.contains(y) || y == x) by {
            if y == x {
                assert(r[0] == y);
            }
        }
    } else if lex_lt(x, r[0]) {
        assert(out == seq![x] + r);
        assert forall|i: int, j: int| 0 <= i < j < out.len() implies lex_lt(
            #[trigger] out[i],
            #[trigger] out[j],
        ) by {
            if i == 0 {
                if j > 1 {
                    assert(lex_lt(r[0], r[j - 1]));
                    lemma_lex_transitive(x, r[0], r[j - 1]);
                }
                assert(out[j] == r[j - 1]);
            } else {
                assert(out[i] == r[i - 1] && out[j] == r[j - 1]);
            }
        }
        assert forall|y: Seq<char>| out.contains(y) <==> (r.contains(y) || y == x) by {
            if out.contains(y) {
                let k = choose|k: int| 0 <= k < out.len() && out[k] == y;
                if k > 0 {
                    assert(r[k - 1] == y);
                }
            }
            if r.contains(y) {
                let k = choose|k: int| 0 <= k < r.len() && r[k] == y;
                assert(out[k + 1] == y);
            }
            if y == x {
                assert(out[0] == y);
            }
        }
    } else {
        let t = r.drop_first();
        assert forall|i: int, j: int| 0 <= i < j < t.len() implies lex_lt(
            #[trigger] t[i],
            #[trigger] t[j],
        ) by {
            assert(t[i] == r[i + 1] && t[j] == r[j + 1]);
        }
        lemma_insert_sorted(t, x);
        let rest = insert_sorted(t, x);
        assert(out == seq![r[0]] + rest);
        lemma_lex_total(x, r[0]);
        assert(lex_lt(r[0], x));
        assert forall|y: Seq<char>| rest.contains(y) implies lex_lt(r[0], y) by {
            if t.contains(y) {
                let k = choose|k: int| 0 <= k < t.len() && t[k] == y;
                assert(r[k + 1] == y);
                assert(lex_lt(r[0], r[k + 1]));
            }
        }
        assert forall|i: int, j: int| 0 <= i < j < out.len() implies lex_lt(
            #[trigger] out[i],
            #[trigger] out[j],
        ) by {
            if i == 0 {
                assert(out[j] == rest[j - 1]);
                assert(rest.contains(rest[j - 1]));
            } else {
                assert(out[i] == rest[i - 1] && out[j] == rest[j - 1]);
            }
        }
        assert forall|y: Seq<char>| out.contains(y) <==> (r.contains(y) || y == x) by {
            if out.contains(y) {
                let k = choose|k: int| 0 <= k < out.len() && out[k] == y;
                if k == 0 {
                    assert(r[0] == y);
                } else {
                    assert(rest[k - 1] == y);
                    assert(rest.contains(y));
                    if t.contains(y) {
                        let m = choose|m: int| 0 <= m < t.len() && t[m] == y;
                        assert(r[m + 1] == y);
                    }
                }
            }
            if r.contains(y) {
                let k = choose|k: int| 0 <= k < r.len() && r[k] == y;
                if k == 0 {
                    assert(out[0] == y);
                } else {
                    assert(t[k - 1] == y);
                    assert(rest.contains(y));
                    let m = choose|m: int| 0 <= m < rest.len() && rest[m] == y;
                    assert(out[m + 1] == y);
                }
            }
            if y == x {
                assert(rest.contains(y));
                let m = choose|m: int| 0 <= m < rest.len() && rest[m] == y;
                assert(out[m + 1] == y);
            }
        }
    }
}

proof fn lemma_sorted_distinct(s: Seq<Seq<char>>)
    ensures
        strictly_sorted(sorted_distinct(s)),
        forall|y: Seq<char>| #[trigger] sorted_distinct(s).contains(y) <==> s.contains(y),
    decreases s.len(),
{
    if s.len() > 0 {
        lemma_sorted_distinct(s.drop_last());
        lemma_insert_sorted(sorted_distinct(s.drop_last()), s.last());
        assert forall|y: Seq<char>| #[trigger] sorted_distinct(s).contains(y) <==> s.contains(y) by {
            if s.drop_last().contains(y) {
                let k = choose|k: int| 0 <= k < s.drop_last().len() && s.drop_last()[k] == y;
                assert(s[k] == y);
            }
            if s.contains(y) && y != s.last() {
                let k = choose|k: int| 0 <= k < s.len() && s[k] == y;
                assert(s.drop_last()[k] == y);
            }
            if y == s.last() {
                assert(s[s.len() - 1] == y);
            }
        }
    } else {
        assert(sorted_distinct(s) == Seq::<Seq<char>>::empty());
    }
}

proof fn lemma_only_in(a: Seq<Seq<char>>, b: Seq<Seq<char>>)
    ensures
        forall|y: Seq<char>| #[trigger] only_in(a, b).contains(y) <==> (a.contains(y) && !b.contains(y)),
    decreases a.len(),
{
    if a.len() > 0 {
        lemma_only_in(a.drop_last(), b);
        let p = only_in(a.drop_last(), b);
        assert forall|y: Seq<char>| #[trigger] only_in(a, b).contains(y) <==> (a.contains(y)
            && !b.contains(y)) by {
            if a.drop_last().contains(y) {
                let k = choose|k: int| 0 <= k < a.drop_last().len() && a.drop_last()[k] == y;
                assert(a[k] == y);
            }
            if a.contains(y) && y != a.last() {
                let k = choose|k: int| 0 <= k < a.len() && a[k] == y;
                assert(a.drop_last()[k] == y);
            }
            if y == a.last() {
                assert(a[a.len() - 1] == y);
            }
            if !b.contains(a.last()) {
                assert(only_in(a, b) == p.push(a.last()));
                if p.contains(y) {
                    let k = choose|k: int| 0 <= k < p.len() && p[k] == y;
                    assert(p.push(a.last())[k] == y);
                }
                if p.push(a.last()).contains(y) && y != a.last() {
                    let k = choose|k: int| 0 <= k < p.len() + 1 && p.push(a.last())[k] == y;
                    assert(p[k] == y);
                }
                assert(p.push(a.last())[p.len() as int] == a.last());
            }
        }
    } else {
        assert(only_in(a, b) == Seq::<Seq<char>>::empty());
    }
}

/// What the APK diff lists is the sorted set difference of the two dumps'
/// lines: ascending without repeats, only lines of `a` missing from `b`,
/// and every such line unless `n` smaller ones were listed already.
pub proof fn law_line_difference_is_sorted_set_difference(a: Seq<char>, b: Seq<char>, n: nat)
    ensures
        ({
            let d = line_difference(a, b, n);
            &&& d.len() <= n
            &&& strictly_sorted(d)
            &&& forall|x: Seq<char>| #[trigger] d.contains(x) ==> text_lines(a).contains(x)
                && !text_lines(b).contains(x)
            &&& forall|x: Seq<char>|
                text_lines(a).contains(x) && !text_lines(b).contains(x) ==> #[trigger] d.contains(x)
                    || (d.len() == n && forall|i: int| 0 <= i < d.len() ==> lex_lt(d[i], x))
        }),
{
    let la = text_lines(a);
    let lb = text_lines(b);
    let full = sorted_distinct(only_in(la, lb));
    lemma_only_in(la, lb);
    lemma_sorted_distinct(only_in(la, lb));
    let d = line_difference(a, b, n);
    if full.len() > n {
        assert(d == full.take(n as int));
        assert forall|i: int, j: int| 0 <= i < j < d.len() implies lex_lt(
            #[trigger] d[i],
            #[trigger] d[j],
        ) by {
            assert(d[i] == full[i] && d[j] == full[j]);
        }
        assert forall|x: Seq<char>| #[trigger] d.contains(x) implies la.contains(x) && !lb.contains(
            x,
        ) by {
            let k = choose|k: int| 0 <= k < d.len() && d[k] == x;
            assert(full[k] == x);
            assert(full.contains(x));
        }
        assert forall|x: Seq<char>| la.contains(x) && !lb.contains(x) implies #[trigger] d.contains(
            x,
        ) || (d.len() == n && forall|i: int| 0 <= i < d.len() ==> lex_lt(d[i], x)) by {
            assert(only_in(la, lb).contains(x));
            assert(full.contains(x));
            let k = choose|k: int| 0 <= k < full.len() && full[k] == x;
            if k < n {
                assert(d[k] == x);
            } else {
                assert forall|i: int| 0 <= i < d.len() implies lex_lt(d[i], x) by {
                    assert(d[i] == full[i]);
                    assert(lex_lt(full[i], full[k]));
                }
            }
        }
    } else {
        assert(d == full);
    }
}


// ---- the bump round trip --------------------------------------------------

proof fn lemma_digit_char(d: nat)
    requires
        d < 10,
    ensures
        is_digit(crate::text::digit_char(d)),
        (crate::text::digit_char(d) as u32) - 48 == d,
{
    let digits = seq!['0', '1', '2', '3', '4', '5', '6', '7', '8', '9'];
    assert(crate::text::digit_char(d) == digits[d as int]);
    if d == 0 {
        assert(digits[0] == '0');
    } else if d == 1 {
        assert(digits[1] == '1');
    } else if d == 2 {
        assert(digits[2] == '2');
    } else if d == 3 {
        assert(digits[3] == '3');
    } else if d == 4 {
        assert(digits[4] == '4');
    } else if d == 5 {
        assert(digits[5] == '5');
    } else if d == 6 {
        assert(digits[6] == '6');
    } else if d == 7 {
        assert(digits[7] == '7');
    } else if d == 8 {
        assert(digits[8] == '8');
    } else {
        assert(digits[9] == '9');
    }
}

/// The decimal text of `n` is made of digits and reads back as `n`.
pub proof fn lemma_decimal_digits(n: nat)
    ensures
        decimal(n).len() > 0,
        forall|k: int| 0 <= k < decimal(n).len() ==> is_digit(#[trigger] decimal(n)[k]),
        digits_value(decimal(n)) == n,
    decreases n,
{
    if n < 10 {
        lemma_digit_char(n);
        assert(decimal(n).drop_last() == Seq::<char>::empty());
        assert(decimal(n).last() == crate::text::digit_char(n));
        assert(digits_value(Seq::<char>::empty()) == 0);
    } else {
        lemma_decimal_digits(n / 10);
        lemma_digit_char(n % 10);
        let d = decimal(n);
        assert(d.drop_last() == decimal(n / 10));
        assert(d.last() == crate::text::digit_char(n % 10));
        assert(n == (n / 10) * 10 + n % 10);
        assert forall|k: int| 0 <= k < d.len() implies is_digit(#[trigger] d[k]) by {
            if k < d.len() - 1 {
                assert(d[k] == decimal(n / 10)[k]);
            }
        }
    }
}

proof fn lemma_find_same_prefix(a: Seq<char>, b: Seq<char>, n: Seq<char>, j: nat, i: int, p: int)
    requires
        j <= i,
        i + n.len() <= p,
        p <= a.len(),
        p <= b.len(),
        a.take(p) == b.take(p),
        crate::text::find_from(a, n, j) == Some(i),
    ensures
        crate::text::find_from(b, n, j) == Some(i),
    decreases i - j,
{
    assert(a.subrange(j as int, (j + n.len()) as int) =~= a.take(p).subrange(j as int, (j + n.len()) as int));
    assert(b.subrange(j as int, (j + n.len()) as int) =~= b.take(p).subrange(j as int, (j + n.len()) as int));
    crate::text::lemma_find_from(a, n, j + 1);
    let sa = a.subrange(j as int, (j + n.len()) as int);
    let sb = b.subrange(j as int, (j + n.len()) as int);
    assert(sa == sb);
    assert(crate::text::occurs_at(a, n, j as int) == crate::text::occurs_at(b, n, j as int));
    if j < i {
        assert(!crate::text::occurs_at(a, n, j as int));
        lemma_find_same_prefix(a, b, n, j + 1, i, p);
    } else {
        assert(crate::text::occurs_at(a, n, j as int));
    }
}

/// White space is skipped alike in two texts that agree before `p`, where
/// both hold something other than white space at `p`.
proof fn lemma_skip_space_prefix(a: Seq<char>, b: Seq<char>, i: int, p: int)
    requires
        0 <= i <= p,
        p < a.len(),
        p < b.len(),
        a.take(p) == b.take(p),
        !is_space(a[p]),
        !is_space(b[p]),
    ensures
        skip_space(b, i) == skip_space(a, i),
        skip_space(a, i) <= p,
    decreases p - i,
{
    if i < p {
        assert(a[i] == a.take(p)[i]);
        assert(b[i] == b.take(p)[i]);
        lemma_skip_space_prefix(a, b, i + 1, p);
    }
}

proof fn lemma_run_end_at(s: Seq<char>, i: int, j: int)
    requires
        0 <= i <= j <= s.len(),
        forall|k: int| i <= k < j ==> is_digit(#[trigger] s[k]),
        j == s.len() || !is_digit(s[j]),
    ensures
        digit_run_end(s, i) == j,
    decreases j - i,
{
    if i < j {
        lemma_run_end_at(s, i + 1, j);
    }
}

/// After a bump, the build file declares the new `versionCode`.
pub proof fn law_bump_round_trip(text: Seq<char>, new: nat)
    requires
        version_code_site(text) is Some,
        new <= u64::MAX,
    ensures
        declared_version_code(with_version_code(text, new)) == Some(new),
{
    reveal_strlit("versionCode");
    let kw = "versionCode"@;
    let idx = find(text, kw)->0;
    crate::text::lemma_find_from(text, kw, 0);
    let (ds, de) = version_code_site(text)->0;
    lemma_digit_run_end(text, ds);
    lemma_decimal_digits(new);
    let d = decimal(new);
    let out = with_version_code(text, new);
    assert(out == text.take(ds) + d + text.skip(de));
    crate::text::lemma_skip_space(text, idx + 11);
    let p1 = skip_space(text, idx + 11);
    let p2 = if p1 < text.len() && text[p1] == '=' { p1 + 1 } else { p1 };
    crate::text::lemma_skip_space(text, p2);
    assert(idx + 11 <= p1 <= p2 <= ds);
    // The keyword is found at the same place.
    assert(out.take(ds) == text.take(ds));
    lemma_find_same_prefix(text, out, kw, 0, idx, ds);
    // The digits start at the same place: up to them both texts agree, and
    // at them both hold a digit, which is neither white space nor `=`.
    assert(out[ds] == d[0]);
    lemma_skip_space_prefix(text, out, idx + 11, ds);
    if p1 < ds {
        assert(out[p1] == out.take(ds)[p1]);
        assert(text[p1] == text.take(ds)[p1]);
    }
    lemma_skip_space_prefix(text, out, p2, ds);
    assert(number_start(out, idx) == ds);
    // The new number runs to its last digit.
    assert forall|k: int| ds <= k < ds + d.len() implies is_digit(#[trigger] out[k]) by {
        assert(out[k] == d[k - ds]);
    }
    if ds + d.len() < out.len() {
        assert(out[ds + d.len()] == text[de]);
    }
    lemma_run_end_at(out, ds, ds + d.len());
    assert(out.subrange(ds, ds + d.len()) == d);
}

} // verus!
