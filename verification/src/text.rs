//! Character-level text operations used by the wire protocol, the console
//! and the configuration: whitespace trimming, prefix stripping, splitting
//! at a separator, character removal and decimal rendering.
use vstd::prelude::*;

verus! {

broadcast use vstd::string::group_string_axioms;

/// Whether `c` carries the Unicode `White_Space` property (the notion of
/// whitespace that trimming uses).
pub open spec fn is_space(c: char) -> bool {
    let u: u32 = c as u32;
    ||| 0x09 <= u <= 0x0d
    ||| u == 0x20
    ||| u == 0x85
    ||| u == 0xa0
    ||| u == 0x1680
    ||| 0x2000 <= u <= 0x200a
    ||| u == 0x2028
    ||| u == 0x2029
    ||| u == 0x202f
    ||| u == 0x205f
    ||| u == 0x3000
}

/// Number of whitespace characters at the start of `s`.
pub open spec fn leading_spaces(s: Seq<char>) -> nat
    decreases s.len(),
{
    if s.len() == 0 || !is_space(s[0]) {
        0
    } else {
        1 + leading_spaces(s.drop_first())
    }
}

/// Number of whitespace characters at the end of `s`.
pub open spec fn trailing_spaces(s: Seq<char>) -> nat
    decreases s.len(),
{
    if s.len() == 0 || !is_space(s.last()) {
        0
    } else {
        1 + trailing_spaces(s.drop_last())
    }
}

/// `s` without its leading whitespace.
pub open spec fn trim_start(s: Seq<char>) -> Seq<char> {
    s.skip(leading_spaces(s) as int)
}

/// `s` without its trailing whitespace.
pub open spec fn trim_end(s: Seq<char>) -> Seq<char> {
    s.take(s.len() - trailing_spaces(s))
}

/// `s` without leading and trailing whitespace.
pub open spec fn trimmed(s: Seq<char>) -> Seq<char> {
    trim_end(trim_start(s))
}

/// Whether `p` is a prefix of `s`.
pub open spec fn has_prefix(s: Seq<char>, p: Seq<char>) -> bool {
    p.len() <= s.len() && s.take(p.len() as int) == p
}

/// Splits `s` around the first occurrence of `sep`: the part before it and
/// the part after it, or `None` where `sep` does not occur.
pub open spec fn split_first(s: Seq<char>, sep: char) -> Option<(Seq<char>, Seq<char>)>
    decreases s.len(),
{
    if s.len() == 0 {
        None
    } else if s[0] == sep {
        Some((Seq::empty(), s.drop_first()))
    } else {
        match split_first(s.drop_first(), sep) {
            Some((a, b)) => Some((seq![s[0]] + a, b)),
            None => None,
        }
    }
}

/// `s` with every occurrence of `c` removed.
pub open spec fn without_char(s: Seq<char>, c: char) -> Seq<char>
    decreases s.len(),
{
    if s.len() == 0 {
        s
    } else if s.last() == c {
        without_char(s.drop_last(), c)
    } else {
        without_char(s.drop_last(), c).push(s.last())
    }
}

/// The decimal digit for `d` (for `0 <= d < 10`).
pub open spec fn digit(d: nat) -> char {
    (d + 48) as char
}

/// The decimal digits of `n`, most significant first, without leading zeros
/// (`0` is rendered as a single digit).
pub open spec fn decimal_digits(n: nat) -> Seq<char>
    decreases n,
{
    if n < 10 {
        seq![digit(n)]
    } else {
        decimal_digits(n / 10).push(digit(n % 10))
    }
}

/// The decimal rendering of `n`, with a leading `-` for negative values.
pub open spec fn decimal(n: int) -> Seq<char> {
    if n < 0 {
        seq!['-'] + decimal_digits((-n) as nat)
    } else {
        decimal_digits(n as nat)
    }
}

/// Calls `String::push`, which appends `c` to `s`; the claim is that the
/// characters of `s` grow by `c` at the end.
#[verifier::external_body]
pub(crate) fn push_char(s: &mut String, c: char)
    ensures
        final(s)@ == old(s)@.push(c),
{
    s.push(c);
}

/// Executable test for the Unicode `White_Space` property.
pub fn is_space_char(c: char) -> (r: bool)
    ensures
        r == is_space(c),
{
    let u: u32 = c as u32;
    (0x09 <= u && u <= 0x0d) || u == 0x20 || u == 0x85 || u == 0xa0 || u == 0x1680 || (0x2000
        <= u && u <= 0x200a) || u == 0x2028 || u == 0x2029 || u == 0x202f || u == 0x205f || u
        == 0x3000
}

/// The characters of `s`, in order, as a vector.
pub fn chars_of(s: &str) -> (v: Vec<char>)
    ensures
        v@ == s@,
{
    let mut v: Vec<char> = Vec::new();
    for c in it: s.chars()
        invariant
            it.seq() == s@,
            v@ == it.seq().take(it.index()),
    {
        v.push(c);
    }
    v
}

/// Whether `c` occurs in `s`.
pub fn has_char(s: &str, c: char) -> (r: bool)
    ensures
        r == s@.contains(c),
{
    let v = chars_of(s);
    let mut i: usize = 0;
    while i < v.len()
        invariant
            i <= v@.len(),
            v@ == s@,
            forall|j: int| 0 <= j < i ==> v@[j] != c,
        decreases v.len() - i,
    {
        if v[i] == c {
            assert(v@[i as int] == c);
            return true;
        }
        i = i + 1;
    }
    false
}

/// The characters `v[from..to]` as a string.
pub fn string_of_range(v: &Vec<char>, from: usize, to: usize) -> (r: String)
    requires
        from <= to <= v.len(),
    ensures
        r@ == v@.subrange(from as int, to as int),
{
    let mut r = String::new();
    let mut i: usize = from;
    while i < to
        invariant
            from <= i <= to <= v.len(),
            r@ == v@.subrange(from as int, i as int),
        decreases to - i,
    {
        push_char(&mut r, v[i]);
        i = i + 1;
        assert(r@ =~= v@.subrange(from as int, i as int));
    }
    r
}

proof fn lemma_leading_spaces(s: Seq<char>, i: int)
    requires
        0 <= i <= s.len(),
        forall|j: int| 0 <= j < i ==> is_space(#[trigger] s[j]),
        i == s.len() || !is_space(s[i]),
    ensures
        leading_spaces(s) == i,
    decreases i,
{
    if i > 0 {
        lemma_leading_spaces(s.drop_first(), i - 1);
    }
}

proof fn lemma_trailing_spaces(s: Seq<char>, k: int)
    requires
        0 <= k <= s.len(),
        forall|j: int| s.len() - k <= j < s.len() ==> is_space(#[trigger] s[j]),
        k == s.len() || !is_space(s[s.len() - k - 1]),
    ensures
        trailing_spaces(s) == k,
    decreases k,
{
    if k > 0 {
        lemma_trailing_spaces(s.drop_last(), k - 1);
    }
}

/// `s` without leading and trailing whitespace.
pub fn trim(s: &str) -> (r: String)
    ensures
        r@ == trimmed(s@),
{
    let v = chars_of(s);
    let n: usize = v.len();
    let mut i: usize = 0;
    while i < n && is_space_char(v[i])
        invariant
            i <= n == v@.len(),
            forall|j: int| 0 <= j < i ==> is_space(#[trigger] v@[j]),
        decreases n - i,
    {
        i = i + 1;
    }
    proof {
        lemma_leading_spaces(v@, i as int);
    }
    let ghost rest = v@.skip(i as int);
    let mut e: usize = n;
    while e > i && is_space_char(v[e - 1])
        invariant
            i <= e <= n == v@.len(),
            rest == v@.skip(i as int),
            forall|j: int| e <= j < n ==> is_space(#[trigger] v@[j]),
        decreases e - i,
    {
        e = e - 1;
    }
    proof {
        let k: int = n - e;
        assert forall|j: int| rest.len() - k <= j < rest.len() implies is_space(
            #[trigger] rest[j],
        ) by {
            assert(rest[j] == v@[j + i]);
        }
        if k < rest.len() {
            assert(rest[rest.len() - k - 1] == v@[e - 1]);
        }
        lemma_trailing_spaces(rest, k as int);
    }
    let r = string_of_range(&v, i, e);
    assert(r@ =~= trimmed(s@));
    r
}

/// The part of `s` after `prefix`, where `s` starts with `prefix`.
pub fn strip_prefix(s: &str, prefix: &str) -> (r: Option<String>)
    ensures
        has_prefix(s@, prefix@) ==> (r matches Some(t) && t@ == s@.skip(prefix@.len() as int)),
        !has_prefix(s@, prefix@) ==> r is None,
{
    let v = chars_of(s);
    let p = chars_of(prefix);
    if p.len() > v.len() {
        return None;
    }
    let mut i: usize = 0;
    while i < p.len()
        invariant
            i <= p@.len() <= v@.len(),
            v@ == s@,
            p@ == prefix@,
            forall|j: int| 0 <= j < i ==> v@[j] == p@[j],
        decreases p.len() - i,
    {
        if v[i] != p[i] {
            assert(v@.take(p@.len() as int)[i as int] != p@[i as int]);
            return None;
        }
        i = i + 1;
    }
    assert(v@.take(p@.len() as int) =~= p@);
    let r = string_of_range(&v, p.len(), v.len());
    assert(r@ =~= s@.skip(prefix@.len() as int));
    Some(r)
}

proof fn lemma_split_first_at(s: Seq<char>, sep: char, k: int)
    requires
        0 <= k < s.len(),
        s[k] == sep,
        forall|j: int| 0 <= j < k ==> s[j] != sep,
    ensures
        split_first(s, sep) == Some((s.take(k), s.skip(k + 1))),
    decreases k,
{
    if k > 0 {
        lemma_split_first_at(s.drop_first(), sep, k - 1);
        assert(seq![s[0]] + s.drop_first().take(k - 1) =~= s.take(k));
        assert(s.drop_first().skip(k) =~= s.skip(k + 1));
    } else {
        assert(s.take(0) =~= Seq::<char>::empty());
        assert(s.skip(1) =~= s.drop_first());
    }
}

proof fn lemma_split_first_none(s: Seq<char>, sep: char)
    requires
        forall|j: int| 0 <= j < s.len() ==> s[j] != sep,
    ensures
        split_first(s, sep) is None,
    decreases s.len(),
{
    if s.len() > 0 {
        lemma_split_first_none(s.drop_first(), sep);
    }
}

/// Where `sep` does not occur in `a`, splitting `a`, `sep`, `b` at the
/// first `sep` gives back `a` and `b`.
pub proof fn lemma_split_first_join(a: Seq<char>, sep: char, b: Seq<char>)
    requires
        !a.contains(sep),
    ensures
        split_first(a + seq![sep] + b, sep) == Some((a, b)),
{
    let s = a + seq![sep] + b;
    assert forall|j: int| 0 <= j < a.len() implies s[j] != sep by {
        assert(s[j] == a[j]);
    }
    lemma_split_first_at(s, sep, a.len() as int);
    assert(s.take(a.len() as int) =~= a);
    assert(s.skip(a.len() as int + 1) =~= b);
}


proof fn lemma_leading_spaces_props(s: Seq<char>)
    ensures
        leading_spaces(s) <= s.len(),
        forall|j: int| 0 <= j < leading_spaces(s) ==> is_space(#[trigger] s[j]),
        leading_spaces(s) < s.len() ==> !is_space(s[leading_spaces(s) as int]),
    decreases s.len(),
{
    if s.len() > 0 && is_space(s[0]) {
        let t = s.drop_first();
        lemma_leading_spaces_props(t);
        assert forall|j: int| 0 <= j < leading_spaces(s) implies is_space(#[trigger] s[j]) by {
            if j > 0 {
                assert(s[j] == t[j - 1]);
            }
        }
    }
}

proof fn lemma_trailing_spaces_props(s: Seq<char>)
    ensures
        trailing_spaces(s) <= s.len(),
        forall|j: int| s.len() - trailing_spaces(s) <= j < s.len() ==> is_space(#[trigger] s[j]),
        trailing_spaces(s) < s.len() ==> !is_space(s[s.len() - trailing_spaces(s) - 1]),
    decreases s.len(),
{
    if s.len() > 0 && is_space(s.last()) {
        let t = s.drop_last();
        lemma_trailing_spaces_props(t);
        assert forall|j: int| s.len() - trailing_spaces(s) <= j < s.len() implies is_space(
            #[trigger] s[j],
        ) by {
            if j < s.len() - 1 {
                assert(s[j] == t[j]);
            }
        }
    }
}

/// A trimmed text that is not empty starts and ends with a character that
/// is not whitespace.
pub proof fn lemma_trimmed_ends(s: Seq<char>)
    ensures
        trimmed(s).len() > 0 ==> !is_space(trimmed(s)[0]) && !is_space(trimmed(s).last()),
{
    let u = trim_start(s);
    lemma_leading_spaces_props(s);
    lemma_trailing_spaces_props(u);
    let t = trimmed(s);
    if t.len() > 0 {
        assert(t[0] == u[0]);
        assert(u[0] == s[leading_spaces(s) as int]);
        assert(t.last() == u[u.len() - trailing_spaces(u) - 1]);
    }
}

/// Trimming a trimmed text changes nothing.
pub proof fn lemma_trim_idempotent(s: Seq<char>)
    ensures
        trimmed(trimmed(s)) == trimmed(s),
{
    let t = trimmed(s);
    lemma_trimmed_ends(s);
    assert(leading_spaces(t) == 0);
    assert(t.skip(0) =~= t);
    assert(trailing_spaces(t) == 0);
    assert(t.take(t.len() as int) =~= t);
}

/// Appending whitespace to a trimmed text and trimming again gives the
/// trimmed text back.
pub proof fn lemma_trim_after_space(s: Seq<char>, c: char)
    requires
        is_space(c),
    ensures
        trimmed(trimmed(s).push(c)) == trimmed(s),
{
    let t = trimmed(s);
    let w = t.push(c);
    lemma_trimmed_ends(s);
    if t.len() == 0 {
        assert(w[0] == c);
        assert(w.drop_first() =~= Seq::<char>::empty());
        assert(leading_spaces(w.drop_first()) == 0);
        assert(leading_spaces(w) == 1);
        assert(trim_start(w) =~= Seq::<char>::empty());
        assert(trimmed(w) =~= t);
    } else {
        assert(w[0] == t[0]);
        assert(leading_spaces(w) == 0);
        assert(w.skip(0) =~= w);
        assert(w.drop_last() =~= t);
        assert(trailing_spaces(t) == 0);
        assert(trailing_spaces(w) == 1);
        assert(w.take(w.len() - 1) =~= t);
    }
}

/// Splits `s` around the first occurrence of `sep`.
pub fn split_once(s: &str, sep: char) -> (r: Option<(String, String)>)
    ensures
        match split_first(s@, sep) {
            Some((a, b)) => (r matches Some((x, y)) && x@ == a && y@ == b),
            None => r is None,
        },
{
    let v = chars_of(s);
    let n: usize = v.len();
    let mut k: usize = 0;
    while k < n
        invariant
            k <= n == v@.len(),
            v@ == s@,
            forall|j: int| 0 <= j < k ==> v@[j] != sep,
        decreases n - k,
    {
        if v[k] == sep {
            proof {
                lemma_split_first_at(v@, sep, k as int);
            }
            let a = string_of_range(&v, 0, k);
            let b = string_of_range(&v, k + 1, n);
            assert(a@ =~= v@.take(k as int));
            assert(b@ =~= v@.skip(k + 1));
            return Some((a, b));
        }
        k = k + 1;
    }
    proof {
        lemma_split_first_none(v@, sep);
    }
    None
}

/// Removing `c` leaves no `c`.
pub proof fn lemma_without_char_absent(s: Seq<char>, c: char)
    ensures
        !without_char(s, c).contains(c),
    decreases s.len(),
{
    if s.len() > 0 {
        lemma_without_char_absent(s.drop_last(), c);
        let r = without_char(s.drop_last(), c);
        if s.last() != c {
            assert forall|j: int| 0 <= j < r.push(s.last()).len() implies r.push(s.last())[j]
                != c by {
                if j < r.len() {
                    assert(r.push(s.last())[j] == r[j]);
                }
            }
        }
    }
}


/// Removing `c` keeps every other character, in order: it is the filter
/// that drops exactly the occurrences of `c`.
pub proof fn lemma_without_char_is_filter(s: Seq<char>, c: char)
    ensures
        without_char(s, c) == s.filter(|x: char| x != c),
    decreases s.len(),
{
    let pred = |x: char| x != c;
    reveal(Seq::filter);
    if s.len() > 0 {
        lemma_without_char_is_filter(s.drop_last(), c);
        assert(s.drop_last().filter(|x: char| x != c) == s.drop_last().filter(pred));
        assert(s.filter(pred) == (if pred(s.last()) {
            s.drop_last().filter(pred).push(s.last())
        } else {
            s.drop_last().filter(pred)
        }));
    } else {
        assert(s.filter(pred) == s);
    }
    assert(s.filter(|x: char| x != c) == s.filter(pred));
}

/// A text that holds no `c` is left as it is.
pub proof fn lemma_without_char_keeps(s: Seq<char>, c: char)
    requires
        !s.contains(c),
    ensures
        without_char(s, c) == s,
    decreases s.len(),
{
    if s.len() > 0 {
        assert(s.last() == s[s.len() - 1]);
        assert forall|j: int| 0 <= j < s.drop_last().len() implies s.drop_last()[j] != c by {
            assert(s.drop_last()[j] == s[j]);
        }
        lemma_without_char_keeps(s.drop_last(), c);
        assert(s.drop_last().push(s.last()) =~= s);
    }
}

/// Among ASCII characters, whitespace is exactly the space and the controls
/// from tab to carriage return; no printable ASCII character is whitespace.
pub proof fn lemma_ascii_space(c: char)
    requires
        (c as u32) < 0x80,
    ensures
        is_space(c) <==> (c == ' ' || c == '\t' || c == '\n' || c == '\u{0b}' || c == '\u{0c}'
            || c == '\r'),
        ('!' as u32) <= (c as u32) <= ('~' as u32) ==> !is_space(c),
{
}

/// Between U+0080 and U+00FF, whitespace is exactly U+0085 (next line) and
/// U+00A0 (no-break space).
pub proof fn lemma_latin1_space(c: char)
    requires
        0x80 <= (c as u32) < 0x100,
    ensures
        is_space(c) <==> (c == '\u{85}' || c == '\u{a0}'),
{
}

/// Every whitespace character lies in one of the blocks that hold the
/// Unicode spaces: the C0 controls and space, Latin-1, or U+1680..U+3000.
pub proof fn lemma_space_blocks(c: char)
    requires
        is_space(c),
    ensures
        (c as u32) <= 0x20 || (c as u32) == 0x85 || (c as u32) == 0xa0 || 0x1680 <= (c as u32)
            <= 0x3000,
{
}

/// Trimming removes only whitespace: the trimmed text is a contiguous part
/// of the text, everything outside it is whitespace, and where it is not
/// empty it starts and ends with a character that is not whitespace.
pub proof fn lemma_trim_removes_only_space(s: Seq<char>)
    ensures
        exists|i: int, j: int|
            0 <= i <= j <= s.len() && trimmed(s) == s.subrange(i, j) && (forall|k: int|
                0 <= k < s.len() && (k < i || j <= k) ==> is_space(#[trigger] s[k])),
        trimmed(s).len() > 0 ==> !is_space(trimmed(s)[0]) && !is_space(trimmed(s).last()),
{
    let u = trim_start(s);
    lemma_leading_spaces_props(s);
    lemma_trailing_spaces_props(u);
    lemma_trimmed_ends(s);
    let i = leading_spaces(s) as int;
    let j = i + u.len() - trailing_spaces(u);
    assert(trimmed(s) =~= s.subrange(i, j));
    assert forall|k: int| 0 <= k < s.len() && (k < i || j <= k) implies is_space(#[trigger] s[k]) by {
        if j <= k {
            assert(s[k] == u[k - i]);
        }
    }
}

/// A text that neither starts nor ends with whitespace is left as it is by
/// trimming.
pub proof fn lemma_trim_keeps_trimmed(s: Seq<char>)
    requires
        s.len() == 0 || (!is_space(s[0]) && !is_space(s.last())),
    ensures
        trimmed(s) == s,
{
    if s.len() > 0 {
        assert(leading_spaces(s) == 0);
        assert(s.skip(0) =~= s);
        assert(trailing_spaces(s) == 0);
        assert(s.take(s.len() as int) =~= s);
    } else {
        assert(trimmed(s) =~= s);
    }
}

/// `s` with every occurrence of `c` removed.
pub fn remove_char(s: &str, c: char) -> (r: String)
    ensures
        r@ == without_char(s@, c),
        r@ == s@.filter(|x: char| x != c),
        !s@.contains(c) ==> r@ == s@,
{
    proof {
        lemma_without_char_is_filter(s@, c);
        if !s@.contains(c) {
            lemma_without_char_keeps(s@, c);
        }
    }
    let v = chars_of(s);
    let mut r = String::new();
    let mut i: usize = 0;
    assert(v@.take(0) =~= Seq::<char>::empty());
    while i < v.len()
        invariant
            i <= v@.len(),
            v@ == s@,
            r@ == without_char(v@.take(i as int), c),
        decreases v.len() - i,
    {
        assert(v@.take(i + 1).drop_last() =~= v@.take(i as int));
        if v[i] != c {
            push_char(&mut r, v[i]);
        }
        i = i + 1;
    }
    assert(v@.take(v@.len() as int) =~= v@);
    r
}

/// The decimal digits of `n`.
pub fn decimal_text_u64(n: u64) -> (r: String)
    ensures
        r@ == decimal_digits(n as nat),
    decreases n,
{
    if n < 10 {
        let mut r = String::new();
        let d = (n as u32 + 48) as u8 as char;
        push_char(&mut r, d);
        assert(r@ =~= decimal_digits(n as nat));
        r
    } else {
        let mut r = decimal_text_u64(n / 10);
        let d = ((n % 10) as u32 + 48) as u8 as char;
        push_char(&mut r, d);
        r
    }
}

/// The decimal rendering of `n`, with a leading `-` for negative values.
pub fn decimal_text(n: i64) -> (r: String)
    ensures
        r@ == decimal(n as int),
{
    if n < 0 {
        let m: u64 = if n == i64::MIN {
            9223372036854775808u64
        } else {
            (-n) as u64
        };
        let digits = decimal_text_u64(m);
        let mut r = String::new();
        push_char(&mut r, '-');
        r.append(digits.as_str());
        r
    } else {
        decimal_text_u64(n as u64)
    }
}

} // verus!
