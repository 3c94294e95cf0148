//! Small verified text utilities shared across the crate: trimming,
//! character-wise comparison, case folding, splitting and joining.
//!
//! Strings are specified through their `Seq<char>` views; every function
//! here has an exact functional contract.

use vstd::prelude::*;
use vstd::string::StrSliceExecFns;

verus! {

/// The whitespace characters recognised by trimming (the ASCII ones).
pub open spec fn is_space(c: char) -> bool {
    c == ' ' || c == '\t' || c == '\n' || c == '\r' || c == '\u{b}' || c == '\u{c}'
}

/// Decide [`is_space`].
pub fn is_space_char(c: char) -> (r: bool)
    ensures
        r == is_space(c),
{
    c == ' ' || c == '\t' || c == '\n' || c == '\r' || c == '\u{b}' || c == '\u{c}'
}

/// `s` without its leading whitespace.
pub open spec fn trim_front(s: Seq<char>) -> Seq<char>
    decreases s.len(),
{
    if s.len() > 0 && is_space(s[0]) {
        trim_front(s.skip(1))
    } else {
        s
    }
}

/// `s` without its trailing whitespace.
pub open spec fn trim_back(s: Seq<char>) -> Seq<char>
    decreases s.len(),
{
    if s.len() > 0 && is_space(s.last()) {
        trim_back(s.drop_last())
    } else {
        s
    }
}

/// `s` without leading and trailing whitespace.
pub open spec fn trimmed(s: Seq<char>) -> Seq<char> {
    trim_back(trim_front(s))
}

proof fn lemma_trim_front_skip(s: Seq<char>, lo: int)
    requires
        0 <= lo <= s.len(),
        forall|i: int| 0 <= i < lo ==> is_space(#[trigger] s[i]),
        lo < s.len() ==> !is_space(s[lo]),
    ensures
        trim_front(s) == s.skip(lo),
    decreases lo,
{
    if lo == 0 {
        assert(s.skip(0) =~= s);
    } else {
        lemma_trim_front_skip(s.skip(1), lo - 1);
        assert(s.skip(1).skip(lo - 1) =~= s.skip(lo));
    }
}

proof fn lemma_trim_back_take(s: Seq<char>, hi: int)
    requires
        0 <= hi <= s.len(),
        forall|j: int| hi <= j < s.len() ==> is_space(#[trigger] s[j]),
        hi > 0 ==> !is_space(s[hi - 1]),
    ensures
        trim_back(s) == s.take(hi),
    decreases s.len(),
{
    if hi == s.len() {
        assert(s.take(hi) =~= s);
    } else {
        assert(is_space(s.last()));
        lemma_trim_back_take(s.drop_last(), hi);
        assert(s.drop_last().take(hi) =~= s.take(hi));
    }
}

proof fn lemma_trim_front_no_lead(s: Seq<char>)
    ensures
        trim_front(s).len() > 0 ==> !is_space(trim_front(s)[0]),
    decreases s.len(),
{
    if s.len() > 0 && is_space(s[0]) {
        lemma_trim_front_no_lead(s.skip(1));
    }
}

proof fn lemma_trim_back_no_trail(s: Seq<char>)
    ensures
        trim_back(s).len() > 0 ==> !is_space(trim_back(s).last()),
    decreases s.len(),
{
    if s.len() > 0 && is_space(s.last()) {
        lemma_trim_back_no_trail(s.drop_last());
    }
}

proof fn lemma_trim_back_prefix(s: Seq<char>)
    ensures
        trim_back(s).len() <= s.len(),
        trim_back(s) == s.take(trim_back(s).len() as int),
    decreases s.len(),
{
    if s.len() > 0 && is_space(s.last()) {
        lemma_trim_back_prefix(s.drop_last());
        assert(s.drop_last().take(trim_back(s).len() as int) =~= s.take(
            trim_back(s).len() as int,
        ));
    } else {
        assert(s.take(s.len() as int) =~= s);
    }
}

/// Trimming an already-trimmed string changes nothing.
pub proof fn lemma_trimmed_idempotent(s: Seq<char>)
    ensures
        trimmed(trimmed(s)) == trimmed(s),
{
    let tf = trim_front(s);
    let t = trim_back(tf);
    lemma_trim_front_no_lead(s);
    lemma_trim_back_prefix(tf);
    lemma_trim_back_no_trail(tf);
    if t.len() > 0 {
        assert(t[0] == tf[0]);
    }
}

/// Strip leading and trailing whitespace.
pub fn trim(s: &str) -> (r: String)
    ensures
        r@ == trimmed(s@),
{
    let n = s.unicode_len();
    let mut lo: usize = 0;
    while lo < n && is_space_char(s.get_char(lo))
        invariant
            n == s@.len(),
            0 <= lo <= n,
            forall|i: int| 0 <= i < lo ==> is_space(#[trigger] s@[i]),
        decreases n - lo,
    {
        lo = lo + 1;
    }
    let mut hi: usize = n;
    while hi > lo && is_space_char(s.get_char(hi - 1))
        invariant
            n == s@.len(),
            0 <= lo <= hi <= n,
            forall|j: int| hi <= j < n ==> is_space(#[trigger] s@[j]),
        decreases hi,
    {
        hi = hi - 1;
    }
    proof {
        lemma_trim_front_skip(s@, lo as int);
        lemma_trim_back_take(s@.skip(lo as int), hi - lo);
        assert(s@.skip(lo as int).take(hi - lo) =~= s@.subrange(lo as int, hi as int));
    }
    let sub = s.substring_char(lo, hi);
    sub.to_owned()
}

/// Character-wise string equality.
pub fn str_eq(a: &str, b: &str) -> (r: bool)
    ensures
        r == (a@ == b@),
{
    let na = a.unicode_len();
    let nb = b.unicode_len();
    if na != nb {
        return false;
    }
    let mut i: usize = 0;
    while i < na
        invariant
            na == a@.len(),
            na == b@.len(),
            0 <= i <= na,
            forall|j: int| 0 <= j < i ==> a@[j] == b@[j],
        decreases na - i,
    {
        if a.get_char(i) != b.get_char(i) {
            return false;
        }
        i = i + 1;
    }
    proof {
        assert(a@ =~= b@);
    }
    true
}

/// The views of a sequence of strings.
pub open spec fn str_views(ss: Seq<String>) -> Seq<Seq<char>> {
    ss.map(|i: int, s: String| s@)
}

proof fn lemma_str_views_push(ss: Seq<String>, s: String)
    ensures
        str_views(ss.push(s)) =~= str_views(ss).push(s@),
{
}

/// The parts joined by `sep`: empty for no parts, and no trailing
/// separator.
pub open spec fn join_with(parts: Seq<Seq<char>>, sep: Seq<char>) -> Seq<char>
    decreases parts.len(),
{
    if parts.len() == 0 {
        Seq::empty()
    } else if parts.len() == 1 {
        parts[0]
    } else {
        parts[0] + sep + join_with(parts.skip(1), sep)
    }
}

proof fn lemma_join_with_push(parts: Seq<Seq<char>>, sep: Seq<char>, x: Seq<char>)
    ensures
        parts.len() == 0 ==> join_with(parts.push(x), sep) == x,
        parts.len() > 0 ==> join_with(parts.push(x), sep) == join_with(parts, sep) + sep + x,
    decreases parts.len(),
{
    if parts.len() == 0 {
        assert(parts.push(x)[0] == x);
    } else {
        lemma_join_with_push(parts.skip(1), sep, x);
        assert(parts.push(x).skip(1) =~= parts.skip(1).push(x));
        assert(parts.push(x)[0] == parts[0]);
        if parts.len() == 1 {
            assert(parts.skip(1).len() == 0);
            assert(join_with(parts.push(x), sep) == parts[0] + sep + x);
        } else {
            assert((parts[0] + sep + (join_with(parts.skip(1), sep) + sep + x)) =~= (parts[0] + sep
                + join_with(parts.skip(1), sep)) + sep + x);
        }
    }
}

/// Join strings with a separator, as the separator-joined concatenation.
pub fn join_strings(parts: &Vec<String>, sep: &str) -> (r: String)
    ensures
        r@ == join_with(str_views(parts@), sep@),
{
    let n = parts.len();
    let mut r = String::new();
    let mut i: usize = 0;
    while i < n
        invariant
            n == parts@.len(),
            0 <= i <= n,
            r@ == join_with(str_views(parts@).take(i as int), sep@),
        decreases n - i,
    {
        proof {
            let pre = str_views(parts@).take(i as int);
            lemma_join_with_push(pre, sep@, parts@[i as int]@);
            assert(pre.push(parts@[i as int]@) =~= str_views(parts@).take(i + 1));
        }
        if i > 0 {
            r.append(sep);
        }
        r.append(parts[i].as_str());
        i = i + 1;
    }
    proof {
        assert(str_views(parts@).take(n as int) =~= str_views(parts@));
    }
    r
}

/// How Rust's `split` cuts a string at every occurrence of `sep`: always
/// at least one part, with empty parts kept.
pub open spec fn split_on(s: Seq<char>, sep: char) -> Seq<Seq<char>>
    decreases s.len(),
{
    if s.len() == 0 {
        seq![Seq::<char>::empty()]
    } else if s[0] == sep {
        seq![Seq::<char>::empty()] + split_on(s.skip(1), sep)
    } else {
        seq![seq![s[0]] + split_on(s.skip(1), sep)[0]] + split_on(s.skip(1), sep).skip(1)
    }
}

proof fn lemma_split_on_len(s: Seq<char>, sep: char)
    ensures
        split_on(s, sep).len() >= 1,
    decreases s.len(),
{
    if s.len() > 0 {
        lemma_split_on_len(s.skip(1), sep);
    }
}

/// Unfolds `split_on` across a whole separator-free prefix: the first part
/// is that prefix, and the rest is the split of what follows the
/// separator.
proof fn lemma_split_on_prefix(s: Seq<char>, sep: char, j: int)
    requires
        0 <= j <= s.len(),
        forall|i: int| 0 <= i < j ==> s[i] != sep,
        j < s.len() ==> s[j] == sep,
    ensures
        j == s.len() ==> split_on(s, sep) == seq![s],
        j < s.len() ==> split_on(s, sep) == seq![s.take(j)] + split_on(s.skip(j + 1), sep),
    decreases j,
{
    lemma_split_on_len(s, sep);
    if j == 0 {
        if s.len() == 0 {
            assert(split_on(s, sep) =~~= seq![s]);
        } else {
            assert(s[0] == sep);
            assert(s.take(0) =~= Seq::<char>::empty());
            assert(split_on(s, sep) =~~= seq![s.take(0)] + split_on(s.skip(1), sep));
        }
    } else {
        assert(s.len() > 0 && s[0] != sep);
        let t = s.skip(1);
        lemma_split_on_prefix(t, sep, j - 1);
        lemma_split_on_len(t, sep);
        if j == s.len() {
            assert(split_on(t, sep) == seq![t]);
            assert(seq![s[0]] + t =~= s);
            assert(split_on(s, sep) =~~= seq![s]);
        } else {
            assert(split_on(t, sep) == seq![t.take(j - 1)] + split_on(t.skip(j), sep));
            assert(split_on(t, sep)[0] == t.take(j - 1));
            assert(seq![s[0]] + t.take(j - 1) =~= s.take(j));
            assert(t.skip(j) =~= s.skip(j + 1));
            assert(split_on(t, sep).skip(1) =~= split_on(t.skip(j), sep));
            assert(split_on(s, sep) =~~= seq![s.take(j)] + split_on(s.skip(j + 1), sep));
        }
    }
}

/// Split at every occurrence of `sep`, keeping empty parts, as `split`
/// does.
pub fn split_str(s: &str, sep: char) -> (parts: Vec<String>)
    ensures
        str_views(parts@) == split_on(s@, sep),
        parts@.len() >= 1,
{
    let n = s.unicode_len();
    let mut parts: Vec<String> = Vec::new();
    let mut start: usize = 0;
    let mut i: usize = 0;
    proof {
        assert(str_views(parts@) =~= Seq::<Seq<char>>::empty());
        assert(s@.skip(0) =~= s@);
        assert(str_views(parts@) + split_on(s@.skip(0), sep) =~~= split_on(s@, sep));
    }
    while i < n
        invariant
            n == s@.len(),
            0 <= start <= i <= n,
            split_on(s@, sep) == str_views(parts@) + split_on(s@.skip(start as int), sep),
            forall|k: int| start <= k < i ==> s@[k] != sep,
        decreases n - i,
    {
        if s.get_char(i) == sep {
            let part = s.substring_char(start, i).to_owned();
            let ghost prev = parts@;
            parts.push(part);
            proof {
                let rest = s@.skip(start as int);
                lemma_split_on_prefix(rest, sep, i - start);
                assert(rest.take(i - start) =~= s@.subrange(start as int, i as int));
                assert(rest.skip(i - start + 1) =~= s@.skip(i + 1));
                lemma_str_views_push(prev, parts@[prev.len() as int]);
                assert(str_views(prev).push(s@.subrange(start as int, i as int)) + split_on(
                    s@.skip(i + 1),
                    sep,
                ) =~= str_views(prev) + (seq![rest.take(i - start)] + split_on(
                    s@.skip(i + 1),
                    sep,
                )));
            }
            start = i + 1;
        }
        i = i + 1;
    }
    let last = s.substring_char(start, n).to_owned();
    let ghost prev = parts@;
    parts.push(last);
    proof {
        let rest = s@.skip(start as int);
        lemma_split_on_prefix(rest, sep, n - start);
        assert(rest =~= s@.subrange(start as int, n as int));
        lemma_str_views_push(prev, parts@[prev.len() as int]);
        assert(str_views(prev).push(rest) =~= str_views(prev) + seq![rest]);
    }
    parts
}

/// A decimal digit.
pub open spec fn is_digit(c: char) -> bool {
    '0' <= c <= '9'
}

/// The number a digit string denotes, most significant digit first.
pub open spec fn digits_val(s: Seq<char>) -> int
    decreases s.len(),
{
    if s.len() == 0 {
        0
    } else {
        digits_val(s.drop_last()) * 10 + (s.last() as int - '0' as int)
    }
}

/// The digits of a decimal literal: everything after an optional `+`.
pub open spec fn digits_part(s: Seq<char>) -> Seq<char> {
    if s.len() > 0 && s[0] == '+' {
        s.skip(1)
    } else {
        s
    }
}

/// Every character is a decimal digit.
pub open spec fn all_digits(d: Seq<char>) -> bool {
    forall|i: int| 0 <= i < d.len() ==> is_digit(#[trigger] d[i])
}

/// What `str::parse::<u32>` accepts: an optional leading `+`, then one or
/// more digits, denoting a value in range.
pub open spec fn u32_parseable(s: Seq<char>) -> bool {
    &&& digits_part(s).len() > 0
    &&& all_digits(digits_part(s))
    &&& digits_val(digits_part(s)) <= u32::MAX
}

/// The value of a parseable string.
pub open spec fn u32_value(s: Seq<char>) -> int {
    digits_val(digits_part(s))
}

proof fn lemma_digits_val_nonneg(s: Seq<char>)
    requires
        forall|i: int| 0 <= i < s.len() ==> is_digit(#[trigger] s[i]),
    ensures
        digits_val(s) >= 0,
    decreases s.len(),
{
    if s.len() > 0 {
        lemma_digits_val_nonneg(s.drop_last());
    }
}

proof fn lemma_digits_val_prefix(s: Seq<char>, k: int)
    requires
        0 <= k <= s.len(),
        forall|i: int| 0 <= i < s.len() ==> is_digit(#[trigger] s[i]),
    ensures
        digits_val(s) >= digits_val(s.take(k)) >= 0,
    decreases s.len(),
{
    lemma_digits_val_nonneg(s.take(k));
    if k == s.len() {
        assert(s.take(k) =~= s);
    } else {
        assert(s.drop_last().take(k) =~= s.take(k));
        lemma_digits_val_prefix(s.drop_last(), k);
        lemma_digits_val_nonneg(s.drop_last());
    }
}

/// Parse an unsigned decimal number as `str::parse::<u32>` does.
pub fn parse_u32(s: &str) -> (r: Option<u32>)
    ensures
        (r is Some) <==> u32_parseable(s@),
        r matches Some(v) ==> v == u32_value(s@),
{
    let n = s.unicode_len();
    let start: usize = if n > 0 && s.get_char(0) == '+' {
        1
    } else {
        0
    };
    let ghost d = digits_part(s@);
    proof {
        assert(s@.subrange(start as int, n as int) =~= d);
    }
    if start >= n {
        return None;
    }
    let mut val: u64 = 0;
    let mut i: usize = start;
    while i < n
        invariant
            n == s@.len(),
            start <= i <= n,
            d == digits_part(s@),
            d.len() == n - start,
            forall|k: int| 0 <= k < i - start ==> is_digit(#[trigger] d[k]),
            val == digits_val(d.take(i - start)),
            val <= u32::MAX,
        decreases n - i,
    {
        let c = s.get_char(i);
        proof {
            assert(d[i - start] == s@[i as int]);
            assert(d.take(i - start + 1).drop_last() =~= d.take(i - start));
            assert(d.take(i - start + 1).last() == d[i - start]);
        }
        if !('0' <= c && c <= '9') {
            proof {
                assert(!all_digits(d)) by {
                    assert(0 <= i - start < d.len() && !is_digit(d[i - start]));
                }
            }
            return None;
        }
        let digit: u32 = (c as u32) - ('0' as u32);
        val = val * 10 + (digit as u64);
        i = i + 1;
        if val > u32::MAX as u64 {
            proof {
                if all_digits(d) {
                    lemma_digits_val_prefix(d, i - start);
                }
            }
            return None;
        }
    }
    proof {
        assert(d.take(n - start) =~= d);
    }
    Some(val as u32)
}

/// `s` with every occurrence of `from` replaced by `to`.
pub open spec fn replaced(s: Seq<char>, from: char, to: char) -> Seq<char> {
    s.map(|i: int, c: char| if c == from {
        to
    } else {
        c
    })
}

proof fn lemma_split_join_replaces(s: Seq<char>, from: char, to: char)
    ensures
        join_with(split_on(s, from), seq![to]) == replaced(s, from, to),
    decreases s.len(),
{
    if s.len() == 0 {
        assert(replaced(s, from, to) =~= Seq::<char>::empty());
    } else {
        lemma_split_join_replaces(s.skip(1), from, to);
        lemma_split_on_len(s.skip(1), from);
        let rest = split_on(s.skip(1), from);
        if s[0] == from {
            assert(split_on(s, from) == seq![Seq::<char>::empty()] + rest);
            assert((seq![Seq::<char>::empty()] + rest)[0] =~= Seq::<char>::empty());
            assert((seq![Seq::<char>::empty()] + rest).skip(1) =~= rest);
            if rest.len() == 0 {
            } else {
                assert(join_with(split_on(s, from), seq![to]) == Seq::empty() + seq![to]
                    + join_with(rest, seq![to]));
                assert(Seq::empty() + seq![to] + replaced(s.skip(1), from, to) =~= replaced(
                    s,
                    from,
                    to,
                ));
            }
        } else {
            assert(split_on(s, from) == seq![seq![s[0]] + rest[0]] + rest.skip(1));
            assert((seq![seq![s[0]] + rest[0]] + rest.skip(1))[0] == seq![s[0]] + rest[0]);
            assert((seq![seq![s[0]] + rest[0]] + rest.skip(1)).skip(1) =~= rest.skip(1));
            if rest.len() == 1 {
                assert(join_with(rest, seq![to]) == rest[0]);
                assert(join_with(split_on(s, from), seq![to]) == seq![s[0]] + rest[0]);
                assert(seq![s[0]] + replaced(s.skip(1), from, to) =~= replaced(s, from, to));
            } else {
                assert(join_with(split_on(s, from), seq![to]) == (seq![s[0]] + rest[0]) + seq![to]
                    + join_with(rest.skip(1), seq![to]));
                assert(join_with(rest, seq![to]) == rest[0] + seq![to] + join_with(
                    rest.skip(1),
                    seq![to],
                ));
                assert((seq![s[0]] + rest[0]) + seq![to] + join_with(rest.skip(1), seq![to]) =~= (
                seq![s[0]] + (rest[0] + seq![to] + join_with(rest.skip(1), seq![to]))));
                assert(seq![s[0]] + replaced(s.skip(1), from, to) =~= replaced(s, from, to));
            }
        }
    }
}

/// Replace every occurrence of one character.
pub fn replace_char(s: &str, from: char, to: &str) -> (r: String)
    requires
        to@.len() == 1,
    ensures
        r@ == replaced(s@, from, to@[0]),
{
    let parts = split_str(s, from);
    let r = join_strings(&parts, to);
    proof {
        assert(to@ =~= seq![to@[0]]);
        lemma_split_join_replaces(s@, from, to@[0]);
    }
    r
}

/// ASCII lower case of one character.
pub open spec fn lower_char(c: char) -> char {
    if 'A' <= c <= 'Z' {
        ((c as int) + 32) as char
    } else {
        c
    }
}

/// ASCII lower case of a whole string.
pub open spec fn lower(s: Seq<char>) -> Seq<char> {
    s.map(|i: int, c: char| lower_char(c))
}

/// Whether `a`, folded to ASCII lower case, equals `b` (itself already
/// lower case wherever it matters).
pub fn str_eq_lower(a: &str, b: &str) -> (r: bool)
    ensures
        r == (lower(a@) == b@),
{
    let na = a.unicode_len();
    let nb = b.unicode_len();
    if na != nb {
        proof {
            assert(lower(a@).len() == a@.len());
        }
        return false;
    }
    let mut i: usize = 0;
    while i < na
        invariant
            na == a@.len(),
            na == b@.len(),
            0 <= i <= na,
            forall|j: int| 0 <= j < i ==> lower_char(#[trigger] a@[j]) == b@[j],
        decreases na - i,
    {
        if lower_char_exec(a.get_char(i)) != b.get_char(i) {
            proof {
                assert(lower(a@)[i as int] == lower_char(a@[i as int]));
            }
            return false;
        }
        i = i + 1;
    }
    proof {
        assert(lower(a@) =~= b@);
    }
    true
}

/// Decide [`lower_char`].
pub fn lower_char_exec(c: char) -> (r: char)
    ensures
        r == lower_char(c),
{
    match c {
        'A' => 'a',
        'B' => 'b',
        'C' => 'c',
        'D' => 'd',
        'E' => 'e',
        'F' => 'f',
        'G' => 'g',
        'H' => 'h',
        'I' => 'i',
        'J' => 'j',
        'K' => 'k',
        'L' => 'l',
        'M' => 'm',
        'N' => 'n',
        'O' => 'o',
        'P' => 'p',
        'Q' => 'q',
        'R' => 'r',
        'S' => 's',
        'T' => 't',
        'U' => 'u',
        'V' => 'v',
        'W' => 'w',
        'X' => 'x',
        'Y' => 'y',
        'Z' => 'z',
        other => other,
    }
}

} // verus!
