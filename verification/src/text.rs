//! Text as sequences of characters: the vocabulary that the contracts of this crate use for
//! strings, and the executable helpers that compute it.

use vstd::prelude::*;

verus! {

/// Whether `c` is white space: one of the characters with the Unicode `White_Space` property.
pub open spec fn is_space(c: char) -> bool {
    let n = c as u32;
    ||| 0x09 <= n <= 0x0D
    ||| n == 0x20
    ||| n == 0x85
    ||| n == 0xA0
    ||| n == 0x1680
    ||| 0x2000 <= n <= 0x200A
    ||| n == 0x2028
    ||| n == 0x2029
    ||| n == 0x202F
    ||| n == 0x205F
    ||| n == 0x3000
}

/// Whether `c` is the keyword character `k` up to ASCII case. `k` is written in upper case.
pub open spec fn same_letter(c: char, k: char) -> bool {
    c == k || (0x41 <= k as u32 <= 0x5A && c as u32 == k as u32 + 0x20)
}

/// Whether `s` begins with `keyword`, letters compared without regard to ASCII case.
/// `keyword` is written in upper case.
pub open spec fn has_keyword(s: Seq<char>, keyword: Seq<char>) -> bool {
    &&& keyword.len() <= s.len()
    &&& forall|i: int| 0 <= i < keyword.len() ==> same_letter(#[trigger] s[i], keyword[i])
}

/// The index of the first character of `s` that is `c`, or `s.len()` where there is none.
pub open spec fn index_of(s: Seq<char>, c: char) -> int
    decreases s.len(),
{
    if s.len() == 0 || s[0] == c {
        0
    } else {
        1 + index_of(s.drop_first(), c)
    }
}

/// The index of the first white-space character of `s`, or `s.len()` where there is none.
pub open spec fn index_of_space(s: Seq<char>) -> int
    decreases s.len(),
{
    if s.len() == 0 || is_space(s[0]) {
        0
    } else {
        1 + index_of_space(s.drop_first())
    }
}

/// `s` without its leading white space.
pub open spec fn trim_start(s: Seq<char>) -> Seq<char>
    decreases s.len(),
{
    if s.len() > 0 && is_space(s[0]) {
        trim_start(s.drop_first())
    } else {
        s
    }
}

/// `s` without its trailing white space.
pub open spec fn trim_end(s: Seq<char>) -> Seq<char>
    decreases s.len(),
{
    if s.len() > 0 && is_space(s.last()) {
        trim_end(s.drop_last())
    } else {
        s
    }
}

/// `s` without its leading and trailing white space.
pub open spec fn trimmed(s: Seq<char>) -> Seq<char> {
    trim_end(trim_start(s))
}

/// Whether `s` holds nothing but white space.
pub open spec fn is_blank(s: Seq<char>) -> bool {
    forall|i: int| 0 <= i < s.len() ==> is_space(#[trigger] s[i])
}

/// `s` from position `n` on; empty where `s` is shorter than `n`.
pub open spec fn tail_from(s: Seq<char>, n: int) -> Seq<char> {
    if 0 <= n <= s.len() {
        s.skip(n)
    } else {
        Seq::empty()
    }
}

/// The decimal digit for `d`, which is below ten.
pub open spec fn digit_char(d: int) -> char {
    if d == 0 {
        '0'
    } else if d == 1 {
        '1'
    } else if d == 2 {
        '2'
    } else if d == 3 {
        '3'
    } else if d == 4 {
        '4'
    } else if d == 5 {
        '5'
    } else if d == 6 {
        '6'
    } else if d == 7 {
        '7'
    } else if d == 8 {
        '8'
    } else {
        '9'
    }
}

/// The decimal numeral of `n`, without leading zeros.
pub open spec fn decimal(n: nat) -> Seq<char>
    decreases n,
{
    if n < 10 {
        seq![digit_char(n as int)]
    } else {
        decimal(n / 10).push(digit_char((n % 10) as int))
    }
}

/// The decimal numeral of `n`, with a minus sign where `n` is negative.
pub open spec fn signed_decimal(n: int) -> Seq<char> {
    if n < 0 {
        seq!['-'] + decimal((-n) as nat)
    } else {
        decimal(n as nat)
    }
}

/// `line` without the carriage return at its end, where it has one.
pub open spec fn strip_cr(line: Seq<char>) -> Seq<char> {
    if line.len() > 0 && line.last() == '\r' {
        line.drop_last()
    } else {
        line
    }
}

/// The lines of `s`. A line ends at a line feed; the line feed, and a carriage return just
/// before it, are no part of the line. What follows the last line feed is a line of its own
/// unless it is empty.
pub open spec fn lines_of(s: Seq<char>) -> Seq<Seq<char>>
    decreases s.len(),
{
    if s.len() == 0 {
        Seq::empty()
    } else {
        let k = index_of(s, '\n');
        if 0 <= k < s.len() {
            seq![strip_cr(s.take(k))] + lines_of(s.skip(k + 1))
        } else {
            seq![s]
        }
    }
}

/// The pieces of `s` between the occurrences of `sep`, empty pieces included: one more
/// than there are separators.
pub open spec fn fields_of(s: Seq<char>, sep: char) -> Seq<Seq<char>>
    decreases s.len(),
{
    let k = index_of(s, sep);
    if 0 <= k < s.len() {
        seq![s.take(k)] + fields_of(s.skip(k + 1), sep)
    } else {
        seq![s]
    }
}

/// Whether each of `ranges` lies within a text of `len` characters.
pub open spec fn ranges_within(ranges: Seq<(usize, usize)>, len: nat) -> bool {
    forall|i: int| 0 <= i < ranges.len() ==> (#[trigger] ranges[i]).0 <= ranges[i].1 <= len
}

/// The pieces of `s` that `ranges` mark, in their order.
pub open spec fn pieces(s: Seq<char>, ranges: Seq<(usize, usize)>) -> Seq<Seq<char>> {
    Seq::new(ranges.len(), |i: int| s.subrange(ranges[i].0 as int, ranges[i].1 as int))
}

/// The first position of `c` in `s` is the one before which `c` does not occur.
pub proof fn lemma_index_of(s: Seq<char>, c: char, i: int)
    requires
        0 <= i <= s.len(),
        forall|j: int| 0 <= j < i ==> s[j] != c,
        i < s.len() ==> s[i] == c,
    ensures
        index_of(s, c) == i,
    decreases s.len(),
{
    if s.len() == 0 || s[0] == c {
    } else {
        let t = s.drop_first();
        assert forall|j: int| 0 <= j < i - 1 implies t[j] != c by {
            assert(t[j] == s[j + 1]);
        }
        lemma_index_of(t, c, i - 1);
    }
}

/// Where `index_of` points: within bounds, at `c` unless at the end, with no `c` before.
pub proof fn lemma_index_of_bounds(s: Seq<char>, c: char)
    ensures
        0 <= index_of(s, c) <= s.len(),
        index_of(s, c) < s.len() ==> s[index_of(s, c)] == c,
        forall|j: int| 0 <= j < index_of(s, c) ==> s[j] != c,
    decreases s.len(),
{
    if s.len() == 0 || s[0] == c {
    } else {
        let t = s.drop_first();
        lemma_index_of_bounds(t, c);
        assert forall|j: int| 0 <= j < index_of(s, c) implies s[j] != c by {
            if j > 0 {
                assert(t[j - 1] == s[j]);
            }
        }
    }
}

/// The first white space of `s` is at the position before which there is none.
pub proof fn lemma_index_of_space(s: Seq<char>, i: int)
    requires
        0 <= i <= s.len(),
        forall|j: int| 0 <= j < i ==> !is_space(s[j]),
        i < s.len() ==> is_space(s[i]),
    ensures
        index_of_space(s) == i,
    decreases s.len(),
{
    if s.len() == 0 || is_space(s[0]) {
    } else {
        let t = s.drop_first();
        assert forall|j: int| 0 <= j < i - 1 implies !is_space(t[j]) by {
            assert(t[j] == s[j + 1]);
        }
        lemma_index_of_space(t, i - 1);
    }
}

/// Where `index_of_space` points: within bounds.
pub proof fn lemma_index_of_space_bounds(s: Seq<char>)
    ensures
        0 <= index_of_space(s) <= s.len(),
    decreases s.len(),
{
    if s.len() == 0 || is_space(s[0]) {
    } else {
        lemma_index_of_space_bounds(s.drop_first());
    }
}

/// Leading white space is what `trim_start` removes: it leaves `s` from the first character
/// on that is none.
pub proof fn lemma_trim_start(s: Seq<char>, i: int)
    requires
        0 <= i <= s.len(),
        forall|j: int| 0 <= j < i ==> is_space(s[j]),
        i < s.len() ==> !is_space(s[i]),
    ensures
        trim_start(s) == s.skip(i),
    decreases s.len(),
{
    if s.len() > 0 && is_space(s[0]) {
        let t = s.drop_first();
        assert forall|j: int| 0 <= j < i - 1 implies is_space(t[j]) by {
            assert(t[j] == s[j + 1]);
        }
        lemma_trim_start(t, i - 1);
        assert(t.skip(i - 1) =~= s.skip(i));
    } else {
        assert(s.skip(0) =~= s);
    }
}

/// Trailing white space is what `trim_end` removes: it leaves `s` up to the last character
/// that is none.
pub proof fn lemma_trim_end(s: Seq<char>, k: int)
    requires
        0 <= k <= s.len(),
        forall|j: int| k <= j < s.len() ==> is_space(s[j]),
        k > 0 ==> !is_space(s[k - 1]),
    ensures
        trim_end(s) == s.take(k),
    decreases s.len(),
{
    if s.len() > 0 && is_space(s.last()) {
        let t = s.drop_last();
        lemma_trim_end(t, k);
        assert(t.take(k) =~= s.take(k));
    } else {
        assert(s.take(s.len() as int) =~= s);
    }
}

/// Tells whether `c` is white space.
pub fn char_is_space(c: char) -> (b: bool)
    ensures
        b == is_space(c),
{
    let n: u32 = c as u32;
    (0x09 <= n && n <= 0x0D) || n == 0x20 || n == 0x85 || n == 0xA0 || n == 0x1680 || (0x2000 <= n
        && n <= 0x200A) || n == 0x2028 || n == 0x2029 || n == 0x202F || n == 0x205F || n == 0x3000
}

/// Copies the characters of `s` into a vector, so that they can be read by position.
pub fn chars_of(s: &str) -> (v: Vec<char>)
    ensures
        v@ == s@,
{
    let mut v: Vec<char> = Vec::new();
    for c in it: s.chars()
        invariant
            v@ == s@.take(it.index() as int),
            it.seq() == s@,
    {
        v.push(c);
    }
    proof {
        assert(v@ =~= s@);
    }
    v
}

/// Appends `c` to `s` by `String::push`, which puts the character at the end and leaves the
/// rest as it was.
#[verifier::external_body]
pub(crate) fn push_char(s: &mut String, c: char)
    ensures
        final(s)@ == old(s)@.push(c),
{
    s.push(c)
}

/// The text made of the characters of `chars` from `from` up to `to`.
pub fn text_of(chars: &Vec<char>, from: usize, to: usize) -> (r: String)
    requires
        from <= to <= chars@.len(),
    ensures
        r@ == chars@.subrange(from as int, to as int),
{
    let mut r = String::new();
    let mut i: usize = from;
    while i < to
        invariant
            from <= i <= to <= chars@.len(),
            r@ == chars@.subrange(from as int, i as int),
        decreases to - i,
    {
        push_char(&mut r, chars[i]);
        i = i + 1;
        proof {
            assert(r@ =~= chars@.subrange(from as int, i as int));
        }
    }
    r
}

/// Tells whether `a` and `b` are the same text.
pub fn same_text(a: &str, b: &str) -> (same: bool)
    ensures
        same == (a@ == b@),
{
    let x = chars_of(a);
    let y = chars_of(b);
    if x.len() != y.len() {
        return false;
    }
    let mut i: usize = 0;
    while i < x.len()
        invariant
            i <= x@.len() == y@.len(),
            x@ == a@,
            y@ == b@,
            forall|j: int| 0 <= j < i ==> x@[j] == y@[j],
        decreases x@.len() - i,
    {
        if x[i] != y[i] {
            return false;
        }
        i = i + 1;
    }
    proof {
        assert(a@ =~= b@);
    }
    true
}

/// Tells whether the characters of `chars` begin with `keyword`, letters compared without
/// regard to ASCII case.
pub fn starts_with_keyword(chars: &Vec<char>, keyword: &str) -> (b: bool)
    ensures
        b == has_keyword(chars@, keyword@),
{
    let key = chars_of(keyword);
    if key.len() > chars.len() {
        return false;
    }
    let mut i: usize = 0;
    while i < key.len()
        invariant
            i <= key@.len() <= chars@.len(),
            key@ == keyword@,
            forall|j: int| 0 <= j < i ==> same_letter(#[trigger] chars@[j], key@[j]),
        decreases key@.len() - i,
    {
        let c: u32 = chars[i] as u32;
        let k: u32 = key[i] as u32;
        if !(chars[i] == key[i] || (0x41 <= k && k <= 0x5A && c == k + 0x20)) {
            proof {
                assert(!same_letter(chars@[i as int], key@[i as int]));
            }
            return false;
        }
        i = i + 1;
    }
    true
}

/// The position of the first `c` among the characters of `chars` from `from` up to `to`,
/// counted from `from`; `to - from` where there is none.
pub fn find_char(chars: &Vec<char>, from: usize, to: usize, c: char) -> (r: usize)
    requires
        from <= to <= chars@.len(),
    ensures
        r == index_of(chars@.subrange(from as int, to as int), c),
        r <= to - from,
{
    let ghost s = chars@.subrange(from as int, to as int);
    let mut i: usize = from;
    while i < to
        invariant
            from <= i <= to <= chars@.len(),
            s == chars@.subrange(from as int, to as int),
            forall|j: int| 0 <= j < i - from ==> s[j] != c,
        decreases to - i,
    {
        if chars[i] == c {
            proof {
                lemma_index_of(s, c, i - from);
            }
            return i - from;
        }
        i = i + 1;
    }
    proof {
        lemma_index_of(s, c, to - from);
    }
    to - from
}

/// The position of the first white space among the characters of `chars` from `from` up to
/// `to`, counted from `from`; `to - from` where there is none.
pub fn find_space(chars: &Vec<char>, from: usize, to: usize) -> (r: usize)
    requires
        from <= to <= chars@.len(),
    ensures
        r == index_of_space(chars@.subrange(from as int, to as int)),
        r <= to - from,
{
    let ghost s = chars@.subrange(from as int, to as int);
    let mut i: usize = from;
    while i < to
        invariant
            from <= i <= to <= chars@.len(),
            s == chars@.subrange(from as int, to as int),
            forall|j: int| 0 <= j < i - from ==> !is_space(s[j]),
        decreases to - i,
    {
        if char_is_space(chars[i]) {
            proof {
                lemma_index_of_space(s, i - from);
            }
            return i - from;
        }
        i = i + 1;
    }
    proof {
        lemma_index_of_space(s, to - from);
    }
    to - from
}

/// The bounds of what is left of the characters of `chars` from `from` up to `to` once
/// leading and trailing white space is taken away.
pub fn trim_bounds(chars: &Vec<char>, from: usize, to: usize) -> (r: (usize, usize))
    requires
        from <= to <= chars@.len(),
    ensures
        from <= r.0 <= r.1 <= to,
        chars@.subrange(r.0 as int, r.1 as int) == trimmed(
            chars@.subrange(from as int, to as int),
        ),
{
    let ghost s = chars@.subrange(from as int, to as int);
    let mut a: usize = from;
    while a < to && char_is_space(chars[a])
        invariant
            from <= a <= to <= chars@.len(),
            s == chars@.subrange(from as int, to as int),
            forall|j: int| 0 <= j < a - from ==> is_space(s[j]),
        decreases to - a,
    {
        a = a + 1;
    }
    proof {
        lemma_trim_start(s, a - from);
        assert(s.skip(a - from) =~= chars@.subrange(a as int, to as int));
    }
    let ghost t = chars@.subrange(a as int, to as int);
    let mut b: usize = to;
    while b > a && char_is_space(chars[b - 1])
        invariant
            a <= b <= to <= chars@.len(),
            t == chars@.subrange(a as int, to as int),
            forall|j: int| b - a <= j < t.len() ==> is_space(t[j]),
        decreases b - a,
    {
        b = b - 1;
    }
    proof {
        lemma_trim_end(t, b - a);
        assert(t.take(b - a) =~= chars@.subrange(a as int, b as int));
    }
    (a, b)
}

/// Tells whether the characters of `chars` from `from` up to `to` are all white space.
pub fn range_is_blank(chars: &Vec<char>, from: usize, to: usize) -> (b: bool)
    requires
        from <= to <= chars@.len(),
    ensures
        b == is_blank(chars@.subrange(from as int, to as int)),
{
    let ghost s = chars@.subrange(from as int, to as int);
    let mut i: usize = from;
    while i < to
        invariant
            from <= i <= to <= chars@.len(),
            s == chars@.subrange(from as int, to as int),
            forall|j: int| 0 <= j < i - from ==> is_space(#[trigger] s[j]),
        decreases to - i,
    {
        if !char_is_space(chars[i]) {
            proof {
                assert(!is_space(s[i - from]));
            }
            return false;
        }
        i = i + 1;
    }
    true
}

/// Marks the lines among the characters of `chars`.
pub fn line_ranges(chars: &Vec<char>) -> (r: Vec<(usize, usize)>)
    ensures
        ranges_within(r@, chars@.len()),
        pieces(chars@, r@) == lines_of(chars@),
{
    let n = chars.len();
    let ghost s = chars@;
    let mut r: Vec<(usize, usize)> = Vec::new();
    let mut pos: usize = 0;
    proof {
        assert(s.skip(0) =~= s);
        assert(pieces(s, r@) + lines_of(s.skip(0)) =~= lines_of(s));
    }
    while pos < n
        invariant
            pos <= n == s.len(),
            s == chars@,
            ranges_within(r@, s.len()),
            lines_of(s) == pieces(s, r@) + lines_of(s.skip(pos as int)),
        decreases n - pos,
    {
        let ghost rest = s.skip(pos as int);
        let ghost before = r@;
        proof {
            assert(rest =~= s.subrange(pos as int, n as int));
        }
        let k = find_char(chars, pos, n, '\n');
        if k < n - pos {
            let end: usize = if k > 0 && chars[pos + k - 1] == '\r' {
                pos + k - 1
            } else {
                pos + k
            };
            r.push((pos, end));
            proof {
                assert(strip_cr(rest.take(k as int)) =~= s.subrange(pos as int, end as int));
                assert(rest.skip(k + 1) =~= s.skip(pos + k + 1));
                assert(pieces(s, r@) =~= pieces(s, before) + seq![
                    s.subrange(pos as int, end as int),
                ]);
                assert(lines_of(rest) == seq![strip_cr(rest.take(k as int))] + lines_of(
                    rest.skip(k + 1),
                ));
                assert(pieces(s, before) + (seq![s.subrange(pos as int, end as int)] + lines_of(
                    s.skip(pos + k + 1),
                )) =~= pieces(s, r@) + lines_of(s.skip(pos + k + 1)));
            }
            pos = pos + k + 1;
        } else {
            r.push((pos, n));
            proof {
                assert(lines_of(rest) == seq![rest]);
                assert(s.skip(n as int).len() == 0);
                assert(pieces(s, r@) =~= pieces(s, before) + seq![rest]);
                assert(pieces(s, r@) + lines_of(s.skip(n as int)) =~= pieces(s, before) + seq![
                    rest,
                ]);
            }
            pos = n;
        }
    }
    proof {
        assert(s.skip(pos as int).len() == 0);
        assert(pieces(s, r@) + lines_of(s.skip(pos as int)) =~= pieces(s, r@));
    }
    r
}

/// Splits the characters of `chars` from `from` up to `to` at each `sep`.
pub fn split_fields(chars: &Vec<char>, from: usize, to: usize, sep: char) -> (r: Vec<String>)
    requires
        from <= to <= chars@.len(),
    ensures
        r.deep_view() == fields_of(chars@.subrange(from as int, to as int), sep),
{
    let ghost s = chars@.subrange(from as int, to as int);
    let mut r: Vec<String> = Vec::new();
    let mut pos: usize = from;
    proof {
        assert(s.skip(0) =~= s);
        assert(r.deep_view() + fields_of(s.skip(0), sep) =~= fields_of(s, sep));
    }
    loop
        invariant_except_break
            from <= pos <= to <= chars@.len(),
            s == chars@.subrange(from as int, to as int),
            fields_of(s, sep) == r.deep_view() + fields_of(s.skip(pos - from), sep),
        ensures
            r.deep_view() == fields_of(s, sep),
        decreases to - pos,
    {
        let ghost rest = s.skip(pos - from);
        let ghost before = r.deep_view();
        proof {
            assert(rest =~= chars@.subrange(pos as int, to as int));
        }
        let k = find_char(chars, pos, to, sep);
        let field = text_of(chars, pos, pos + k);
        r.push(field);
        proof {
            assert(rest.take(k as int) =~= chars@.subrange(pos as int, pos + k));
            assert(r.deep_view() =~= before + seq![rest.take(k as int)]);
        }
        if k < to - pos {
            proof {
                assert(rest.skip(k + 1) =~= s.skip(pos + k + 1 - from));
                assert(before + (seq![rest.take(k as int)] + fields_of(rest.skip(k + 1), sep))
                    =~= r.deep_view() + fields_of(rest.skip(k + 1), sep));
            }
            pos = pos + k + 1;
        } else {
            proof {
                assert(rest.take(k as int) =~= rest);
            }
            break ;
        }
    }
    r
}

/// Appends the decimal numeral of `n` to `out`.
pub fn push_decimal(out: &mut String, n: u64)
    ensures
        final(out)@ == old(out)@ + decimal(n as nat),
{
    let mut digits: Vec<char> = Vec::new();
    let mut rest: u64 = n;
    while rest >= 10
        invariant
            decimal(n as nat) == decimal(rest as nat) + digits@.reverse(),
        decreases rest,
    {
        let d: u64 = rest % 10;
        let c = digit_of(d);
        proof {
            let prev = digits@;
            assert(decimal(rest as nat) == decimal((rest / 10) as nat).push(c));
            assert(prev.push(c).reverse() =~= seq![c] + prev.reverse());
            assert(decimal((rest / 10) as nat) + prev.push(c).reverse() =~= decimal(
                (rest / 10) as nat,
            ).push(c) + prev.reverse());
        }
        digits.push(c);
        rest = rest / 10;
    }
    let c = digit_of(rest);
    push_char(out, c);
    let ghost base = out@;
    proof {
        assert(base == old(out)@ + decimal(rest as nat)) by {
            assert(old(out)@.push(c) =~= old(out)@ + seq![c]);
        }
    }
    let mut i: usize = digits.len();
    while i > 0
        invariant
            i <= digits@.len(),
            out@ == base + digits@.reverse().take(digits@.len() - i),
        decreases i,
    {
        i = i - 1;
        push_char(out, digits[i]);
        proof {
            let r = digits@.reverse();
            let k = digits@.len() - i - 1;
            assert(r[k] == digits@[i as int]);
            assert(r.take(k).push(r[k]) =~= r.take(k + 1));
            assert((base + r.take(k)).push(r[k]) =~= base + r.take(k + 1));
        }
    }
    proof {
        let r = digits@.reverse();
        assert(r.take(digits@.len() as int) =~= r);
        assert(out@ =~= old(out)@ + (decimal(rest as nat) + r));
    }
}

/// Appends the decimal numeral of `n` to `out`, with a minus sign where `n` is negative.
pub fn push_signed_decimal(out: &mut String, n: i64)
    ensures
        final(out)@ == old(out)@ + signed_decimal(n as int),
{
    if n < 0 {
        push_char(out, '-');
        let m: u64 = ((-(n + 1)) as u64) + 1;
        push_decimal(out, m);
        proof {
            assert(out@ =~= old(out)@ + (seq!['-'] + decimal((-n) as nat)));
        }
    } else {
        push_decimal(out, n as u64);
    }
}

/// The digit for `d`.
fn digit_of(d: u64) -> (c: char)
    requires
        d < 10,
    ensures
        c == digit_char(d as int),
{
    if d == 0 {
        '0'
    } else if d == 1 {
        '1'
    } else if d == 2 {
        '2'
    } else if d == 3 {
        '3'
    } else if d == 4 {
        '4'
    } else if d == 5 {
        '5'
    } else if d == 6 {
        '6'
    } else if d == 7 {
        '7'
    } else if d == 8 {
        '8'
    } else {
        '9'
    }
}

} // verus!
