//! Building text: appending characters and decimal numbers to strings.
use vstd::prelude::*;

verus! {

/// The character of a decimal digit.
pub open spec fn digit_char(d: nat) -> char {
    if d == 0 { '0' }
    else if d == 1 { '1' }
    else if d == 2 { '2' }
    else if d == 3 { '3' }
    else if d == 4 { '4' }
    else if d == 5 { '5' }
    else if d == 6 { '6' }
    else if d == 7 { '7' }
    else if d == 8 { '8' }
    else { '9' }
}

/// The decimal digits of `n`, most significant first, without leading zeros.
pub open spec fn decimal(n: nat) -> Seq<char>
    decreases n,
{
    if n < 10 {
        seq![digit_char(n)]
    } else {
        decimal(n / 10).push(digit_char(n % 10))
    }
}

/// Appends one character (`String::push`).
#[verifier::external_body]
pub(crate) fn push_char(s: &mut String, c: char)
    ensures
        final(s)@ == old(s)@.push(c),
{
    s.push(c);
}

fn digit(d: usize) -> (c: char)
    requires
        d < 10,
    ensures
        c == digit_char(d as nat),
{
    if d == 0 { '0' }
    else if d == 1 { '1' }
    else if d == 2 { '2' }
    else if d == 3 { '3' }
    else if d == 4 { '4' }
    else if d == 5 { '5' }
    else if d == 6 { '6' }
    else if d == 7 { '7' }
    else if d == 8 { '8' }
    else { '9' }
}

/// Appends the decimal digits of `n`.
pub fn push_decimal(s: &mut String, n: usize)
    ensures
        final(s)@ == old(s)@ + decimal(n as nat),
    decreases n,
{
    if n < 10 {
        push_char(s, digit(n));
        assert(decimal(n as nat) == seq![digit_char(n as nat)]);
        assert(old(s)@.push(digit_char(n as nat)) =~= old(s)@ + seq![digit_char(n as nat)]);
    } else {
        push_decimal(s, n / 10);
        push_char(s, digit(n % 10));
        assert(old(s)@ + decimal(n as nat) =~= (old(s)@ + decimal((n / 10) as nat)).push(digit_char((n % 10) as nat)));
    }
}

/// Appends every character of `t`.
pub fn push_str(s: &mut String, t: &str)
    ensures
        final(s)@ == old(s)@ + t@,
{
    let ghost start = s@;
    for c in it: t.chars()
        invariant
            s@ == start + it.seq().subrange(0, it.index() as int),
            it.seq() == t@,
    {
        push_char(s, c);
        assert(start + it.seq().subrange(0, it.index() + 1) =~= (start + it.seq().subrange(0, it.index() as int)).push(c));
    }
}


/// The text of an integer: a minus sign for negative numbers, then the
/// decimal digits.
pub open spec fn int_text(n: int) -> Seq<char> {
    if n < 0 {
        seq!['-'] + decimal((-n) as nat)
    } else {
        decimal(n as nat)
    }
}

/// Appends the text of a signed number.
pub fn push_int(s: &mut String, n: i32)
    requires
        n > i32::MIN,
    ensures
        final(s)@ == old(s)@ + int_text(n as int),
{
    if n < 0 {
        push_char(s, '-');
        push_decimal(s, (-n) as usize);
        assert(old(s)@ + int_text(n as int) =~= old(s)@.push('-') + decimal((-n) as nat));
    } else {
        push_decimal(s, n as usize);
    }
}

/// The characters of a text.
pub fn chars_of(t: &str) -> (v: Vec<char>)
    ensures
        v@ == t@,
{
    let mut v: Vec<char> = Vec::new();
    for c in it: t.chars()
        invariant
            v@ == it.seq().subrange(0, it.index() as int),
            it.seq() == t@,
    {
        v.push(c);
        assert(it.seq().subrange(0, it.index() + 1) =~= it.seq().subrange(0, it.index() as int).push(c));
    }
    v
}

/// The text made of `v[from..to]`.
pub fn string_of(v: &Vec<char>, from: usize, to: usize) -> (s: String)
    requires
        from <= to <= v@.len(),
    ensures
        s@ == v@.subrange(from as int, to as int),
{
    let mut s = String::new();
    let mut k = from;
    while k < to
        invariant
            from <= k <= to <= v@.len(),
            s@ == v@.subrange(from as int, k as int),
        decreases to - k,
    {
        push_char(&mut s, v[k]);
        assert(v@.subrange(from as int, k + 1) =~= v@.subrange(from as int, k as int).push(v@[k as int]));
        k = k + 1;
    }
    s
}

/// A text made of the given characters.
pub fn string_from(t: &str) -> (s: String)
    ensures
        s@ == t@,
{
    let mut s = String::new();
    push_str(&mut s, t);
    assert(Seq::<char>::empty() + t@ =~= t@);
    s
}

pub open spec fn is_ascii_digit(c: char) -> bool {
    '0' <= c <= '9'
}

/// The value of a sequence of ASCII digits.
pub open spec fn digits_value(s: Seq<char>) -> int
    decreases s.len(),
{
    if s.len() == 0 {
        0
    } else {
        digits_value(s.drop_last()) * 10 + (s.last() as int - '0' as int)
    }
}

/// Unicode white space (the `White_Space` property, as `char::is_whitespace`
/// documents it).
pub open spec fn is_space(c: char) -> bool {
    let n = c as u32;
    (0x9 <= n <= 0xd) || n == 0x20 || n == 0x85 || n == 0xa0 || n == 0x1680 || (0x2000 <= n <= 0x200a)
        || n == 0x2028 || n == 0x2029 || n == 0x202f || n == 0x205f || n == 0x3000
}

pub fn space(c: char) -> (r: bool)
    ensures
        r == is_space(c),
{
    let n = c as u32;
    (0x9 <= n && n <= 0xd) || n == 0x20 || n == 0x85 || n == 0xa0 || n == 0x1680 || (0x2000 <= n
        && n <= 0x200a) || n == 0x2028 || n == 0x2029 || n == 0x202f || n == 0x205f || n == 0x3000
}

/// The number of white space characters at the start of `s`.
pub open spec fn lead_space(s: Seq<char>) -> nat
    decreases s.len(),
{
    if s.len() > 0 && is_space(s[0]) {
        1 + lead_space(s.drop_first())
    } else {
        0
    }
}

/// The number of white space characters at the end of `s`.
pub open spec fn trail_space(s: Seq<char>) -> nat
    decreases s.len(),
{
    if s.len() > 0 && is_space(s.last()) {
        1 + trail_space(s.drop_last())
    } else {
        0
    }
}

/// `s` without white space at either end.
#[verifier::opaque]
pub open spec fn trimmed(s: Seq<char>) -> Seq<char> {
    let a = s.skip(lead_space(s) as int);
    a.take(a.len() - trail_space(a))
}

pub proof fn lemma_lead_space(s: Seq<char>, k: int)
    requires
        0 <= k <= s.len(),
        forall|i: int| 0 <= i < k ==> is_space(s[i]),
        k == s.len() || !is_space(s[k]),
    ensures
        lead_space(s) == k,
    decreases k,
{
    if k > 0 {
        lemma_lead_space(s.drop_first(), k - 1);
    }
}

pub proof fn lemma_trail_space(s: Seq<char>, k: int)
    requires
        0 <= k <= s.len(),
        forall|i: int| s.len() - k <= i < s.len() ==> is_space(s[i]),
        k == s.len() || !is_space(s[s.len() - k - 1]),
    ensures
        trail_space(s) == k,
    decreases k,
{
    if k > 0 {
        lemma_trail_space(s.drop_last(), k - 1);
    }
}

/// The bounds `(a, b)` such that `v[a..b]` is `v[from..to]` trimmed.
pub fn trim_bounds(v: &Vec<char>, from: usize, to: usize) -> (r: (usize, usize))
    requires
        from <= to <= v@.len(),
    ensures
        from <= r.0 <= r.1 <= to,
        v@.subrange(r.0 as int, r.1 as int) == trimmed(v@.subrange(from as int, to as int)),
{
    reveal(trimmed);
    let ghost s = v@.subrange(from as int, to as int);
    let mut a = from;
    while a < to && space(v[a])
        invariant
            from <= a <= to <= v@.len(),
            s == v@.subrange(from as int, to as int),
            forall|i: int| from <= i < a ==> is_space(v@[i]),
        decreases to - a,
    {
        a = a + 1;
    }
    proof {
        lemma_lead_space(s, a - from);
    }
    let ghost t = s.skip(lead_space(s) as int);
    assert(t =~= v@.subrange(a as int, to as int));
    let mut b = to;
    while b > a && space(v[b - 1])
        invariant
            a <= b <= to <= v@.len(),
            t == v@.subrange(a as int, to as int),
            forall|i: int| b <= i < to ==> is_space(v@[i]),
        decreases b - a,
    {
        b = b - 1;
    }
    proof {
        lemma_trail_space(t, (to - b) as int);
        assert(t.take(t.len() - trail_space(t)) =~= v@.subrange(a as int, b as int));
    }
    (a, b)
}


/// The index of the first line feed in `s`, or its length where there is none.
pub open spec fn first_nl(s: Seq<char>) -> nat
    decreases s.len(),
{
    if s.len() == 0 || s[0] == '\n' {
        0
    } else {
        1 + first_nl(s.drop_first())
    }
}

pub proof fn lemma_first_nl_bound(s: Seq<char>)
    ensures
        first_nl(s) <= s.len(),
    decreases s.len(),
{
    if s.len() > 0 && s[0] != '\n' {
        lemma_first_nl_bound(s.drop_first());
    }
}

/// A line without its line ending: a `'\r'` just before the line feed goes too.
pub open spec fn strip_cr(l: Seq<char>) -> Seq<char> {
    if l.len() > 0 && l.last() == '\r' {
        l.drop_last()
    } else {
        l
    }
}

/// The lines of a text as `str::lines` documents them: split at `"\n"` or
/// `"\r\n"`, line endings dropped, and no empty line after a final ending.
pub open spec fn lines_of(s: Seq<char>) -> Seq<Seq<char>>
    decreases s.len(),
{
    if s.len() == 0 {
        seq![]
    } else if first_nl(s) == s.len() {
        seq![s]
    } else {
        proof {
            lemma_first_nl_bound(s);
        }
        seq![strip_cr(s.take(first_nl(s) as int))] + lines_of(s.skip(first_nl(s) as int + 1))
    }
}

pub proof fn lemma_first_nl(s: Seq<char>, k: int)
    requires
        0 <= k <= s.len(),
        forall|j: int| 0 <= j < k ==> s[j] != '\n',
        k == s.len() || s[k] == '\n',
    ensures
        first_nl(s) == k,
    decreases k,
{
    if k > 0 {
        lemma_first_nl(s.drop_first(), k - 1);
    }
}

/// The lines of `v`, as `(start, end)` bounds into `v`.
pub fn line_bounds(v: &Vec<char>) -> (r: Vec<(usize, usize)>)
    ensures
        r@.len() == lines_of(v@).len(),
        forall|k: int| 0 <= k < r@.len() ==> (#[trigger] r@[k]).0 <= r@[k].1 <= v@.len(),
        forall|k: int| 0 <= k < r@.len() ==> v@.subrange(r@[k].0 as int, r@[k].1 as int) == #[trigger] lines_of(v@)[k],
{
    let n = v.len();
    let mut r: Vec<(usize, usize)> = Vec::new();
    let mut p: usize = 0;
    let ghost done: Seq<Seq<char>> = seq![];
    assert(v@.skip(0) =~= v@);
    assert(done + lines_of(v@) =~= lines_of(v@));
    while p < n
        invariant
            n == v@.len(),
            p <= n,
            lines_of(v@) == done + lines_of(v@.skip(p as int)),
            r@.len() == done.len(),
            forall|k: int| 0 <= k < r@.len() ==> (#[trigger] r@[k]).0 <= r@[k].1 <= v@.len(),
            forall|k: int| 0 <= k < r@.len() ==> v@.subrange(r@[k].0 as int, r@[k].1 as int) == #[trigger] done[k],
        decreases n - p,
    {
        let ghost s = v@.skip(p as int);
        let mut i = p;
        while i < n && v[i] != '\n'
            invariant
                p <= i <= n,
                n == v@.len(),
                forall|j: int| p <= j < i ==> v@[j] != '\n',
            decreases n - i,
        {
            i = i + 1;
        }
        proof {
            lemma_first_nl(s, i - p);
        }
        let mut e = i;
        if i < n && i > p && v[i - 1] == '\r' {
            e = i - 1;
        }
        let ghost line = if i == n { s } else { strip_cr(s.take(i - p)) };
        assert(v@.subrange(p as int, e as int) =~= line);
        let ghost old_done = done;
        let ghost old_r = r@;
        r.push((p, e));
        proof {
            if i < n {
                assert(s.skip(i - p + 1) =~= v@.skip(i + 1));
            }
            done = done.push(line);
            assert forall|k: int| 0 <= k < r@.len() implies v@.subrange(r@[k].0 as int, r@[k].1 as int) == #[trigger] done[k] by {
                if k < old_r.len() {
                    assert(r@[k] == old_r[k]);
                    assert(done[k] == old_done[k]);
                }
            }
        }
        p = if i < n { i + 1 } else { n };
        proof {
            if i == n {
                assert(v@.skip(n as int) =~= Seq::<char>::empty());
            }
            assert(lines_of(s) == seq![line] + lines_of(v@.skip(p as int)));
            assert(old_done + (seq![line] + lines_of(v@.skip(p as int))) =~= done + lines_of(v@.skip(p as int)));
        }
    }
    proof {
        assert(v@.skip(p as int) =~= Seq::<char>::empty());
        assert(done + Seq::<Seq<char>>::empty() =~= done);
        assert(lines_of(v@) == done);
    }
    r
}

/// The index of the first `c` in `s`, where there is one.
#[verifier::opaque]
pub open spec fn find_char(s: Seq<char>, c: char) -> Option<int> {
    if exists|i: int| 0 <= i < s.len() && s[i] == c {
        Some(choose|i: int| 0 <= i < s.len() && s[i] == c && forall|j: int| 0 <= j < i ==> s[j] != c)
    } else {
        None
    }
}

/// The first `c` in `s` lies in `s` and is a `c`.
pub proof fn lemma_find_char(s: Seq<char>, c: char)
    ensures
        find_char(s, c) matches Some(i) ==> 0 <= i < s.len() && s[i] == c && forall|j: int| 0 <= j < i ==> s[j] != c,
{
    reveal(find_char);
    if exists|i: int| 0 <= i < s.len() && s[i] == c {
        let w = choose|i: int| 0 <= i < s.len() && s[i] == c;
        lemma_first_of(s, c, w);
    }
}

proof fn lemma_first_of(s: Seq<char>, c: char, w: int)
    requires
        0 <= w < s.len(),
        s[w] == c,
    ensures
        exists|i: int| 0 <= i < s.len() && s[i] == c && forall|j: int| 0 <= j < i ==> s[j] != c,
    decreases w,
{
    if exists|j: int| 0 <= j < w && s[j] == c {
        let j = choose|j: int| 0 <= j < w && s[j] == c;
        lemma_first_of(s, c, j);
    }
}

/// The first index `i` in `from..to` with `v[i] == c`.
pub fn find_in(v: &Vec<char>, from: usize, to: usize, c: char) -> (r: Option<usize>)
    requires
        from <= to <= v@.len(),
    ensures
        match find_char(v@.subrange(from as int, to as int), c) {
            Some(i) => r == Some((from + i) as usize),
            None => r is None,
        },
        r matches Some(i) ==> from <= i < to && v@[i as int] == c,
{
    reveal(find_char);
    let ghost s = v@.subrange(from as int, to as int);
    let mut i = from;
    while i < to
        invariant
            from <= i <= to <= v@.len(),
            s == v@.subrange(from as int, to as int),
            forall|j: int| from <= j < i ==> v@[j] != c,
        decreases to - i,
    {
        if v[i] == c {
            proof {
                reveal(find_char);
                let k = i - from;
                assert(s[k] == c);
                assert(forall|j: int| 0 <= j < k ==> s[j] != c);
                let w = choose|w: int| 0 <= w < s.len() && s[w] == c && forall|j: int| 0 <= j < w ==> s[j] != c;
                assert(w == k) by {
                    if w < k {
                        assert(s[w] != c);
                    } else if w > k {
                        assert(s[k] != c);
                    }
                }
            }
            return Some(i);
        }
        i = i + 1;
    }
    assert(forall|j: int| 0 <= j < s.len() ==> s[j] != c);
    reveal(find_char);
    None
}


/// Whether two texts are equal.
pub fn text_eq(a: &str, b: &str) -> (r: bool)
    ensures
        r == (a@ == b@),
{
    let va = chars_of(a);
    let vb = chars_of(b);
    if va.len() != vb.len() {
        return false;
    }
    let mut i: usize = 0;
    while i < va.len()
        invariant
            va@ == a@,
            vb@ == b@,
            va@.len() == vb@.len(),
            i <= va@.len(),
            forall|j: int| 0 <= j < i ==> va@[j] == vb@[j],
        decreases va@.len() - i,
    {
        if va[i] != vb[i] {
            return false;
        }
        i = i + 1;
    }
    assert(va@ =~= vb@);
    true
}

/// Appends `v[from..to]`.
pub fn push_range(s: &mut String, v: &Vec<char>, from: usize, to: usize)
    requires
        from <= to <= v@.len(),
    ensures
        final(s)@ == old(s)@ + v@.subrange(from as int, to as int),
{
    let mut k = from;
    while k < to
        invariant
            from <= k <= to <= v@.len(),
            s@ == old(s)@ + v@.subrange(from as int, k as int),
        decreases to - k,
    {
        push_char(s, v[k]);
        assert(old(s)@ + v@.subrange(from as int, k + 1) =~= (old(s)@ + v@.subrange(from as int, k as int)).push(v@[k as int]));
        k = k + 1;
    }
}

/// The lines of a text, each as a string (`str::lines`).
pub fn lines_vec(text: &str) -> (r: Vec<String>)
    ensures
        r@.len() == lines_of(text@).len(),
        forall|k: int| 0 <= k < r@.len() ==> (#[trigger] r@[k])@ == lines_of(text@)[k],
{
    let v = chars_of(text);
    let bounds = line_bounds(&v);
    let mut r: Vec<String> = Vec::new();
    let mut k: usize = 0;
    while k < bounds.len()
        invariant
            v@ == text@,
            bounds@.len() == lines_of(v@).len(),
            forall|j: int| 0 <= j < bounds@.len() ==> (#[trigger] bounds@[j]).0 <= bounds@[j].1 <= v@.len(),
            forall|j: int| 0 <= j < bounds@.len() ==> v@.subrange(bounds@[j].0 as int, bounds@[j].1 as int) == #[trigger] lines_of(v@)[j],
            k <= bounds@.len(),
            r@.len() == k,
            forall|j: int| 0 <= j < k ==> (#[trigger] r@[j])@ == lines_of(v@)[j],
        decreases bounds@.len() - k,
    {
        let (a, b) = bounds[k];
        r.push(string_of(&v, a, b));
        proof {
            assert(v@.subrange(bounds@[k as int].0 as int, bounds@[k as int].1 as int) == lines_of(v@)[k as int]);
        }
        k = k + 1;
    }
    r
}

/// The length in bytes of each text (`str::len`).
pub fn byte_lens(txt: &Vec<String>) -> (r: Vec<usize>)
    ensures
        r@.len() == txt@.len(),
        forall|k: int| 0 <= k < r@.len() ==> r@[k] == crate::bnd::byte_len((#[trigger] txt@[k])@) as usize,
{
    let mut r: Vec<usize> = Vec::new();
    let mut k: usize = 0;
    while k < txt.len()
        invariant
            k <= txt@.len(),
            r@.len() == k,
            forall|j: int| 0 <= j < k ==> r@[j] == crate::bnd::byte_len((#[trigger] txt@[j])@) as usize,
        decreases txt@.len() - k,
    {
        r.push(txt[k].as_str().len());
        k = k + 1;
    }
    r
}

/// What the `Debug` form of a `str` writes: the text in double quotes,
/// with quotes, backslashes and characters that are not printable
/// escaped.
pub uninterp spec fn debug_str(s: Seq<char>) -> Seq<char>;

/// The `Debug` form of a text (`<str as Debug>::fmt`).  Its escapes are not
/// stated: the result is named by `debug_str`.
#[verifier::external_body]
pub(crate) fn str_debug(s: &str) -> (r: String)
    ensures
        r@ == debug_str(s@),
{
    format!("{:?}", s)
}

/// `s` begins with `p`.
pub open spec fn has_prefix(s: Seq<char>, p: Seq<char>) -> bool {
    p.len() <= s.len() && s.take(p.len() as int) == p
}

/// Whether `s` begins with `p` (`str::starts_with`).
pub fn starts_with(s: &str, p: &str) -> (r: bool)
    ensures
        r == has_prefix(s@, p@),
{
    let a = chars_of(s);
    let b = chars_of(p);
    if b.len() > a.len() {
        return false;
    }
    let mut k: usize = 0;
    while k < b.len()
        invariant
            a@ == s@,
            b@ == p@,
            b@.len() <= a@.len(),
            k <= b@.len(),
            forall|j: int| 0 <= j < k ==> a@[j] == b@[j],
        decreases b@.len() - k,
    {
        if a[k] != b[k] {
            assert(s@.take(p@.len() as int)[k as int] != p@[k as int]);
            return false;
        }
        k = k + 1;
    }
    assert(s@.take(p@.len() as int) =~= p@);
    true
}

} // verus!
