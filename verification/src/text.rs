//! Text building blocks used by every printer of the library: decimal
//! rendering of numbers, joining with a separator, and indentation.
use vstd::prelude::*;

verus! {

/// The character of a decimal digit.
pub open spec fn digit_char(d: nat) -> char
    recommends
        d < 10,
{
    ((48 + d) as u8) as char
}

/// Decimal rendering of a natural number, without leading zeros.
pub open spec fn decimal(n: nat) -> Seq<char>
    decreases n,
{
    if n < 10 {
        seq![digit_char(n)]
    } else {
        decimal(n / 10).push(digit_char(n % 10))
    }
}

/// Appends one character to a string (`String::push`).
#[verifier::external_body]
pub(crate) fn push_char(s: &mut String, c: char)
    ensures
        final(s)@ == old(s)@.push(c),
{
    s.push(c);
}

/// The character of the decimal digit `d`.
pub fn digit_to_char(d: u8) -> (c: char)
    requires
        d < 10,
    ensures
        c == digit_char(d as nat),
{
    (48u8 + d) as char
}

/// Decimal rendering of a `usize`.
pub fn usize_to_string(n: usize) -> (res: String)
    ensures
        res@ == decimal(n as nat),
    decreases n,
{
    if n < 10 {
        let mut s = String::new();
        push_char(&mut s, digit_to_char(n as u8));
        s
    } else {
        let mut s = usize_to_string(n / 10);
        push_char(&mut s, digit_to_char((n % 10) as u8));
        s
    }
}

/// Decimal rendering of a `u64`.
pub fn u64_to_string(n: u64) -> (res: String)
    ensures
        res@ == decimal(n as nat),
    decreases n,
{
    if n < 10 {
        let mut s = String::new();
        push_char(&mut s, digit_to_char(n as u8));
        s
    } else {
        let mut s = u64_to_string(n / 10);
        push_char(&mut s, digit_to_char((n % 10) as u8));
        s
    }
}

/// The pieces `parts` put one after the other with `sep` between each two
/// neighbours.
pub open spec fn seq_join(parts: Seq<Seq<char>>, sep: Seq<char>) -> Seq<char>
    decreases parts.len(),
{
    if parts.len() == 0 {
        Seq::empty()
    } else if parts.len() == 1 {
        parts[0]
    } else {
        seq_join(parts.drop_last(), sep) + sep + parts.last()
    }
}

/// The views of a vector of strings.
pub open spec fn strings_view(v: Seq<String>) -> Seq<Seq<char>> {
    v.map_values(|s: String| s@)
}

/// Joins strings with a separator (`Vec<String>::join`).
pub fn join(parts: &Vec<String>, sep: &str) -> (res: String)
    ensures
        res@ == seq_join(strings_view(parts@), sep@),
{
    let mut res = String::new();
    let ghost views = strings_view(parts@);
    let mut i: usize = 0;
    while i < parts.len()
        invariant
            i <= parts.len(),
            views == strings_view(parts@),
            res@ == seq_join(views.take(i as int), sep@),
        decreases parts.len() - i,
    {
        assert(views.take(i + 1).drop_last() =~= views.take(i as int));
        if i > 0 {
            res.append(sep);
        } else {
            assert(views.take(1) =~= seq![views[0]]);
        }
        res.append(parts[i].as_str());
        i = i + 1;
    }
    assert(views.take(parts.len() as int) =~= views);
    res
}

/// `n` spaces.
pub open spec fn spaces(n: nat) -> Seq<char> {
    Seq::new(n, |i: int| ' ')
}

/// The text `s` with `n` spaces put after every line break.
pub open spec fn indent_rest(s: Seq<char>, n: nat) -> Seq<char>
    decreases s.len(),
{
    if s.len() == 0 {
        Seq::empty()
    } else if s[0] == '\n' {
        seq!['\n'] + spaces(n) + indent_rest(s.drop_first(), n)
    } else {
        seq![s[0]] + indent_rest(s.drop_first(), n)
    }
}

/// The text `s` with every line, the first included, preceded by `n`
/// spaces.
pub open spec fn indent_text(s: Seq<char>, n: nat) -> Seq<char> {
    spaces(n) + indent_rest(s, n)
}

proof fn lemma_indent_rest_split(s: Seq<char>, i: int, n: nat)
    requires
        0 <= i < s.len(),
    ensures
        indent_rest(s.take(i + 1), n) == indent_rest(s.take(i), n) + (if s[i] == '\n' {
            seq!['\n'] + spaces(n)
        } else {
            seq![s[i]]
        }),
    decreases i,
{
    let t = s.take(i + 1);
    if i == 0 {
        assert(t.drop_first() =~= Seq::<char>::empty());
        assert(s.take(0) =~= Seq::<char>::empty());
    } else {
        lemma_indent_rest_split(s.drop_first(), i - 1, n);
        assert(t.drop_first() =~= s.drop_first().take(i));
        assert(s.take(i).drop_first() =~= s.drop_first().take(i - 1));
        assert(s.take(i)[0] == s[0]);
    }
}

/// Appends `n` spaces.
fn push_spaces(s: &mut String, n: usize)
    ensures
        final(s)@ == old(s)@ + spaces(n as nat),
{
    let mut k: usize = 0;
    while k < n
        invariant
            k <= n,
            s@ == old(s)@ + spaces(k as nat),
        decreases n - k,
    {
        push_char(s, ' ');
        k = k + 1;
        assert(s@ =~= old(s)@ + spaces(k as nat));
    }
}

/// Indents every line of `s` by `n` spaces.
pub fn indent(s: &str, n: usize) -> (res: String)
    ensures
        res@ == indent_text(s@, n as nat),
{
    let mut res = String::new();
    push_spaces(&mut res, n);
    let cs = chars_of(s);
    let len = cs.len();
    let mut i: usize = 0;
    while i < len
        invariant
            len == s@.len(),
            cs@ == s@,
            i <= len,
            res@ == spaces(n as nat) + indent_rest(s@.take(i as int), n as nat),
        decreases len - i,
    {
        let c = cs[i];
        proof {
            lemma_indent_rest_split(s@, i as int, n as nat);
        }
        push_char(&mut res, c);
        if c == '\n' {
            push_spaces(&mut res, n);
        }
        i = i + 1;
        assert(res@ =~= spaces(n as nat) + indent_rest(s@.take(i as int), n as nat));
    }
    assert(s@.take(len as int) =~= s@);
    res
}


/// Whether two strings hold the same characters.
pub fn str_eq(a: &str, b: &str) -> (res: bool)
    ensures
        res == (a@ == b@),
{
    let n = a.unicode_len();
    if n != b.unicode_len() {
        return false;
    }
    let mut i: usize = 0;
    while i < n
        invariant
            n == a@.len(),
            n == b@.len(),
            i <= n,
            forall|j: int| 0 <= j < i ==> a@[j] == b@[j],
        decreases n - i,
    {
        if a.get_char(i) != b.get_char(i) {
            return false;
        }
        i = i + 1;
    }
    assert(a@ =~= b@);
    true
}

/// A copy of a string slice.
pub fn to_string(s: &str) -> (res: String)
    ensures
        res@ == s@,
{
    s.to_owned()
}

/// The concatenation of two strings.
pub fn concat(a: &str, b: &str) -> (res: String)
    ensures
        res@ == a@ + b@,
{
    let mut r = a.to_owned();
    r.append(b);
    r
}


/// The pieces of `s` between the occurrences of `c` (`str::split`): one
/// more piece than there are occurrences.
pub open spec fn split_on(s: Seq<char>, c: char) -> Seq<Seq<char>>
    decreases s.len(),
{
    if s.len() == 0 {
        seq![Seq::empty()]
    } else {
        let rest = split_on(s.drop_last(), c);
        if s.last() == c {
            rest.push(Seq::empty())
        } else {
            rest.update(rest.len() - 1, rest.last().push(s.last()))
        }
    }
}

/// Splitting always yields at least one piece.
pub proof fn lemma_split_on_nonempty(s: Seq<char>, c: char)
    ensures
        split_on(s, c).len() >= 1,
    decreases s.len(),
{
    if s.len() > 0 {
        lemma_split_on_nonempty(s.drop_last(), c);
    }
}

/// Joining the pieces of a split with the separator gives back the text.
pub proof fn lemma_join_split(s: Seq<char>, c: char)
    ensures
        seq_join(split_on(s, c), seq![c]) == s,
    decreases s.len(),
{
    if s.len() > 0 {
        let t = s.drop_last();
        let rest = split_on(t, c);
        lemma_join_split(t, c);
        lemma_split_on_nonempty(t, c);
        if s.last() == c {
            let r2 = rest.push(Seq::<char>::empty());
            assert(r2.drop_last() =~= rest);
            assert(seq_join(r2, seq![c]) =~= t + seq![c]);
        } else {
            let r2 = rest.update(rest.len() - 1, rest.last().push(s.last()));
            assert(r2.drop_last() =~= rest.drop_last());
            if rest.len() == 1 {
                assert(seq_join(rest, seq![c]) == rest[0]);
                assert(s =~= t.push(s.last()));
            } else {
                assert(seq_join(r2, seq![c]) =~= seq_join(rest.drop_last(), seq![c]) + seq![c]
                    + rest.last().push(s.last()));
                assert(s =~= t.push(s.last()));
            }
        }
        assert(s =~= t.push(s.last()));
    }
}

/// Splits a string at every occurrence of a character.
pub fn split_char(s: &str, c: char) -> (res: Vec<String>)
    ensures
        strings_view(res@) == split_on(s@, c),
        res@.len() >= 1,
{
    let cs = chars_of(s);
    let n = cs.len();
    let mut pieces: Vec<String> = Vec::new();
    let mut cur = String::new();
    let mut i: usize = 0;
    while i < n
        invariant
            n == s@.len(),
            cs@ == s@,
            i <= n,
            strings_view(pieces@).push(cur@) == split_on(s@.take(i as int), c),
        decreases n - i,
    {
        let ch = cs[i];
        let ghost before = strings_view(pieces@).push(cur@);
        assert(s@.take(i + 1).drop_last() =~= s@.take(i as int));
        if ch == c {
            let done = cur;
            pieces.push(done);
            cur = String::new();
            assert(strings_view(pieces@).push(cur@) =~= before.push(Seq::empty()));
        } else {
            push_char(&mut cur, ch);
            assert(strings_view(pieces@).push(cur@) =~= before.update(
                before.len() - 1,
                before.last().push(ch),
            ));
        }
        i = i + 1;
    }
    assert(s@.take(n as int) =~= s@);
    pieces.push(cur);
    assert(strings_view(pieces@) =~= split_on(s@, c));
    pieces
}


/// Whether a character is an ASCII decimal digit.
pub open spec fn is_digit(c: char) -> bool {
    '0' <= c && c <= '9'
}

/// A non-empty text of ASCII decimal digits.
pub open spec fn is_digits(s: Seq<char>) -> bool {
    s.len() > 0 && forall|i: int| 0 <= i < s.len() ==> is_digit(#[trigger] s[i])
}

/// The number that a text of decimal digits denotes.
pub open spec fn digits_value(s: Seq<char>) -> nat
    decreases s.len(),
{
    if s.len() == 0 {
        0
    } else {
        digits_value(s.drop_last()) * 10 + ((s.last() as u32) - 48) as nat
    }
}

/// Parses a text of ASCII decimal digits into a `usize`; `None` when the
/// text is not such a text or its value does not fit.
pub fn parse_usize(s: &str) -> (res: Option<usize>)
    ensures
        (is_digits(s@) && digits_value(s@) <= usize::MAX) ==> res == Some(
            digits_value(s@) as usize,
        ),
        !(is_digits(s@) && digits_value(s@) <= usize::MAX) ==> res is None,
{
    let n = s.unicode_len();
    if n == 0 {
        return None;
    }
    let mut v: usize = 0;
    let mut i: usize = 0;
    while i < n
        invariant
            n == s@.len(),
            i <= n,
            forall|j: int| 0 <= j < i ==> is_digit(#[trigger] s@[j]),
            v as nat == digits_value(s@.take(i as int)),
        decreases n - i,
    {
        let c = s.get_char(i);
        assert(s@.take(i + 1).drop_last() =~= s@.take(i as int));
        if c < '0' || c > '9' {
            return None;
        }
        let d = (c as u32 - 48) as usize;
        if v > (usize::MAX - d) / 10 {
            proof {
                let m = usize::MAX as int;
                let dd = d as int;
                let vv = v as int;
                assert(vv * 10 + dd > m) by (nonlinear_arith)
                    requires
                        vv > (m - dd) / 10,
                        0 <= dd < 10,
                        m - dd >= 0,
                ;
                if is_digits(s@) {
                    lemma_digits_value_prefix_bound(s@, (i + 1) as int);
                }
            }
            return None;
        }
        v = v * 10 + d;
        i = i + 1;
    }
    assert(s@.take(n as int) =~= s@);
    Some(v)
}

/// The value of a text of digits is at least the value of any prefix.
proof fn lemma_digits_value_prefix_bound(s: Seq<char>, k: int)
    requires
        is_digits(s),
        0 <= k <= s.len(),
    ensures
        digits_value(s.take(k)) <= digits_value(s),
    decreases s.len() - k,
{
    if k < s.len() {
        lemma_digits_value_prefix_bound(s, k + 1);
        assert(s.take(k + 1).drop_last() =~= s.take(k));
    } else {
        assert(s.take(k) =~= s);
    }
}


/// The characters of a string, in order.
pub fn chars_of(s: &str) -> (res: Vec<char>)
    ensures
        res@ == s@,
{
    let mut res: Vec<char> = Vec::new();
    for c in iter: s.chars()
        invariant
            res@ == iter.seq().take(iter.index() as int),
    {
        res.push(c);
    }
    res
}

} // verus!
