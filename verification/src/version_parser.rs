//! Finding the `pragma solidity` version constraints of a source text.
use vstd::prelude::*;
use crate::text::{chars_of, push_char};

verus! {

/// Whitespace between tokens.
pub open spec fn is_ws(c: char) -> bool {
    c == ' ' || c == '\t' || c == '\n' || c == '\r'
}

/// The first position at or after `i` that does not hold whitespace.
pub open spec fn skip_ws(s: Seq<char>, i: int) -> int
    decreases s.len() - i,
{
    if 0 <= i < s.len() && is_ws(s[i]) {
        skip_ws(s, i + 1)
    } else {
        i
    }
}

/// The first position at or after `i` that holds `c`, or the length.
pub open spec fn find_from(s: Seq<char>, i: int, c: char) -> int
    decreases s.len() - i,
{
    if i >= s.len() {
        s.len() as int
    } else if 0 <= i && s[i] == c {
        i
    } else {
        find_from(s, i + 1, c)
    }
}

/// Whether `w` occurs in `s` at position `i`.
pub open spec fn has_at(s: Seq<char>, i: int, w: Seq<char>) -> bool {
    0 <= i && i + w.len() <= s.len() && s.subrange(i, i + w.len()) == w
}

/// The position just after the first `*/` at or after `i`, or the length.
pub open spec fn block_comment_end(s: Seq<char>, i: int) -> int
    decreases s.len() - i,
{
    if i >= s.len() {
        s.len() as int
    } else if has_at(s, i, "*/"@) {
        i + 2
    } else {
        block_comment_end(s, i + 1)
    }
}

/// A text without its trailing whitespace.
pub open spec fn trim_end(t: Seq<char>) -> Seq<char>
    decreases t.len(),
{
    if t.len() > 0 && is_ws(t.last()) {
        trim_end(t.drop_last())
    } else {
        t
    }
}

/// The version constraint of a `pragma solidity <constraint>;` directive
/// that starts at `i`, and the position just after its `;`.
pub open spec fn pragma_at(s: Seq<char>, i: int) -> Option<(Seq<char>, int)> {
    if has_at(s, i, "pragma"@) {
        let j = skip_ws(s, i + 6);
        if j > i + 6 && has_at(s, j, "solidity"@) {
            let k = skip_ws(s, j + 8);
            let e = find_from(s, k, ';');
            if e < s.len() {
                Some((trim_end(s.subrange(k, e)), e + 1))
            } else {
                Option::None
            }
        } else {
            Option::None
        }
    } else {
        Option::None
    }
}

pub proof fn lemma_skip_ws_ge(s: Seq<char>, i: int)
    ensures
        skip_ws(s, i) >= i,
        0 <= i <= s.len() ==> skip_ws(s, i) <= s.len(),
    decreases s.len() - i,
{
    if 0 <= i < s.len() && is_ws(s[i]) {
        lemma_skip_ws_ge(s, i + 1);
    }
}

pub proof fn lemma_find_from_ge(s: Seq<char>, i: int, c: char)
    ensures
        find_from(s, i, c) >= i || i > s.len(),
        find_from(s, i, c) <= s.len() || i < 0,
        0 <= i ==> find_from(s, i, c) >= i || find_from(s, i, c) == s.len(),
    decreases s.len() - i,
{
    if i < s.len() && !(0 <= i && s[i] == c) {
        lemma_find_from_ge(s, i + 1, c);
    }
}

pub proof fn lemma_block_end_gt(s: Seq<char>, i: int)
    requires
        0 <= i <= s.len(),
    ensures
        i <= block_comment_end(s, i) <= s.len(),
    decreases s.len() - i,
{
    reveal_strlit("*/");
    if i < s.len() && !has_at(s, i, "*/"@) {
        lemma_block_end_gt(s, i + 1);
    }
}

pub proof fn lemma_pragma_at_advances(s: Seq<char>, i: int)
    requires
        0 <= i < s.len(),
    ensures
        pragma_at(s, i) matches Some((v, n)) ==> i < n <= s.len(),
{
    reveal_strlit("pragma");
    reveal_strlit("solidity");
    if has_at(s, i, "pragma"@) {
        let j = skip_ws(s, i + 6);
        lemma_skip_ws_ge(s, i + 6);
        if j > i + 6 && has_at(s, j, "solidity"@) {
            let k = skip_ws(s, j + 8);
            lemma_skip_ws_ge(s, j + 8);
            lemma_find_from_ge(s, k, ';');
        }
    }
}

/// The version constraints of all `pragma solidity` directives from
/// position `i` on, skipping `//` and `/* */` comments.
pub open spec fn pragmas_from(s: Seq<char>, i: int) -> Seq<Seq<char>>
    decreases s.len() - i,
{
    if i < 0 || i >= s.len() {
        Seq::empty()
    } else if has_at(s, i, "//"@) {
        let n = find_from(s, i + 2, '\n');
        proof {
            reveal_strlit("//");
            lemma_find_from_ge(s, i + 2, '\n');
        }
        pragmas_from(s, n)
    } else if has_at(s, i, "/*"@) {
        let n = block_comment_end(s, i + 2);
        proof {
            reveal_strlit("/*");
            lemma_block_end_gt(s, i + 2);
        }
        pragmas_from(s, n)
    } else {
        proof {
            lemma_pragma_at_advances(s, i);
        }
        match pragma_at(s, i) {
            Some((v, n)) => seq![v] + pragmas_from(s, n),
            Option::None => pragmas_from(s, i + 1),
        }
    }
}

/// Whether the characters `w` occur in `cs` at position `i`.
fn has_at_exec(cs: &Vec<char>, i: usize, w: &str) -> (res: bool)
    ensures
        res == has_at(cs@, i as int, w@),
{
    let wc = chars_of(w);
    if wc.len() > cs.len() || i > cs.len() - wc.len() {
        return false;
    }
    let mut k: usize = 0;
    while k < wc.len()
        invariant
            wc@ == w@,
            i + wc.len() <= cs.len(),
            k <= wc.len(),
            forall|m: int| 0 <= m < k ==> cs@[i + m] == wc@[m],
        decreases wc.len() - k,
    {
        if cs[i + k] != wc[k] {
            assert(cs@.subrange(i as int, i + wc.len())[k as int] != w@[k as int]);
            return false;
        }
        k = k + 1;
    }
    assert(cs@.subrange(i as int, i + wc.len()) =~= w@);
    true
}

fn skip_ws_exec(cs: &Vec<char>, i: usize) -> (res: usize)
    requires
        i <= cs.len(),
    ensures
        res == skip_ws(cs@, i as int),
{
    let mut j = i;
    while j < cs.len() && (cs[j] == ' ' || cs[j] == '\t' || cs[j] == '\n' || cs[j] == '\r')
        invariant
            i <= j <= cs.len(),
            skip_ws(cs@, j as int) == skip_ws(cs@, i as int),
        decreases cs.len() - j,
    {
        j = j + 1;
    }
    j
}

fn find_from_exec(cs: &Vec<char>, i: usize, c: char) -> (res: usize)
    requires
        i <= cs.len(),
    ensures
        res == find_from(cs@, i as int, c),
{
    let mut j = i;
    while j < cs.len() && cs[j] != c
        invariant
            i <= j <= cs.len(),
            find_from(cs@, j as int, c) == find_from(cs@, i as int, c),
        decreases cs.len() - j,
    {
        j = j + 1;
    }
    j
}

fn block_comment_end_exec(cs: &Vec<char>, i: usize) -> (res: usize)
    requires
        i <= cs.len(),
    ensures
        res == block_comment_end(cs@, i as int),
{
    let mut j = i;
    while j < cs.len()
        invariant
            i <= j <= cs.len(),
            block_comment_end(cs@, j as int) == block_comment_end(cs@, i as int),
        decreases cs.len() - j,
    {
        if has_at_exec(cs, j, "*/") {
            proof {
                reveal_strlit("*/");
            }
            return j + 2;
        }
        j = j + 1;
    }
    j
}

/// The characters `cs[from..to]` without trailing whitespace.
fn trimmed_text(cs: &Vec<char>, from: usize, to: usize) -> (res: String)
    requires
        from <= to <= cs.len(),
    ensures
        res@ == trim_end(cs@.subrange(from as int, to as int)),
{
    let mut end = to;
    while end > from && (cs[end - 1] == ' ' || cs[end - 1] == '\t' || cs[end - 1] == '\n' || cs[
        end - 1] == '\r')
        invariant
            from <= end <= to,
            to <= cs.len(),
            trim_end(cs@.subrange(from as int, end as int)) == trim_end(
                cs@.subrange(from as int, to as int),
            ),
        decreases end - from,
    {
        assert(cs@.subrange(from as int, end as int).drop_last() =~= cs@.subrange(
            from as int,
            end - 1,
        ));
        end = end - 1;
    }
    let mut res = String::new();
    let mut k = from;
    while k < end
        invariant
            from <= k <= end,
            end <= to,
            to <= cs.len(),
            res@ == cs@.subrange(from as int, k as int),
        decreases end - k,
    {
        push_char(&mut res, cs[k]);
        k = k + 1;
        assert(res@ =~= cs@.subrange(from as int, k as int));
    }
    res
}

/// The directive that starts at `i`, if it is a `pragma solidity`
/// directive: its constraint and the position after it.
fn pragma_at_exec(cs: &Vec<char>, i: usize) -> (res: Option<(String, usize)>)
    requires
        i < cs.len(),
    ensures
        pragma_at(cs@, i as int) matches Some((v, n)) ==> (res matches Some((r, m)) && r@ == v
            && m == n),
        pragma_at(cs@, i as int) is None ==> res is None,
{
    proof {
        reveal_strlit("pragma");
        reveal_strlit("solidity");
    }
    if !has_at_exec(cs, i, "pragma") {
        return None;
    }
    let j = skip_ws_exec(cs, i + 6);
    proof {
        lemma_skip_ws_ge(cs@, i + 6);
    }
    if j == i + 6 || !has_at_exec(cs, j, "solidity") {
        return None;
    }
    let k = skip_ws_exec(cs, j + 8);
    proof {
        lemma_skip_ws_ge(cs@, j + 8);
    }
    let e = find_from_exec(cs, k, ';');
    proof {
        lemma_find_from_ge(cs@, k as int, ';');
    }
    if e >= cs.len() {
        return None;
    }
    Some((trimmed_text(cs, k, e), e + 1))
}

/// Parse `pragma` version strings in a Solidity source code string.
///
/// Returns the version constraints of all `pragma solidity` directives, in
/// order, outside comments.
pub fn parse_pragma_solidity_version(source_code: &str) -> (res: Vec<String>)
    ensures
        crate::text::strings_view(res@) == pragmas_from(source_code@, 0),
{
    let cs = chars_of(source_code);
    let mut res: Vec<String> = Vec::new();
    let mut i: usize = 0;
    while i < cs.len()
        invariant
            cs@ == source_code@,
            i <= cs.len(),
            crate::text::strings_view(res@) + pragmas_from(cs@, i as int) == pragmas_from(
                cs@,
                0,
            ),
        decreases cs.len() - i,
    {
        let ghost before = crate::text::strings_view(res@);
        proof {
            reveal_strlit("//");
            reveal_strlit("/*");
        }
        if has_at_exec(&cs, i, "//") {
            let n = find_from_exec(&cs, i + 2, '\n');
            proof {
                lemma_find_from_ge(cs@, i + 2, '\n');
            }
            i = n;
        } else if has_at_exec(&cs, i, "/*") {
            let n = block_comment_end_exec(&cs, i + 2);
            proof {
                lemma_block_end_gt(cs@, i + 2);
            }
            i = n;
        } else {
            proof {
                lemma_pragma_at_advances(cs@, i as int);
            }
            match pragma_at_exec(&cs, i) {
                Some((v, n)) => {
                    res.push(v);
                    assert(crate::text::strings_view(res@) =~= before.push(
                        pragma_at(cs@, i as int).unwrap().0,
                    ));
                    assert(before.push(pragma_at(cs@, i as int).unwrap().0) + pragmas_from(
                        cs@,
                        n as int,
                    ) =~= before + pragmas_from(cs@, i as int));
                    i = n;
                },
                None => {
                    i = i + 1;
                },
            }
        }
    }
    assert(pragmas_from(cs@, i as int) =~= Seq::<Seq<char>>::empty());
    assert(crate::text::strings_view(res@) =~= crate::text::strings_view(res@) + Seq::<
        Seq<char>,
    >::empty());
    res
}

} // verus!
