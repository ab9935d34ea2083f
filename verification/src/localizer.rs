//! Line and column information of a source file.
use vstd::prelude::*;

verus! {

/// Positions just after each line break at a position below `k`.
pub open spec fn newline_starts(content: Seq<u8>, k: nat) -> Seq<usize>
    decreases k,
{
    if k == 0 {
        Seq::empty()
    } else {
        let rest = newline_starts(content, (k - 1) as nat);
        if content[k - 1] == 10u8 {
            rest.push(k as usize)
        } else {
            rest
        }
    }
}

/// The byte position at which each line of `content` starts, followed by
/// the length of the content (the position where the last line ends).
pub open spec fn line_starts_of(content: Seq<u8>) -> Seq<usize> {
    seq![0usize] + newline_starts(content, (content.len() - 1) as nat) + seq![
        content.len() as usize,
    ]
}

/// A sequence of positions that strictly increases.
pub open spec fn strictly_increasing(s: Seq<usize>) -> bool {
    forall|i: int, j: int| 0 <= i < j < s.len() ==> s[i] < s[j]
}

/// The line (counted from 0) of `lines` that holds position `pos`:
/// it starts at or before `pos`, and the next line starts after `pos`
/// unless it is the last line.
pub open spec fn holds_pos(lines: Seq<usize>, l: int, pos: int) -> bool {
    &&& 0 <= l < lines.len() - 1
    &&& lines[l] <= pos
    &&& (pos < lines[l + 1] || l + 1 == lines.len() - 1)
}

/// The line of `lines` that holds position `pos`, if `pos` lies within
/// the file (see `holds_pos`).
pub open spec fn line_of_pos(lines: Seq<usize>, pos: int) -> Option<int> {
    if 0 <= pos <= lines.last() && exists|l: int| holds_pos(lines, l, pos) {
        Some(choose|l: int| holds_pos(lines, l, pos))
    } else {
        None
    }
}

/// The column of position `pos`: its distance from the start of its line.
pub open spec fn column_of_pos(lines: Seq<usize>, pos: int) -> Option<int> {
    match line_of_pos(lines, pos) {
        Some(l) => Some(pos - lines[l]),
        None => None,
    }
}

/// Where the line that holds a position is known, it is the line of that
/// position.
proof fn lemma_line_of_pos_is(lines: Seq<usize>, l: int, pos: int)
    requires
        strictly_increasing(lines),
        holds_pos(lines, l, pos),
        0 <= pos <= lines.last(),
    ensures
        line_of_pos(lines, pos) == Some(l),
{
    let c = choose|k: int| holds_pos(lines, k, pos);
    lemma_line_of_pos_unique(lines, l, c, pos);
}

/// Data structure to capture line position information of a file.
///
/// Line and column numbers start from 0.
pub struct Localizer {
    /// File path.
    pub file_path: String,
    /// The byte-based position of each line in the file, followed by the
    /// length of the file.
    lines_pos: Vec<usize>,
}

proof fn lemma_newline_starts_bounds(content: Seq<u8>, k: nat)
    requires
        k <= content.len(),
        content.len() <= usize::MAX,
    ensures
        strictly_increasing(newline_starts(content, k)),
        forall|i: int|
            0 <= i < newline_starts(content, k).len() ==> 0 < #[trigger] newline_starts(
                content,
                k,
            )[i] <= k,
    decreases k,
{
    if k > 0 {
        lemma_newline_starts_bounds(content, (k - 1) as nat);
    }
}

impl Localizer {
    /// The positions recorded by the localizer: where each line starts,
    /// followed by the length of the file.
    pub closed spec fn line_starts(&self) -> Seq<usize> {
        self.lines_pos@
    }

    /// The path of the file.
    pub closed spec fn path(&self) -> Seq<char> {
        self.file_path@
    }

    /// At least one line, the first starting at 0, and strictly increasing
    /// positions.
    pub closed spec fn wf(&self) -> bool {
        &&& self.lines_pos@.len() >= 2
        &&& self.lines_pos@.len() <= usize::MAX
        &&& self.lines_pos@[0] == 0
        &&& strictly_increasing(self.lines_pos@)
    }

    /// Line-position mapping of the content of a file; `None` for empty
    /// content.
    pub fn from_content(file_path: String, content: &[u8]) -> (res: Option<Self>)
        ensures
            content@.len() == 0 ==> res is None,
            content@.len() > 0 ==> (res matches Some(l) && l.wf() && l.path() == file_path@
                && l.line_starts() == line_starts_of(content@)),
    {
        let length = content.len();
        if length == 0 {
            return None;
        }
        let mut lines_pos: Vec<usize> = Vec::new();
        lines_pos.push(0);
        let mut i: usize = 0;
        while i < length - 1
            invariant
                length == content@.len(),
                length > 0,
                i <= length - 1,
                lines_pos@ == seq![0usize] + newline_starts(content@, i as nat),
            decreases length - 1 - i,
        {
            if content[i] == 10u8 {
                lines_pos.push(i + 1);
            }
            i = i + 1;
        }
        lines_pos.push(length);
        let _n = lines_pos.len();
        proof {
            lemma_newline_starts_bounds(content@, (length - 1) as nat);
            assert(lines_pos@ =~= line_starts_of(content@));
            let s = lines_pos@;
            let mid = newline_starts(content@, (length - 1) as nat);
            assert forall|a: int, b: int| 0 <= a < b < s.len() implies s[a] < s[b] by {
                if a == 0 {
                    if b < s.len() - 1 {
                        assert(s[b] == mid[b - 1]);
                    }
                } else if b < s.len() - 1 {
                    assert(s[a] == mid[a - 1] && s[b] == mid[b - 1]);
                } else {
                    assert(s[a] == mid[a - 1]);
                }
            }
        }
        Some(Localizer { file_path, lines_pos })
    }

    /// Get the byte-based position of a line.
    pub fn get_pos_of_line(&self, line: usize) -> (res: Option<usize>)
        ensures
            line < self.line_starts().len() ==> res == Some(self.line_starts()[line as int]),
            line >= self.line_starts().len() ==> res is None,
    {
        if line >= self.lines_pos.len() {
            None
        } else {
            Some(self.lines_pos[line])
        }
    }

    /// Get the line number of a position in the file.
    pub fn get_line_of_pos(&self, pos: usize) -> (res: Option<usize>)
        requires
            self.wf(),
        ensures
            pos > self.line_starts().last() ==> res is None,
            pos <= self.line_starts().last() ==> (res matches Some(l) && holds_pos(
                self.line_starts(),
                l as int,
                pos as int,
            )),
            match line_of_pos(self.line_starts(), pos as int) {
                Some(l) => res == Some(l as usize),
                None => res is None,
            },
    {
        let last_line = self.lines_pos.len() - 1;
        if pos < self.lines_pos[0] || pos > self.lines_pos[last_line] {
            return None;
        }
        proof {
            assert(self.line_starts().last() == self.lines_pos@[last_line as int]);
        }
        let mut start_line: usize = 0;
        let mut end_line: usize = last_line;
        while start_line + 1 < end_line
            invariant
                self.wf(),
                last_line == self.lines_pos@.len() - 1,
                start_line < end_line <= last_line,
                self.lines_pos@[start_line as int] <= pos,
                pos < self.lines_pos@[end_line as int] || end_line == last_line,
                pos <= self.lines_pos@[last_line as int],
            decreases end_line - start_line,
        {
            let tmp_line = start_line + (end_line - start_line) / 2;
            let l = self.lines_pos[tmp_line];
            if l == pos {
                proof {
                    lemma_line_of_pos_is(self.lines_pos@, tmp_line as int, pos as int);
                }
                return Some(tmp_line);
            } else if l > pos {
                end_line = tmp_line;
            } else {
                start_line = tmp_line;
            }
        }
        proof {
            lemma_line_of_pos_is(self.lines_pos@, start_line as int, pos as int);
        }
        Some(start_line)
    }

    /// Get the column number of a position in the file.
    pub fn get_column_of_pos(&self, pos: usize) -> (res: Option<usize>)
        requires
            self.wf(),
        ensures
            pos > self.line_starts().last() ==> res is None,
            pos <= self.line_starts().last() ==> exists|l: int|
                holds_pos(self.line_starts(), l, pos as int) && res == Some(
                    (pos - self.line_starts()[l]) as usize,
                ),
            match column_of_pos(self.line_starts(), pos as int) {
                Some(c) => res == Some(c as usize),
                None => res is None,
            },
    {
        match self.get_line_of_pos(pos) {
            None => None,
            Some(line) => match self.get_pos_of_line(line) {
                None => None,
                Some(line_pos) => Some(pos - line_pos),
            },
        }
    }

    /// Get line and column number of a position in the file.
    pub fn get_line_column(&self, pos: usize) -> (res: Option<(usize, usize)>)
        requires
            self.wf(),
        ensures
            pos > self.line_starts().last() ==> res is None,
            self.line_starts().len() <= usize::MAX,
            pos <= self.line_starts().last() ==> (res matches Some((l, c)) && holds_pos(
                self.line_starts(),
                l as int,
                pos as int,
            ) && c == pos - self.line_starts()[l as int]),
            match (line_of_pos(self.line_starts(), pos as int), column_of_pos(
                self.line_starts(),
                pos as int,
            )) {
                (Some(l), Some(c)) => res == Some((l as usize, c as usize)),
                _ => res is None,
            },
    {
        match self.get_line_of_pos(pos) {
            None => None,
            Some(line) => match self.get_pos_of_line(line) {
                None => None,
                Some(line_pos) => {
                    let column = pos - line_pos;
                    Some((line, column))
                },
            },
        }
    }
}

/// A well-formed localizer has at least one line, its first line starts
/// at 0, and its line starts strictly increase; so the line that holds a
/// position is unique (see `lemma_line_of_pos_unique`).
pub proof fn lemma_localizer_wf(l: &Localizer)
    requires
        l.wf(),
    ensures
        l.line_starts().len() >= 2,
        l.line_starts()[0] == 0,
        strictly_increasing(l.line_starts()),
{
}

/// The line starts of a content, but for the first (0) and the end of
/// the content, are exactly the positions just after a line break before
/// the last byte.
pub proof fn lemma_line_starts_after_newlines(content: Seq<u8>, p: usize)
    requires
        0 < content.len() <= usize::MAX,
    ensures
        newline_starts(content, (content.len() - 1) as nat).contains(p) <==> (1 <= p
            <= content.len() - 1 && content[p - 1] == 10u8),
{
    lemma_newline_starts_contains(content, (content.len() - 1) as nat, p);
}

proof fn lemma_newline_starts_contains(content: Seq<u8>, k: nat, p: usize)
    requires
        k <= content.len() <= usize::MAX,
    ensures
        newline_starts(content, k).contains(p) <==> (1 <= p <= k && content[p - 1] == 10u8),
    decreases k,
{
    if k > 0 {
        lemma_newline_starts_contains(content, (k - 1) as nat, p);
        let rest = newline_starts(content, (k - 1) as nat);
        if content[k - 1] == 10u8 {
            let r = rest.push(k as usize);
            if r.contains(p) {
                let i = choose|i: int| 0 <= i < r.len() && #[trigger] r[i] == p;
                if i < rest.len() {
                    assert(rest[i] == p);
                }
            }
            if rest.contains(p) {
                let i = choose|i: int| 0 <= i < rest.len() && #[trigger] rest[i] == p;
                assert(r[i] == p);
            }
            if p == k {
                assert(r[rest.len() as int] == p);
            }
        }
    }
}

/// In strictly increasing line starts, at most one line holds a position:
/// the line of a position is unique.
pub proof fn lemma_line_of_pos_unique(lines: Seq<usize>, l1: int, l2: int, pos: int)
    requires
        strictly_increasing(lines),
        holds_pos(lines, l1, pos),
        holds_pos(lines, l2, pos),
    ensures
        l1 == l2,
{
    if l1 < l2 {
        assert(lines[l1 + 1] <= lines[l2]);
    } else if l2 < l1 {
        assert(lines[l2 + 1] <= lines[l1]);
    }
}

} // verus!
