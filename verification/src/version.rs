//! Solidity compiler versions: the known releases, and the releases that a
//! version constraint admits.
use vstd::prelude::*;
use crate::error::SolidityError;
use crate::text::{chars_of, decimal, is_digit, to_string, u64_to_string};

verus! {

/// A released Solidity compiler version `major.minor.patch`.
#[derive(Debug, Clone, Copy, PartialEq, Eq, Structural)]
pub struct SolcVersion {
    pub major: u64,
    pub minor: u64,
    pub patch: u64,
}

//-------------------------------------------------------------------------
// Known releases
//-------------------------------------------------------------------------

/// The releases `0.minor.(count - 1)` down to `0.minor.0`.
pub open spec fn solc_group(minor: u64, count: nat) -> Seq<SolcVersion> {
    Seq::new(count, |i: int| SolcVersion { major: 0, minor, patch: (count - 1 - i) as u64 })
}

/// All known releases, grouped by minor version from 0.4 to 0.8, each group
/// sorted from the newest patch to the oldest.
pub open spec fn solc_groups() -> Seq<Seq<SolcVersion>> {
    seq![
        solc_group(4, 27),
        solc_group(5, 18),
        solc_group(6, 13),
        solc_group(7, 7),
        solc_group(8, 21),
    ]
}

/// The published compiler releases: 0.4.0 to 0.4.26, 0.5.0 to 0.5.17,
/// 0.6.0 to 0.6.12, 0.7.0 to 0.7.6 and 0.8.0 to 0.8.20.
pub open spec fn is_published_release(v: SolcVersion) -> bool {
    &&& v.major == 0
    &&& {
        ||| v.minor == 4 && v.patch <= 26
        ||| v.minor == 5 && v.patch <= 17
        ||| v.minor == 6 && v.patch <= 12
        ||| v.minor == 7 && v.patch <= 6
        ||| v.minor == 8 && v.patch <= 20
    }
}

/// Whether a version is one of the known releases.
pub open spec fn is_known_release(v: SolcVersion) -> bool {
    exists|i: int, j: int|
        0 <= i < solc_groups().len() && 0 <= j < solc_groups()[i].len() && #[trigger] solc_groups()[i][j]
            == v
}

/// The known releases are exactly the published ones, each group holding
/// one minor version from its newest patch down to patch 0.
pub proof fn lemma_known_releases_are_published(v: SolcVersion)
    ensures
        is_known_release(v) <==> is_published_release(v),
        forall|i: int, j: int|
            0 <= i < solc_groups().len() && 0 <= j < solc_groups()[i].len() ==> {
                &&& #[trigger] solc_groups()[i][j].minor == i + 4
                &&& solc_groups()[i][j].patch == solc_groups()[i].len() - 1 - j
            },
{
    let gs = solc_groups();
    let lens = seq![27int, 18, 13, 7, 21];
    assert forall|i: int| 0 <= i < 5 implies #[trigger] gs[i].len() == lens[i] by {}
    if is_published_release(v) {
        let i = v.minor - 4;
        let j = lens[i] - 1 - v.patch;
        assert(gs[i][j] == v);
    }
}

/// The views of nested vectors.
pub open spec fn groups_view(v: Seq<Vec<SolcVersion>>) -> Seq<Seq<SolcVersion>> {
    v.map_values(|g: Vec<SolcVersion>| g@)
}

/// Releases `0.minor.(count - 1)` down to `0.minor.0`.
fn make_group(minor: u64, count: u64) -> (res: Vec<SolcVersion>)
    ensures
        res@ == solc_group(minor, count as nat),
{
    let mut res: Vec<SolcVersion> = Vec::new();
    let mut i: u64 = 0;
    while i < count
        invariant
            i <= count,
            res@ == solc_group(minor, count as nat).take(i as int),
        decreases count - i,
    {
        res.push(SolcVersion { major: 0, minor, patch: count - 1 - i });
        i = i + 1;
        assert(res@ =~= solc_group(minor, count as nat).take(i as int));
    }
    assert(solc_group(minor, count as nat).take(count as int) =~= solc_group(
        minor,
        count as nat,
    ));
    res
}

/// Enumerate all available Solidity versions.
pub fn init_solc_version_groups() -> (res: Vec<Vec<SolcVersion>>)
    ensures
        groups_view(res@) == solc_groups(),
        forall|v: SolcVersion|
            is_published_release(v) <==> exists|i: int, j: int|
                0 <= i < res@.len() && 0 <= j < res@[i]@.len() && #[trigger] res@[i]@[j] == v,
{
    let mut groups: Vec<Vec<SolcVersion>> = Vec::new();
    groups.push(make_group(4, 27));
    groups.push(make_group(5, 18));
    groups.push(make_group(6, 13));
    groups.push(make_group(7, 7));
    groups.push(make_group(8, 21));
    assert(groups_view(groups@) =~= solc_groups());
    assert forall|v: SolcVersion|
        is_published_release(v) <==> exists|i: int, j: int|
            0 <= i < groups@.len() && 0 <= j < groups@[i]@.len() && #[trigger] groups@[i]@[j] == v by {
        lemma_known_releases_are_published(v);
        if is_published_release(v) {
            let (i, j) = choose|i: int, j: int|
                0 <= i < solc_groups().len() && 0 <= j < solc_groups()[i].len()
                    && #[trigger] solc_groups()[i][j] == v;
            assert(groups@[i]@ == solc_groups()[i]);
            assert(groups@[i]@[j] == v);
        }
        if exists|i: int, j: int|
            0 <= i < groups@.len() && 0 <= j < groups@[i]@.len() && #[trigger] groups@[i]@[j] == v {
            let (i, j) = choose|i: int, j: int|
                0 <= i < groups@.len() && 0 <= j < groups@[i]@.len() && #[trigger] groups@[i]@[j] == v;
            assert(groups@[i]@ == solc_groups()[i]);
            assert(solc_groups()[i][j] == v);
        }
    }
    groups
}

/// Text of a version: `major.minor.patch`.
pub open spec fn version_text(v: SolcVersion) -> Seq<char> {
    decimal(v.major as nat) + "."@ + decimal(v.minor as nat) + "."@ + decimal(v.patch as nat)
}

impl SolcVersion {
    /// The text that displaying the version produces.
    pub fn to_string(&self) -> (res: String)
        ensures
            res@ == version_text(*self),
    {
        let mut s = u64_to_string(self.major);
        s.append(".");
        s.append(u64_to_string(self.minor).as_str());
        s.append(".");
        s.append(u64_to_string(self.patch).as_str());
        s
    }
}

//-------------------------------------------------------------------------
// Interleaving groups
//-------------------------------------------------------------------------

/// The `i`-th element of each group that has one, in group order.
pub open spec fn round(gs: Seq<Seq<SolcVersion>>, i: nat) -> Seq<SolcVersion>
    decreases gs.len(),
{
    if gs.len() == 0 {
        Seq::empty()
    } else {
        round(gs.drop_last(), i) + (if i < gs.last().len() {
            seq![gs.last()[i as int]]
        } else {
            Seq::empty()
        })
    }
}

/// Rounds `0` to `k - 1`, one after the other.
pub open spec fn rounds(gs: Seq<Seq<SolcVersion>>, k: nat) -> Seq<SolcVersion>
    decreases k,
{
    if k == 0 {
        Seq::empty()
    } else {
        rounds(gs, (k - 1) as nat) + round(gs, (k - 1) as nat)
    }
}

/// The length of the longest group.
pub open spec fn max_len(gs: Seq<Seq<SolcVersion>>) -> nat
    decreases gs.len(),
{
    if gs.len() == 0 {
        0
    } else {
        let m = max_len(gs.drop_last());
        if gs.last().len() > m {
            gs.last().len()
        } else {
            m
        }
    }
}

/// The elements of all groups taken round-robin: the first element of
/// each group, then the second of each, and so on.
pub open spec fn interleave(gs: Seq<Seq<SolcVersion>>) -> Seq<SolcVersion> {
    rounds(gs, max_len(gs))
}

/// A round is empty exactly when no group is long enough.
proof fn lemma_round_empty(gs: Seq<Seq<SolcVersion>>, i: nat)
    ensures
        (round(gs, i).len() == 0) <==> (i >= max_len(gs)),
    decreases gs.len(),
{
    if gs.len() > 0 {
        lemma_round_empty(gs.drop_last(), i);
    }
}

/// The longest group is no longer than any bound on all groups.
proof fn lemma_max_len_bound(gs: Seq<Seq<SolcVersion>>, b: nat)
    requires
        forall|j: int| 0 <= j < gs.len() ==> #[trigger] gs[j].len() <= b,
    ensures
        max_len(gs) <= b,
    decreases gs.len(),
{
    if gs.len() > 0 {
        lemma_max_len_bound(gs.drop_last(), b);
    }
}

/// Takes the elements of the groups round-robin.
pub fn interleave_groups(groups: &Vec<Vec<SolcVersion>>) -> (res: Vec<SolcVersion>)
    ensures
        res@ == interleave(groups_view(groups@)),
{
    let ghost gs = groups_view(groups@);
    proof {
        assert forall|j: int| 0 <= j < gs.len() implies #[trigger] gs[j].len() <= usize::MAX by {
            assert(groups@[j].len() == groups@[j]@.len());
        }
        lemma_max_len_bound(gs, usize::MAX as nat);
    }
    let mut all: Vec<SolcVersion> = Vec::new();
    let mut i: usize = 0;
    loop
        invariant
            gs == groups_view(groups@),
            i <= max_len(gs),
            max_len(gs) <= usize::MAX,
            all@ == rounds(gs, i as nat),
        ensures
            all@ == interleave(gs),
        decreases max_len(gs) - i,
    {
        let ghost before = all@;
        let mut found = false;
        let mut g: usize = 0;
        while g < groups.len()
            invariant
                gs == groups_view(groups@),
                g <= groups.len(),
                all@ == before + round(gs.take(g as int), i as nat),
                found == (round(gs.take(g as int), i as nat).len() > 0),
            decreases groups.len() - g,
        {
            assert(gs.take(g + 1).drop_last() =~= gs.take(g as int));
            assert(gs.take(g + 1).last() == groups@[g as int]@);
            if i < groups[g].len() {
                all.push(groups[g][i]);
                found = true;
            }
            g = g + 1;
            assert(all@ =~= before + round(gs.take(g as int), i as nat));
        }
        assert(gs.take(groups.len() as int) =~= gs);
        proof {
            lemma_round_empty(gs, i as nat);
        }
        if !found {
            assert(all@ =~= rounds(gs, i as nat));
            break;
        }
        i = i + 1;
    }
    all
}

//-------------------------------------------------------------------------
// Version constraints
//-------------------------------------------------------------------------

#[verifier::external_type_specification]
#[verifier::external_body]
pub struct ExRange(node_semver::Range);

/// Whether `node_semver` accepts a text as a version range.
pub uninterp spec fn spec_range_parses(constraint: Seq<char>) -> bool;

/// Whether the version `major.minor.patch` satisfies the range that
/// `node_semver` parses from `constraint`.
pub uninterp spec fn spec_satisfies(constraint: Seq<char>, major: u64, minor: u64, patch: u64) -> bool;

/// Whether the ranges that `node_semver` parses from two texts have a
/// version in common.
pub uninterp spec fn spec_allows_any(constraint: Seq<char>, other: Seq<char>) -> bool;

//-------------------------------------------------------------------------
// Range texts that `node_semver` does not handle
//-------------------------------------------------------------------------

/// A space or a tab, as the range parser skips them.
pub open spec fn is_blank(c: char) -> bool {
    c == ' ' || c == '\t'
}

/// A version component left open: `x`, `X` or `*`.
pub open spec fn is_wildcard(c: char) -> bool {
    c == 'x' || c == 'X' || c == '*'
}

/// Whether position `i` of `s` holds `c`.
pub open spec fn char_at(s: Seq<char>, i: int, c: char) -> bool {
    0 <= i < s.len() && s[i] == c
}

/// Whether position `i` of `s` holds a wildcard.
pub open spec fn wildcard_at(s: Seq<char>, i: int) -> bool {
    0 <= i < s.len() && is_wildcard(s[i])
}

/// Whether position `i` of `s` holds a decimal digit.
pub open spec fn digit_at(s: Seq<char>, i: int) -> bool {
    0 <= i < s.len() && is_digit(s[i])
}

/// The first position from `i` on that holds no blank.
pub open spec fn skip_blanks(s: Seq<char>, i: int) -> int
    decreases s.len() - i,
{
    if 0 <= i < s.len() && is_blank(s[i]) {
        skip_blanks(s, i + 1)
    } else {
        i
    }
}

/// The first position from `i` on that holds no digit.
pub open spec fn skip_digits(s: Seq<char>, i: int) -> int
    decreases s.len() - i,
{
    if digit_at(s, i) {
        skip_digits(s, i + 1)
    } else {
        i
    }
}

/// The position after `c` if `i` holds it, else `i`.
pub open spec fn skip_one(s: Seq<char>, i: int, c: char) -> int {
    if char_at(s, i, c) {
        i + 1
    } else {
        i
    }
}

/// Where the version that follows an operator ending before `i` starts:
/// after blanks, an optional `v` and blanks.
pub open spec fn version_start(s: Seq<char>, i: int) -> int {
    skip_blanks(s, skip_one(s, skip_blanks(s, i), 'v'))
}

/// An exact range `=` at `i` whose major version is a wildcard, such as
/// `=*` or `= x.1`.
pub open spec fn exact_wildcard_at(s: Seq<char>, i: int) -> bool {
    char_at(s, i, '=') && wildcard_at(s, version_start(s, i + 1))
}

/// A tilde range `~` or `~>` at `i` whose major version is a wildcard
/// (`~x`), or whose minor version is a wildcard followed by a patch number
/// (`~1.x.2`).
pub open spec fn tilde_unhandled_at(s: Seq<char>, i: int) -> bool {
    char_at(s, i, '~') && {
        let j = version_start(s, skip_one(s, skip_blanks(s, i + 1), '>'));
        ||| wildcard_at(s, j)
        ||| digit_at(s, j) && {
            let k = skip_digits(s, j);
            char_at(s, k, '.') && wildcard_at(s, k + 1) && char_at(s, k + 2, '.') && digit_at(s, k + 3)
        }
    }
}

/// Whether the range parser can start a range term at `i`: at the start,
/// or after a blank or a `|`.
pub open spec fn term_start(s: Seq<char>, i: int) -> bool {
    i == 0 || (0 < i <= s.len() && (is_blank(s[i - 1]) || s[i - 1] == '|'))
}

/// Whether `node_semver`'s range parser handles a text: no term starts
/// with an exact or tilde range of a shape it does not handle. On the
/// other texts `Range::parse` stops at an `unreachable!`; each of them
/// fails this test. A few texts that the parser handles fail it too: where
/// a single `|` stands before such a shape, or where the last number of
/// `~1.x.N` is too large for a version component.
pub open spec fn range_text_handled(s: Seq<char>) -> bool {
    forall|i: int|
        0 <= i < s.len() && term_start(s, i) ==> !exact_wildcard_at(s, i) && !tilde_unhandled_at(
            s,
            i,
        )
}

/// Whether a text is a range that this library parses: one that
/// `node_semver` handles and accepts.
pub open spec fn range_parses(s: Seq<char>) -> bool {
    range_text_handled(s) && spec_range_parses(s)
}

fn blank_exec(c: char) -> (res: bool)
    ensures
        res == is_blank(c),
{
    c == ' ' || c == '\t'
}

fn char_at_exec(s: &Vec<char>, i: usize, c: char) -> (res: bool)
    ensures
        res == char_at(s@, i as int, c),
{
    i < s.len() && s[i] == c
}

fn wildcard_at_exec(s: &Vec<char>, i: usize) -> (res: bool)
    ensures
        res == wildcard_at(s@, i as int),
{
    i < s.len() && (s[i] == 'x' || s[i] == 'X' || s[i] == '*')
}

fn digit_at_exec(s: &Vec<char>, i: usize) -> (res: bool)
    ensures
        res == digit_at(s@, i as int),
{
    i < s.len() && '0' <= s[i] && s[i] <= '9'
}

fn skip_blanks_exec(s: &Vec<char>, i: usize) -> (res: usize)
    requires
        i <= s.len(),
    ensures
        res as int == skip_blanks(s@, i as int),
        res <= s.len(),
{
    let mut j = i;
    while j < s.len() && blank_exec(s[j])
        invariant
            i <= j <= s.len(),
            skip_blanks(s@, j as int) == skip_blanks(s@, i as int),
        decreases s.len() - j,
    {
        j = j + 1;
    }
    j
}

fn skip_digits_exec(s: &Vec<char>, i: usize) -> (res: usize)
    requires
        i <= s.len(),
    ensures
        res as int == skip_digits(s@, i as int),
        res <= s.len(),
{
    let mut j = i;
    while digit_at_exec(s, j)
        invariant
            i <= j <= s.len(),
            skip_digits(s@, j as int) == skip_digits(s@, i as int),
        decreases s.len() - j,
    {
        j = j + 1;
    }
    j
}

fn skip_one_exec(s: &Vec<char>, i: usize, c: char) -> (res: usize)
    requires
        i <= s.len(),
    ensures
        res as int == skip_one(s@, i as int, c),
        res <= s.len(),
{
    if char_at_exec(s, i, c) {
        i + 1
    } else {
        i
    }
}

fn version_start_exec(s: &Vec<char>, i: usize) -> (res: usize)
    requires
        i <= s.len(),
    ensures
        res as int == version_start(s@, i as int),
        res <= s.len(),
{
    let a = skip_blanks_exec(s, i);
    let b = skip_one_exec(s, a, 'v');
    skip_blanks_exec(s, b)
}

/// Whether the text has no term of a shape that `node_semver`'s range
/// parser does not handle (see `range_text_handled`).
pub fn range_text_supported(text: &str) -> (res: bool)
    ensures
        res == range_text_handled(text@),
{
    let s = chars_of(text);
    let n = s.len();
    let mut i: usize = 0;
    while i < n
        invariant
            n == s@.len(),
            s@ == text@,
            i <= n,
            forall|k: int|
                0 <= k < i && term_start(s@, k) ==> !exact_wildcard_at(s@, k) && !tilde_unhandled_at(
                    s@,
                    k,
                ),
        decreases n - i,
    {
        let start = i == 0 || blank_exec(s[i - 1]) || s[i - 1] == '|';
        if start {
            if s[i] == '=' {
                let j = version_start_exec(&s, i + 1);
                if wildcard_at_exec(&s, j) {
                    assert(term_start(s@, i as int) && exact_wildcard_at(s@, i as int));
                    return false;
                }
            }
            if s[i] == '~' {
                let a = skip_blanks_exec(&s, i + 1);
                let b = skip_one_exec(&s, a, '>');
                let j = version_start_exec(&s, b);
                let mut bad = wildcard_at_exec(&s, j);
                if !bad && digit_at_exec(&s, j) {
                    let k = skip_digits_exec(&s, j);
                    bad = char_at_exec(&s, k, '.') && wildcard_at_exec(&s, k + 1) && char_at_exec(
                        &s,
                        k + 2,
                        '.',
                    ) && digit_at_exec(&s, k + 3);
                }
                if bad {
                    assert(term_start(s@, i as int) && tilde_unhandled_at(s@, i as int));
                    return false;
                }
            }
        }
        i = i + 1;
    }
    true
}

/// `node_semver::Range::parse`, on a text that it handles (see
/// `range_text_handled`): succeeds exactly on the texts that the crate
/// accepts as ranges (named, not restated).
#[verifier::external_body]
fn parse_range(constraint: &str) -> (res: Option<node_semver::Range>)
    requires
        range_text_handled(constraint@),
    ensures
        res is Some == spec_range_parses(constraint@),
{
    node_semver::Range::parse(constraint).ok()
}

/// A version range together with the text it was parsed from.
pub struct VersionRange {
    range: node_semver::Range,
    text: Ghost<Seq<char>>,
}

/// `node_semver::Version::satisfies` on the version `major.minor.patch`
/// (no pre-release, no build): whether the range that the constraint text
/// of `range` denotes admits the version (named, not restated).
#[verifier::external_body]
fn range_satisfies(range: &VersionRange, major: u64, minor: u64, patch: u64) -> (res: bool)
    ensures
        res == spec_satisfies(range.constraint(), major, minor, patch),
{
    node_semver::Version::new(major, minor, patch).satisfies(&range.range)
}

/// `node_semver::Range::allows_any`: whether the two ranges overlap
/// (named, not restated).
#[verifier::external_body]
fn range_allows_any(range: &VersionRange, other: &VersionRange) -> (res: bool)
    ensures
        res == spec_allows_any(range.constraint(), other.constraint()),
{
    range.range.allows_any(&other.range)
}

impl VersionRange {
    /// The text that the range was parsed from.
    pub closed spec fn constraint(&self) -> Seq<char> {
        self.text@
    }

    /// Parses a version range; `None` when `node_semver` refuses the text
    /// or does not handle it (see `range_text_handled`).
    pub fn parse(constraint: &str) -> (res: Option<VersionRange>)
        ensures
            res is Some == range_parses(constraint@),
            res matches Some(r) ==> r.constraint() == constraint@,
    {
        if !range_text_supported(constraint) {
            return None;
        }
        match parse_range(constraint) {
            Some(range) => Some(VersionRange { range, text: Ghost(constraint@) }),
            None => None,
        }
    }

    /// Whether a version satisfies the range.
    pub fn satisfied_by(&self, version: &SolcVersion) -> (res: bool)
        ensures
            res == spec_satisfies(self.constraint(), version.major, version.minor, version.patch),
    {
        range_satisfies(self, version.major, version.minor, version.patch)
    }
}

/// Check if a version satisfies a semantic version constraint; `false`
/// when the constraint cannot be parsed.
pub fn check_version_constraint(version: &SolcVersion, constraint: &str) -> (res: bool)
    ensures
        res == (range_parses(constraint@) && spec_satisfies(
            constraint@,
            version.major,
            version.minor,
            version.patch,
        )),
{
    match VersionRange::parse(constraint) {
        None => false,
        Some(range) => range.satisfied_by(version),
    }
}

/// Check if a version range overlaps a semantic version constraint;
/// `false` when the constraint cannot be parsed.
pub fn check_range_constraint(range: &VersionRange, constraint: &str) -> (res: bool)
    ensures
        res == (range_parses(constraint@) && spec_allows_any(constraint@, range.constraint())),
{
    match VersionRange::parse(constraint) {
        None => false,
        Some(c) => range_allows_any(&c, range),
    }
}

/// The versions of `vs` that satisfy `constraint`, in order.
pub open spec fn satisfying(vs: Seq<SolcVersion>, constraint: Seq<char>) -> Seq<SolcVersion>
    decreases vs.len(),
{
    if vs.len() == 0 {
        Seq::empty()
    } else {
        let rest = satisfying(vs.drop_last(), constraint);
        let v = vs.last();
        if spec_satisfies(constraint, v.major, v.minor, v.patch) {
            rest.push(v)
        } else {
            rest
        }
    }
}

/// The result of [`find_compatible_solc_versions`]: without a constraint,
/// all releases from the newest minor version to the oldest; with one, the
/// interleaved releases that satisfy it.
pub open spec fn compatible_versions(solc_ver: Option<Seq<char>>) -> Result<
    Seq<SolcVersion>,
    (),
> {
    match solc_ver {
        Option::None => Ok(solc_groups().reverse().flatten_alt()),
        Some(c) => if !range_parses(c) {
            Err(())
        } else if satisfying(interleave(solc_groups()), c).len() == 0 {
            Err(())
        } else {
            Ok(satisfying(interleave(solc_groups()), c))
        },
    }
}

/// Whether `v` stands in one of the groups.
pub open spec fn in_groups(gs: Seq<Seq<SolcVersion>>, v: SolcVersion) -> bool {
    exists|g: int, j: int| 0 <= g < gs.len() && 0 <= j < gs[g].len() && #[trigger] gs[g][j] == v
}

proof fn lemma_round_contains(gs: Seq<Seq<SolcVersion>>, i: nat, v: SolcVersion)
    ensures
        round(gs, i).contains(v) <==> exists|g: int|
            0 <= g < gs.len() && i < gs[g].len() && #[trigger] gs[g][i as int] == v,
    decreases gs.len(),
{
    if gs.len() > 0 {
        let init = gs.drop_last();
        lemma_round_contains(init, i, v);
        let tail: Seq<SolcVersion> = if i < gs.last().len() {
            seq![gs.last()[i as int]]
        } else {
            Seq::empty()
        };
        let r = round(gs, i);
        assert(r == round(init, i) + tail);
        if r.contains(v) {
            let k = choose|k: int| 0 <= k < r.len() && #[trigger] r[k] == v;
            if k < round(init, i).len() {
                assert(round(init, i)[k] == v);
                let g = choose|g: int| 0 <= g < init.len() && i < init[g].len() && #[trigger] init[g][i as int] == v;
                assert(gs[g] == init[g]);
            } else {
                assert(gs[gs.len() - 1][i as int] == v);
            }
        }
        if exists|g: int| 0 <= g < gs.len() && i < gs[g].len() && #[trigger] gs[g][i as int] == v {
            let g = choose|g: int| 0 <= g < gs.len() && i < gs[g].len() && #[trigger] gs[g][i as int] == v;
            if g < gs.len() - 1 {
                assert(init[g] == gs[g]);
                assert(round(init, i).contains(v));
                let k = choose|k: int| 0 <= k < round(init, i).len() && #[trigger] round(init, i)[k] == v;
                assert(r[k] == v);
            } else {
                assert(r[r.len() - 1] == v);
            }
        }
    }
}

proof fn lemma_rounds_contains(gs: Seq<Seq<SolcVersion>>, n: nat, v: SolcVersion)
    ensures
        rounds(gs, n).contains(v) <==> exists|g: int, j: int|
            0 <= g < gs.len() && 0 <= j < n && j < gs[g].len() && #[trigger] gs[g][j] == v,
    decreases n,
{
    if n > 0 {
        let m = (n - 1) as nat;
        lemma_rounds_contains(gs, m, v);
        lemma_round_contains(gs, m, v);
        let a = rounds(gs, m);
        let b = round(gs, m);
        let r = rounds(gs, n);
        assert(r == a + b);
        if r.contains(v) {
            let k = choose|k: int| 0 <= k < r.len() && #[trigger] r[k] == v;
            if k < a.len() {
                assert(a[k] == v);
            } else {
                assert(b[k - a.len()] == v);
                let g = choose|g: int| 0 <= g < gs.len() && m < gs[g].len() && #[trigger] gs[g][m as int] == v;
                assert(gs[g][m as int] == v);
            }
        }
        if exists|g: int, j: int| 0 <= g < gs.len() && 0 <= j < n && j < gs[g].len() && #[trigger] gs[g][j] == v {
            let (g, j) = choose|g: int, j: int|
                0 <= g < gs.len() && 0 <= j < n && j < gs[g].len() && #[trigger] gs[g][j] == v;
            if j < m {
                let k = choose|k: int| 0 <= k < a.len() && #[trigger] a[k] == v;
                assert(r[k] == v);
            } else {
                assert(b.contains(v));
                let k = choose|k: int| 0 <= k < b.len() && #[trigger] b[k] == v;
                assert(r[a.len() + k] == v);
            }
        }
    }
}

proof fn lemma_max_len_bounds(gs: Seq<Seq<SolcVersion>>)
    ensures
        forall|g: int| 0 <= g < gs.len() ==> #[trigger] gs[g].len() <= max_len(gs),
    decreases gs.len(),
{
    if gs.len() > 0 {
        lemma_max_len_bounds(gs.drop_last());
        assert forall|g: int| 0 <= g < gs.len() implies #[trigger] gs[g].len() <= max_len(gs) by {
            if g < gs.len() - 1 {
                assert(gs.drop_last()[g] == gs[g]);
            }
        }
    }
}

/// Interleaving keeps exactly the elements of the groups.
pub proof fn lemma_interleave_contains(gs: Seq<Seq<SolcVersion>>, v: SolcVersion)
    ensures
        interleave(gs).contains(v) <==> in_groups(gs, v),
{
    lemma_rounds_contains(gs, max_len(gs), v);
    lemma_max_len_bounds(gs);
}

/// Flattening keeps exactly the elements of the groups.
pub proof fn lemma_flatten_alt_contains(gs: Seq<Seq<SolcVersion>>, v: SolcVersion)
    ensures
        gs.flatten_alt().contains(v) <==> in_groups(gs, v),
    decreases gs.len(),
{
    if gs.len() > 0 {
        let init = gs.drop_last();
        lemma_flatten_alt_contains(init, v);
        let a = init.flatten_alt();
        let b = gs.last();
        let r = gs.flatten_alt();
        assert(r == a + b);
        if r.contains(v) {
            let k = choose|k: int| 0 <= k < r.len() && #[trigger] r[k] == v;
            if k < a.len() {
                assert(a[k] == v);
                let (g, j) = choose|g: int, j: int|
                    0 <= g < init.len() && 0 <= j < init[g].len() && #[trigger] init[g][j] == v;
                assert(gs[g] == init[g]);
                assert(gs[g][j] == v);
            } else {
                assert(gs[gs.len() - 1][k - a.len()] == v);
            }
        }
        if in_groups(gs, v) {
            let (g, j) = choose|g: int, j: int|
                0 <= g < gs.len() && 0 <= j < gs[g].len() && #[trigger] gs[g][j] == v;
            if g < gs.len() - 1 {
                assert(init[g][j] == v);
                assert(in_groups(init, v));
                let k = choose|k: int| 0 <= k < a.len() && #[trigger] a[k] == v;
                assert(r[k] == v);
            } else {
                assert(r[a.len() + j] == v);
            }
        }
    }
}

/// Filtering by a constraint keeps exactly the versions that satisfy it.
pub proof fn lemma_satisfying_contains(vs: Seq<SolcVersion>, c: Seq<char>, v: SolcVersion)
    ensures
        satisfying(vs, c).contains(v) <==> (vs.contains(v) && spec_satisfies(
            c,
            v.major,
            v.minor,
            v.patch,
        )),
    decreases vs.len(),
{
    if vs.len() > 0 {
        let init = vs.drop_last();
        lemma_satisfying_contains(init, c, v);
        let rest = satisfying(init, c);
        let r = satisfying(vs, c);
        if r.contains(v) {
            let k = choose|k: int| 0 <= k < r.len() && #[trigger] r[k] == v;
            if k < rest.len() {
                assert(rest[k] == v);
                let i = choose|i: int| 0 <= i < init.len() && #[trigger] init[i] == v;
                assert(vs[i] == v);
            } else {
                assert(vs[vs.len() - 1] == v);
            }
        }
        if vs.contains(v) && spec_satisfies(c, v.major, v.minor, v.patch) {
            let i = choose|i: int| 0 <= i < vs.len() && #[trigger] vs[i] == v;
            if i < vs.len() - 1 {
                assert(init[i] == v);
                let k = choose|k: int| 0 <= k < rest.len() && #[trigger] rest[k] == v;
                assert(r[k] == v);
            } else {
                assert(r[r.len() - 1] == v);
            }
        }
    }
}

/// The compatible versions are exactly the published releases that the
/// constraint (if any) admits; with a constraint that parses and admits a
/// published release, there are compatible versions.
pub proof fn lemma_compatible_versions(c: Option<Seq<char>>, v: SolcVersion)
    ensures
        compatible_versions(c) matches Ok(vs) ==> (vs.contains(v) <==> (is_published_release(v) && (
        c matches Some(t) ==> spec_satisfies(t, v.major, v.minor, v.patch)))),
        (c matches Some(t) && range_parses(t) && is_published_release(v) && spec_satisfies(
            t,
            v.major,
            v.minor,
            v.patch,
        )) ==> compatible_versions(c) is Ok,
{
    let gs = solc_groups();
    lemma_known_releases_are_published(v);
    lemma_interleave_contains(gs, v);
    lemma_flatten_alt_contains(gs.reverse(), v);
    assert(in_groups(gs, v) == is_known_release(v));
    assert(in_groups(gs.reverse(), v) <==> in_groups(gs, v)) by {
        if in_groups(gs.reverse(), v) {
            let (g, j) = choose|g: int, j: int|
                0 <= g < gs.reverse().len() && 0 <= j < gs.reverse()[g].len() && #[trigger] gs.reverse()[g][j] == v;
            assert(gs[gs.len() - 1 - g][j] == v);
        }
        if in_groups(gs, v) {
            let (g, j) = choose|g: int, j: int|
                0 <= g < gs.len() && 0 <= j < gs[g].len() && #[trigger] gs[g][j] == v;
            assert(gs.reverse()[gs.len() - 1 - g][j] == v);
        }
    }
    match c {
        Some(t) => {
            lemma_satisfying_contains(interleave(gs), t, v);
            if range_parses(t) && is_published_release(v) && spec_satisfies(t, v.major, v.minor, v.patch) {
                assert(satisfying(interleave(gs), t).contains(v));
            }
        },
        None => {},
    }
}

/// Whether release `a` is newer than release `b` (both of major version 0).
pub open spec fn newer(a: SolcVersion, b: SolcVersion) -> bool {
    a.minor > b.minor || (a.minor == b.minor && a.patch > b.patch)
}

/// Without a constraint, the compatible versions run from the newest
/// published release to the oldest, each strictly newer than every later
/// one: 0.8.20 first and 0.4.0 last.
pub proof fn lemma_all_versions_newest_first()
    ensures
        compatible_versions(None) matches Ok(vs) && vs.len() == 86 && vs[0] == (SolcVersion {
            major: 0,
            minor: 8,
            patch: 20,
        }) && vs[85] == (SolcVersion { major: 0, minor: 4, patch: 0 }) && forall|i: int, j: int|
            0 <= i < j < vs.len() ==> newer(#[trigger] vs[i], #[trigger] vs[j]),
{
    let gs = solc_groups();
    let r = gs.reverse();
    let g8 = solc_group(8, 21);
    let g7 = solc_group(7, 7);
    let g6 = solc_group(6, 13);
    let g5 = solc_group(5, 18);
    let g4 = solc_group(4, 27);
    assert(r =~= seq![g8, g7, g6, g5, g4]);
    reveal_with_fuel(Seq::flatten_alt, 6);
    assert(r.drop_last() =~= seq![g8, g7, g6, g5]);
    assert(r.drop_last().drop_last() =~= seq![g8, g7, g6]);
    assert(r.drop_last().drop_last().drop_last() =~= seq![g8, g7]);
    assert(r.drop_last().drop_last().drop_last().drop_last() =~= seq![g8]);
    assert(r.drop_last().drop_last().drop_last().drop_last().drop_last() =~= Seq::<Seq<SolcVersion>>::empty());
    let vs = r.flatten_alt();
    assert(vs =~= g8 + g7 + g6 + g5 + g4);
    assert forall|i: int| 0 <= i < 86 implies #[trigger] vs[i] == (if i < 21 {
        SolcVersion { major: 0, minor: 8, patch: (20 - i) as u64 }
    } else if i < 28 {
        SolcVersion { major: 0, minor: 7, patch: (27 - i) as u64 }
    } else if i < 41 {
        SolcVersion { major: 0, minor: 6, patch: (40 - i) as u64 }
    } else if i < 59 {
        SolcVersion { major: 0, minor: 5, patch: (58 - i) as u64 }
    } else {
        SolcVersion { major: 0, minor: 4, patch: (85 - i) as u64 }
    }) by {
        if i < 21 {
            assert(vs[i] == g8[i]);
        } else if i < 28 {
            assert(vs[i] == g7[i - 21]);
        } else if i < 41 {
            assert(vs[i] == g6[i - 28]);
        } else if i < 59 {
            assert(vs[i] == g5[i - 41]);
        } else {
            assert(vs[i] == g4[i - 59]);
        }
    }
    assert(vs[0] == (SolcVersion { major: 0, minor: 8, patch: 20 }));
    assert(vs[85] == (SolcVersion { major: 0, minor: 4, patch: 0 }));
}

/// The texts of an optional string.
pub open spec fn opt_view(s: Option<String>) -> Option<Seq<char>> {
    match s {
        Some(t) => Some(t@),
        Option::None => Option::None,
    }
}

/// Find the compatible Solc versions for a pragma version constraint.
///
/// Without a constraint, all releases, the latest minor version first.
pub fn find_compatible_solc_versions(solc_ver: &Option<String>) -> (res: Result<
    Vec<SolcVersion>,
    SolidityError,
>)
    ensures
        compatible_versions(opt_view(*solc_ver)) matches Ok(vs) ==> (res matches Ok(r) && r@
            == vs),
        solc_ver matches Some(c) ==> (!range_parses(c@) ==> (res matches Err(
            SolidityError::InvalidVersionConstraint(t),
        ) && t@ == c@)),
        solc_ver matches Some(c) ==> ((range_parses(c@) && satisfying(
            interleave(solc_groups()),
            c@,
        ).len() == 0) ==> (res matches Err(SolidityError::NoSatisfyingVersion(t)) && t@
            == c@)),
{
    let solc_groups = init_solc_version_groups();
    let all = interleave_groups(&solc_groups);
    match solc_ver {
        None => {
            let ghost gs = groups_view(solc_groups@);
            let mut res: Vec<SolcVersion> = Vec::new();
            let mut k: usize = solc_groups.len();
            while k > 0
                invariant
                    gs == groups_view(solc_groups@),
                    k <= solc_groups.len(),
                    res@ == gs.reverse().take(solc_groups.len() - k).flatten_alt(),
                decreases k,
            {
                k = k - 1;
                let ghost prev = res@;
                let mut j: usize = 0;
                while j < solc_groups[k].len()
                    invariant
                        k < solc_groups.len(),
                        j <= solc_groups@[k as int]@.len(),
                        res@ == prev + solc_groups@[k as int]@.take(j as int),
                    decreases solc_groups@[k as int]@.len() - j,
                {
                    res.push(solc_groups[k][j]);
                    j = j + 1;
                    assert(res@ =~= prev + solc_groups@[k as int]@.take(j as int));
                }
                let ghost t = gs.reverse().take(solc_groups.len() - k);
                assert(t.drop_last() =~= gs.reverse().take(solc_groups.len() - k - 1));
                assert(t.last() == gs[k as int]);
                assert(solc_groups@[k as int]@.take(j as int) =~= gs[k as int]);
            }
            assert(gs.reverse().take(solc_groups.len() as int) =~= gs.reverse());
            Ok(res)
        },
        Some(constraint) => {
            let range = match VersionRange::parse(constraint.as_str()) {
                Some(r) => r,
                None => {
                    return Err(SolidityError::InvalidVersionConstraint(constraint.clone()));
                },
            };
            let mut res: Vec<SolcVersion> = Vec::new();
            let mut i: usize = 0;
            while i < all.len()
                invariant
                    i <= all.len(),
                    range.constraint() == constraint@,
                    res@ == satisfying(all@.take(i as int), constraint@),
                decreases all.len() - i,
            {
                assert(all@.take(i + 1).drop_last() =~= all@.take(i as int));
                if range.satisfied_by(&all[i]) {
                    res.push(all[i]);
                }
                i = i + 1;
            }
            assert(all@.take(all.len() as int) =~= all@);
            if res.len() == 0 {
                Err(SolidityError::NoSatisfyingVersion(constraint.clone()))
            } else {
                Ok(res)
            }
        },
    }
}

} // verus!
