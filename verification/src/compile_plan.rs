//! Decisions of compiling a Solidity file with `solc`: the range of
//! Solidity versions that the source admits, the compiler versions to try,
//! the compiler's arguments, whether a compiler version is installed, and
//! the message of a failed compilation. Running the compiler is left to the
//! caller.
use vstd::prelude::*;
use crate::error::SolidityError;
use crate::text::{seq_join, strings_view, join, to_string};
use crate::version::{
    SolcVersion, VersionRange, check_range_constraint, check_version_constraint,
    spec_allows_any, range_parses, spec_satisfies, version_text,
};

verus! {

/// The range `range` has a version in common with the constraint `c`.
pub open spec fn range_allows(range: Seq<char>, c: Seq<char>) -> bool {
    range_parses(c) && spec_allows_any(c, range)
}

/// The version `v` satisfies the constraint `c`.
pub open spec fn version_satisfies(v: SolcVersion, c: Seq<char>) -> bool {
    range_parses(c) && spec_satisfies(c, v.major, v.minor, v.patch)
}

/// The version constraints of a source joined into one range text.
pub open spec fn joined_constraints(versions: Seq<Seq<char>>) -> Seq<char> {
    seq_join(versions, ", "@)
}

/// The range of Solidity versions that the `pragma solidity` constraints
/// of a source admit, joined by `, `. An error when the joined text is no
/// range, or when the range admits no version from 0.4.12 on.
pub fn supported_solidity_range(pragma_versions: &Vec<String>) -> (res: Result<
    VersionRange,
    SolidityError,
>)
    ensures
        ({
            let text = joined_constraints(strings_view(pragma_versions@));
            &&& !range_parses(text) ==> (res matches Err(SolidityError::UnparsableVersion(t))
                && t@ == text)
            &&& (range_parses(text) && !range_allows(text, ">=0.4.12"@)) ==> (res matches Err(
                SolidityError::UnsupportedVersion(t),
            ) && t@ == text)
            &&& (range_parses(text) && range_allows(text, ">=0.4.12"@)) ==> (res matches Ok(r)
                && r.constraint() == text)
        }),
{
    let text = join(pragma_versions, ", ");
    match VersionRange::parse(text.as_str()) {
        None => Err(SolidityError::UnparsableVersion(text)),
        Some(range) => {
            if check_range_constraint(&range, ">=0.4.12") {
                Ok(range)
            } else {
                Err(SolidityError::UnsupportedVersion(text))
            }
        },
    }
}

/// The versions of `vs` equal to `v`.
pub open spec fn equal_to(vs: Seq<SolcVersion>, v: SolcVersion) -> Seq<SolcVersion>
    decreases vs.len(),
{
    if vs.len() == 0 {
        Seq::empty()
    } else {
        let rest = equal_to(vs.drop_last(), v);
        if vs.last() == v {
            rest.push(v)
        } else {
            rest
        }
    }
}

/// The compiler versions to try, in order: the compatible versions equal to
/// the requested one if there are any, else all compatible versions, else
/// the requested one.
pub open spec fn best_versions(compatible: Seq<SolcVersion>, requested: SolcVersion) -> Seq<
    SolcVersion,
> {
    let common = equal_to(compatible, requested);
    if common.len() > 0 {
        common
    } else if compatible.len() > 0 {
        compatible
    } else {
        seq![requested]
    }
}

/// The compiler versions to try (see `best_versions`).
pub fn best_solc_versions(compatible: &Vec<SolcVersion>, requested: SolcVersion) -> (res: Vec<
    SolcVersion,
>)
    ensures
        res@ == best_versions(compatible@, requested),
{
    let mut common: Vec<SolcVersion> = Vec::new();
    let mut i: usize = 0;
    while i < compatible.len()
        invariant
            i <= compatible.len(),
            common@ == equal_to(compatible@.take(i as int), requested),
        decreases compatible.len() - i,
    {
        assert(compatible@.take(i + 1).drop_last() =~= compatible@.take(i as int));
        if compatible[i] == requested {
            common.push(requested);
        }
        i = i + 1;
    }
    assert(compatible@.take(i as int) =~= compatible@);
    if common.len() > 0 {
        common
    } else if compatible.len() > 0 {
        let mut all: Vec<SolcVersion> = Vec::new();
        let mut j: usize = 0;
        while j < compatible.len()
            invariant
                j <= compatible.len(),
                all@ == compatible@.take(j as int),
            decreases compatible.len() - j,
        {
            all.push(compatible[j]);
            j = j + 1;
            assert(all@ =~= compatible@.take(j as int));
        }
        assert(compatible@.take(j as int) =~= compatible@);
        all
    } else {
        let mut one: Vec<SolcVersion> = Vec::new();
        one.push(requested);
        assert(one@ =~= seq![requested]);
        one
    }
}

/// The `--include-path` options, one per path.
pub open spec fn include_options(paths: Seq<Seq<char>>) -> Seq<char>
    decreases paths.len(),
{
    if paths.len() == 0 {
        Seq::empty()
    } else {
        include_options(paths.drop_last()) + " --include-path "@ + paths.last()
    }
}

/// The arguments given to `solc`, separated by spaces: the input file, the
/// base path if any and the range admits 0.7.0 or later, the include paths
/// if any and the range admits 0.8.8 or later, and the JSON AST output
/// (in compact format for compilers from 0.4.12 to 0.8.9).
pub open spec fn solc_args_text(
    input_file: Seq<char>,
    base_path: Option<Seq<char>>,
    include_paths: Seq<Seq<char>>,
    range: Seq<char>,
    solc_ver: SolcVersion,
) -> Seq<char> {
    input_file + match base_path {
        Some(p) => if range_allows(range, ">=0.7.0"@) {
            " --base-path "@ + p
        } else {
            Seq::empty()
        },
        None => Seq::empty(),
    } + (if include_paths.len() > 0 && range_allows(range, ">=0.8.8"@) {
        include_options(include_paths)
    } else {
        Seq::empty()
    }) + if version_satisfies(solc_ver, ">=0.4.12 <= 0.8.9"@) {
        " --combined-json ast,compact-format"@
    } else {
        " --combined-json ast"@
    }
}

/// The arguments given to `solc` (see `solc_args_text`).
pub fn solc_compile_args(
    input_file: &str,
    base_path: &Option<String>,
    include_paths: &Vec<String>,
    solc_range: &VersionRange,
    solc_ver: &SolcVersion,
) -> (res: String)
    ensures
        res@ == solc_args_text(
            input_file@,
            match base_path {
                Some(p) => Some(p@),
                None => None,
            },
            strings_view(include_paths@),
            solc_range.constraint(),
            *solc_ver,
        ),
{
    let mut args = to_string(input_file);
    if let Some(path) = base_path {
        if check_range_constraint(solc_range, ">=0.7.0") {
            args.append(" --base-path ");
            args.append(path.as_str());
        }
    }
    if include_paths.len() > 0 && check_range_constraint(solc_range, ">=0.8.8") {
        let ghost start = args@;
        let ghost ps = strings_view(include_paths@);
        let mut i: usize = 0;
        assert(ps.take(0) =~= Seq::<Seq<char>>::empty());
        while i < include_paths.len()
            invariant
                ps == strings_view(include_paths@),
                i <= include_paths.len(),
                args@ == start + include_options(ps.take(i as int)),
            decreases include_paths.len() - i,
        {
            assert(ps.take(i + 1).drop_last() =~= ps.take(i as int));
            args.append(" --include-path ");
            args.append(include_paths[i].as_str());
            i = i + 1;
            assert(args@ =~= start + include_options(ps.take(i as int)));
        }
        assert(ps.take(i as int) =~= ps);
    }
    if check_version_constraint(solc_ver, ">=0.4.12 <= 0.8.9") {
        args.append(" --combined-json ast,compact-format");
    } else {
        args.append(" --combined-json ast");
    }
    args
}

/// A character of Unicode's `White_Space` property, which `str::trim`
/// takes as white space.
pub open spec fn is_white_space(c: char) -> bool {
    ||| '\u{9}' <= c <= '\u{D}'
    ||| c == ' '
    ||| c == '\u{85}'
    ||| c == '\u{A0}'
    ||| c == '\u{1680}'
    ||| '\u{2000}' <= c <= '\u{200A}'
    ||| c == '\u{2028}'
    ||| c == '\u{2029}'
    ||| c == '\u{202F}'
    ||| c == '\u{205F}'
    ||| c == '\u{3000}'
}

/// The text without its leading white space.
pub open spec fn trim_start(s: Seq<char>) -> Seq<char>
    decreases s.len(),
{
    if s.len() > 0 && is_white_space(s[0]) {
        trim_start(s.drop_first())
    } else {
        s
    }
}

/// The text without its trailing white space.
pub open spec fn trim_end(s: Seq<char>) -> Seq<char>
    decreases s.len(),
{
    if s.len() > 0 && is_white_space(s.last()) {
        trim_end(s.drop_last())
    } else {
        s
    }
}

/// The text without its leading and trailing white space, as `str::trim`
/// gives it.
pub open spec fn spec_trim(s: Seq<char>) -> Seq<char> {
    trim_end(trim_start(s))
}

/// `str::trim` on a text: the text without its leading and trailing
/// characters of Unicode's `White_Space` property.
#[verifier::external_body]
fn trim_text(s: &str) -> (res: String)
    ensures
        res@ == spec_trim(s@),
{
    s.trim().to_string()
}

/// `s` without a leading `Error: `.
pub open spec fn strip_error_prefix(s: Seq<char>) -> Seq<char> {
    if s.len() >= 7 && s.take(7) == "Error: "@ {
        s.skip(7)
    } else {
        s
    }
}

/// The message of a failed compilation: the compiler version and the file
/// on a line of their own, then the compiler's error output, trimmed and
/// without a leading `Error: `.
pub open spec fn compilation_error_text(
    solc_ver: SolcVersion,
    input_file: Seq<char>,
    stderr: Seq<char>,
) -> Seq<char> {
    "\nsolc "@ + version_text(solc_ver) + " failed to compile: "@ + input_file
        + "\n\nCompilation error: "@ + strip_error_prefix(spec_trim(stderr)) + "\n"@
}

/// Whether `s` starts with `Error: `.
fn has_error_prefix(s: &String) -> (res: bool)
    ensures
        res == (s@.len() >= 7 && s@.take(7) == "Error: "@),
{
    let cs = crate::text::chars_of(s.as_str());
    let p = crate::text::chars_of("Error: ");
    proof {
        reveal_strlit("Error: ");
    }
    assert("Error: "@.len() == 7);
    if cs.len() < 7 {
        return false;
    }
    let mut i: usize = 0;
    while i < 7
        invariant
            cs@ == s@,
            p@ == "Error: "@,
            p.len() == 7,
            cs.len() >= 7,
            i <= 7,
            forall|j: int| 0 <= j < i ==> cs@[j] == p@[j],
        decreases 7 - i,
    {
        if cs[i] != p[i] {
            assert(s@.take(7)[i as int] != "Error: "@[i as int]);
            return false;
        }
        i = i + 1;
    }
    assert(s@.take(7) =~= "Error: "@);
    true
}

/// The message of a failed compilation (see `compilation_error_text`).
pub fn compilation_error_message(solc_ver: &SolcVersion, input_file: &str, stderr: &str) -> (res:
    String)
    ensures
        res@ == compilation_error_text(*solc_ver, input_file@, stderr@),
{
    let trimmed = trim_text(stderr);
    let msg = if has_error_prefix(&trimmed) {
        let cs = crate::text::chars_of(trimmed.as_str());
        let mut rest = String::new();
        let mut i: usize = 7;
        while i < cs.len()
            invariant
                cs@ == trimmed@,
                7 <= i <= cs.len(),
                rest@ == trimmed@.subrange(7, i as int),
            decreases cs.len() - i,
        {
            crate::text::push_char(&mut rest, cs[i]);
            i = i + 1;
            assert(rest@ =~= trimmed@.subrange(7, i as int));
        }
        assert(trimmed@.subrange(7, cs.len() as int) =~= trimmed@.skip(7));
        rest
    } else {
        trimmed
    };
    let mut s = to_string("\nsolc ");
    s.append(solc_ver.to_string().as_str());
    s.append(" failed to compile: ");
    s.append(input_file);
    s.append("\n\nCompilation error: ");
    s.append(msg.as_str());
    s.append("\n");
    s
}

/// The pattern of a release number in the output of `solc-select`.
pub open spec fn release_pattern() -> Seq<char> {
    "(\\d+\\.\\d+\\.\\d+)"@
}

/// The texts of the successive non-overlapping matches of a regular
/// expression in a text (`regex::Regex::find_iter`); nothing when the
/// pattern is invalid (named, not restated).
pub uninterp spec fn spec_regex_matches(pattern: Seq<char>, text: Seq<char>) -> Seq<Seq<char>>;

/// `regex::Regex::find_iter`: the texts of the matches.
#[verifier::external_body]
fn regex_matches(pattern: &str, text: &str) -> (res: Vec<String>)
    ensures
        strings_view(res@) == spec_regex_matches(pattern@, text@),
{
    let mut res: Vec<String> = Vec::new();
    if let Ok(re) = regex::Regex::new(pattern) {
        for m in re.find_iter(text) {
            res.push(m.as_str().to_string());
        }
    }
    res
}

/// Whether `node_semver::Version::parse` reads a text as the release
/// `major.minor.patch` (without pre-release or build parts) (named, not
/// restated).
pub uninterp spec fn spec_is_release(text: Seq<char>, major: u64, minor: u64, patch: u64) -> bool;

/// `node_semver::Version::parse`, compared with a release version.
#[verifier::external_body]
fn is_release(text: &str, v: &SolcVersion) -> (res: bool)
    ensures
        res == spec_is_release(text@, v.major, v.minor, v.patch),
{
    match node_semver::Version::parse(text) {
        Ok(parsed) => parsed == node_semver::Version::new(v.major, v.minor, v.patch),
        Err(_) => false,
    }
}

/// Whether the list of installed compilers that `solc-select` printed holds
/// the version `v`: some release number in it reads as `v`.
pub fn solc_installed(installed: &str, v: &SolcVersion) -> (res: bool)
    ensures
        res == exists|i: int|
            0 <= i < spec_regex_matches(release_pattern(), installed@).len() && spec_is_release(
                #[trigger] spec_regex_matches(release_pattern(), installed@)[i],
                v.major,
                v.minor,
                v.patch,
            ),
{
    let pattern = "(\\d+\\.\\d+\\.\\d+)";
    let ms = regex_matches(pattern, installed);
    let ghost mv = strings_view(ms@);
    let mut i: usize = 0;
    while i < ms.len()
        invariant
            mv == strings_view(ms@),
            mv == spec_regex_matches(release_pattern(), installed@),
            i <= ms.len(),
            forall|j: int| 0 <= j < i ==> !spec_is_release(#[trigger] mv[j], v.major, v.minor, v.patch),
        decreases ms.len() - i,
    {
        if is_release(ms[i].as_str(), v) {
            assert(mv[i as int] == ms@[i as int]@);
            return true;
        }
        assert(mv[i as int] == ms@[i as int]@);
        i = i + 1;
    }
    false
}

} // verus!
