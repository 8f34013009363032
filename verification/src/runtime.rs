//! The runtime-compatibility probe: parsing the captured diagnostic output
//! of the runtime's version-report command and comparing the reported major
//! version against the required one.
//!
//! The output is searched for `version "` followed by a digit, with a
//! further quotation mark somewhere after. Legacy numerals `1.<minor>`
//! report `<minor>` as the effective major version; every other form uses
//! the leading numeral. The human-readable version string is the text
//! between the first pair of quotation marks.

use vstd::prelude::*;

use crate::model::JavaCheckResult;
use crate::numbers::{
    all_digits, dec_val, is_ascii_digit, parse_u32_or_zero, parse_u32_text, parses_as_u32,
    unsigned_digits_of,
};

verus! {

/// The nine characters that announce a version report.
pub open spec fn version_marker() -> Seq<char> {
    "version \""@
}

/// Whether the version marker stands at `i` with a digit right after it.
pub open spec fn marker_at(s: Seq<char>, i: int) -> bool {
    &&& 0 <= i
    &&& i + 9 < s.len()
    &&& s.subrange(i, i + 9) == version_marker()
    &&& is_ascii_digit(s[i + 9])
}

/// Whether a quotation mark closes the version report begun at `i`.
pub open spec fn close_quote_after(s: Seq<char>, i: int) -> bool {
    exists|j: int| i + 9 < j < s.len() && s[j] == '"'
}

/// Whether a complete version report stands at `i`.
pub open spec fn version_match_at(s: Seq<char>, i: int) -> bool {
    marker_at(s, i) && close_quote_after(s, i)
}

/// Whether the output announces an installed runtime at all.
pub open spec fn java_installed(s: Seq<char>) -> bool {
    exists|i: int| version_match_at(s, i)
}

/// The first position at or after `i` where a complete version report
/// stands, or `-1` if there is none.
pub open spec fn first_match_from(s: Seq<char>, i: int) -> int
    decreases s.len() - i,
{
    if i < 0 || i >= s.len() {
        -1
    } else if version_match_at(s, i) {
        i
    } else {
        first_match_from(s, i + 1)
    }
}

/// The first position of a complete version report, or `-1`.
pub open spec fn first_match(s: Seq<char>) -> int {
    first_match_from(s, 0)
}

/// The first position at or after `i` holding a quotation mark, or `-1`.
pub open spec fn first_quote_from(s: Seq<char>, i: int) -> int
    decreases s.len() - i,
{
    if i < 0 || i >= s.len() {
        -1
    } else if s[i] == '"' {
        i
    } else {
        first_quote_from(s, i + 1)
    }
}

/// The length of the digit run starting at `i`.
pub open spec fn digit_run_len(s: Seq<char>, i: int) -> nat
    decreases s.len() - i,
{
    if 0 <= i < s.len() && is_ascii_digit(s[i]) {
        1 + digit_run_len(s, i + 1)
    } else {
        0
    }
}

/// The effective major version read off the version report at `i`: the
/// leading numeral, except that the legacy form `1.<minor>` (one digit `1`,
/// any single character, further digits) reports the minor numeral; a
/// numeral that does not fit in `u32`, or a bare legacy `1` without a minor
/// part, reads as zero.
pub open spec fn major_at(s: Seq<char>, i: int) -> int {
    let start = i + 9;
    let dlen = digit_run_len(s, start) as int;
    if dlen == 1 && s[start] == '1' {
        let mstart = start + 2;
        let mlen = digit_run_len(s, mstart) as int;
        if mlen > 0 {
            let v = dec_val(s.subrange(mstart, mstart + mlen));
            if v <= u32::MAX {
                v
            } else {
                0
            }
        } else {
            0
        }
    } else {
        let v = dec_val(s.subrange(start, start + dlen));
        if v <= u32::MAX {
            v
        } else {
            0
        }
    }
}

/// The text between the first pair of quotation marks (running to the end
/// of the output if no second mark exists).
pub open spec fn version_string(s: Seq<char>) -> Seq<char> {
    let q1 = first_quote_from(s, 0);
    let q2 = first_quote_from(s, q1 + 1);
    if q2 >= 0 {
        s.subrange(q1 + 1, q2)
    } else {
        s.subrange(q1 + 1, s.len() as int)
    }
}

proof fn lemma_first_match_from_found(s: Seq<char>, i: int, fi: int)
    requires
        0 <= i <= fi < s.len(),
        version_match_at(s, fi),
        forall|k: int| i <= k < fi ==> !version_match_at(s, k),
    ensures
        first_match_from(s, i) == fi,
    decreases fi - i,
{
    if i < fi {
        lemma_first_match_from_found(s, i + 1, fi);
    }
}

proof fn lemma_first_match_from_none(s: Seq<char>, i: int)
    requires
        0 <= i <= s.len(),
        forall|k: int| i <= k < s.len() ==> !version_match_at(s, k),
    ensures
        first_match_from(s, i) == -1,
    decreases s.len() - i,
{
    if i < s.len() {
        lemma_first_match_from_none(s, i + 1);
    }
}

proof fn lemma_first_quote_from_found(s: Seq<char>, i: int, q: int)
    requires
        0 <= i <= q < s.len(),
        s[q] == '"',
        forall|k: int| i <= k < q ==> s[k] != '"',
    ensures
        first_quote_from(s, i) == q,
    decreases q - i,
{
    if i < q {
        lemma_first_quote_from_found(s, i + 1, q);
    }
}

proof fn lemma_first_quote_from_none(s: Seq<char>, i: int)
    requires
        0 <= i,
        forall|k: int| i <= k < s.len() ==> s[k] != '"',
    ensures
        first_quote_from(s, i) == -1,
    decreases s.len() - i,
{
    if i < s.len() {
        lemma_first_quote_from_none(s, i + 1);
    }
}

proof fn lemma_digit_run(s: Seq<char>, i: int)
    requires
        0 <= i <= s.len(),
    ensures
        i + digit_run_len(s, i) <= s.len(),
        forall|k: int| i <= k < i + digit_run_len(s, i) ==> is_ascii_digit(#[trigger] s[k]),
        i + digit_run_len(s, i) == s.len() || !is_ascii_digit(s[i + digit_run_len(s, i)]),
    decreases s.len() - i,
{
    if i < s.len() && is_ascii_digit(s[i]) {
        lemma_digit_run(s, i + 1);
    }
}

fn is_digit_char(c: char) -> (r: bool)
    ensures
        r == is_ascii_digit(c),
{
    let u = c as u32;
    48 <= u && u <= 57
}

fn marker_matches(s: &str, i: usize) -> (r: bool)
    requires
        i + 9 <= s@.len(),
        s@.len() <= usize::MAX,
    ensures
        r == (s@.subrange(i as int, i as int + 9) == version_marker()),
{
    proof {
        reveal_strlit("version \"");
    }
    let r = s.get_char(i) == 'v' && s.get_char(i + 1) == 'e' && s.get_char(i + 2) == 'r'
        && s.get_char(i + 3) == 's' && s.get_char(i + 4) == 'i' && s.get_char(i + 5) == 'o'
        && s.get_char(i + 6) == 'n' && s.get_char(i + 7) == ' ' && s.get_char(i + 8) == '"';
    proof {
        let sub = s@.subrange(i as int, i as int + 9);
        assert(version_marker().len() == 9);
        if r {
            assert(sub =~= version_marker());
        } else if sub == version_marker() {
            assert(s@[i as int] == sub[0] && sub[0] == 'v');
            assert(s@[i as int + 1] == sub[1] && sub[1] == 'e');
            assert(s@[i as int + 2] == sub[2] && sub[2] == 'r');
            assert(s@[i as int + 3] == sub[3] && sub[3] == 's');
            assert(s@[i as int + 4] == sub[4] && sub[4] == 'i');
            assert(s@[i as int + 5] == sub[5] && sub[5] == 'o');
            assert(s@[i as int + 6] == sub[6] && sub[6] == 'n');
            assert(s@[i as int + 7] == sub[7] && sub[7] == ' ');
            assert(s@[i as int + 8] == sub[8] && sub[8] == '"');
        }
    }
    r
}

fn find_first_match(s: &str) -> (r: Option<usize>)
    ensures
        match r {
            Option::Some(fi) => fi as int == first_match(s@) && java_installed(s@)
                && version_match_at(s@, fi as int),
            Option::None => !java_installed(s@) && first_match(s@) == -1,
        },
{
    let n = s.unicode_len();
    if n >= 10 {
        let mut i: usize = 0;
        while i < n - 9
            invariant
                n == s@.len(),
                10 <= n,
                0 <= i <= n - 9,
                forall|k: int| 0 <= k < i ==> !version_match_at(s@, k),
            decreases n - i,
        {
            if marker_matches(s, i) && is_digit_char(s.get_char(i + 9)) {
                let mut j: usize = i + 10;
                while j < n
                    invariant
                        n == s@.len(),
                        marker_at(s@, i as int),
                        forall|k: int| 0 <= k < i ==> !version_match_at(s@, k),
                        i + 10 <= j <= n,
                        forall|l: int| i + 9 < l < j ==> s@[l] != '"',
                    decreases n - j,
                {
                    if s.get_char(j) == '"' {
                        proof {
                            assert(version_match_at(s@, i as int)) by {
                                assert(marker_at(s@, i as int));
                                assert(i + 9 < j < s@.len() && s@[j as int] == '"');
                            }
                            lemma_first_match_from_found(s@, 0, i as int);
                        }
                        return Some(i);
                    }
                    j = j + 1;
                }
                proof {
                    assert(!close_quote_after(s@, i as int)) by {
                        if close_quote_after(s@, i as int) {
                            let l = choose|l: int| i + 9 < l < s@.len() && s@[l] == '"';
                            assert(s@[l] != '"');
                        }
                    }
                }
            }
            i = i + 1;
        }
        proof {
            assert forall|k: int| 0 <= k < s@.len() implies !version_match_at(s@, k) by {
                if k >= i {
                    assert(k + 9 >= s@.len());
                }
            }
            lemma_first_match_from_none(s@, 0);
        }
        None
    } else {
        proof {
            assert forall|k: int| 0 <= k < s@.len() implies !version_match_at(s@, k) by {
                assert(k + 9 >= s@.len());
            }
            lemma_first_match_from_none(s@, 0);
        }
        None
    }
}

fn digit_run_end(s: &str, start: usize) -> (e: usize)
    requires
        start <= s@.len(),
    ensures
        start <= e <= s@.len(),
        e - start == digit_run_len(s@, start as int),
{
    let n = s.unicode_len();
    let mut j = start;
    while j < n && is_digit_char(s.get_char(j))
        invariant
            start <= j <= n,
            n == s@.len(),
            digit_run_len(s@, start as int) == (j - start) + digit_run_len(s@, j as int),
        decreases n - j,
    {
        proof {
            assert(digit_run_len(s@, j as int) == 1 + digit_run_len(s@, j + 1));
        }
        j = j + 1;
    }
    proof {
        assert(digit_run_len(s@, j as int) == 0);
    }
    j
}

fn find_quote_from(s: &str, from: usize) -> (r: Option<usize>)
    requires
        from <= s@.len(),
    ensures
        match r {
            Option::Some(q) => from <= q < s@.len() && s@[q as int] == '"' && q as int
                == first_quote_from(s@, from as int),
            Option::None => first_quote_from(s@, from as int) == -1 && forall|k: int|
                from <= k < s@.len() ==> s@[k] != '"',
        },
{
    let n = s.unicode_len();
    let mut j = from;
    while j < n
        invariant
            from <= j <= n,
            n == s@.len(),
            forall|k: int| from <= k < j ==> s@[k] != '"',
        decreases n - j,
    {
        if s.get_char(j) == '"' {
            proof {
                lemma_first_quote_from_found(s@, from as int, j as int);
            }
            return Some(j);
        }
        j = j + 1;
    }
    proof {
        lemma_first_quote_from_none(s@, from as int);
    }
    None
}

/// Reads a version report out of the captured command output: the
/// human-readable version string and the effective major version, or
/// nothing when the output announces no installed runtime.
pub fn parse_java_output(stderr: &str) -> (r: Option<(String, u32)>)
    ensures
        r is Some <==> java_installed(stderr@),
        r matches Some(p) ==> p.0@ == version_string(stderr@) && p.1 as int == major_at(
            stderr@,
            first_match(stderr@),
        ),
{
    let fi = match find_first_match(stderr) {
        Some(fi) => fi,
        None => {
            return None;
        },
    };
    let n = stderr.unicode_len();
    let dstart = fi + 9;
    let dend = digit_run_end(stderr, dstart);
    proof {
        assert(digit_run_len(stderr@, dstart as int) >= 1) by {
            assert(is_ascii_digit(stderr@[dstart as int]));
        }
        lemma_digit_run(stderr@, dstart as int);
    }
    let major: u32 = if dend - dstart == 1 && stderr.get_char(dstart) == '1' {
        let mstart = dstart + 2;
        if mstart <= n {
            let mend = digit_run_end(stderr, mstart);
            if mend > mstart {
                proof {
                    lemma_digit_run(stderr@, mstart as int);
                    let sub = stderr@.subrange(mstart as int, mend as int);
                    assert(all_digits(sub)) by {
                        assert(forall|k: int|
                            0 <= k < sub.len() ==> #[trigger] sub[k] == stderr@[mstart + k]);
                    }
                }
                let msub = stderr.substring_char(mstart, mend);
                parse_u32_or_zero(msub)
            } else {
                0
            }
        } else {
            proof {
                assert(digit_run_len(stderr@, dstart as int + 2) == 0);
            }
            0
        }
    } else {
        proof {
            lemma_digit_run(stderr@, dstart as int);
            let sub = stderr@.subrange(dstart as int, dend as int);
            assert(all_digits(sub)) by {
                assert(forall|k: int|
                    0 <= k < sub.len() ==> #[trigger] sub[k] == stderr@[dstart + k]);
            }
            assert(sub.len() > 0);
        }
        let dsub = stderr.substring_char(dstart, dend);
        parse_u32_or_zero(dsub)
    };
    let q1 = match find_quote_from(stderr, 0) {
        Some(q) => q,
        None => {
            proof {
                assert(stderr@.subrange(fi as int, fi as int + 9) == version_marker());
                assert(stderr@[fi as int + 8] == version_marker()[8]);
                assert(version_marker()[8] == '"') by {
                    reveal_strlit("version \"");
                }
                assert(false);
            }
            return None;
        },
    };
    let end = match find_quote_from(stderr, q1 + 1) {
        Some(q2) => q2,
        None => {
            proof {
                lemma_first_quote_from_none(stderr@, q1 as int + 1);
            }
            n
        },
    };
    let version = String::from_str(stderr.substring_char(q1 + 1, end));
    Some((version, major))
}

/// The major version demanded by the caller's requirement text: the
/// numeral it spells (an optional leading `'+'` sign, then digits), or 21
/// when it spells none that fits in `u32`.
pub open spec fn required_major_of(s: Seq<char>) -> int {
    if parses_as_u32(s) {
        dec_val(unsigned_digits_of(s))
    } else {
        21
    }
}

/// What the runtime probe reports: the requirement text is echoed back;
/// absent command output (the command could not run) or output without a
/// version report read as not installed, with no version, no major version
/// and no compatibility; otherwise the version string and effective major
/// version are read off the report, and compatibility holds exactly when
/// that major version reaches the required one.
pub open spec fn java_check_post(
    required: Seq<char>,
    output: Option<Seq<char>>,
    r: JavaCheckResult,
) -> bool {
    &&& r.required_version@ == required
    &&& match output {
        Option::None => {
            &&& !r.is_installed
            &&& r.version is None
            &&& r.major_version is None
            &&& !r.is_compatible
        },
        Option::Some(s) => {
            if java_installed(s) {
                &&& r.is_installed
                &&& r.version matches Some(v) && v@ == version_string(s)
                &&& r.major_version matches Some(m) && m as int == major_at(s, first_match(s))
                &&& r.is_compatible == (major_at(s, first_match(s)) >= required_major_of(required))
            } else {
                &&& !r.is_installed
                &&& r.version is None
                &&& r.major_version is None
                &&& !r.is_compatible
            }
        },
    }
}

/// The probe has no side effects and is a pure function of its inputs:
/// any two results for the same requirement text and the same captured
/// output agree in every field.
pub proof fn lemma_java_check_deterministic(
    required: Seq<char>,
    output: Option<Seq<char>>,
    r1: JavaCheckResult,
    r2: JavaCheckResult,
)
    requires
        java_check_post(required, output, r1),
        java_check_post(required, output, r2),
    ensures
        r1.is_installed == r2.is_installed,
        r1.is_compatible == r2.is_compatible,
        r1.required_version@ == r2.required_version@,
        r1.major_version == r2.major_version,
        r1.version is Some <==> r2.version is Some,
        r1.version matches Some(v1) ==> (r2.version matches Some(v2) && v1@ == v2@),
{
}

/// Compatibility is reported only for an installed runtime whose effective
/// major version reaches the required one.
pub proof fn lemma_compatible_needs_installed(
    required: Seq<char>,
    output: Option<Seq<char>>,
    r: JavaCheckResult,
)
    requires
        java_check_post(required, output, r),
    ensures
        r.is_compatible ==> ({
            &&& r.is_installed
            &&& r.major_version matches Some(m)
            &&& m as int >= required_major_of(required)
        }),
{
}

/// Evaluates the runtime probe over the captured output of the version
/// command (`None` when the command could not run at all).
pub fn check_java_version(required_version_str: &str, java_output: &Option<String>) -> (r:
    JavaCheckResult)
    ensures
        java_check_post(required_version_str@, java_output.deep_view(), r),
{
    let required_major: u32 = match parse_u32_text(required_version_str) {
        Some(v) => v,
        None => 21,
    };
    match java_output {
        None => JavaCheckResult {
            is_installed: false,
            version: None,
            major_version: None,
            is_compatible: false,
            required_version: String::from_str(required_version_str),
        },
        Some(out) => match parse_java_output(out.as_str()) {
            Some(p) => {
                let (version, major) = p;
                JavaCheckResult {
                    is_installed: true,
                    version: Some(version),
                    major_version: Some(major),
                    is_compatible: major >= required_major,
                    required_version: String::from_str(required_version_str),
                }
            },
            None => JavaCheckResult {
                is_installed: false,
                version: None,
                major_version: None,
                is_compatible: false,
                required_version: String::from_str(required_version_str),
            },
        },
    }
}

} // verus!
