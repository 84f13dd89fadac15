//! Decisions of the fuzzing loop: what a run of the test harness amounts to, which
//! outcomes are worth saving, and where the metadata of a generated shader ends.
use crate::strings::str_eq;
use vstd::prelude::*;
use vstd::string::{StrSliceExecFns, StringExecFns};

verus! {

/// Which failing test cases to save.
#[derive(Clone, Copy, Debug, PartialEq, Eq, Structural)]
pub enum SaveStrategy {
    All,
    Crashes,
    Mismatches,
    /// Save no test cases: useful for debugging.
    Debug,
}

/// What a run of the test harness amounts to.
pub enum ExecutionResult {
    Success,
    /// The harness crashed, with what it printed to its error stream.
    Crash(String),
    Mismatch,
    Timeout,
}

/// Whether `pattern` is a valid regular expression, and if so whether it matches some
/// part of `haystack` (`None` for an invalid pattern).
pub uninterp spec fn regex_search(pattern: Seq<char>, haystack: Seq<char>) -> Option<bool>;

/// Compiles `pattern` with `regex::Regex::new` and, where that succeeds, asks
/// `Regex::is_match` whether it matches somewhere in `haystack`. The contract names the
/// answer and says nothing of it: regular expression matching is the `regex` crate's.
#[verifier::external_body]
fn regex_is_match(pattern: &str, haystack: &str) -> (r: Option<bool>)
    ensures
        r == regex_search(pattern@, haystack@),
{
    match regex::Regex::new(pattern) {
        Ok(re) => Some(re.is_match(haystack)),
        Err(_) => None,
    }
}

/// The crash output is ignored: the ignore pattern matches it.
pub open spec fn spec_ignored(ignore: Option<Seq<char>>, output: Seq<char>) -> bool {
    match ignore {
        Some(p) => regex_search(p, output) == Some(true),
        None => false,
    }
}

impl ExecutionResult {
    /// Whether the test case is to be saved: a crash under the `All` or `Crashes`
    /// strategy unless the ignore pattern matches its output, and a mismatch under the
    /// `All` or `Mismatches` strategy.
    pub fn should_save(&self, strategy: &SaveStrategy, ignore: Option<&str>) -> (r: bool)
        ensures
            r == match *self {
                ExecutionResult::Success | ExecutionResult::Timeout => false,
                ExecutionResult::Crash(output) => (*strategy == SaveStrategy::All || *strategy
                    == SaveStrategy::Crashes) && !spec_ignored(
                    match ignore {
                        Some(p) => Some(p@),
                        None => None,
                    },
                    output@,
                ),
                ExecutionResult::Mismatch => *strategy == SaveStrategy::All || *strategy == SaveStrategy::Mismatches,
            },
    {
        match self {
            ExecutionResult::Success => false,
            ExecutionResult::Timeout => false,
            ExecutionResult::Crash(output) => {
                let saving = match strategy {
                    SaveStrategy::All | SaveStrategy::Crashes => true,
                    _ => false,
                };
                let ignored = match ignore {
                    Some(p) => match regex_is_match(p, output.as_str()) {
                        Some(m) => m,
                        None => false,
                    },
                    None => false,
                };
                saving && !ignored
            },
            ExecutionResult::Mismatch => match strategy {
                SaveStrategy::All | SaveStrategy::Mismatches => true,
                _ => false,
            },
        }
    }

    /// The name of the outcome.
    pub fn name(&self) -> (r: &'static str)
        ensures
            r@ == match *self {
                ExecutionResult::Success => "success"@,
                ExecutionResult::Crash(_) => "crash"@,
                ExecutionResult::Mismatch => "mismatch"@,
                ExecutionResult::Timeout => "timeout"@,
            },
    {
        match self {
            ExecutionResult::Success => "success",
            ExecutionResult::Crash(_) => "crash",
            ExecutionResult::Mismatch => "mismatch",
            ExecutionResult::Timeout => "timeout",
        }
    }
}

/// Why the exit of the harness could not be classified.
#[derive(Clone, Copy, Debug, PartialEq, Eq, Structural)]
pub enum ExitError {
    /// The harness has no exit code (it was killed by a signal).
    NoExitCode,
    /// The harness exited with a code that it does not use.
    Unrecognised(i32),
}

/// What the harness's exit code means: 0 success, 1 mismatch, 101 crash.
pub fn classify_exit(code: Option<i32>, stderr: String) -> (r: Result<ExecutionResult, ExitError>)
    ensures
        match code {
            None => r == Err::<ExecutionResult, ExitError>(ExitError::NoExitCode),
            Some(0) => r matches Ok(ExecutionResult::Success),
            Some(1) => r matches Ok(ExecutionResult::Mismatch),
            Some(101) => r matches Ok(ExecutionResult::Crash(s)) && s == stderr,
            Some(c) => r == Err::<ExecutionResult, ExitError>(ExitError::Unrecognised(c)),
        },
{
    match code {
        None => Err(ExitError::NoExitCode),
        Some(0) => Ok(ExecutionResult::Success),
        Some(1) => Ok(ExecutionResult::Mismatch),
        Some(101) => Ok(ExecutionResult::Crash(stderr)),
        Some(c) => Err(ExitError::Unrecognised(c)),
    }
}

/// A character with the Unicode `White_Space` property.
pub open spec fn is_white_space(c: char) -> bool {
    let u = c as u32;
    (0x09 <= u <= 0x0d) || u == 0x20 || u == 0x85 || u == 0xa0 || u == 0x1680 || (0x2000 <= u <= 0x200a) || u
        == 0x2028 || u == 0x2029 || u == 0x202f || u == 0x205f || u == 0x3000
}

fn white_space(c: char) -> (r: bool)
    ensures
        r == is_white_space(c),
{
    let u = c as u32;
    (0x09 <= u && u <= 0x0d) || u == 0x20 || u == 0x85 || u == 0xa0 || u == 0x1680 || (0x2000 <= u && u <= 0x200a)
        || u == 0x2028 || u == 0x2029 || u == 0x202f || u == 0x205f || u == 0x3000
}

/// `s` from index `k` on, with every leading repetition of `//` removed.
pub open spec fn strip_slashes_from(s: Seq<char>, k: int) -> Seq<char>
    decreases s.len() - k,
{
    if 0 <= k && k + 2 <= s.len() && s[k] == '/' && s[k + 1] == '/' {
        strip_slashes_from(s, k + 2)
    } else {
        s.subrange(k, s.len() as int)
    }
}

/// The number of consecutive white space characters of `s` from index `k` on.
pub open spec fn ws_from(s: Seq<char>, k: int) -> nat
    decreases s.len() - k,
{
    if 0 <= k < s.len() && is_white_space(s[k]) {
        1 + ws_from(s, k + 1)
    } else {
        0
    }
}

/// The number of consecutive white space characters of `s` that end before index `k`.
pub open spec fn ws_before(s: Seq<char>, k: int) -> nat
    decreases k,
{
    if 0 < k <= s.len() && is_white_space(s[k - 1]) {
        1 + ws_before(s, k - 1)
    } else {
        0
    }
}

/// `s` without its leading and trailing white space.
pub open spec fn spec_trim(s: Seq<char>) -> Seq<char> {
    let t = s.subrange(ws_from(s, 0) as int, s.len() as int);
    t.subrange(0, t.len() - ws_before(t, t.len() as int))
}

/// The index of the first line break of `s` from index `k` on, if it has one.
pub open spec fn newline_from(s: Seq<char>, k: int) -> Option<int>
    decreases s.len() - k,
{
    if k < 0 || k >= s.len() {
        None
    } else if s[k] == '\n' {
        Some(k)
    } else {
        newline_from(s, k + 1)
    }
}

proof fn lemma_ws_from_bound(s: Seq<char>, k: int)
    requires
        0 <= k <= s.len(),
    ensures
        k + ws_from(s, k) <= s.len(),
    decreases s.len() - k,
{
    if k < s.len() && is_white_space(s[k]) {
        lemma_ws_from_bound(s, k + 1);
    }
}

proof fn lemma_ws_before_bound(s: Seq<char>, k: int)
    requires
        0 <= k <= s.len(),
    ensures
        ws_before(s, k) <= k,
    decreases k,
{
    if 0 < k && is_white_space(s[k - 1]) {
        lemma_ws_before_bound(s, k - 1);
    }
}

/// `s` without its leading and trailing white space.
pub fn trim(s: &str) -> (r: String)
    ensures
        r@ == spec_trim(s@),
{
    let n = s.unicode_len();
    let mut a: usize = 0;
    while a < n && white_space(s.get_char(a))
        invariant
            a <= n,
            n == s@.len(),
            ws_from(s@, 0) == a + ws_from(s@, a as int),
        decreases n - a,
    {
        a = a + 1;
    }
    proof {
        lemma_ws_from_bound(s@, 0);
    }
    let t = s.substring_char(a, n);
    let m = t.unicode_len();
    let mut b: usize = m;
    while b > 0 && white_space(t.get_char(b - 1))
        invariant
            b <= m,
            m == t@.len(),
            ws_before(t@, m as int) == (m - b) + ws_before(t@, b as int),
        decreases b,
    {
        b = b - 1;
    }
    proof {
        lemma_ws_before_bound(t@, m as int);
    }
    String::from_str(t.substring_char(0, b))
}

/// Splits the output of the generator at its first line break into the metadata, the
/// first line without its comment slashes and surrounding white space, and the shader,
/// the rest; `None` where the output has no line break.
pub fn split_metadata(output: &str) -> (r: Option<(String, String)>)
    ensures
        match newline_from(output@, 0) {
            None => r is None,
            Some(i) => r matches Some((m, sh)) && m@ == spec_trim(strip_slashes_from(output@.subrange(0, i), 0))
                && sh@ == output@.subrange(i + 1, output@.len() as int),
        },
{
    let n = output.unicode_len();
    let mut i: usize = 0;
    while i < n && output.get_char(i) != '\n'
        invariant
            i <= n,
            n == output@.len(),
            newline_from(output@, 0) == newline_from(output@, i as int),
        decreases n - i,
    {
        i = i + 1;
    }
    if i == n {
        return None;
    }
    let first = output.substring_char(0, i);
    let mut k: usize = 0;
    while k < i && i - k >= 2 && first.get_char(k) == '/' && first.get_char(k + 1) == '/'
        invariant
            k <= i,
            i == first@.len(),
            strip_slashes_from(first@, 0) == strip_slashes_from(first@, k as int),
        decreases i - k,
    {
        k = k + 2;
    }
    let metadata = trim(first.substring_char(k, i));
    let shader = String::from_str(output.substring_char(i + 1, n));
    Some((metadata, shader))
}

} // verus!
