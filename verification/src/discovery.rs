//! The test discoverer: turns a directory's immediate entries into a
//! validated collection of (input, expected-answer) test-case pairs.
//!
//! A configurable pattern recognizes input-file names and captures each
//! test's identifier; the answer file's name is derived from the identifier
//! through the answer-name template and must name a regular file of the same
//! directory (compared without regard to ASCII case). Two inputs matching
//! the same identifier are an ambiguity, an absent answer file a per-case
//! error; both are reported while the pass completes and returns every valid
//! pair. Listing the directory is filesystem work and stays outside this
//! library: the caller hands the entries in.

use vstd::prelude::*;

use crate::paths::ci_equal;
use crate::paths::join_under;
use crate::paths::joined;
use crate::pattern::captured_id;
use crate::pattern::pattern_compiles;
use crate::pattern::pattern_extract_id;
use crate::pattern::pattern_is_valid;
use crate::template::substitute;
use crate::template::substituted;

verus! {

/// One immediate entry of the test directory, as the caller listed it.
#[derive(Debug)]
pub struct DirEntry {
    /// The entry's file name (not its full path).
    pub name: String,
    /// Whether the entry is a regular file.
    pub is_file: bool,
}

/// Spec-level image of a [`DirEntry`].
pub ghost struct EntryView {
    pub name: Seq<char>,
    pub is_file: bool,
}

impl View for DirEntry {
    type V = EntryView;

    open spec fn view(&self) -> EntryView {
        EntryView { name: self.name@, is_file: self.is_file }
    }
}

/// Spec-level images of a listed directory, in listing order.
pub open spec fn entry_views(s: Seq<DirEntry>) -> Seq<EntryView> {
    s.map_values(|e: DirEntry| e@)
}

/// Configuration of one discovery pass over a directory.
#[derive(Debug)]
pub struct Problem {
    /// Pattern recognizing input-file names; its first capture group is the
    /// test identifier.
    pub input_regex: String,
    /// Template deriving the answer file's name from the identifier; every
    /// `$test` in it is replaced by the identifier.
    pub output_rep: String,
}

/// A resolved test case: an input file and its expected-answer file, both
/// under the scanned directory.
#[derive(Debug)]
pub struct ProblemTest {
    pub input: String,
    pub answer: String,
}

/// Spec-level image of a [`ProblemTest`].
pub ghost struct TestCaseView {
    pub input: Seq<char>,
    pub answer: Seq<char>,
}

impl View for ProblemTest {
    type V = TestCaseView;

    open spec fn view(&self) -> TestCaseView {
        TestCaseView { input: self.input@, answer: self.answer@ }
    }
}

/// Spec-level images of a list of test cases.
pub open spec fn test_views(s: Seq<ProblemTest>) -> Seq<TestCaseView> {
    s.map_values(|t: ProblemTest| t@)
}

/// One per-case problem found during a discovery pass.
#[derive(Debug)]
pub enum DiscoveryProblem {
    /// The answer file derived for this identifier names no regular file of
    /// the directory.
    MissingAnswer { id: String },
    /// Two distinct input files matched this identifier; neither is chosen.
    AmbiguousId { id: String },
}

/// Spec-level image of a [`DiscoveryProblem`].
pub ghost enum ProblemReport {
    MissingAnswer { id: Seq<char> },
    AmbiguousId { id: Seq<char> },
}

impl View for DiscoveryProblem {
    type V = ProblemReport;

    open spec fn view(&self) -> ProblemReport {
        match self {
            DiscoveryProblem::MissingAnswer { id } => ProblemReport::MissingAnswer { id: id@ },
            DiscoveryProblem::AmbiguousId { id } => ProblemReport::AmbiguousId { id: id@ },
        }
    }
}

/// Spec-level images of a list of per-case problems.
pub open spec fn problem_views(s: Seq<DiscoveryProblem>) -> Seq<ProblemReport> {
    s.map_values(|p: DiscoveryProblem| p@)
}

/// The outcome of one discovery pass: every validated pair, and every
/// per-case problem, each in directory order of the match that raised it.
#[derive(Debug)]
pub struct Discovery {
    pub tests: Vec<ProblemTest>,
    pub problems: Vec<DiscoveryProblem>,
}

/// Rejected configuration: the input pattern is not valid regex syntax.
#[derive(Debug)]
pub struct PatternError {
    pub pattern: String,
}

/// The identifier an entry contributes: entries that are not regular files,
/// and file names the pattern does not match, contribute none.
pub open spec fn entry_id(pattern: Seq<char>, e: EntryView) -> Option<Seq<char>> {
    if e.is_file {
        captured_id(pattern, e.name)
    } else {
        None
    }
}

/// Spec-level image of one matched input file.
pub ghost struct MatchView {
    pub name: Seq<char>,
    pub id: Seq<char>,
}

/// The matched (file name, identifier) pairs of a listed directory, in
/// listing order.
pub open spec fn matches_of(pattern: Seq<char>, entries: Seq<EntryView>) -> Seq<MatchView>
    decreases entries.len(),
{
    if entries.len() == 0 {
        Seq::<MatchView>::empty()
    } else {
        let rest = matches_of(pattern, entries.drop_last());
        match entry_id(pattern, entries.last()) {
            Option::Some(id) => rest.push(MatchView { name: entries.last().name, id }),
            Option::None => rest,
        }
    }
}

/// Some other match shares the identifier of `ms[k]`.
pub open spec fn id_is_ambiguous(ms: Seq<MatchView>, k: int) -> bool {
    exists|j: int| 0 <= j < ms.len() && j != k && ms[j].id == ms[k].id
}

/// `ms[k]` is the first match carrying its identifier.
pub open spec fn first_with_id(ms: Seq<MatchView>, k: int) -> bool {
    forall|j: int| 0 <= j < k ==> ms[j].id != ms[k].id
}

/// The name of the first regular-file entry equal to `want` up to ASCII
/// case, if the directory holds one.
pub open spec fn answer_entry(entries: Seq<EntryView>, want: Seq<char>) -> Option<Seq<char>>
    decreases entries.len(),
{
    if entries.len() == 0 {
        Option::None
    } else if entries.first().is_file && ci_equal(entries.first().name, want) {
        Option::Some(entries.first().name)
    } else {
        answer_entry(entries.drop_first(), want)
    }
}

/// The validated pairs contributed by the first `k` matches: a match whose
/// identifier is unambiguous and whose derived answer file exists becomes a
/// pair of paths joined under `dir`.
pub open spec fn tests_up_to(
    dir: Seq<char>,
    template: Seq<char>,
    entries: Seq<EntryView>,
    ms: Seq<MatchView>,
    k: int,
) -> Seq<TestCaseView>
    decreases k,
{
    if k <= 0 {
        Seq::<TestCaseView>::empty()
    } else {
        let prev = tests_up_to(dir, template, entries, ms, k - 1);
        if id_is_ambiguous(ms, k - 1) {
            prev
        } else {
            match answer_entry(entries, substituted(template, ms[k - 1].id)) {
                Option::Some(answer_name) => prev.push(
                    TestCaseView {
                        input: joined(dir, ms[k - 1].name),
                        answer: joined(dir, answer_name),
                    },
                ),
                Option::None => prev,
            }
        }
    }
}

/// The per-case problems contributed by the first `k` matches: an ambiguous
/// identifier is reported once, at its first match; an unambiguous match
/// without an answer file is reported as missing.
pub open spec fn problems_up_to(
    template: Seq<char>,
    entries: Seq<EntryView>,
    ms: Seq<MatchView>,
    k: int,
) -> Seq<ProblemReport>
    decreases k,
{
    if k <= 0 {
        Seq::<ProblemReport>::empty()
    } else {
        let prev = problems_up_to(template, entries, ms, k - 1);
        if id_is_ambiguous(ms, k - 1) {
            if first_with_id(ms, k - 1) {
                prev.push(ProblemReport::AmbiguousId { id: ms[k - 1].id })
            } else {
                prev
            }
        } else if answer_entry(entries, substituted(template, ms[k - 1].id)) is None {
            prev.push(ProblemReport::MissingAnswer { id: ms[k - 1].id })
        } else {
            prev
        }
    }
}

/// One matched input file: its name and its captured identifier.
#[derive(Debug)]
pub struct MatchPair {
    pub name: String,
    pub id: String,
}

impl View for MatchPair {
    type V = MatchView;

    open spec fn view(&self) -> MatchView {
        MatchView { name: self.name@, id: self.id@ }
    }
}

/// Spec-level images of a list of matches.
pub open spec fn match_views(s: Seq<MatchPair>) -> Seq<MatchView> {
    s.map_values(|m: MatchPair| m@)
}

/// Whether some other collected match carries the same identifier as the
/// one at `k`.
fn has_other_with_id(ms: &Vec<MatchPair>, k: usize) -> (r: bool)
    requires
        k < ms@.len(),
    ensures
        r == id_is_ambiguous(match_views(ms@), k as int),
{
    let n = ms.len();
    let mut j: usize = 0;
    while j < n
        invariant
            j <= n,
            n == ms@.len(),
            k < ms@.len(),
            forall|j2: int|
                0 <= j2 < j ==> (j2 == k || match_views(ms@)[j2].id != match_views(
                    ms@,
                )[k as int].id),
        decreases n - j,
    {
        if j != k && ms[j].id == ms[k].id {
            assert(match_views(ms@)[j as int].id == match_views(ms@)[k as int].id);
            return true;
        }
        j = j + 1;
    }
    false
}

/// Whether no earlier collected match carries the same identifier as the
/// one at `k`.
fn is_first_with_id(ms: &Vec<MatchPair>, k: usize) -> (r: bool)
    requires
        k < ms@.len(),
    ensures
        r == first_with_id(match_views(ms@), k as int),
{
    let mut j: usize = 0;
    while j < k
        invariant
            j <= k,
            k < ms@.len(),
            forall|j2: int| 0 <= j2 < j ==> match_views(ms@)[j2].id != match_views(ms@)[k as int].id,
        decreases k - j,
    {
        if ms[j].id == ms[k].id {
            assert(match_views(ms@)[j as int].id == match_views(ms@)[k as int].id);
            return false;
        }
        j = j + 1;
    }
    true
}

proof fn lemma_answer_entry_skip(entries: Seq<EntryView>, want: Seq<char>, i: int)
    requires
        0 <= i <= entries.len(),
        forall|j: int| 0 <= j < i ==> !(entries[j].is_file && ci_equal(entries[j].name, want)),
    ensures
        answer_entry(entries, want) == answer_entry(entries.skip(i), want),
    decreases i,
{
    if i > 0 {
        lemma_answer_entry_skip(entries, want, i - 1);
        let s = entries.skip(i - 1);
        assert(s.first() == entries[i - 1]);
        assert(s.drop_first() =~= entries.skip(i));
    } else {
        assert(entries.skip(0) =~= entries);
    }
}

/// The first regular-file entry whose name equals `want` up to ASCII case.
fn find_answer(entries: &Vec<DirEntry>, want: &str) -> (r: Option<String>)
    ensures
        r.deep_view() == answer_entry(entry_views(entries@), want@),
{
    let n = entries.len();
    let mut i: usize = 0;
    while i < n
        invariant
            i <= n,
            n == entries@.len(),
            forall|j: int|
                0 <= j < i ==> !(entry_views(entries@)[j].is_file && ci_equal(
                    entry_views(entries@)[j].name,
                    want@,
                )),
        decreases n - i,
    {
        let e = &entries[i];
        if e.is_file && crate::paths::str_ci_equal(e.name.as_str(), want) {
            proof {
                lemma_answer_entry_skip(entry_views(entries@), want@, i as int);
                let s = entry_views(entries@).skip(i as int);
                assert(s.first() == entry_views(entries@)[i as int]);
            }
            return Some(e.name.clone());
        }
        i = i + 1;
    }
    proof {
        lemma_answer_entry_skip(entry_views(entries@), want@, n as int);
        assert(entry_views(entries@).skip(n as int) =~= Seq::<EntryView>::empty());
    }
    None
}

impl Problem {
    /// Scans the listed immediate `entries` of directory `dir` for test
    /// cases. Returns an error exactly when the input pattern is not valid
    /// regex syntax; otherwise the pass completes, returning every validated
    /// pair together with every per-case problem — an ambiguous identifier
    /// or a missing answer file does not abort the scan.
    pub fn find_tests(&self, dir: &str, entries: &Vec<DirEntry>) -> (r: Result<
        Discovery,
        PatternError,
    >)
        ensures
            r is Ok <==> pattern_compiles(self.input_regex@),
            (r matches Ok(d) ==> {
                let evs = entry_views(entries@);
                let ms = matches_of(self.input_regex@, evs);
                &&& test_views(d.tests@) == tests_up_to(
                    dir@,
                    self.output_rep@,
                    evs,
                    ms,
                    ms.len() as int,
                )
                &&& problem_views(d.problems@) == problems_up_to(
                    self.output_rep@,
                    evs,
                    ms,
                    ms.len() as int,
                )
            }),
            (r matches Err(e) ==> e.pattern@ == self.input_regex@),
    {
        if !pattern_is_valid(self.input_regex.as_str()) {
            return Err(PatternError { pattern: self.input_regex.clone() });
        }
        let ghost evs = entry_views(entries@);
        let mut ms: Vec<MatchPair> = Vec::new();
        let n = entries.len();
        let mut i: usize = 0;
        while i < n
            invariant
                i <= n,
                n == entries@.len(),
                evs == entry_views(entries@),
                pattern_compiles(self.input_regex@),
                match_views(ms@) == matches_of(self.input_regex@, evs.take(i as int)),
            decreases n - i,
        {
            let e = &entries[i];
            if e.is_file {
                match pattern_extract_id(self.input_regex.as_str(), e.name.as_str()) {
                    Some(id) => {
                        ms.push(MatchPair { name: e.name.clone(), id });
                    },
                    None => {},
                }
            }
            proof {
                let t1 = evs.take(i + 1);
                assert(t1.drop_last() =~= evs.take(i as int));
                assert(t1.last() == evs[i as int]);
                assert(match_views(ms@) =~= matches_of(self.input_regex@, t1));
            }
            i = i + 1;
        }
        proof {
            assert(evs.take(n as int) =~= evs);
        }
        let ghost msv = matches_of(self.input_regex@, evs);
        let mut tests: Vec<ProblemTest> = Vec::new();
        let mut problems: Vec<DiscoveryProblem> = Vec::new();
        let m_count = ms.len();
        let mut k: usize = 0;
        while k < m_count
            invariant
                k <= m_count,
                m_count == ms@.len(),
                evs == entry_views(entries@),
                msv == matches_of(self.input_regex@, evs),
                match_views(ms@) == msv,
                test_views(tests@) == tests_up_to(dir@, self.output_rep@, evs, msv, k as int),
                problem_views(problems@) == problems_up_to(self.output_rep@, evs, msv, k as int),
            decreases m_count - k,
        {
            if has_other_with_id(&ms, k) {
                if is_first_with_id(&ms, k) {
                    problems.push(DiscoveryProblem::AmbiguousId { id: ms[k].id.clone() });
                }
            } else {
                let want = substitute(self.output_rep.as_str(), ms[k].id.as_str());
                match find_answer(entries, want.as_str()) {
                    Some(answer_name) => {
                        let input = join_under(dir, ms[k].name.as_str());
                        let answer = join_under(dir, answer_name.as_str());
                        tests.push(ProblemTest { input, answer });
                    },
                    None => {
                        problems.push(DiscoveryProblem::MissingAnswer { id: ms[k].id.clone() });
                    },
                }
            }
            proof {
                assert(test_views(tests@) =~= tests_up_to(
                    dir@,
                    self.output_rep@,
                    evs,
                    msv,
                    k + 1,
                ));
                assert(problem_views(problems@) =~= problems_up_to(
                    self.output_rep@,
                    evs,
                    msv,
                    k + 1,
                ));
            }
            k = k + 1;
        }
        Ok(Discovery { tests, problems })
    }
}

} // verus!
