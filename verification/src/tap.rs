//! The harness: it reads TAP output line by line, keeps the tally and the
//! diagnostics that wait for their test, and reports the summary.

use vstd::prelude::*;
use vstd::string::*;
use crate::decimal::{decimal_text, render_decimal};
use crate::line::{classify, classify_line, LineKind, LineKindView};
use crate::text::same_text;

verus! {

/// How one test ended.
#[derive(Debug, Clone, Copy, PartialEq, Eq, Structural)]
pub enum TestState {
    Passed,
    Failed,
    Skipped,
    Incomplete,
}

/// The outcome of one test line.
#[derive(Debug, PartialEq)]
pub struct TestResult {
    /// The test's name; empty where the line gives none.
    pub name: String,
    pub state: TestState,
    /// The diagnostic lines read since the test before, in the order read.
    /// Only a failed test carries them.
    pub diagnostics: Option<Vec<String>>,
}

/// A `TestResult` as contracts see it.
pub struct TestResultView {
    pub name: Seq<char>,
    pub state: TestState,
    pub diagnostics: Option<Seq<Seq<char>>>,
}

/// The characters of each string of `lines`.
pub open spec fn texts(lines: Seq<String>) -> Seq<Seq<char>> {
    lines.map_values(|line: String| line@)
}

impl View for TestResult {
    type V = TestResultView;

    open spec fn view(&self) -> TestResultView {
        TestResultView {
            name: self.name@,
            state: self.state,
            diagnostics: match self.diagnostics {
                Some(lines) => Some(texts(lines@)),
                None => None,
            },
        }
    }
}

/// The view of an optional result.
pub open spec fn result_view(result: Option<TestResult>) -> Option<TestResultView> {
    match result {
        Some(result) => Some(result@),
        None => None,
    }
}

/// What a harness knows after the lines read so far.
pub struct HarnessState {
    /// How many test lines were read.
    pub test_count: nat,
    /// The count of the last plan line read; zero before the first.
    pub total_tests: nat,
    pub failed_tests: nat,
    pub skipped_tests: nat,
    pub incomplete_tests: nat,
    /// The diagnostic lines read since the last test line, oldest first.
    pub diagnostics: Seq<Seq<char>>,
}

impl HarnessState {
    /// The state before any line: nothing counted, nothing planned, nothing
    /// waiting.
    pub open spec fn initial() -> HarnessState {
        HarnessState {
            test_count: 0,
            total_tests: 0,
            failed_tests: 0,
            skipped_tests: 0,
            incomplete_tests: 0,
            diagnostics: Seq::empty(),
        }
    }

    /// Every failed, skipped or incomplete test was counted as a test.
    pub open spec fn consistent(self) -> bool {
        self.failed_tests + self.skipped_tests + self.incomplete_tests <= self.test_count
    }

    /// The planned tests that never ran.
    pub open spec fn shortfall(self) -> nat {
        if self.total_tests > self.test_count {
            (self.total_tests - self.test_count) as nat
        } else {
            0
        }
    }

    /// The failures that the summary reports: the tests that failed and the
    /// planned tests that never ran.
    pub open spec fn reported_failed(self) -> nat {
        self.failed_tests + self.shortfall()
    }
}

/// How a test line counts. A directive `SKIP` or `TODO` decides before the
/// prefix `not ` does; any other directive decides nothing.
pub open spec fn verdict(failed_prefix: bool, directive: Option<Seq<char>>) -> TestState {
    if directive == Some("SKIP"@) {
        TestState::Skipped
    } else if directive == Some("TODO"@) {
        TestState::Incomplete
    } else if failed_prefix {
        TestState::Failed
    } else {
        TestState::Passed
    }
}

/// `n`, and one more where `counted`.
pub open spec fn plus(n: nat, counted: bool) -> nat {
    if counted {
        n + 1
    } else {
        n
    }
}

/// The state after a line of kind `line` was read in state `s`.
pub open spec fn next_state(s: HarnessState, line: LineKindView) -> HarnessState {
    match line {
        LineKindView::Plan { planned_count } => HarnessState { total_tests: planned_count, ..s },
        LineKindView::Diagnostic { message } => HarnessState {
            diagnostics: s.diagnostics.push(message),
            ..s
        },
        LineKindView::Test { failed_prefix, name, directive } => {
            let state = verdict(failed_prefix, directive);
            HarnessState {
                test_count: s.test_count + 1,
                total_tests: s.total_tests,
                failed_tests: plus(s.failed_tests, state == TestState::Failed),
                skipped_tests: plus(s.skipped_tests, state == TestState::Skipped),
                incomplete_tests: plus(s.incomplete_tests, state == TestState::Incomplete),
                diagnostics: Seq::empty(),
            }
        },
        LineKindView::Unrecognized => s,
    }
}

/// What reading a line of kind `line` in state `s` hands out: a result for a
/// test line, nothing for any other.
pub open spec fn outcome(s: HarnessState, line: LineKindView) -> Option<TestResultView> {
    match line {
        LineKindView::Test { failed_prefix, name, directive } => {
            let state = verdict(failed_prefix, directive);
            Some(
                TestResultView {
                    name: match name {
                        Some(name) => name,
                        None => Seq::empty(),
                    },
                    state,
                    diagnostics: if state == TestState::Failed {
                        Some(s.diagnostics)
                    } else {
                        None
                    },
                },
            )
        },
        _ => None,
    }
}

/// The text of the summary of state `s`.
pub open spec fn summary_text(s: HarnessState) -> Seq<char> {
    decimal_text(s.total_tests) + " tests ran; "@ + decimal_text(s.reported_failed())
        + " failed; "@ + decimal_text(s.incomplete_tests) + " incomplete, "@ + decimal_text(
        s.skipped_tests,
    ) + " skipped"@
}

/// The counters of a harness. No value of this type counts more failed,
/// skipped and incomplete tests than tests.
#[derive(Debug)]
struct Tally {
    test_count: u64,
    total_tests: u64,
    failed_tests: u64,
    skipped_tests: u64,
    incomplete_tests: u64,
}

impl Tally {
    #[verifier::type_invariant]
    spec fn is_consistent(&self) -> bool {
        self.failed_tests + self.skipped_tests + self.incomplete_tests <= self.test_count
    }
}

/// Reads TAP output one line at a time and keeps the tally.
#[derive(Debug)]
pub struct TapHarness {
    tally: Tally,
    diagnostics: Vec<String>,
}

impl View for TapHarness {
    type V = HarnessState;

    closed spec fn view(&self) -> HarnessState {
        HarnessState {
            test_count: self.tally.test_count as nat,
            total_tests: self.tally.total_tests as nat,
            failed_tests: self.tally.failed_tests as nat,
            skipped_tests: self.tally.skipped_tests as nat,
            incomplete_tests: self.tally.incomplete_tests as nat,
            diagnostics: texts(self.diagnostics@),
        }
    }
}

impl TapHarness {
    /// A harness that has read nothing.
    pub fn new() -> (harness: TapHarness)
        ensures
            harness@ == HarnessState::initial(),
    {
        let harness = TapHarness {
            tally: Tally {
                test_count: 0,
                total_tests: 0,
                failed_tests: 0,
                skipped_tests: 0,
                incomplete_tests: 0,
            },
            diagnostics: Vec::new(),
        };
        assert(texts(harness.diagnostics@) =~= Seq::empty());
        harness
    }

    /// How many test lines were read.
    pub fn test_count(&self) -> (n: u64)
        ensures
            n == self@.test_count,
    {
        self.tally.test_count
    }

    /// The count of the last plan line read; zero before the first.
    pub fn total_tests(&self) -> (n: u64)
        ensures
            n == self@.total_tests,
    {
        self.tally.total_tests
    }

    /// How many tests failed; planned tests that never ran are not among
    /// them.
    pub fn failed_tests(&self) -> (n: u64)
        ensures
            n == self@.failed_tests,
    {
        self.tally.failed_tests
    }

    /// How many tests were skipped.
    pub fn skipped_tests(&self) -> (n: u64)
        ensures
            n == self@.skipped_tests,
    {
        self.tally.skipped_tests
    }

    /// How many tests were left incomplete.
    pub fn incomplete_tests(&self) -> (n: u64)
        ensures
            n == self@.incomplete_tests,
    {
        self.tally.incomplete_tests
    }

    /// Takes the count of a plan line. A later plan overwrites an earlier
    /// one.
    fn handle_test_plan(&mut self, planned_count: u64)
        ensures
            final(self)@ == (HarnessState { total_tests: planned_count as nat, ..old(self)@ }),
    {
        proof {
            use_type_invariant(&self.tally);
        }
        self.tally.total_tests = planned_count;
    }

    /// Keeps the message of a diagnostic line for the next test.
    fn handle_diagnostic_line(&mut self, message: String)
        ensures
            final(self)@ == (HarnessState {
                diagnostics: old(self)@.diagnostics.push(message@),
                ..old(self)@
            }),
    {
        self.diagnostics.push(message);
        assert(texts(self.diagnostics@) =~= texts(old(self).diagnostics@).push(message@));
    }

    /// Counts a test line by its directive. `SKIP` and `TODO` are the two
    /// directives that decide; the test is then counted, the waiting
    /// diagnostics are dropped, and its result comes back. With any other
    /// directive nothing changes and nothing comes back.
    fn handle_directive(&mut self, directive: &str, test_name: Option<&str>) -> (result: Option<
        TestResult,
    >)
        requires
            old(self)@.failed_tests + old(self)@.skipped_tests + old(self)@.incomplete_tests < old(
                self,
            )@.test_count,
        ensures
            directive@ == "SKIP"@ ==> final(self)@ == (HarnessState {
                skipped_tests: old(self)@.skipped_tests + 1,
                diagnostics: Seq::empty(),
                ..old(self)@
            }),
            directive@ == "TODO"@ ==> final(self)@ == (HarnessState {
                incomplete_tests: old(self)@.incomplete_tests + 1,
                diagnostics: Seq::empty(),
                ..old(self)@
            }),
            directive@ != "SKIP"@ && directive@ != "TODO"@ ==> final(self)@ == old(self)@,
            result_view(result) == if directive@ == "SKIP"@ || directive@ == "TODO"@ {
                Some(
                    TestResultView {
                        name: match test_name {
                            Some(name) => name@,
                            None => Seq::empty(),
                        },
                        state: verdict(false, Some(directive@)),
                        diagnostics: None,
                    },
                )
            } else {
                None
            },
    {
        proof {
            use_type_invariant(&self.tally);
            reveal_strlit("SKIP");
            reveal_strlit("TODO");
            assert("SKIP"@[0] != "TODO"@[0]);
        }
        let state = if same_text(directive, "SKIP") {
            self.tally.skipped_tests = self.tally.skipped_tests + 1;
            TestState::Skipped
        } else if same_text(directive, "TODO") {
            self.tally.incomplete_tests = self.tally.incomplete_tests + 1;
            TestState::Incomplete
        } else {
            return None;
        };
        self.diagnostics.clear();
        assert(texts(self.diagnostics@) =~= Seq::empty());
        let name = match test_name {
            Some(name) => String::from_str(name),
            None => String::new(),
        };
        Some(TestResult { name, state, diagnostics: None })
    }

    /// Takes a classified line: a plan sets the number of planned tests, a
    /// diagnostic waits for its test, a test is counted and its result comes
    /// back, and an unrecognized line changes nothing.
    pub fn record(&mut self, line: LineKind) -> (result: Option<TestResult>)
        requires
            line@ is Test ==> old(self)@.test_count < u64::MAX,
        ensures
            final(self)@ == next_state(old(self)@, line@),
            result_view(result) == outcome(old(self)@, line@),
            final(self)@.consistent(),
    {
        proof {
            use_type_invariant(&self.tally);
        }
        match line {
            LineKind::Plan { planned_count } => {
                self.handle_test_plan(planned_count);
                None
            },
            LineKind::Diagnostic { message } => {
                self.handle_diagnostic_line(message);
                None
            },
            LineKind::Test { failed_prefix, name, directive } => {
                self.tally.test_count = self.tally.test_count + 1;
                let by_directive = match &directive {
                    Some(directive) => {
                        let test_name = match &name {
                            Some(name) => Some(name.as_str()),
                            None => None,
                        };
                        self.handle_directive(directive.as_str(), test_name)
                    },
                    None => None,
                };
                if by_directive.is_some() {
                    return by_directive;
                }
                let name = match name {
                    Some(name) => name,
                    None => String::new(),
                };
                if failed_prefix {
                    self.tally.failed_tests = self.tally.failed_tests + 1;
                    let mut diagnostics: Vec<String> = Vec::new();
                    core::mem::swap(&mut self.diagnostics, &mut diagnostics);
                    assert(texts(self.diagnostics@) =~= Seq::empty());
                    Some(
                        TestResult {
                            name,
                            state: TestState::Failed,
                            diagnostics: Some(diagnostics),
                        },
                    )
                } else {
                    self.diagnostics.clear();
                    assert(texts(self.diagnostics@) =~= Seq::empty());
                    Some(TestResult { name, state: TestState::Passed, diagnostics: None })
                }
            },
            LineKind::Unrecognized => None,
        }
    }

    /// Reads one line of TAP output.
    ///
    /// The line is classified, the state moves as `next_state` says, and a
    /// test line hands out its result. A harness whose count of tests has
    /// reached `u64::MAX` cannot count another.
    pub fn read_line(&mut self, line: &str) -> (result: Option<TestResult>)
        requires
            classify_line(line@) is Test ==> old(self)@.test_count < u64::MAX,
        ensures
            final(self)@ == next_state(old(self)@, classify_line(line@)),
            result_view(result) == outcome(old(self)@, classify_line(line@)),
            final(self)@.consistent(),
    {
        self.record(classify(line))
    }

    /// The summary of what was read so far. Planned tests that never ran
    /// count as failed.
    pub fn summarize(&self) -> (report: String)
        ensures
            report@ == summary_text(self@),
    {
        proof {
            use_type_invariant(&self.tally);
        }
        let tally = &self.tally;
        let shortfall = if tally.total_tests > tally.test_count {
            tally.total_tests - tally.test_count
        } else {
            0
        };
        let mut report = render_decimal(tally.total_tests);
        report.append(" tests ran; ");
        report.append(render_decimal(tally.failed_tests + shortfall).as_str());
        report.append(" failed; ");
        report.append(render_decimal(tally.incomplete_tests).as_str());
        report.append(" incomplete, ");
        report.append(render_decimal(tally.skipped_tests).as_str());
        report.append(" skipped");
        report
    }
}

} // verus!
