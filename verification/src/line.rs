//! The shapes of a line of TAP output, and the scanner that tells them apart.
//!
//! Three shapes carry meaning. Written as patterns:
//!
//! * a plan, `^\d+\.\.(\d+)$`, whose second number is the count of tests;
//! * a diagnostic, `^# (.*)`, whose text is kept for the test that follows;
//! * a test, `^(not )?ok ?\d* ?([^#]+)?(# )?(\w+)?`, with its name and its
//!   directive.
//!
//! `\d` is an ASCII digit and `\w` an ASCII letter, digit or underscore; `.`
//! is anything but a line feed. Every other line is unrecognized.

use vstd::prelude::*;
use vstd::string::*;
use crate::decimal::{decimal_value, is_digit, parse_decimal};
use crate::text::{chars_of, stands_at, word_at};

verus! {

/// The sets of characters that the scanner reads in runs.
#[derive(Debug, Clone, Copy, PartialEq, Eq, Structural)]
pub enum CharClass {
    /// `0` to `9`.
    Digit,
    /// ASCII letters and digits, and the underscore.
    Word,
    /// Everything but `#`.
    NotHash,
    /// Everything but a line feed.
    NotNewline,
}

impl CharClass {
    /// Does the class hold `c`?
    pub open spec fn has(self, c: char) -> bool {
        match self {
            CharClass::Digit => is_digit(c),
            CharClass::Word => is_digit(c) || ('a' <= c && c <= 'z') || ('A' <= c && c <= 'Z') || c
                == '_',
            CharClass::NotHash => c != '#',
            CharClass::NotNewline => c != '\n',
        }
    }

    /// Does the class hold `c`?
    pub fn contains(self, c: char) -> (b: bool)
        ensures
            b == self.has(c),
    {
        match self {
            CharClass::Digit => '0' <= c && c <= '9',
            CharClass::Word => ('0' <= c && c <= '9') || ('a' <= c && c <= 'z') || ('A' <= c && c
                <= 'Z') || c == '_',
            CharClass::NotHash => c != '#',
            CharClass::NotNewline => c != '\n',
        }
    }
}

/// Where the longest run of `class` that starts at `from` ends: the first
/// index at or after `from` whose character is outside the class, or the
/// length of `s`.
pub open spec fn run_end(s: Seq<char>, from: int, class: CharClass) -> int
    decreases s.len() - from,
{
    if 0 <= from < s.len() && class.has(s[from]) {
        run_end(s, from + 1, class)
    } else {
        from
    }
}

/// A run lies inside the text, holds only its class, and stops at the first
/// character outside it.
pub proof fn lemma_run_end(s: Seq<char>, from: int, class: CharClass)
    requires
        0 <= from <= s.len(),
    ensures
        from <= run_end(s, from, class) <= s.len(),
        forall|i: int| from <= i < run_end(s, from, class) ==> class.has(#[trigger] s[i]),
        run_end(s, from, class) < s.len() ==> !class.has(s[run_end(s, from, class)]),
    decreases s.len() - from,
{
    if from < s.len() && class.has(s[from]) {
        lemma_run_end(s, from + 1, class);
    }
}

/// The end of a run is the only index with the properties of `lemma_run_end`.
pub proof fn lemma_run_end_is(s: Seq<char>, from: int, class: CharClass, end: int)
    requires
        0 <= from <= end <= s.len(),
        forall|i: int| from <= i < end ==> class.has(#[trigger] s[i]),
        end < s.len() ==> !class.has(s[end]),
    ensures
        run_end(s, from, class) == end,
    decreases end - from,
{
    if from < end {
        lemma_run_end_is(s, from + 1, class, end);
    }
}

/// A run does not reach past a character outside its class.
pub proof fn lemma_run_stops(s: Seq<char>, from: int, class: CharClass, stop: int)
    requires
        0 <= from <= stop < s.len(),
        !class.has(s[stop]),
    ensures
        run_end(s, from, class) <= stop,
{
    lemma_run_end(s, from, class);
}

/// The index after one space at `at`, or `at` itself where there is none.
pub open spec fn after_space(s: Seq<char>, at: int) -> int {
    if 0 <= at < s.len() && s[at] == ' ' {
        at + 1
    } else {
        at
    }
}

/// The digits of the count in a plan line `a..n`: both numbers have at least
/// one digit, and nothing stands before, between or after them but the two
/// dots.
pub open spec fn plan_digits(s: Seq<char>) -> Option<Seq<char>> {
    let dots = run_end(s, 0, CharClass::Digit);
    if 0 < dots && stands_at(s, dots, ".."@) && dots + 2 < s.len() && run_end(
        s,
        dots + 2,
        CharClass::Digit,
    ) == s.len() {
        Some(s.subrange(dots + 2, s.len() as int))
    } else {
        None
    }
}

/// The count that a plan line declares. A count that no `u64` holds is not
/// taken: such a line is no plan.
pub open spec fn plan_count(s: Seq<char>) -> Option<nat> {
    match plan_digits(s) {
        Some(digits) => if decimal_value(digits) <= u64::MAX {
            Some(decimal_value(digits))
        } else {
            None
        },
        None => None,
    }
}

/// The message of a diagnostic line: what follows `# `, up to the end of the
/// line. Spaces at its start are kept.
pub open spec fn diagnostic_message(s: Seq<char>) -> Option<Seq<char>> {
    if stands_at(s, 0, "# "@) {
        Some(s.subrange(2, run_end(s, 2, CharClass::NotNewline)))
    } else {
        None
    }
}

/// What a test line says.
pub struct TestFields {
    /// The line begins with `not `.
    pub failed_prefix: bool,
    /// The text between the test's number and the first `#`, where there is
    /// any.
    pub name: Option<Seq<char>>,
    /// The word after `# `, where there is one.
    pub directive: Option<Seq<char>>,
}

/// Where the name of a test line begins, `ok` ending at `after_ok`: behind
/// one optional space, the digits of the test's number and one more optional
/// space.
pub open spec fn name_start(s: Seq<char>, after_ok: int) -> int {
    after_space(s, run_end(s, after_space(s, after_ok), CharClass::Digit))
}

/// Where the name of a test line ends: at the first `#` behind its start, or
/// at the end of the line.
pub open spec fn name_end(s: Seq<char>, after_ok: int) -> int {
    run_end(s, name_start(s, after_ok), CharClass::NotHash)
}

/// The name of a test line, `ok` ending at `after_ok`: all that stands
/// between the number and the first `#`, spaces at its end included. A line
/// that has nothing there has no name.
pub open spec fn test_name(s: Seq<char>, after_ok: int) -> Option<Seq<char>> {
    if name_start(s, after_ok) < name_end(s, after_ok) {
        Some(s.subrange(name_start(s, after_ok), name_end(s, after_ok)))
    } else {
        None
    }
}

/// The directive of a test line, `ok` ending at `after_ok`: the longest word
/// that follows `# ` where the name ends. A `#` without the space, or
/// without a word behind it, gives no directive.
pub open spec fn test_directive(s: Seq<char>, after_ok: int) -> Option<Seq<char>> {
    let word = name_end(s, after_ok) + 2;
    if stands_at(s, name_end(s, after_ok), "# "@) && word < run_end(s, word, CharClass::Word) {
        Some(s.subrange(word, run_end(s, word, CharClass::Word)))
    } else {
        None
    }
}

/// The fields of a test line: a line that begins with `ok` or with
/// `not ok`. Whatever follows, the line is a test line.
pub open spec fn test_fields(s: Seq<char>) -> Option<TestFields> {
    if stands_at(s, 0, "ok"@) {
        Some(TestFields { failed_prefix: false, name: test_name(s, 2), directive: test_directive(s, 2) })
    } else if stands_at(s, 0, "not ok"@) {
        Some(TestFields { failed_prefix: true, name: test_name(s, 6), directive: test_directive(s, 6) })
    } else {
        None
    }
}

/// A classified line, as contracts see it.
pub enum LineKindView {
    Plan { planned_count: nat },
    Diagnostic { message: Seq<char> },
    Test { failed_prefix: bool, name: Option<Seq<char>>, directive: Option<Seq<char>> },
    Unrecognized,
}

/// The kind of the line `s`. The shapes are tried in the order plan,
/// diagnostic, test, and the first that fits decides.
pub open spec fn classify_line(s: Seq<char>) -> LineKindView {
    if let Some(planned_count) = plan_count(s) {
        LineKindView::Plan { planned_count }
    } else if let Some(message) = diagnostic_message(s) {
        LineKindView::Diagnostic { message }
    } else if let Some(fields) = test_fields(s) {
        LineKindView::Test {
            failed_prefix: fields.failed_prefix,
            name: fields.name,
            directive: fields.directive,
        }
    } else {
        LineKindView::Unrecognized
    }
}

/// A classified line.
#[derive(Debug, PartialEq, Eq)]
pub enum LineKind {
    /// A plan line, with the number of tests that it declares.
    Plan { planned_count: u64 },
    /// A diagnostic line, with its message.
    Diagnostic { message: String },
    /// A test line.
    Test { failed_prefix: bool, name: Option<String>, directive: Option<String> },
    /// Any other line.
    Unrecognized,
}

/// The characters of an optional string.
pub open spec fn text_of(s: Option<String>) -> Option<Seq<char>> {
    match s {
        Some(s) => Some(s@),
        None => None,
    }
}

impl View for LineKind {
    type V = LineKindView;

    open spec fn view(&self) -> LineKindView {
        match *self {
            LineKind::Plan { planned_count } => LineKindView::Plan {
                planned_count: planned_count as nat,
            },
            LineKind::Diagnostic { message } => LineKindView::Diagnostic { message: message@ },
            LineKind::Test { failed_prefix, name, directive } => LineKindView::Test {
                failed_prefix,
                name: text_of(name),
                directive: text_of(directive),
            },
            LineKind::Unrecognized => LineKindView::Unrecognized,
        }
    }
}

/// Finds the end of the run of `class` that starts at `from`.
fn scan_run(chars: &Vec<char>, from: usize, class: CharClass) -> (end: usize)
    requires
        from <= chars.len(),
    ensures
        end == run_end(chars@, from as int, class),
        from <= end <= chars.len(),
{
    let mut end: usize = from;
    while end < chars.len() && class.contains(chars[end])
        invariant
            from <= end <= chars.len(),
            run_end(chars@, from as int, class) == run_end(chars@, end as int, class),
        decreases chars.len() - end,
    {
        end = end + 1;
    }
    end
}

/// Steps over one space at `at`, if one is there.
fn skip_space(chars: &Vec<char>, at: usize) -> (next: usize)
    requires
        at <= chars.len(),
    ensures
        next == after_space(chars@, at as int),
        at <= next <= chars.len(),
{
    if at < chars.len() && chars[at] == ' ' {
        at + 1
    } else {
        at
    }
}

/// Reads `chars` as a plan line.
fn read_plan(chars: &Vec<char>) -> (count: Option<u64>)
    ensures
        count == match plan_count(chars@) {
            Some(n) => Some(n as u64),
            None => None,
        },
{
    proof {
        reveal_strlit("..");
    }
    let dots = scan_run(chars, 0, CharClass::Digit);
    if dots == 0 || !word_at(chars, dots, "..") {
        return None;
    }
    let end = scan_run(chars, dots + 2, CharClass::Digit);
    if end == dots + 2 || end < chars.len() {
        return None;
    }
    proof {
        lemma_run_end(chars@, dots + 2, CharClass::Digit);
    }
    parse_decimal(chars, dots + 2, end)
}

/// Reads `line` as a diagnostic line; `chars` are its characters.
fn read_diagnostic(line: &str, chars: &Vec<char>) -> (message: Option<String>)
    requires
        chars@ == line@,
    ensures
        text_of(message) == diagnostic_message(line@),
{
    proof {
        reveal_strlit("# ");
    }
    if word_at(chars, 0, "# ") {
        let end = scan_run(chars, 2, CharClass::NotNewline);
        Some(String::from_str(line.substring_char(2, end)))
    } else {
        None
    }
}

/// Reads the name and the directive of a test line whose `ok` ends at
/// `after_ok`; `chars` are the characters of `line`.
fn read_after_ok(line: &str, chars: &Vec<char>, after_ok: usize, failed_prefix: bool) -> (kind:
    LineKind)
    requires
        chars@ == line@,
        after_ok <= chars.len(),
    ensures
        kind@ == (LineKindView::Test {
            failed_prefix,
            name: test_name(line@, after_ok as int),
            directive: test_directive(line@, after_ok as int),
        }),
{
    proof {
        reveal_strlit("# ");
    }
    let number = skip_space(chars, after_ok);
    let start = skip_space(chars, scan_run(chars, number, CharClass::Digit));
    let hash = scan_run(chars, start, CharClass::NotHash);
    let name = if start < hash {
        Some(String::from_str(line.substring_char(start, hash)))
    } else {
        None
    };
    let directive = if word_at(chars, hash, "# ") {
        let word_end = scan_run(chars, hash + 2, CharClass::Word);
        if hash + 2 < word_end {
            Some(String::from_str(line.substring_char(hash + 2, word_end)))
        } else {
            None
        }
    } else {
        None
    };
    LineKind::Test { failed_prefix, name, directive }
}

/// Tells what kind of line `line` is, and takes out what it carries.
pub fn classify(line: &str) -> (kind: LineKind)
    ensures
        kind@ == classify_line(line@),
{
    proof {
        reveal_strlit("ok");
        reveal_strlit("not ok");
    }
    let chars = chars_of(line);
    if let Some(planned_count) = read_plan(&chars) {
        LineKind::Plan { planned_count }
    } else if let Some(message) = read_diagnostic(line, &chars) {
        LineKind::Diagnostic { message }
    } else if word_at(&chars, 0, "ok") {
        read_after_ok(line, &chars, 2, false)
    } else if word_at(&chars, 0, "not ok") {
        read_after_ok(line, &chars, 6, true)
    } else {
        LineKind::Unrecognized
    }
}

} // verus!
