//! What holds of every line and of every state of a harness.

use vstd::prelude::*;
use crate::decimal::{all_digits, decimal_value};
use crate::line::{
    after_space, classify_line, diagnostic_message, lemma_run_end, lemma_run_end_is,
    lemma_run_stops, name_end, name_start, plan_count, plan_digits, run_end, test_fields, CharClass,
    LineKindView,
};
use crate::tap::{next_state, outcome, summary_text, verdict, HarnessState, TapHarness, TestState};
use crate::text::stands_at;

verus! {

/// The text of the plan line `a..n`.
pub open spec fn plan_text(a: Seq<char>, n: Seq<char>) -> Seq<char> {
    a + ".."@ + n
}

/// A line fits at most one of the three shapes.
pub proof fn lemma_shapes_exclude(line: Seq<char>)
    ensures
        plan_digits(line) is Some ==> diagnostic_message(line) is None && test_fields(line) is None,
        diagnostic_message(line) is Some ==> test_fields(line) is None,
{
    reveal_strlit("# ");
    reveal_strlit("ok");
    reveal_strlit("not ok");
    if stands_at(line, 0, "# "@) {
        assert(line.subrange(0, 2)[0] == '#');
    }
    if stands_at(line, 0, "ok"@) {
        assert(line.subrange(0, 2)[0] == 'o');
    }
    if stands_at(line, 0, "not ok"@) {
        assert(line.subrange(0, 6)[0] == 'n');
    }
}

/// The kind of a line is the one shape that it fits, and a line that fits
/// none, or declares a count that no `u64` holds, is unrecognized.
pub proof fn lemma_kind_by_shape(line: Seq<char>)
    ensures
        classify_line(line) is Plan <==> plan_count(line) is Some,
        classify_line(line) is Diagnostic <==> diagnostic_message(line) is Some,
        classify_line(line) is Test <==> test_fields(line) is Some,
        classify_line(line) is Unrecognized <==> plan_count(line) is None && diagnostic_message(
            line,
        ) is None && test_fields(line) is None,
{
    lemma_shapes_exclude(line);
}

/// Every line `a..n` of two numbers declares the count `n`, whatever `a` is,
/// as long as a `u64` holds `n`.
pub proof fn lemma_plan_line_declares(a: Seq<char>, n: Seq<char>)
    requires
        a.len() > 0,
        n.len() > 0,
        all_digits(a),
        all_digits(n),
        decimal_value(n) <= u64::MAX,
    ensures
        plan_digits(plan_text(a, n)) == Some(n),
        classify_line(plan_text(a, n)) == (LineKindView::Plan { planned_count: decimal_value(n) }),
{
    reveal_strlit("..");
    let line = plan_text(a, n);
    let dots = a.len() as int;
    lemma_run_end_is(line, 0, CharClass::Digit, dots);
    assert(line.subrange(dots, dots + 2) =~= ".."@);
    lemma_run_end_is(line, dots + 2, CharClass::Digit, line.len() as int);
}

/// Only lines `a..n` of two numbers are plan lines.
pub proof fn lemma_plan_line_shape(line: Seq<char>)
    requires
        plan_digits(line) is Some,
    ensures
        exists|a: Seq<char>|
            a.len() > 0 && all_digits(a) && all_digits(plan_digits(line)->0) && plan_digits(
                line,
            )->0.len() > 0 && line == #[trigger] plan_text(a, plan_digits(line)->0),
{
    reveal_strlit("..");
    let dots = run_end(line, 0, CharClass::Digit);
    let a = line.subrange(0, dots);
    let n = plan_digits(line)->0;
    lemma_run_end(line, 0, CharClass::Digit);
    lemma_run_end(line, dots + 2, CharClass::Digit);
    assert(all_digits(a));
    assert(all_digits(n));
    assert(line =~= plan_text(a, n));
}

/// Every line `# m` is a diagnostic line with the message `m`, spaces at its
/// start included, as long as `m` holds no line feed.
pub proof fn lemma_diagnostic_line_keeps(message: Seq<char>)
    requires
        !message.contains('\n'),
    ensures
        classify_line("# "@ + message) == (LineKindView::Diagnostic { message }),
{
    reveal_strlit("# ");
    let line = "# "@ + message;
    assert(line.subrange(0, 2) =~= "# "@);
    assert(run_end(line, 0, CharClass::Digit) == 0);
    assert forall|i: int| 2 <= i < line.len() implies CharClass::NotNewline.has(
        #[trigger] line[i],
    ) by {
        assert(message.contains(message[i - 2]));
    }
    lemma_run_end_is(line, 2, CharClass::NotNewline, line.len() as int);
    assert(line.subrange(2, line.len() as int) =~= message);
}

/// The name of a test line does not begin behind the first `#` that follows
/// `ok`.
pub proof fn lemma_name_starts_before_hash(s: Seq<char>, after_ok: int, hash: int)
    requires
        0 <= after_ok <= hash < s.len(),
        s[hash] == '#',
    ensures
        after_ok <= name_start(s, after_ok) <= hash,
{
    let number = after_space(s, after_ok);
    lemma_run_stops(s, number, CharClass::Digit, hash);
    lemma_run_end(s, number, CharClass::Digit);
}

/// A test line without `#` has no directive: what counts is its prefix
/// alone.
pub proof fn lemma_no_hash_no_directive(line: Seq<char>)
    requires
        test_fields(line) is Some,
        !line.contains('#'),
    ensures
        test_fields(line)->0.directive is None,
        classify_line(line) is Test,
{
    reveal_strlit("# ");
    reveal_strlit("ok");
    reveal_strlit("not ok");
    lemma_shapes_exclude(line);
    let after_ok: int = if stands_at(line, 0, "ok"@) {
        2
    } else {
        6
    };
    let number = after_space(line, after_ok);
    lemma_run_end(line, number, CharClass::Digit);
    let end = name_end(line, after_ok);
    lemma_run_end(line, name_start(line, after_ok), CharClass::NotHash);
    if stands_at(line, end, "# "@) {
        assert(line.subrange(end, end + 2)[0] == '#');
        assert(line.contains(line[end]));
    }
}

/// In a test line whose first `#` stands at `hash` with a space behind it,
/// the directive is the longest word behind that space.
pub proof fn lemma_directive_at(line: Seq<char>, hash: int, word_end: int)
    requires
        test_fields(line) is Some,
        forall|i: int| 0 <= i < hash ==> #[trigger] line[i] != '#',
        stands_at(line, hash, "# "@),
        hash + 2 < word_end <= line.len(),
        forall|i: int| hash + 2 <= i < word_end ==> CharClass::Word.has(#[trigger] line[i]),
        word_end < line.len() ==> !CharClass::Word.has(line[word_end]),
    ensures
        test_fields(line)->0.directive == Some(line.subrange(hash + 2, word_end)),
{
    reveal_strlit("# ");
    reveal_strlit("ok");
    reveal_strlit("not ok");
    let after_ok: int = if stands_at(line, 0, "ok"@) {
        2
    } else {
        6
    };
    assert(line[hash] == '#') by {
        assert(line.subrange(hash, hash + 2)[0] == '#');
    }
    assert(after_ok <= hash) by {
        if stands_at(line, 0, "ok"@) {
            assert(line.subrange(0, 2)[0] == 'o' && line.subrange(0, 2)[1] == 'k');
        } else {
            let start = line.subrange(0, 6);
            assert(start[0] == 'n' && start[1] == 'o' && start[2] == 't' && start[3] == ' '
                && start[4] == 'o' && start[5] == 'k');
        }
    }
    lemma_name_starts_before_hash(line, after_ok, hash);
    lemma_run_end_is(line, name_start(line, after_ok), CharClass::NotHash, hash);
    lemma_run_end_is(line, hash + 2, CharClass::Word, word_end);
}

/// Where the parts of `head# word tail` stand in it.
proof fn lemma_parts_of_line(head: Seq<char>, word: Seq<char>, tail: Seq<char>)
    ensures
        head.is_prefix_of(head + "# "@ + word + tail),
        stands_at(head + "# "@ + word + tail, head.len() as int, "# "@),
        (head + "# "@ + word + tail).subrange(
            head.len() as int + 2,
            head.len() as int + 2 + word.len(),
        ) == word,
        tail.len() > 0 ==> (head + "# "@ + word + tail)[head.len() as int + 2 + word.len()]
            == tail[0],
        (head + "# "@ + word + tail).len() == head.len() + 2 + word.len() + tail.len(),
{
    reveal_strlit("# ");
    let line = head + "# "@ + word + tail;
    let hash = head.len() as int;
    assert(line.subrange(0, hash) =~= head);
    assert(line.subrange(hash, hash + 2) =~= "# "@);
    assert(line.subrange(hash + 2, hash + 2 + word.len()) =~= word);
}

/// A test line `head# word tail`, where `head` begins with `ok` or `not ok`
/// and holds no `#`, `word` is a word, and `tail` does not go on with it,
/// has the directive `word`.
pub proof fn lemma_directive_follows_name(head: Seq<char>, word: Seq<char>, tail: Seq<char>)
    requires
        test_fields(head) is Some,
        !head.contains('#'),
        word.len() > 0,
        forall|i: int| 0 <= i < word.len() ==> CharClass::Word.has(#[trigger] word[i]),
        tail.len() > 0 ==> !CharClass::Word.has(tail[0]),
    ensures
        test_fields(head + "# "@ + word + tail) is Some,
        test_fields(head + "# "@ + word + tail)->0.failed_prefix == test_fields(
            head,
        )->0.failed_prefix,
        test_fields(head + "# "@ + word + tail)->0.directive == Some(word),
{
    let line = head + "# "@ + word + tail;
    let hash = head.len() as int;
    let word_end = hash + 2 + word.len();
    lemma_parts_of_line(head, word, tail);
    lemma_begins_alike(head, line);
    assert forall|i: int| 0 <= i < hash implies #[trigger] line[i] != '#' by {
        assert(line[i] == line.subrange(0, hash)[i]);
        assert(head.contains(head[i]));
    }
    assert forall|i: int| hash + 2 <= i < word_end implies CharClass::Word.has(
        #[trigger] line[i],
    ) by {
        assert(line[i] == line.subrange(hash + 2, word_end)[i - hash - 2]);
    }
    lemma_directive_at(line, hash, word_end);
}

/// A text that begins with a test line is a test line, with the same
/// prefix.
pub proof fn lemma_begins_alike(head: Seq<char>, line: Seq<char>)
    requires
        test_fields(head) is Some,
        head.is_prefix_of(line),
    ensures
        test_fields(line) is Some,
        test_fields(line)->0.failed_prefix == test_fields(head)->0.failed_prefix,
{
    reveal_strlit("ok");
    reveal_strlit("not ok");
    if stands_at(head, 0, "ok"@) {
        assert(line.subrange(0, 2) =~= head.subrange(0, 2));
    } else {
        assert(line.subrange(0, 6) =~= head.subrange(0, 6));
        if stands_at(line, 0, "ok"@) {
            assert(line.subrange(0, 2)[0] == 'o');
            assert(head.subrange(0, 6)[0] == 'n');
        }
    }
}

/// After a plan line the planned count is the count that the line declares,
/// whatever was planned before, and nothing else has changed.
pub proof fn lemma_plan_overwrites(s: HarnessState, a: Seq<char>, n: Seq<char>)
    requires
        a.len() > 0,
        n.len() > 0,
        all_digits(a),
        all_digits(n),
        decimal_value(n) <= u64::MAX,
    ensures
        next_state(s, classify_line(plan_text(a, n))) == (HarnessState {
            total_tests: decimal_value(n),
            ..s
        }),
        outcome(s, classify_line(plan_text(a, n))) is None,
{
    lemma_plan_line_declares(a, n);
}

/// A test line counts as one test, and as one failed, skipped or incomplete
/// test at most: which, its directive and its prefix decide.
pub proof fn lemma_test_line_counts(s: HarnessState, line: Seq<char>)
    requires
        test_fields(line) is Some,
    ensures
        classify_line(line) is Test,
        outcome(s, classify_line(line)) is Some,
        outcome(s, classify_line(line))->0.state == verdict(
            test_fields(line)->0.failed_prefix,
            test_fields(line)->0.directive,
        ),
        next_state(s, classify_line(line)).test_count == s.test_count + 1,
        next_state(s, classify_line(line)).total_tests == s.total_tests,
        next_state(s, classify_line(line)).failed_tests + next_state(
            s,
            classify_line(line),
        ).skipped_tests + next_state(s, classify_line(line)).incomplete_tests <= s.failed_tests
            + s.skipped_tests + s.incomplete_tests + 1,
{
    lemma_shapes_exclude(line);
}

/// A test line with the prefix `not ` and no directive fails: the failed
/// tests grow by one, the skipped and the incomplete ones stay, and the
/// result says `Failed`.
pub proof fn lemma_not_ok_fails(s: HarnessState, line: Seq<char>)
    requires
        test_fields(line) is Some,
        test_fields(line)->0.failed_prefix,
        test_fields(line)->0.directive is None,
    ensures
        outcome(s, classify_line(line)) is Some,
        outcome(s, classify_line(line))->0.state == TestState::Failed,
        next_state(s, classify_line(line)).failed_tests == s.failed_tests + 1,
        next_state(s, classify_line(line)).skipped_tests == s.skipped_tests,
        next_state(s, classify_line(line)).incomplete_tests == s.incomplete_tests,
{
    lemma_shapes_exclude(line);
}

/// A test line with the directive `SKIP` is skipped, with or without the
/// prefix `not `: the skipped tests grow by one, the failed and the
/// incomplete ones stay, and the result says `Skipped`.
pub proof fn lemma_skip_is_skipped(s: HarnessState, line: Seq<char>)
    requires
        test_fields(line) is Some,
        test_fields(line)->0.directive == Some("SKIP"@),
    ensures
        outcome(s, classify_line(line)) is Some,
        outcome(s, classify_line(line))->0.state == TestState::Skipped,
        next_state(s, classify_line(line)).skipped_tests == s.skipped_tests + 1,
        next_state(s, classify_line(line)).failed_tests == s.failed_tests,
        next_state(s, classify_line(line)).incomplete_tests == s.incomplete_tests,
{
    lemma_shapes_exclude(line);
}

/// A test line with the directive `TODO` is incomplete, with or without the
/// prefix `not `: the incomplete tests grow by one, the failed and the
/// skipped ones stay, and the result says `Incomplete`.
pub proof fn lemma_todo_is_incomplete(s: HarnessState, line: Seq<char>)
    requires
        test_fields(line) is Some,
        test_fields(line)->0.directive == Some("TODO"@),
    ensures
        outcome(s, classify_line(line)) is Some,
        outcome(s, classify_line(line))->0.state == TestState::Incomplete,
        next_state(s, classify_line(line)).incomplete_tests == s.incomplete_tests + 1,
        next_state(s, classify_line(line)).failed_tests == s.failed_tests,
        next_state(s, classify_line(line)).skipped_tests == s.skipped_tests,
{
    lemma_shapes_exclude(line);
    reveal_strlit("SKIP");
    reveal_strlit("TODO");
    assert("TODO"@[0] != "SKIP"@[0]);
}

/// Two summaries of one harness, with no line read between them, are the
/// same text: a summary is made of the state alone.
pub proof fn lemma_summary_repeats(harness: TapHarness, first: String, second: String)
    requires
        first@ == summary_text(harness@),
        second@ == summary_text(harness@),
    ensures
        first@ == second@,
{
}

/// A result carries diagnostics exactly when it says `Failed`, and then
/// all that were waiting, in their order. After a test line none is waiting,
/// whatever the result.
pub proof fn lemma_diagnostics_go_to_failures(s: HarnessState, line: LineKindView)
    requires
        line is Test,
    ensures
        outcome(s, line) is Some,
        outcome(s, line)->0.state == TestState::Failed ==> outcome(s, line)->0.diagnostics == Some(
            s.diagnostics,
        ),
        outcome(s, line)->0.state != TestState::Failed ==> outcome(s, line)->0.diagnostics is None,
        next_state(s, line).diagnostics == Seq::<Seq<char>>::empty(),
{
}

/// The state after the lines `lines` were read one after the other, the
/// first one in state `s`.
pub open spec fn read_all(s: HarnessState, lines: Seq<LineKindView>) -> HarnessState
    decreases lines.len(),
{
    if lines.len() == 0 {
        s
    } else {
        next_state(read_all(s, lines.drop_last()), lines.last())
    }
}

/// The messages of the diagnostic lines among `lines`, in their order.
pub open spec fn messages(lines: Seq<LineKindView>) -> Seq<Seq<char>>
    decreases lines.len(),
{
    if lines.len() == 0 {
        Seq::empty()
    } else {
        match lines.last() {
            LineKindView::Diagnostic { message } => messages(lines.drop_last()).push(message),
            _ => messages(lines.drop_last()),
        }
    }
}

/// While no test line is read the counters of tests stand still, and the
/// messages of the diagnostic lines line up behind those that waited.
pub proof fn lemma_diagnostics_wait(s: HarnessState, lines: Seq<LineKindView>)
    requires
        forall|i: int| 0 <= i < lines.len() ==> !(#[trigger] lines[i] is Test),
    ensures
        read_all(s, lines).diagnostics == s.diagnostics + messages(lines),
        read_all(s, lines).test_count == s.test_count,
        read_all(s, lines).failed_tests == s.failed_tests,
        read_all(s, lines).skipped_tests == s.skipped_tests,
        read_all(s, lines).incomplete_tests == s.incomplete_tests,
    decreases lines.len(),
{
    if lines.len() > 0 {
        lemma_diagnostics_wait(s, lines.drop_last());
    }
}

/// A failed test carries the messages of the diagnostic lines read since
/// the test line before it, and nothing older: no diagnostic reaches two
/// results.
pub proof fn lemma_diagnostics_do_not_leak(
    s: HarnessState,
    earlier: LineKindView,
    between: Seq<LineKindView>,
    later: LineKindView,
)
    requires
        earlier is Test,
        forall|i: int| 0 <= i < between.len() ==> !(#[trigger] between[i] is Test),
        later is Test,
    ensures
        outcome(read_all(next_state(s, earlier), between), later) is Some,
        outcome(read_all(next_state(s, earlier), between), later)->0.diagnostics == if outcome(
            read_all(next_state(s, earlier), between),
            later,
        )->0.state == TestState::Failed {
            Some(messages(between))
        } else {
            None
        },
{
    lemma_diagnostics_wait(next_state(s, earlier), between);
}

/// A line that fits none of the three shapes changes nothing and hands out
/// nothing: what waits for the next test is what waited before.
pub proof fn lemma_unrecognized_is_ignored(s: HarnessState, line: Seq<char>)
    requires
        plan_count(line) is None,
        diagnostic_message(line) is None,
        test_fields(line) is None,
    ensures
        next_state(s, classify_line(line)) == s,
        outcome(s, classify_line(line)) is None,
{
}

/// Whatever the line, the tally stays consistent and no counter goes down.
/// Only a test line is counted as a test.
pub proof fn lemma_counters_grow(s: HarnessState, line: LineKindView)
    requires
        s.consistent(),
    ensures
        next_state(s, line).consistent(),
        next_state(s, line).test_count == if line is Test {
            s.test_count + 1
        } else {
            s.test_count
        },
        next_state(s, line).failed_tests >= s.failed_tests,
        next_state(s, line).skipped_tests >= s.skipped_tests,
        next_state(s, line).incomplete_tests >= s.incomplete_tests,
{
}

} // verus!
