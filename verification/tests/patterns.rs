use regex::Regex;
use tap_parser::line::{classify, LineKind};

const PLAN: &str = r"^\d+\.\.(?P<plan>\d+)$";
const DIAGNOSTIC: &str = r"^# (?P<msg>.*)";
const TEST: &str =
    r"^(?P<failed>not )?ok ?(?P<test_number>\d*)? ?(?P<test_name>[^#]+)?(# )?(?P<directive>\w+)?";

struct Patterns {
    plan: Regex,
    diagnostic: Regex,
    test: Regex,
}

impl Patterns {
    fn new() -> Patterns {
        Patterns {
            plan: Regex::new(PLAN).unwrap(),
            diagnostic: Regex::new(DIAGNOSTIC).unwrap(),
            test: Regex::new(TEST).unwrap(),
        }
    }

    // What the three patterns make of a line, tried in the order plan,
    // diagnostic, test.
    fn classify(&self, line: &str) -> LineKind {
        if let Some(found) = self.plan.captures(line) {
            if let Ok(planned_count) = found["plan"].parse::<u64>() {
                return LineKind::Plan { planned_count };
            }
            return LineKind::Unrecognized;
        }
        if let Some(found) = self.diagnostic.captures(line) {
            return LineKind::Diagnostic {
                message: found["msg"].to_string(),
            };
        }
        if let Some(found) = self.test.captures(line) {
            return LineKind::Test {
                failed_prefix: found.name("failed").is_some(),
                name: found.name("test_name").map(|m| m.as_str().to_string()),
                directive: found.name("directive").map(|m| m.as_str().to_string()),
            };
        }
        LineKind::Unrecognized
    }
}

// Every text of at most `longest` characters of `alphabet`, each after each
// of `starts`.
fn texts(starts: &[&str], alphabet: &[char], longest: usize) -> Vec<String> {
    let mut all: Vec<String> = Vec::new();
    for start in starts {
        let mut layer: Vec<String> = vec![start.to_string()];
        all.push(start.to_string());
        for _ in 0..longest {
            let mut next: Vec<String> = Vec::new();
            for text in &layer {
                for c in alphabet {
                    let mut longer = text.clone();
                    longer.push(*c);
                    next.push(longer);
                }
            }
            all.extend(next.iter().cloned());
            layer = next;
        }
    }
    all
}

fn agree_on(lines: &[String]) {
    let patterns = Patterns::new();
    for line in lines {
        assert_eq!(classify(line), patterns.classify(line), "{:?}", line);
    }
}

#[test]
fn scanner_agrees_with_patterns_on_plan_like_lines() {
    agree_on(&texts(&["", "1..", "12..3"], &['1', '0', '.', ' ', 'a'], 5));
}

#[test]
fn scanner_agrees_with_patterns_on_diagnostic_like_lines() {
    agree_on(&texts(&["", "#", "# "], &['#', ' ', 'a', '1', '\n', '.'], 4));
}

#[test]
fn scanner_agrees_with_patterns_on_test_like_lines() {
    agree_on(&texts(
        &["", "ok", "not ok", "not ", "no", "ok 1", "not ok 12 "],
        &[' ', '1', 'a', '#', 'S', '_', '\n', 'k'],
        4,
    ));
}

#[test]
fn scanner_agrees_with_patterns_on_directives() {
    agree_on(&texts(
        &["ok #", "ok # ", "ok name # ", "not ok 1 - name # SKI", "ok # TOD"],
        &['P', 'O', 'S', ' ', '#', '_', '1', '-', '\n'],
        4,
    ));
}

#[test]
fn scanner_agrees_with_patterns_on_whole_lines() {
    let lines: Vec<String> = [
        "1..14",
        "1..0",
        "# Failed test 'broken'",
        "#   at t/test.t line 12",
        "ok",
        "not ok",
        "ok # skip",
        "not ok # skip",
        "ok 1",
        "ok 1 # skip",
        "not ok 1 # skip",
        "not ok 1 this is a test name",
        "ok 1 this is a skipped test # SKIP no db available",
        "ok this is a skipped test # TODO not finished",
        "ok test name # skip",
        "not ok 3 - Test something broken # SKIP no bar",
        "ok 2 - Test another thing # TODO finish this test",
        "this is a line that should be ignored",
        "Bail out! no more",
        "TAP version 13",
        "    ---",
        "",
    ]
    .iter()
    .map(|line| line.to_string())
    .collect();
    agree_on(&lines);
}
