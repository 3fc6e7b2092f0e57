//! The text that a test run puts on the diagnostic channel.
//!
//! One summary line opens the run. Each case is announced by its name and a
//! delimiter, without a line terminator, so that what became of the case is
//! appended to the same line.

use vstd::prelude::*;
use vstd::string::StringExecFns;

verus! {

/// The text of one decimal digit; empty for any other number.
pub open spec fn digit(d: nat) -> Seq<char> {
    if d == 0 {
        "0"@
    } else if d == 1 {
        "1"@
    } else if d == 2 {
        "2"@
    } else if d == 3 {
        "3"@
    } else if d == 4 {
        "4"@
    } else if d == 5 {
        "5"@
    } else if d == 6 {
        "6"@
    } else if d == 7 {
        "7"@
    } else if d == 8 {
        "8"@
    } else if d == 9 {
        "9"@
    } else {
        Seq::empty()
    }
}

/// A number in decimal, most significant digit first, without leading zeros.
pub open spec fn decimal(n: nat) -> Seq<char>
    decreases n,
{
    if n < 10 {
        digit(n)
    } else {
        decimal(n / 10) + digit(n % 10)
    }
}

/// The line that opens a run of `count` cases.
pub open spec fn summary_line(count: nat) -> Seq<char> {
    "Running "@ + decimal(count) + " tests\n"@
}

/// What is written before a case runs: its name and the delimiter.
pub open spec fn announcement(name: Seq<char>) -> Seq<char> {
    name + "...\t"@
}

/// What is appended after a case has returned normally.
pub open spec fn ok_marker() -> Seq<char> {
    "[ok]\n"@
}

/// What is appended after an unrecovered fault: the failure marker, an empty
/// line, the fault's description, and another empty line.
pub open spec fn failure_report(diagnostic: Seq<char>) -> Seq<char> {
    "[failed]\n\n"@ + "Error: "@ + diagnostic + "\n\n"@
}

/// The whole line of a case that passed.
pub open spec fn passed_line(name: Seq<char>) -> Seq<char> {
    announcement(name) + ok_marker()
}

/// The lines of the first `count` cases, all of which passed: one line for
/// each case, in the order in which the cases were declared.
pub open spec fn passed_lines(names: Seq<Seq<char>>, count: nat) -> Seq<char> {
    Seq::new(count, |i: int| passed_line(names[i])).flatten()
}

/// Everything that a run has written once it is over.
///
/// `passed` cases returned normally, one after the other. If `fault` holds a
/// description, the case after them raised that fault and ended the run;
/// otherwise the run went through all of `names`.
pub open spec fn transcript(names: Seq<Seq<char>>, passed: nat, fault: Option<Seq<char>>) -> Seq<
    char,
> {
    summary_line(names.len()) + passed_lines(names, passed) + match fault {
        Some(diagnostic) => announcement(names[passed as int]) + failure_report(diagnostic),
        None => Seq::empty(),
    }
}

/// With one more case passed, its line is added at the end; with none there
/// are no lines.
pub proof fn passed_lines_grow(names: Seq<Seq<char>>, count: nat)
    ensures
        passed_lines(names, 0) == Seq::<char>::empty(),
        passed_lines(names, count + 1) == passed_lines(names, count) + passed_line(
            names[count as int],
        ),
{
    let line = |i: int| passed_line(names[i]);
    assert(Seq::new(0, line) =~= Seq::<Seq<char>>::empty());
    assert(Seq::new(count + 1, line) =~= Seq::new(count, line).push(line(count as int)));
    Seq::new(count, line).lemma_flatten_push(line(count as int));
}

fn digit_text(d: usize) -> (text: &'static str)
    requires
        d < 10,
    ensures
        text@ == digit(d as nat),
{
    if d == 0 {
        "0"
    } else if d == 1 {
        "1"
    } else if d == 2 {
        "2"
    } else if d == 3 {
        "3"
    } else if d == 4 {
        "4"
    } else if d == 5 {
        "5"
    } else if d == 6 {
        "6"
    } else if d == 7 {
        "7"
    } else if d == 8 {
        "8"
    } else {
        "9"
    }
}

/// Writes a number in decimal.
pub fn decimal_text(n: usize) -> (text: String)
    ensures
        text@ == decimal(n as nat),
    decreases n,
{
    if n < 10 {
        String::from_str(digit_text(n))
    } else {
        let mut text = decimal_text(n / 10);
        text.append(digit_text(n % 10));
        text
    }
}

/// Writes the line that opens a run of `count` cases.
pub fn summary_text(count: usize) -> (text: String)
    ensures
        text@ == summary_line(count as nat),
{
    let mut text = String::from_str("Running ");
    let number = decimal_text(count);
    text.append(number.as_str());
    text.append(" tests\n");
    text
}

/// Writes the announcement of a case.
pub fn announcement_text(name: &str) -> (text: String)
    ensures
        text@ == announcement(name@),
{
    let mut text = String::from_str(name);
    text.append("...\t");
    text
}

/// Writes the marker of a case that passed.
pub fn ok_text() -> (text: String)
    ensures
        text@ == ok_marker(),
{
    String::from_str("[ok]\n")
}

/// Writes the report of an unrecovered fault.
pub fn failure_text(diagnostic: &str) -> (text: String)
    ensures
        text@ == failure_report(diagnostic@),
{
    let mut text = String::from_str("[failed]\n\n");
    text.append("Error: ");
    text.append(diagnostic);
    text.append("\n\n");
    text
}

} // verus!
