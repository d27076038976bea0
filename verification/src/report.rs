//! What is printed when an operation has ended.

use crate::operation::Operation;
use crate::text::{debug_text, decimal, decimal_text, optional_debug};
use vstd::prelude::*;
use vstd::string::*;

verus! {

/// How an operation ended, as the driver saw it.
pub enum Outcome {
    /// The service carried the operation out. `names` holds the names that a
    /// listing returned, in the order in which they came, and stays empty
    /// for an operation that lists nothing. An entry may lack its name.
    Succeeded { names: Vec<Option<String>> },
    /// The operation failed; `detail` describes the error.
    Failed { detail: String },
}

/// The mathematical content of an [`Outcome`].
pub enum OutcomeView {
    Succeeded { names: Seq<Option<Seq<char>>> },
    Failed { detail: Seq<char> },
}

impl View for Outcome {
    type V = OutcomeView;

    open spec fn view(&self) -> OutcomeView {
        match self {
            Outcome::Succeeded { names } => OutcomeView::Succeeded { names: names.deep_view() },
            Outcome::Failed { detail } => OutcomeView::Failed { detail: detail@ },
        }
    }
}

impl Outcome {
    pub fn succeeded(&self) -> (yes: bool)
        ensures
            yes == (self@ is Succeeded),
    {
        match self {
            Outcome::Succeeded { .. } => true,
            Outcome::Failed { .. } => false,
        }
    }
}

/// The words that introduce the error of a failed operation.
pub open spec fn failure_label(op: Operation) -> Seq<char> {
    match op {
        Operation::CreateBucket => "Error creating bucket: "@,
        Operation::DeleteBucket => "Error deleting bucket: "@,
        Operation::ListBuckets => "Error listing buckets: "@,
        Operation::ListObjects => "Error listing objects: "@,
    }
}

/// The first line printed for an operation that succeeded; for a listing,
/// `count` is the number of entries that it returned.
pub open spec fn headline(op: Operation, count: nat) -> Seq<char> {
    match op {
        Operation::CreateBucket => "Bucket created successfully"@,
        Operation::DeleteBucket => "Bucket deleted successfully"@,
        Operation::ListBuckets => "Total buckets number is "@ + decimal(count),
        Operation::ListObjects => "Total objects number is "@ + decimal(count),
    }
}

/// The words that introduce one entry of a listing; `None` for an operation
/// that lists nothing.
pub open spec fn entry_label(op: Operation) -> Option<Seq<char>> {
    match op {
        Operation::CreateBucket => None,
        Operation::DeleteBucket => None,
        Operation::ListBuckets => Some("Bucket: "@),
        Operation::ListObjects => Some("Object: "@),
    }
}

/// The lines printed for an operation that succeeded: the headline, and for
/// a listing one line for each entry, in the order of the entries.
pub open spec fn success_lines(op: Operation, names: Seq<Option<Seq<char>>>) -> Seq<Seq<char>> {
    match entry_label(op) {
        None => seq![headline(op, names.len())],
        Some(label) => seq![headline(op, names.len())] + Seq::new(
            names.len(),
            |i: int| label + optional_debug(names[i]),
        ),
    }
}

/// The lines printed for an operation that ended with `outcome`.
pub open spec fn report(op: Operation, outcome: OutcomeView) -> Seq<Seq<char>> {
    match outcome {
        OutcomeView::Succeeded { names } => success_lines(op, names),
        OutcomeView::Failed { detail } => seq![failure_label(op) + detail],
    }
}

/// The line that reports the failure of `op`.
pub fn failure_line(op: Operation, detail: &str) -> (line: String)
    ensures
        line@ == failure_label(op) + detail@,
{
    let label = match op {
        Operation::CreateBucket => "Error creating bucket: ",
        Operation::DeleteBucket => "Error deleting bucket: ",
        Operation::ListBuckets => "Error listing buckets: ",
        Operation::ListObjects => "Error listing objects: ",
    };
    let mut line = String::from_str(label);
    line.append(detail);
    line
}

/// The first line for the success of `op`.
pub fn headline_line(op: Operation, count: usize) -> (line: String)
    ensures
        line@ == headline(op, count as nat),
{
    match op {
        Operation::CreateBucket => String::from_str("Bucket created successfully"),
        Operation::DeleteBucket => String::from_str("Bucket deleted successfully"),
        Operation::ListBuckets => {
            let mut line = String::from_str("Total buckets number is ");
            line.append(decimal_text(count).as_str());
            line
        },
        Operation::ListObjects => {
            let mut line = String::from_str("Total objects number is ");
            line.append(decimal_text(count).as_str());
            line
        },
    }
}

fn entry_label_text(op: Operation) -> (label: Option<&'static str>)
    ensures
        label.deep_view() == entry_label(op),
{
    match op {
        Operation::CreateBucket => None,
        Operation::DeleteBucket => None,
        Operation::ListBuckets => Some("Bucket: "),
        Operation::ListObjects => Some("Object: "),
    }
}

/// The lines to print for `op`, which ended with `outcome`.
pub fn report_lines(op: Operation, outcome: &Outcome) -> (lines: Vec<String>)
    ensures
        lines.deep_view() == report(op, outcome@),
{
    let mut lines: Vec<String> = Vec::new();
    match outcome {
        Outcome::Failed { detail } => {
            lines.push(failure_line(op, detail.as_str()));
            assert(lines.deep_view() =~= report(op, outcome@));
        },
        Outcome::Succeeded { names } => {
            lines.push(headline_line(op, names.len()));
            match entry_label_text(op) {
                None => {
                    assert(lines.deep_view() =~= report(op, outcome@));
                },
                Some(label) => {
                    let ghost expected = report(op, outcome@);
                    let mut at: usize = 0;
                    assert(lines.deep_view() =~= expected.take(1));
                    while at < names.len()
                        invariant
                            at <= names.len(),
                            expected.len() == names.len() + 1,
                            lines.deep_view() == expected.take(at + 1),
                            forall|i: int|
                                0 <= i < names.len() ==> #[trigger] expected[i + 1] == label@
                                    + optional_debug(names.deep_view()[i]),
                        decreases names.len() - at,
                    {
                        let ghost before = lines.deep_view();
                        let mut line = String::from_str(label);
                        line.append(debug_text(&names[at]).as_str());
                        assert(line@ == expected[at + 1]);
                        lines.push(line);
                        at = at + 1;
                        assert(lines.deep_view() =~= before.push(expected[at as int]));
                    }
                    assert(expected.take(at + 1) =~= expected);
                },
            }
        },
    }
    lines
}

} // verus!
