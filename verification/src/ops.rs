//! The operations by name: the fixed list, lookup, and one request from
//! command line and raw input to what is printed and the exit status.
//!
//! Of the ways a request can go wrong only a missing operation name is
//! fatal (status 1). An unknown name and a failed operation are reported on
//! the error stream and the status stays 0.

use vstd::prelude::*;
use vstd::string::StringExecFns;
use crate::error::{Failure, OpError, message_of, outcome};
use crate::slugs::{slug_of, slugified, slugify};
use crate::table::{csv_operation, csv_result};
use crate::text::{
    chars_of, lowercase, lowercase_of, novowels, reverse, trim, trimmed, trimspaces, uppercase,
    uppercase_of, without_spaces, without_vowels,
};

verus! {

/// The exit status after a request without an operation name.
pub const USAGE_STATUS: i32 = 1;

/// The exit status after every other request.
pub const NORMAL_STATUS: i32 = 0;

/// One of the seven operations.
#[derive(Clone, Copy, Debug, PartialEq, Eq, Structural)]
pub enum Operation {
    Lowercase,
    Uppercase,
    TrimSpaces,
    Slugify,
    Reverse,
    NoVowels,
    Csv,
}

/// The operations, in the order in which they are listed to the user.
pub open spec fn registry() -> Seq<Operation> {
    seq![
        Operation::Lowercase,
        Operation::Uppercase,
        Operation::TrimSpaces,
        Operation::Slugify,
        Operation::Reverse,
        Operation::NoVowels,
        Operation::Csv,
    ]
}

impl Operation {
    /// The name by which the operation is requested.
    pub open spec fn name_of(self) -> Seq<char> {
        match self {
            Operation::Lowercase => "lowercase"@,
            Operation::Uppercase => "uppercase"@,
            Operation::TrimSpaces => "trimspaces"@,
            Operation::Slugify => "slugify"@,
            Operation::Reverse => "reverse"@,
            Operation::NoVowels => "novowels"@,
            Operation::Csv => "csv"@,
        }
    }

    /// What the operation gives for the text `input`.
    pub open spec fn result_of(self, input: Seq<char>) -> Result<Seq<char>, Failure> {
        match self {
            Operation::Lowercase => Ok(lowercase_of(input)),
            Operation::Uppercase => Ok(uppercase_of(input)),
            Operation::TrimSpaces => Ok(without_spaces(input)),
            Operation::Slugify => Ok(slug_of(input)),
            Operation::Reverse => Ok(input.reverse()),
            Operation::NoVowels => Ok(without_vowels(input)),
            Operation::Csv => csv_result(input),
        }
    }

    /// The name by which the operation is requested.
    pub fn name(&self) -> (s: &'static str)
        ensures
            s@ == self.name_of(),
    {
        match self {
            Operation::Lowercase => "lowercase",
            Operation::Uppercase => "uppercase",
            Operation::TrimSpaces => "trimspaces",
            Operation::Slugify => "slugify",
            Operation::Reverse => "reverse",
            Operation::NoVowels => "novowels",
            Operation::Csv => "csv",
        }
    }

    /// Applies the operation to `input`.
    pub fn apply(&self, input: &str) -> (r: Result<String, OpError>)
        ensures
            outcome(r) == self.result_of(input@),
            *self != Operation::Csv ==> r is Ok,
            *self == Operation::Slugify ==> r is Ok && slugified(input@, r->Ok_0@),
    {
        match self {
            Operation::Lowercase => lowercase(input),
            Operation::Uppercase => uppercase(input),
            Operation::TrimSpaces => trimspaces(input),
            Operation::Slugify => slugify(input),
            Operation::Reverse => reverse(input),
            Operation::NoVowels => novowels(input),
            Operation::Csv => csv_operation(input),
        }
    }
}

/// The operation that `name` asks for, if it is the name of one.
pub open spec fn find(name: Seq<char>) -> Option<Operation> {
    if name == "lowercase"@ {
        Some(Operation::Lowercase)
    } else if name == "uppercase"@ {
        Some(Operation::Uppercase)
    } else if name == "trimspaces"@ {
        Some(Operation::TrimSpaces)
    } else if name == "slugify"@ {
        Some(Operation::Slugify)
    } else if name == "reverse"@ {
        Some(Operation::Reverse)
    } else if name == "novowels"@ {
        Some(Operation::NoVowels)
    } else if name == "csv"@ {
        Some(Operation::Csv)
    } else {
        None
    }
}

/// The names of `ops`, separated by a comma and a space.
pub open spec fn joined(ops: Seq<Operation>) -> Seq<char>
    decreases ops.len(),
{
    if ops.len() == 0 {
        Seq::empty()
    } else if ops.len() == 1 {
        ops[0].name_of()
    } else {
        joined(ops.drop_last()) + ", "@ + ops.last().name_of()
    }
}

/// The usage message: how to call the program, and every operation's name.
pub open spec fn usage_text() -> Seq<char> {
    "Usage: <program> <operation>\nAvailable operations: "@ + joined(registry())
}

/// No two operations share a name.
pub proof fn lemma_names_distinct(a: Operation, b: Operation)
    requires
        a.name_of() == b.name_of(),
    ensures
        a == b,
{
    reveal_strlit("lowercase");
    reveal_strlit("uppercase");
    reveal_strlit("trimspaces");
    reveal_strlit("slugify");
    reveal_strlit("reverse");
    reveal_strlit("novowels");
    reveal_strlit("csv");
    assert("lowercase"@.len() == 9 && "lowercase"@[0] == 'l');
    assert("uppercase"@.len() == 9 && "uppercase"@[0] == 'u');
    assert("trimspaces"@.len() == 10);
    assert("slugify"@.len() == 7 && "slugify"@[0] == 's');
    assert("reverse"@.len() == 7 && "reverse"@[0] == 'r');
    assert("novowels"@.len() == 8);
    assert("csv"@.len() == 3);
}

/// Every operation is listed.
pub proof fn lemma_registry_complete(op: Operation)
    ensures
        registry().contains(op),
{
    let all = registry();
    match op {
        Operation::Lowercase => assert(all[0] == op),
        Operation::Uppercase => assert(all[1] == op),
        Operation::TrimSpaces => assert(all[2] == op),
        Operation::Slugify => assert(all[3] == op),
        Operation::Reverse => assert(all[4] == op),
        Operation::NoVowels => assert(all[5] == op),
        Operation::Csv => assert(all[6] == op),
    }
}

/// A name finds the operation that bears it, and no other.
pub proof fn lemma_find_by_name(op: Operation)
    ensures
        find(op.name_of()) == Some(op),
{
    match find(op.name_of()) {
        Some(found) => lemma_names_distinct(found, op),
        None => {},
    }
}

/// Whether two strings hold the same text.
fn same_text(a: &str, b: &str) -> (r: bool)
    ensures
        r == (a@ == b@),
{
    let x = chars_of(a);
    let y = chars_of(b);
    if x.len() != y.len() {
        return false;
    }
    let mut i: usize = 0;
    while i < x.len()
        invariant
            i <= x.len(),
            x.len() == y.len(),
            x@ == a@,
            y@ == b@,
            forall|j: int| 0 <= j < i ==> x@[j] == y@[j],
        decreases x.len() - i,
    {
        if x[i] != y[i] {
            return false;
        }
        i += 1;
    }
    assert(a@ =~= b@);
    true
}

/// All operations, in listing order.
pub fn list() -> (ops: Vec<Operation>)
    ensures
        ops@ == registry(),
{
    let mut ops: Vec<Operation> = Vec::new();
    ops.push(Operation::Lowercase);
    ops.push(Operation::Uppercase);
    ops.push(Operation::TrimSpaces);
    ops.push(Operation::Slugify);
    ops.push(Operation::Reverse);
    ops.push(Operation::NoVowels);
    ops.push(Operation::Csv);
    assert(ops@ =~= registry());
    ops
}

/// Looks an operation up by its exact name.
pub fn lookup(name: &str) -> (r: Option<Operation>)
    ensures
        r == find(name@),
        r is Some ==> r->0.name_of() == name@,
        r is None ==> forall|op: Operation| op.name_of() != name@,
{
    let ops = list();
    let mut i: usize = 0;
    while i < ops.len()
        invariant
            i <= ops.len(),
            ops@ == registry(),
            forall|j: int| 0 <= j < i ==> (#[trigger] registry()[j]).name_of() != name@,
        decreases ops.len() - i,
    {
        if same_text(ops[i].name(), name) {
            proof {
                lemma_find_by_name(ops@[i as int]);
            }
            return Some(ops[i]);
        }
        i += 1;
    }
    proof {
        assert forall|op: Operation| op.name_of() != name@ by {
            lemma_registry_complete(op);
            let j = choose|j: int| 0 <= j < registry().len() && registry()[j] == op;
            assert(registry()[j].name_of() != name@);
        }
    }
    None
}

/// The usage message.
pub fn usage() -> (text: String)
    ensures
        text@ == usage_text(),
{
    let ops = list();
    let mut names = String::new();
    let mut i: usize = 0;
    while i < ops.len()
        invariant
            i <= ops.len(),
            ops@ == registry(),
            names@ == joined(registry().take(i as int)),
        decreases ops.len() - i,
    {
        let ghost before = registry().take(i as int);
        let ghost now = registry().take(i + 1);
        assert(now.drop_last() =~= before);
        assert(now.last() == ops@[i as int]);
        if i > 0 {
            names.append(", ");
        } else {
            assert(names@ + ops@[0].name_of() =~= ops@[0].name_of());
        }
        names.append(ops[i].name());
        i += 1;
    }
    assert(registry().take(i as int) =~= registry());
    let mut text = String::from_str("Usage: <program> <operation>\nAvailable operations: ");
    text.append(names.as_str());
    text
}

/// The operation name of a command line: its first argument after the
/// program's own name. Without one the request is a usage error.
pub fn requested(args: &Vec<String>) -> (r: Option<String>)
    ensures
        args.len() < 2 ==> r is None,
        args.len() >= 2 ==> r is Some && r->0@ == args[1]@,
{
    if args.len() < 2 {
        None
    } else {
        Some(args[1].clone())
    }
}

/// The line that announces the selected operation on the error stream.
pub fn notice(operation: &str) -> (text: String)
    ensures
        text@ == "Selected operation: "@ + operation@,
{
    let mut text = String::from_str("Selected operation: ");
    text.append(operation);
    text
}

/// How a request ended.
#[derive(Debug)]
pub enum Report {
    /// The command line names no operation; `text` is the usage message.
    Usage { text: String },
    /// The operation gave a result.
    Done { result: String },
    /// The operation failed; `message` says why.
    Failed { message: String },
    /// No operation has the requested name.
    Unknown { operation: String },
}

/// What a `Report` says, in mathematical terms.
pub enum ReportModel {
    Usage { text: Seq<char> },
    Done { result: Seq<char> },
    Failed { message: Seq<char> },
    Unknown { operation: Seq<char> },
}

impl View for Report {
    type V = ReportModel;

    open spec fn view(&self) -> ReportModel {
        match self {
            Report::Usage { text } => ReportModel::Usage { text: text@ },
            Report::Done { result } => ReportModel::Done { result: result@ },
            Report::Failed { message } => ReportModel::Failed { message: message@ },
            Report::Unknown { operation } => ReportModel::Unknown { operation: operation@ },
        }
    }
}

impl ReportModel {
    /// What goes to standard output: the result under its label, between
    /// blank lines; nothing unless there is a result.
    pub open spec fn stdout_text(self) -> Option<Seq<char>> {
        match self {
            ReportModel::Done { result } => Some("\nResult:\n"@ + result + "\n"@),
            _ => None,
        }
    }

    /// What goes to the error stream after the notice, if there was one:
    /// the usage message and the error, the failure, or the unknown name;
    /// nothing if there is a result.
    pub open spec fn stderr_text(self) -> Option<Seq<char>> {
        match self {
            ReportModel::Usage { text } => Some(text + "\nError: Missing operation"@),
            ReportModel::Done { .. } => None,
            ReportModel::Failed { message } => Some("Error executing operation: "@ + message),
            ReportModel::Unknown { operation } => Some("Unknown operation: "@ + operation),
        }
    }

    /// The exit status: only a request without an operation name is fatal.
    pub open spec fn status(self) -> int {
        match self {
            ReportModel::Usage { .. } => USAGE_STATUS as int,
            _ => NORMAL_STATUS as int,
        }
    }
}

/// The report on a command line and the raw input: without an operation
/// name, the usage message; else the report on the first argument after the
/// program's name.
pub open spec fn run_report(args: Seq<Seq<char>>, raw: Seq<char>) -> ReportModel {
    if args.len() < 2 {
        ReportModel::Usage { text: usage_text() }
    } else {
        report_of(args[1], raw)
    }
}

/// The report on the request for `operation` with the raw input `raw`: the
/// input is trimmed, and the operation of that name, if there is one, is
/// applied to it.
pub open spec fn report_of(operation: Seq<char>, raw: Seq<char>) -> ReportModel {
    match find(operation) {
        None => ReportModel::Unknown { operation },
        Some(op) => match op.result_of(trimmed(raw)) {
            Ok(result) => ReportModel::Done { result },
            Err(e) => ReportModel::Failed { message: message_of(e) },
        },
    }
}

impl Report {
    /// The text for standard output, if any.
    pub fn stdout_text(&self) -> (text: Option<String>)
        ensures
            text is Some <==> self@.stdout_text() is Some,
            text is Some ==> text->0@ == self@.stdout_text()->0,
    {
        match self {
            Report::Done { result } => {
                let mut text = String::from_str("\nResult:\n");
                text.append(result.as_str());
                text.append("\n");
                Some(text)
            },
            _ => None,
        }
    }

    /// The text for the error stream, if any.
    pub fn stderr_text(&self) -> (text: Option<String>)
        ensures
            text is Some <==> self@.stderr_text() is Some,
            text is Some ==> text->0@ == self@.stderr_text()->0,
    {
        match self {
            Report::Usage { text } => {
                let mut out = text.clone();
                out.append("\nError: Missing operation");
                Some(out)
            },
            Report::Done { .. } => None,
            Report::Failed { message } => {
                let mut text = String::from_str("Error executing operation: ");
                text.append(message.as_str());
                Some(text)
            },
            Report::Unknown { operation } => {
                let mut text = String::from_str("Unknown operation: ");
                text.append(operation.as_str());
                Some(text)
            },
        }
    }

    /// The exit status: 1 after a usage error, 0 after everything else.
    pub fn status(&self) -> (code: i32)
        ensures
            code == self@.status(),
            code != 0 <==> self is Usage,
    {
        match self {
            Report::Usage { .. } => USAGE_STATUS,
            _ => NORMAL_STATUS,
        }
    }
}

/// Carries out the request of a command line. Without an operation name
/// the raw input is not looked at and no operation is applied.
pub fn run(args: &Vec<String>, raw: &str) -> (r: Report)
    ensures
        r@ == run_report(args.deep_view(), raw@),
        args.len() < 2 ==> r is Usage && r@.status() == 1,
        args.len() >= 2 ==> r@ == report_of(args[1]@, raw@) && r@.status() == 0,
        args.len() >= 2 && find(args[1]@) == Some(Operation::Slugify) ==> r is Done && slugified(
            trimmed(raw@),
            r->result@,
        ),
{
    match requested(args) {
        None => Report::Usage { text: usage() },
        Some(operation) => perform(operation.as_str(), raw),
    }
}

/// Carries out the request for one operation: trims the raw input and
/// applies the operation of the given name to it.
pub fn perform(operation: &str, raw: &str) -> (r: Report)
    ensures
        r@ == report_of(operation@, raw@),
        !(r is Usage),
        find(operation@) == Some(Operation::Slugify) ==> r is Done && slugified(
            trimmed(raw@),
            r->result@,
        ),
{
    match lookup(operation) {
        None => Report::Unknown { operation: String::from_str(operation) },
        Some(op) => {
            let input = trim(raw);
            match op.apply(input.as_str()) {
                Ok(result) => Report::Done { result },
                Err(e) => Report::Failed { message: e.message() },
            }
        },
    }
}

} // verus!
