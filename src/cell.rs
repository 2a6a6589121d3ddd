use crate::ipc::IpcEnvelope;
use vstd::prelude::*;
use vstd::string::*;

verus! {

/// The kind of a notebook cell.
#[derive(Debug, Clone, Copy, PartialEq, Eq, Structural)]
pub enum CellType {
    Markdown,
    Code,
}

/// The kind of one output record of a cell.
#[derive(Debug, Clone, Copy, PartialEq, Eq, Structural)]
pub enum CellOutputKind {
    Stdout,
    Stderr,
    Result,
    Error,
}

/// Where a cell's execution stands.
#[derive(Debug, Clone, Copy, PartialEq, Eq, Structural)]
pub enum CellStatus {
    Idle,
    Running,
    Succeeded,
    Error,
    Cancelled,
}

/// The execution record of a cell.
#[derive(Debug, Clone, Copy, PartialEq, Eq, Structural)]
pub struct CellExecution {
    pub count: u32,
    pub status: CellStatus,
    pub duration_ms: u64,
}

/// The lines that `str::lines` yields for a text.
pub uninterp spec fn lines_of(s: Seq<char>) -> Seq<Seq<char>>;

/// Relies on `str::lines`: the text's lines, without their terminators; an
/// empty text has none.
#[verifier::external_body]
fn text_lines(s: &str) -> (r: Vec<String>)
    ensures
        r@.len() == lines_of(s@).len(),
        forall|i: int| 0 <= i < r@.len() ==> #[trigger] r@[i]@ == lines_of(s@)[i],
        s@.len() == 0 ==> r@.len() == 0,
{
    s.lines().map(|l| l.to_owned()).collect()
}

/// Splits a text into lines, each ending with a line break, as the
/// interchange notebook format stores sources.
pub fn split_lines(input: &str) -> (r: Vec<String>)
    ensures
        r@.len() == lines_of(input@).len(),
        forall|i: int| 0 <= i < r@.len() ==> #[trigger] r@[i]@ == lines_of(input@)[i] + "\n"@,
{
    let lines = text_lines(input);
    let mut r: Vec<String> = Vec::new();
    let mut i: usize = 0;
    while i < lines.len()
        invariant
            i <= lines@.len(),
            lines@.len() == lines_of(input@).len(),
            forall|j: int| 0 <= j < lines@.len() ==> #[trigger] lines@[j]@ == lines_of(input@)[j],
            r@.len() == i,
            forall|j: int| 0 <= j < i ==> #[trigger] r@[j]@ == lines_of(input@)[j] + "\n"@,
        decreases lines@.len() - i,
    {
        let mut line = lines[i].clone();
        line.append("\n");
        r.push(line);
        i = i + 1;
    }
    r
}

/// Relies on `serde_json::Value`'s `Display`: the compact JSON text of a value.
#[verifier::external_body]
fn value_text(v: &serde_json::Value) -> (r: String) {
    v.to_string()
}

/// The output record that a reply turns into: an error reply becomes an
/// `Error` record reading `code: message`; otherwise a result becomes a
/// `Result` record holding its JSON text; a reply with neither gives none.
pub fn envelope_output(envelope: &IpcEnvelope) -> (r: Option<(CellOutputKind, String)>)
    ensures
        match envelope.error {
            Some(e) => r matches Some(o) && o.0 == CellOutputKind::Error && o.1@ == e.code@ + ": "@
                + e.message@,
            None => match envelope.result {
                Some(_) => r matches Some(o) && o.0 == CellOutputKind::Result,
                None => r is None,
            },
        },
{
    match &envelope.error {
        Some(e) => {
            let mut data = e.code.clone();
            data.append(": ");
            data.append(e.message.as_str());
            Some((CellOutputKind::Error, data))
        },
        None => match &envelope.result {
            Some(v) => Some((CellOutputKind::Result, value_text(v))),
            None => None,
        },
    }
}

} // verus!
