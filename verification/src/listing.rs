//! The `list` operation: reading the document that `cargo metadata` prints
//! and turning the dependencies of its first package into display lines.

use vstd::prelude::*;
use crate::json::{json_of, json_of_each, json_parse, member, parse, Json};
use crate::outcome::{Failure, FailureKind, FailureModel, OperationOutcome, OutcomeModel};
use crate::text::{push_text, same_text, texts};

verus! {

/// The display line of one dependency entry: its name, a space, its version
/// requirement, a tab, and `(dev)` for a development dependency. A missing or
/// non-textual name reads `unknown`, a missing requirement `*`.
pub open spec fn dependency_line(entry: Json) -> Seq<char> {
    let name = match entry.member("name"@).text() {
        Some(name) => name,
        None => "unknown"@,
    };
    let requirement = match entry.member("req"@).text() {
        Some(requirement) => requirement,
        None => "*"@,
    };
    let marker = if entry.member("kind"@).text() == Some("dev"@) {
        "(dev)"@
    } else {
        ""@
    };
    name + " "@ + requirement + "\t"@ + marker
}

/// The dependency entries of the first package of a metadata document, in
/// the document's order. A document without packages, or whose first package
/// has no dependency array, has none.
pub open spec fn dependency_entries(document: Json) -> Seq<Json> {
    match document.member("packages"@).items() {
        Some(packages) => if packages.len() > 0 {
            match packages[0].member("dependencies"@).items() {
                Some(entries) => entries,
                None => Seq::empty(),
            }
        } else {
            Seq::empty()
        },
        None => Seq::empty(),
    }
}

/// The display lines of a sequence of dependency entries.
pub open spec fn lines_for(entries: Seq<Json>) -> Seq<Seq<char>> {
    entries.map_values(|entry: Json| dependency_line(entry))
}

/// The display lines of a metadata document.
pub open spec fn dependency_lines(document: Json) -> Seq<Seq<char>> {
    lines_for(dependency_entries(document))
}

/// What `list` reports for the standard output of a successful metadata
/// query: the lines of the document, or a parse failure that quotes the
/// parser.
pub open spec fn listing(stdout: Seq<u8>) -> OutcomeModel {
    match json_parse(stdout) {
        Ok(document) => OutcomeModel::Lines(dependency_lines(document)),
        Err(reason) => OutcomeModel::Failed(
            FailureModel {
                kind: FailureKind::ResponseParse,
                message: "Failed to parse metadata: "@ + reason,
            },
        ),
    }
}

/// The display line of one dependency entry.
pub fn line_of(entry: &serde_json::Value) -> (line: String)
    ensures
        line@ == dependency_line(json_of(*entry)),
{
    let name: &str = match member(entry, "name").as_str() {
        Some(name) => name,
        None => "unknown",
    };
    let requirement: &str = match member(entry, "req").as_str() {
        Some(requirement) => requirement,
        None => "*",
    };
    let marker: &str = match member(entry, "kind").as_str() {
        Some(kind) => if same_text(kind, "dev") {
            "(dev)"
        } else {
            ""
        },
        None => "",
    };
    let mut line = String::from_str(name);
    line.append(" ");
    line.append(requirement);
    line.append("\t");
    line.append(marker);
    line
}

fn lines_of_entries(entries: &Vec<serde_json::Value>) -> (lines: Vec<String>)
    ensures
        texts(lines@) == lines_for(json_of_each(entries@)),
{
    let mut lines: Vec<String> = Vec::new();
    let mut index: usize = 0;
    while index < entries.len()
        invariant
            index <= entries.len(),
            texts(lines@).len() == index,
            forall|j: int|
                0 <= j < index ==> texts(lines@)[j] == dependency_line(json_of(entries@[j])),
        decreases entries.len() - index,
    {
        let line = line_of(&entries[index]);
        push_text(&mut lines, line);
        index += 1;
    }
    assert(texts(lines@) =~= lines_for(json_of_each(entries@)));
    lines
}

/// The display lines of a parsed metadata document.
pub fn lines_of(document: &serde_json::Value) -> (lines: Vec<String>)
    ensures
        texts(lines@) == dependency_lines(json_of(*document)),
{
    match member(document, "packages").as_array() {
        Some(packages) => {
            if packages.len() > 0 {
                match member(&packages[0], "dependencies").as_array() {
                    Some(entries) => {
                        return lines_of_entries(entries);
                    },
                    None => {},
                }
            }
        },
        None => {},
    }
    let lines: Vec<String> = Vec::new();
    assert(texts(lines@) =~= Seq::<Seq<char>>::empty());
    assert(lines_for(Seq::<Json>::empty()) =~= Seq::<Seq<char>>::empty());
    lines
}

/// Reads the standard output of a successful metadata query.
pub fn read_metadata(stdout: &[u8]) -> (outcome: OperationOutcome)
    ensures
        outcome@ == listing(stdout@),
{
    match parse(stdout) {
        Ok(document) => OperationOutcome::Lines(lines_of(&document)),
        Err(reason) => OperationOutcome::Failed(
            Failure::explained(
                FailureKind::ResponseParse,
                "Failed to parse metadata: ",
                reason.as_str(),
            ),
        ),
    }
}

} // verus!
