//! The registry side of the bridge: which queries are sent, the URL that is
//! fetched, the shape a reply must have, and the display line of a package.

use vstd::prelude::*;
use crate::json::{json_of, json_of_each, json_parse, member, parse, Json};
use crate::outcome::{Failure, FailureKind, FailureModel, OperationOutcome, OutcomeModel};
use crate::text::{decimal, decimal_text, optional_text, push_text, texts};

verus! {

/// A query shorter than this many characters is answered with an empty list
/// and never sent.
pub const MINIMUM_QUERY_LENGTH: usize = 2;

/// One package of a registry reply.
#[derive(Clone, Debug, PartialEq, Eq)]
pub struct PackageRecord {
    pub name: String,
    pub latest_version: String,
    pub description: Option<String>,
    pub download_count: i64,
}

/// Mathematical value of a [`PackageRecord`].
pub struct PackageModel {
    pub name: Seq<char>,
    pub latest_version: Seq<char>,
    pub description: Option<Seq<char>>,
    pub download_count: i64,
}

impl View for PackageRecord {
    type V = PackageModel;

    open spec fn view(&self) -> PackageModel {
        PackageModel {
            name: self.name@,
            latest_version: self.latest_version@,
            description: optional_text(self.description),
            download_count: self.download_count,
        }
    }
}

/// The values of a sequence of records, element by element.
pub open spec fn package_models(records: Seq<PackageRecord>) -> Seq<PackageModel> {
    records.map_values(|record: PackageRecord| record@)
}

/// Whether a query is long enough to be sent to the registry.
pub open spec fn is_searchable(query: Seq<char>) -> bool {
    query.len() >= MINIMUM_QUERY_LENGTH
}

/// The URL of a search: the query is embedded as it stands, and the page
/// size is fixed at ten results.
pub open spec fn search_url(query: Seq<char>) -> Seq<char> {
    "https://crates.io/api/v1/crates?q="@ + query + "&per_page=10"@
}

/// The package that one element of a reply describes. The element must
/// carry a textual `name` and `max_version` and an integral `downloads` that
/// fits in 64 signed bits; its `description` may be text, null or absent.
/// Other members are ignored. Anything else describes no package.
pub open spec fn record(item: Json) -> Option<PackageModel> {
    let name = item.member("name"@).text();
    let latest_version = item.member("max_version"@).text();
    let download_count = item.member("downloads"@).int64();
    let description = item.member("description"@);
    if name is Some && latest_version is Some && download_count is Some && (description is Text
        || description is Null) {
        Some(
            PackageModel {
                name: name->0,
                latest_version: latest_version->0,
                description: description.text(),
                download_count: download_count->0,
            },
        )
    } else {
        None
    }
}

/// The packages of a reply, in the reply's order. The reply must hold an
/// array under `crates`, and every element of it must describe a package.
pub open spec fn records(document: Json) -> Option<Seq<PackageModel>> {
    match document.member("crates"@).items() {
        Some(items) => if forall|i: int| 0 <= i < items.len() ==> record(#[trigger] items[i]) is Some {
            Some(items.map_values(|item: Json| record(item)->0))
        } else {
            None
        },
        None => None,
    }
}

/// The display line of a package: name, version in parentheses, a tab, the
/// description (empty when there is none), a tab, and the download count.
pub open spec fn display_line(package: PackageModel) -> Seq<char> {
    let description = match package.description {
        Some(description) => description,
        None => Seq::empty(),
    };
    package.name + " ("@ + package.latest_version + ")\t"@ + description + "\t"@ + decimal(
        package.download_count as int,
    ) + " downloads"@
}

/// The display lines of a sequence of packages.
pub open spec fn display_lines(packages: Seq<PackageModel>) -> Seq<Seq<char>> {
    packages.map_values(|package: PackageModel| display_line(package))
}

/// The failure reported for a reply that cannot be used, with what is wrong
/// with it.
pub open spec fn malformed(reason: Seq<char>) -> FailureModel {
    FailureModel {
        kind: FailureKind::ResponseParse,
        message: "Failed to parse crates.io response: "@ + reason,
    }
}

/// What `search` reports for the body of a reply: a line per package, or a
/// failure when the body is not JSON or does not have the expected shape. A
/// malformed reply is never read as an empty result.
pub open spec fn search_results(body: Seq<u8>) -> OutcomeModel {
    match json_parse(body) {
        Ok(document) => match records(document) {
            Some(packages) => OutcomeModel::Lines(display_lines(packages)),
            None => OutcomeModel::Failed(malformed("unexpected shape of the reply"@)),
        },
        Err(reason) => OutcomeModel::Failed(malformed(reason)),
    }
}

/// Whether `query` is long enough to be sent to the registry.
pub fn searchable(query: &str) -> (long_enough: bool)
    ensures
        long_enough == is_searchable(query@),
{
    query.unicode_len() >= MINIMUM_QUERY_LENGTH
}

/// The URL to fetch for `query`.
pub fn url_for(query: &str) -> (url: String)
    ensures
        url@ == search_url(query@),
{
    let mut url = String::from_str("https://crates.io/api/v1/crates?q=");
    url.append(query);
    url.append("&per_page=10");
    url
}

/// The failure to report for a reply that cannot be used.
pub fn malformed_reply(reason: &str) -> (failure: Failure)
    ensures
        failure@ == malformed(reason@),
{
    Failure::explained(FailureKind::ResponseParse, "Failed to parse crates.io response: ", reason)
}

impl PackageRecord {
    /// The display line of this package.
    pub fn display_line(&self) -> (line: String)
        ensures
            line@ == display_line(self@),
    {
        let mut line = String::from_str(self.name.as_str());
        line.append(" (");
        line.append(self.latest_version.as_str());
        line.append(")\t");
        match &self.description {
            Some(description) => {
                line.append(description.as_str());
            },
            None => {
                assert(line@ + Seq::<char>::empty() =~= line@);
            },
        }
        line.append("\t");
        let count = decimal_text(self.download_count);
        line.append(count.as_str());
        line.append(" downloads");
        line
    }
}

/// The package that one element of a parsed reply describes, if it
/// describes one.
pub fn record_of(item: &serde_json::Value) -> (found: Option<PackageRecord>)
    ensures
        match found {
            Some(package) => record(json_of(*item)) == Some(package@),
            None => record(json_of(*item)) is None,
        },
{
    let name: &str = match member(item, "name").as_str() {
        Some(name) => name,
        None => {
            return None;
        },
    };
    let latest_version: &str = match member(item, "max_version").as_str() {
        Some(latest_version) => latest_version,
        None => {
            return None;
        },
    };
    let download_count: i64 = match member(item, "downloads").as_i64() {
        Some(download_count) => download_count,
        None => {
            return None;
        },
    };
    let described = member(item, "description");
    let description: Option<String> = match described.as_str() {
        Some(description) => Some(String::from_str(description)),
        None => {
            if !described.is_null() {
                return None;
            }
            None
        },
    };
    Some(
        PackageRecord {
            name: String::from_str(name),
            latest_version: String::from_str(latest_version),
            description,
            download_count,
        },
    )
}

/// The packages of a parsed reply, or `None` when the reply does not have
/// the expected shape.
pub fn records_of(document: &serde_json::Value) -> (found: Option<Vec<PackageRecord>>)
    ensures
        match found {
            Some(packages) => records(json_of(*document)) == Some(package_models(packages@)),
            None => records(json_of(*document)) is None,
        },
{
    let items = match member(document, "crates").as_array() {
        Some(items) => items,
        None => {
            return None;
        },
    };
    let ghost models = json_of_each(items@);
    let mut packages: Vec<PackageRecord> = Vec::new();
    let mut index: usize = 0;
    while index < items.len()
        invariant
            index <= items.len(),
            models == json_of_each(items@),
            json_of(*document).member("crates"@).items() == Some(models),
            packages.len() == index,
            forall|j: int| 0 <= j < index ==> record(#[trigger] models[j]) == Some(packages@[j]@),
        decreases items.len() - index,
    {
        match record_of(&items[index]) {
            Some(package) => {
                packages.push(package);
            },
            None => {
                assert(record(models[index as int]) is None);
                return None;
            },
        }
        index += 1;
    }
    assert(package_models(packages@) =~= models.map_values(|item: Json| record(item)->0));
    Some(packages)
}

/// The display lines of the given packages, in their order.
pub fn lines_of(packages: &Vec<PackageRecord>) -> (lines: Vec<String>)
    ensures
        texts(lines@) == display_lines(package_models(packages@)),
{
    let mut lines: Vec<String> = Vec::new();
    let mut index: usize = 0;
    while index < packages.len()
        invariant
            index <= packages.len(),
            texts(lines@).len() == index,
            forall|j: int| 0 <= j < index ==> texts(lines@)[j] == display_line(packages@[j]@),
        decreases packages.len() - index,
    {
        let line = packages[index].display_line();
        push_text(&mut lines, line);
        index += 1;
    }
    assert(texts(lines@) =~= display_lines(package_models(packages@)));
    lines
}

/// Reads the body of a registry reply.
pub fn read_response(body: &[u8]) -> (outcome: OperationOutcome)
    ensures
        outcome@ == search_results(body@),
{
    match parse(body) {
        Ok(document) => match records_of(&document) {
            Some(packages) => OperationOutcome::Lines(lines_of(&packages)),
            None => OperationOutcome::Failed(malformed_reply("unexpected shape of the reply")),
        },
        Err(reason) => OperationOutcome::Failed(malformed_reply(reason.as_str())),
    }
}

} // verus!
