//! The result normaliser: what each analyser reports, read from its JSON
//! output into one canonical form.
//!
//! The JSON grammar is left to `serde_json`. What a document must hold to be
//! the report of an analyser is decided here, on a [`Json`] value:
//! a field that must be there and is not, or holds the wrong kind of value,
//! fails the parse; a collection of findings that is absent or `null` is an
//! empty collection.

use vstd::prelude::*;
use vstd::string::*;
use crate::installer::ToolKind;
use crate::text::{decode_strict, same_text, strict_text};

verus! {

/// A JSON number, as far as the normaliser reads it: an integer, or something
/// with a fraction or an exponent.
#[derive(Clone, Copy, Debug, PartialEq, Eq)]
pub enum JsonNumber {
    Unsigned(u64),
    Signed(i64),
    Fraction,
}

/// A JSON document.
#[derive(Debug, PartialEq, Eq)]
pub enum Json {
    Null,
    Bool(bool),
    Number(JsonNumber),
    Text(String),
    Array(Vec<Json>),
    Object(Vec<(String, Json)>),
}

/// The mathematical content of a [`Json`] document.
pub enum JsonModel {
    Null,
    Bool(bool),
    Number(JsonNumber),
    Text(Seq<char>),
    Array(Seq<JsonModel>),
    Object(Seq<(Seq<char>, JsonModel)>),
}

/// The content of a document: the same shape, with texts and sequences in
/// place of strings and vectors.
pub open spec fn json_model(doc: Json) -> JsonModel
    decreases doc,
{
    match doc {
        Json::Null => JsonModel::Null,
        Json::Bool(b) => JsonModel::Bool(b),
        Json::Number(n) => JsonModel::Number(n),
        Json::Text(s) => JsonModel::Text(s@),
        Json::Array(items) => JsonModel::Array(
            Seq::new(
                items.len() as nat,
                |i: int|
                    if 0 <= i < items.len() {
                        json_model(items[i])
                    } else {
                        JsonModel::Null
                    },
            ),
        ),
        Json::Object(entries) => JsonModel::Object(
            Seq::new(
                entries.len() as nat,
                |i: int|
                    if 0 <= i < entries.len() {
                        (entries[i].0@, json_model(entries[i].1))
                    } else {
                        (Seq::empty(), JsonModel::Null)
                    },
            ),
        ),
    }
}

impl View for Json {
    type V = JsonModel;

    open spec fn view(&self) -> JsonModel {
        json_model(*self)
    }
}

/// The content of the items of an array.
pub open spec fn items_model(items: Seq<Json>) -> Seq<JsonModel> {
    Seq::new(items.len(), |i: int| items[i]@)
}

/// The content of the entries of an object.
pub open spec fn entries_model(entries: Seq<(String, Json)>) -> Seq<(Seq<char>, JsonModel)> {
    Seq::new(entries.len(), |i: int| (entries[i].0@, entries[i].1@))
}

/// The view of an array is the array of the views of its items.
pub proof fn lemma_array_view(items: Vec<Json>)
    ensures
        Json::Array(items)@ == JsonModel::Array(items_model(items@)),
{
    assert(json_model(Json::Array(items))->Array_0 =~= items_model(items@));
}

/// The view of an object holds the views of its entries.
pub proof fn lemma_object_view(entries: Vec<(String, Json)>)
    ensures
        Json::Object(entries)@ == JsonModel::Object(entries_model(entries@)),
{
    assert(json_model(Json::Object(entries))->Object_0 =~= entries_model(entries@));
}

/// `serde_json::Value`: a parsed JSON value, carried through unopened.
#[verifier::external_type_specification]
#[verifier::external_body]
pub struct ExJsonValue(serde_json::Value);

/// `serde_json::Error`: why a text is not JSON, carried through unopened.
#[verifier::external_type_specification]
#[verifier::external_body]
pub struct ExJsonError(serde_json::Error);

/// What `serde_json::from_str` makes of a text: the document that it reads,
/// or the message of the error that it reports where it rejects the text.
pub uninterp spec fn json_reading(text: Seq<char>) -> Result<JsonModel, Seq<char>>;

/// What a `serde_json::Value` holds: the same shape as a [`JsonModel`]. A
/// number that `as_u64` reads is `Unsigned`, one that only `as_i64` reads is
/// `Signed`, and any other is `Fraction`. The entries of an object stand in
/// the order in which `serde_json` hands them out.
pub uninterp spec fn value_model(value: serde_json::Value) -> JsonModel;

/// The message of a `serde_json::Error`, as its `Display` writes it.
pub uninterp spec fn error_message(error: serde_json::Error) -> Seq<char>;

/// `serde_json::from_str`, read as a `serde_json::Value`: the result is what
/// `serde_json` makes of `text`, a function of the text alone. A value holds
/// the document of the text; an error carries the message of its rejection.
#[verifier::external_body]
fn read_value(text: &str) -> (r: Result<serde_json::Value, serde_json::Error>)
    ensures
        match r {
            Ok(value) => json_reading(text@) == Ok::<JsonModel, Seq<char>>(value_model(value)),
            Err(error) => json_reading(text@) == Err::<JsonModel, Seq<char>>(
                error_message(error),
            ),
        },
{
    serde_json::from_str::<serde_json::Value>(text)
}

/// Moves a `serde_json::Value` into a [`Json`], variant by variant: the
/// result holds what the value held.
#[verifier::external_body]
fn lift(value: serde_json::Value) -> (doc: Json)
    ensures
        doc@ == value_model(value),
{
    match value {
        serde_json::Value::Null => Json::Null,
        serde_json::Value::Bool(b) => Json::Bool(b),
        serde_json::Value::Number(n) => Json::Number(match (n.as_u64(), n.as_i64()) {
            (Some(u), _) => JsonNumber::Unsigned(u),
            (None, Some(i)) => JsonNumber::Signed(i),
            (None, None) => JsonNumber::Fraction,
        }),
        serde_json::Value::String(s) => Json::Text(s),
        serde_json::Value::Array(a) => Json::Array(a.into_iter().map(lift).collect()),
        serde_json::Value::Object(m) => Json::Object(m.into_iter().map(|(k, v)| (k, lift(v))).collect()),
    }
}

/// `Display` of `serde_json::Error`: the result is the message of `error`, a
/// function of the error alone.
#[verifier::external_body]
fn error_text(error: &serde_json::Error) -> (r: String)
    ensures
        r@ == error_message(*error),
{
    error.to_string()
}

/// Why a text is not the report of an analyser.
#[derive(Clone, Debug, PartialEq, Eq)]
pub enum ParseError {
    ParseFailed { reason: String },
}

impl View for ParseError {
    type V = Seq<char>;

    /// The reason, as text.
    open spec fn view(&self) -> Seq<char> {
        match self {
            ParseError::ParseFailed { reason } => reason@,
        }
    }
}

/// Reads a text as a JSON document: the document of the text, or a failure
/// whose reason is the message with which `serde_json` rejects the text.
fn parse_json(text: &str) -> (r: Result<Json, ParseError>)
    ensures
        match r {
            Ok(doc) => json_reading(text@) == Ok::<JsonModel, Seq<char>>(doc@),
            Err(e) => json_reading(text@) == Err::<JsonModel, Seq<char>>(e@),
        },
{
    match read_value(text) {
        Ok(value) => Ok(lift(value)),
        Err(error) => Err(ParseError::ParseFailed { reason: error_text(&error) }),
    }
}

/// The reason given where a document or an item is not an object.
pub open spec fn not_an_object() -> Seq<char> {
    "expected an object"@
}

/// The reason given where the field `name` must be there and is not.
pub open spec fn missing_field(name: Seq<char>) -> Seq<char> {
    "missing field `"@ + name + "`"@
}

/// The reason given where the field `name` holds the wrong kind of value.
pub open spec fn wrong_type(name: Seq<char>) -> Seq<char> {
    "invalid type for field `"@ + name + "`"@
}

/// The value of the first entry of `entries` that is named `name`.
pub open spec fn member(entries: Seq<(Seq<char>, JsonModel)>, name: Seq<char>) -> Option<
    JsonModel,
>
    decreases entries.len(),
{
    if entries.len() == 0 {
        None
    } else if entries[0].0 == name {
        Some(entries[0].1)
    } else {
        member(entries.drop_first(), name)
    }
}

/// The boolean that the field `name` must hold.
pub open spec fn required_bool(entries: Seq<(Seq<char>, JsonModel)>, name: Seq<char>) -> Result<
    bool,
    Seq<char>,
> {
    match member(entries, name) {
        None => Err(missing_field(name)),
        Some(JsonModel::Bool(b)) => Ok(b),
        Some(_) => Err(wrong_type(name)),
    }
}

/// The text that the field `name` must hold.
pub open spec fn required_text(entries: Seq<(Seq<char>, JsonModel)>, name: Seq<char>) -> Result<
    Seq<char>,
    Seq<char>,
> {
    match member(entries, name) {
        None => Err(missing_field(name)),
        Some(JsonModel::Text(s)) => Ok(s),
        Some(_) => Err(wrong_type(name)),
    }
}

/// The items of the collection that the field `name` holds. A field that is
/// absent or `null` holds the empty collection.
pub open spec fn collection(entries: Seq<(Seq<char>, JsonModel)>, name: Seq<char>) -> Result<
    Seq<JsonModel>,
    Seq<char>,
> {
    match member(entries, name) {
        None => Ok(Seq::empty()),
        Some(JsonModel::Null) => Ok(Seq::empty()),
        Some(JsonModel::Array(items)) => Ok(items),
        Some(_) => Err(wrong_type(name)),
    }
}

/// The number that the optional field `name` holds: none where the field is
/// absent or `null`, and otherwise an integer from 0 to 4294967295.
pub open spec fn optional_u32(entries: Seq<(Seq<char>, JsonModel)>, name: Seq<char>) -> Result<
    Option<u32>,
    Seq<char>,
> {
    match member(entries, name) {
        None => Ok(None),
        Some(JsonModel::Null) => Ok(None),
        Some(JsonModel::Number(JsonNumber::Unsigned(n))) => if n <= u32::MAX {
            Ok(Some(n as u32))
        } else {
            Err(wrong_type(name))
        },
        Some(_) => Err(wrong_type(name)),
    }
}

fn failed_with(prefix: &str, name: &str) -> (e: ParseError)
    ensures
        e@ == prefix@ + name@ + "`"@,
{
    let mut reason = String::from_str(prefix);
    reason.append(name);
    reason.append("`");
    ParseError::ParseFailed { reason }
}

fn find_member<'a>(entries: &'a Vec<(String, Json)>, name: &str) -> (r: Option<&'a Json>)
    ensures
        match r {
            Some(value) => member(entries_model(entries@), name@) == Some(value@),
            None => member(entries_model(entries@), name@) is None,
        },
{
    let ghost all = entries_model(entries@);
    let mut i: usize = 0;
    assert(all.skip(0) =~= all);
    while i < entries.len()
        invariant
            i <= entries.len(),
            all == entries_model(entries@),
            member(all, name@) == member(all.skip(i as int), name@),
        decreases entries.len() - i,
    {
        assert(all.skip(i as int)[0] == all[i as int]);
        assert(all.skip(i as int).drop_first() =~= all.skip(i + 1));
        if same_text(entries[i].0.as_str(), name) {
            return Some(&entries[i].1);
        }
        i += 1;
    }
    None
}

fn bool_field(entries: &Vec<(String, Json)>, name: &str) -> (r: Result<bool, ParseError>)
    ensures
        match r {
            Ok(b) => required_bool(entries_model(entries@), name@) == Ok::<bool, Seq<char>>(b),
            Err(e) => required_bool(entries_model(entries@), name@) == Err::<bool, Seq<char>>(e@),
        },
{
    match find_member(entries, name) {
        None => Err(failed_with("missing field `", name)),
        Some(Json::Bool(b)) => Ok(*b),
        Some(_) => Err(failed_with("invalid type for field `", name)),
    }
}

fn text_field(entries: &Vec<(String, Json)>, name: &str) -> (r: Result<String, ParseError>)
    ensures
        match r {
            Ok(s) => required_text(entries_model(entries@), name@) == Ok::<Seq<char>, Seq<char>>(
                s@,
            ),
            Err(e) => required_text(entries_model(entries@), name@) == Err::<
                Seq<char>,
                Seq<char>,
            >(e@),
        },
{
    match find_member(entries, name) {
        None => Err(failed_with("missing field `", name)),
        Some(Json::Text(s)) => Ok(s.clone()),
        Some(_) => Err(failed_with("invalid type for field `", name)),
    }
}

fn u32_field(entries: &Vec<(String, Json)>, name: &str) -> (r: Result<Option<u32>, ParseError>)
    ensures
        match r {
            Ok(n) => optional_u32(entries_model(entries@), name@) == Ok::<Option<u32>, Seq<char>>(
                n,
            ),
            Err(e) => optional_u32(entries_model(entries@), name@) == Err::<
                Option<u32>,
                Seq<char>,
            >(e@),
        },
{
    match find_member(entries, name) {
        None => Ok(None),
        Some(Json::Null) => Ok(None),
        Some(Json::Number(JsonNumber::Unsigned(n))) => {
            if *n <= 0xFFFF_FFFF {
                Ok(Some(*n as u32))
            } else {
                Err(failed_with("invalid type for field `", name))
            }
        },
        Some(_) => Err(failed_with("invalid type for field `", name)),
    }
}

/// One issue that the static analyser reports.
#[derive(Clone, Debug, PartialEq, Eq)]
pub struct SlitherDetector {
    pub check: String,
    pub impact: String,
    pub confidence: String,
    pub description: String,
}

/// The issues that the static analyser reports, in the order of its output.
#[derive(Clone, Debug, PartialEq, Eq)]
pub struct SlitherResults {
    pub detectors: Vec<SlitherDetector>,
}

/// The report of the static analyser.
#[derive(Clone, Debug, PartialEq, Eq)]
pub struct SlitherAnalysis {
    pub success: bool,
    pub results: SlitherResults,
}

/// The mathematical content of a [`SlitherDetector`].
pub struct SlitherDetectorModel {
    pub check: Seq<char>,
    pub impact: Seq<char>,
    pub confidence: Seq<char>,
    pub description: Seq<char>,
}

/// The mathematical content of a [`SlitherResults`].
pub struct SlitherResultsModel {
    pub detectors: Seq<SlitherDetectorModel>,
}

/// The mathematical content of a [`SlitherAnalysis`].
pub struct SlitherAnalysisModel {
    pub success: bool,
    pub results: SlitherResultsModel,
}

impl View for SlitherDetector {
    type V = SlitherDetectorModel;

    open spec fn view(&self) -> SlitherDetectorModel {
        SlitherDetectorModel {
            check: self.check@,
            impact: self.impact@,
            confidence: self.confidence@,
            description: self.description@,
        }
    }
}

/// The content of each detector, in order.
pub open spec fn detector_models(detectors: Seq<SlitherDetector>) -> Seq<SlitherDetectorModel> {
    Seq::new(detectors.len(), |i: int| detectors[i]@)
}

impl View for SlitherResults {
    type V = SlitherResultsModel;

    open spec fn view(&self) -> SlitherResultsModel {
        SlitherResultsModel { detectors: detector_models(self.detectors@) }
    }
}

impl View for SlitherAnalysis {
    type V = SlitherAnalysisModel;

    open spec fn view(&self) -> SlitherAnalysisModel {
        SlitherAnalysisModel { success: self.success, results: self.results@ }
    }
}

/// The detector that an item of the `detectors` collection describes: an
/// object with the four texts `check`, `impact`, `confidence` and
/// `description`. Other fields are passed over.
pub open spec fn detector_of(item: JsonModel) -> Result<SlitherDetectorModel, Seq<char>> {
    match item {
        JsonModel::Object(entries) => {
            let check = required_text(entries, "check"@);
            let impact = required_text(entries, "impact"@);
            let confidence = required_text(entries, "confidence"@);
            let description = required_text(entries, "description"@);
            if check is Err {
                Err(check->Err_0)
            } else if impact is Err {
                Err(impact->Err_0)
            } else if confidence is Err {
                Err(confidence->Err_0)
            } else if description is Err {
                Err(description->Err_0)
            } else {
                Ok(
                    SlitherDetectorModel {
                        check: check->Ok_0,
                        impact: impact->Ok_0,
                        confidence: confidence->Ok_0,
                        description: description->Ok_0,
                    },
                )
            }
        },
        _ => Err(not_an_object()),
    }
}

/// The detectors that `items` describe, in order; the reason of the first
/// item that describes none, where there is one.
pub open spec fn detectors_of(items: Seq<JsonModel>) -> Result<
    Seq<SlitherDetectorModel>,
    Seq<char>,
>
    decreases items.len(),
{
    if items.len() == 0 {
        Ok(Seq::empty())
    } else {
        match detectors_of(items.drop_last()) {
            Err(reason) => Err(reason),
            Ok(before) => match detector_of(items.last()) {
                Err(reason) => Err(reason),
                Ok(detector) => Ok(before.push(detector)),
            },
        }
    }
}

/// The report of the static analyser that a document holds.
///
/// The document is an object. Its field `success` is a boolean and its field
/// `results` an object; both must be there. The field `detectors` of `results`
/// is a collection of detectors; absent or `null`, it is empty.
pub open spec fn slither_of(doc: JsonModel) -> Result<SlitherAnalysisModel, Seq<char>> {
    match doc {
        JsonModel::Object(entries) => match required_bool(entries, "success"@) {
            Err(reason) => Err(reason),
            Ok(success) => match member(entries, "results"@) {
                None => Err(missing_field("results"@)),
                Some(JsonModel::Object(inner)) => match collection(inner, "detectors"@) {
                    Err(reason) => Err(reason),
                    Ok(items) => match detectors_of(items) {
                        Err(reason) => Err(reason),
                        Ok(detectors) => Ok(
                            SlitherAnalysisModel {
                                success,
                                results: SlitherResultsModel { detectors },
                            },
                        ),
                    },
                },
                Some(_) => Err(wrong_type("results"@)),
            },
        },
        _ => Err(not_an_object()),
    }
}

fn failed(reason: &str) -> (e: ParseError)
    ensures
        e@ == reason@,
{
    ParseError::ParseFailed { reason: String::from_str(reason) }
}

/// Reads one detector from an item of the `detectors` collection.
pub fn detector_from_json(item: &Json) -> (r: Result<SlitherDetector, ParseError>)
    ensures
        match r {
            Ok(d) => detector_of(item@) == Ok::<SlitherDetectorModel, Seq<char>>(d@),
            Err(e) => detector_of(item@) == Err::<SlitherDetectorModel, Seq<char>>(e@),
        },
{
    match item {
        Json::Object(entries) => {
            proof {
                lemma_object_view(*entries);
            }
            let check = match text_field(entries, "check") {
                Ok(s) => s,
                Err(e) => {
                    return Err(e);
                },
            };
            let impact = match text_field(entries, "impact") {
                Ok(s) => s,
                Err(e) => {
                    return Err(e);
                },
            };
            let confidence = match text_field(entries, "confidence") {
                Ok(s) => s,
                Err(e) => {
                    return Err(e);
                },
            };
            let description = match text_field(entries, "description") {
                Ok(s) => s,
                Err(e) => {
                    return Err(e);
                },
            };
            Ok(SlitherDetector { check, impact, confidence, description })
        },
        _ => Err(failed("expected an object")),
    }
}

fn detectors_from_items(items: &Vec<Json>) -> (r: Result<Vec<SlitherDetector>, ParseError>)
    ensures
        match r {
            Ok(ds) => detectors_of(items_model(items@)) == Ok::<
                Seq<SlitherDetectorModel>,
                Seq<char>,
            >(detector_models(ds@)),
            Err(e) => detectors_of(items_model(items@)) == Err::<
                Seq<SlitherDetectorModel>,
                Seq<char>,
            >(e@),
        },
{
    let ghost all = items_model(items@);
    let mut found: Vec<SlitherDetector> = Vec::new();
    let mut i: usize = 0;
    assert(all.take(0) =~= Seq::<JsonModel>::empty());
    assert(detector_models(found@) =~= Seq::<SlitherDetectorModel>::empty());
    while i < items.len()
        invariant
            i <= items.len(),
            all == items_model(items@),
            detectors_of(all.take(i as int)) == Ok::<Seq<SlitherDetectorModel>, Seq<char>>(
                detector_models(found@),
            ),
        decreases items.len() - i,
    {
        assert(all.take(i + 1).drop_last() =~= all.take(i as int));
        assert(all.take(i + 1).last() == items@[i as int]@);
        match detector_from_json(&items[i]) {
            Ok(d) => {
                let ghost before = detector_models(found@);
                found.push(d);
                assert(detector_models(found@) =~= before.push(d@));
            },
            Err(e) => {
                proof {
                    lemma_detectors_fail_from(all, i + 1);
                }
                return Err(e);
            },
        }
        i += 1;
    }
    assert(all.take(i as int) =~= all);
    Ok(found)
}

/// Once a prefix of the items fails, the whole fails with the same reason.
proof fn lemma_detectors_fail_from(items: Seq<JsonModel>, n: int)
    requires
        0 <= n <= items.len(),
        detectors_of(items.take(n)) is Err,
    ensures
        detectors_of(items) == detectors_of(items.take(n)),
    decreases items.len() - n,
{
    if n < items.len() {
        assert(items.take(n + 1).drop_last() =~= items.take(n));
        lemma_detectors_fail_from(items, n + 1);
    } else {
        assert(items.take(n) =~= items);
    }
}

/// Reads the report of the static analyser from a document.
pub fn slither_from_json(doc: &Json) -> (r: Result<SlitherAnalysis, ParseError>)
    ensures
        match r {
            Ok(a) => slither_of(doc@) == Ok::<SlitherAnalysisModel, Seq<char>>(a@),
            Err(e) => slither_of(doc@) == Err::<SlitherAnalysisModel, Seq<char>>(e@),
        },
{
    match doc {
        Json::Object(entries) => {
            proof {
                lemma_object_view(*entries);
            }
            let success = match bool_field(entries, "success") {
                Ok(b) => b,
                Err(e) => {
                    return Err(e);
                },
            };
            match find_member(entries, "results") {
                None => Err(failed_with("missing field `", "results")),
                Some(Json::Object(inner)) => {
                    proof {
                        lemma_object_view(*inner);
                    }
                    let detectors = match find_member(inner, "detectors") {
                        None => Vec::new(),
                        Some(Json::Null) => Vec::new(),
                        Some(Json::Array(items)) => {
                            proof {
                                lemma_array_view(*items);
                            }
                            match detectors_from_items(items) {
                                Ok(ds) => ds,
                                Err(e) => {
                                    return Err(e);
                                },
                            }
                        },
                        Some(_) => {
                            return Err(failed_with("invalid type for field `", "detectors"));
                        },
                    };
                    assert(detector_models(Seq::<SlitherDetector>::empty()) =~= Seq::<
                        SlitherDetectorModel,
                    >::empty());
                    Ok(SlitherAnalysis { success, results: SlitherResults { detectors } })
                },
                Some(_) => Err(failed_with("invalid type for field `", "results")),
            }
        },
        _ => Err(failed("expected an object")),
    }
}

/// One issue that the symbolic analyser reports. The address is kept where
/// the report gives one.
#[derive(Clone, Debug, PartialEq, Eq)]
pub struct MythrilIssue {
    pub title: String,
    pub description: String,
    pub severity: String,
    pub address: Option<u32>,
}

/// The report of the symbolic analyser.
#[derive(Clone, Debug, PartialEq, Eq)]
pub struct MythrilAnalysis {
    pub success: bool,
    pub issues: Vec<MythrilIssue>,
}

/// The mathematical content of a [`MythrilIssue`].
pub struct MythrilIssueModel {
    pub title: Seq<char>,
    pub description: Seq<char>,
    pub severity: Seq<char>,
    pub address: Option<u32>,
}

/// The mathematical content of a [`MythrilAnalysis`].
pub struct MythrilAnalysisModel {
    pub success: bool,
    pub issues: Seq<MythrilIssueModel>,
}

impl View for MythrilIssue {
    type V = MythrilIssueModel;

    open spec fn view(&self) -> MythrilIssueModel {
        MythrilIssueModel {
            title: self.title@,
            description: self.description@,
            severity: self.severity@,
            address: self.address,
        }
    }
}

/// The content of each issue, in order.
pub open spec fn issue_models(issues: Seq<MythrilIssue>) -> Seq<MythrilIssueModel> {
    Seq::new(issues.len(), |i: int| issues[i]@)
}

impl View for MythrilAnalysis {
    type V = MythrilAnalysisModel;

    open spec fn view(&self) -> MythrilAnalysisModel {
        MythrilAnalysisModel { success: self.success, issues: issue_models(self.issues@) }
    }
}

/// The issue that an item of the `issues` collection describes: an object
/// with the three texts `title`, `description` and `severity`, and with an
/// `address` that may be absent. Other fields are passed over.
pub open spec fn issue_of(item: JsonModel) -> Result<MythrilIssueModel, Seq<char>> {
    match item {
        JsonModel::Object(entries) => {
            let title = required_text(entries, "title"@);
            let description = required_text(entries, "description"@);
            let severity = required_text(entries, "severity"@);
            let address = optional_u32(entries, "address"@);
            if title is Err {
                Err(title->Err_0)
            } else if description is Err {
                Err(description->Err_0)
            } else if severity is Err {
                Err(severity->Err_0)
            } else if address is Err {
                Err(address->Err_0)
            } else {
                Ok(
                    MythrilIssueModel {
                        title: title->Ok_0,
                        description: description->Ok_0,
                        severity: severity->Ok_0,
                        address: address->Ok_0,
                    },
                )
            }
        },
        _ => Err(not_an_object()),
    }
}

/// The issues that `items` describe, in order; the reason of the first item
/// that describes none, where there is one.
pub open spec fn issues_of(items: Seq<JsonModel>) -> Result<Seq<MythrilIssueModel>, Seq<char>>
    decreases items.len(),
{
    if items.len() == 0 {
        Ok(Seq::empty())
    } else {
        match issues_of(items.drop_last()) {
            Err(reason) => Err(reason),
            Ok(before) => match issue_of(items.last()) {
                Err(reason) => Err(reason),
                Ok(issue) => Ok(before.push(issue)),
            },
        }
    }
}

/// The report of the symbolic analyser that a document holds.
///
/// The document is an object. Its field `success` is a boolean and must be
/// there. Its field `issues` is a collection of issues; absent or `null`, it
/// is empty.
pub open spec fn mythril_of(doc: JsonModel) -> Result<MythrilAnalysisModel, Seq<char>> {
    match doc {
        JsonModel::Object(entries) => match required_bool(entries, "success"@) {
            Err(reason) => Err(reason),
            Ok(success) => match collection(entries, "issues"@) {
                Err(reason) => Err(reason),
                Ok(items) => match issues_of(items) {
                    Err(reason) => Err(reason),
                    Ok(issues) => Ok(MythrilAnalysisModel { success, issues }),
                },
            },
        },
        _ => Err(not_an_object()),
    }
}

/// Reads one issue from an item of the `issues` collection.
pub fn issue_from_json(item: &Json) -> (r: Result<MythrilIssue, ParseError>)
    ensures
        match r {
            Ok(issue) => issue_of(item@) == Ok::<MythrilIssueModel, Seq<char>>(issue@),
            Err(e) => issue_of(item@) == Err::<MythrilIssueModel, Seq<char>>(e@),
        },
{
    match item {
        Json::Object(entries) => {
            proof {
                lemma_object_view(*entries);
            }
            let title = match text_field(entries, "title") {
                Ok(s) => s,
                Err(e) => {
                    return Err(e);
                },
            };
            let description = match text_field(entries, "description") {
                Ok(s) => s,
                Err(e) => {
                    return Err(e);
                },
            };
            let severity = match text_field(entries, "severity") {
                Ok(s) => s,
                Err(e) => {
                    return Err(e);
                },
            };
            let address = match u32_field(entries, "address") {
                Ok(n) => n,
                Err(e) => {
                    return Err(e);
                },
            };
            Ok(MythrilIssue { title, description, severity, address })
        },
        _ => Err(failed("expected an object")),
    }
}

/// Once a prefix of the items fails, the whole fails with the same reason.
proof fn lemma_issues_fail_from(items: Seq<JsonModel>, n: int)
    requires
        0 <= n <= items.len(),
        issues_of(items.take(n)) is Err,
    ensures
        issues_of(items) == issues_of(items.take(n)),
    decreases items.len() - n,
{
    if n < items.len() {
        assert(items.take(n + 1).drop_last() =~= items.take(n));
        lemma_issues_fail_from(items, n + 1);
    } else {
        assert(items.take(n) =~= items);
    }
}

fn issues_from_items(items: &Vec<Json>) -> (r: Result<Vec<MythrilIssue>, ParseError>)
    ensures
        match r {
            Ok(found) => issues_of(items_model(items@)) == Ok::<Seq<MythrilIssueModel>, Seq<char>>(
                issue_models(found@),
            ),
            Err(e) => issues_of(items_model(items@)) == Err::<Seq<MythrilIssueModel>, Seq<char>>(
                e@,
            ),
        },
{
    let ghost all = items_model(items@);
    let mut found: Vec<MythrilIssue> = Vec::new();
    let mut i: usize = 0;
    assert(all.take(0) =~= Seq::<JsonModel>::empty());
    assert(issue_models(found@) =~= Seq::<MythrilIssueModel>::empty());
    while i < items.len()
        invariant
            i <= items.len(),
            all == items_model(items@),
            issues_of(all.take(i as int)) == Ok::<Seq<MythrilIssueModel>, Seq<char>>(
                issue_models(found@),
            ),
        decreases items.len() - i,
    {
        assert(all.take(i + 1).drop_last() =~= all.take(i as int));
        assert(all.take(i + 1).last() == items@[i as int]@);
        match issue_from_json(&items[i]) {
            Ok(issue) => {
                let ghost before = issue_models(found@);
                found.push(issue);
                assert(issue_models(found@) =~= before.push(issue@));
            },
            Err(e) => {
                proof {
                    lemma_issues_fail_from(all, i + 1);
                }
                return Err(e);
            },
        }
        i += 1;
    }
    assert(all.take(i as int) =~= all);
    Ok(found)
}

/// Reads the report of the symbolic analyser from a document.
pub fn mythril_from_json(doc: &Json) -> (r: Result<MythrilAnalysis, ParseError>)
    ensures
        match r {
            Ok(a) => mythril_of(doc@) == Ok::<MythrilAnalysisModel, Seq<char>>(a@),
            Err(e) => mythril_of(doc@) == Err::<MythrilAnalysisModel, Seq<char>>(e@),
        },
{
    match doc {
        Json::Object(entries) => {
            proof {
                lemma_object_view(*entries);
            }
            let success = match bool_field(entries, "success") {
                Ok(b) => b,
                Err(e) => {
                    return Err(e);
                },
            };
            let issues = match find_member(entries, "issues") {
                None => Vec::new(),
                Some(Json::Null) => Vec::new(),
                Some(Json::Array(items)) => {
                    proof {
                        lemma_array_view(*items);
                    }
                    match issues_from_items(items) {
                        Ok(found) => found,
                        Err(e) => {
                            return Err(e);
                        },
                    }
                },
                Some(_) => {
                    return Err(failed_with("invalid type for field `", "issues"));
                },
            };
            assert(issue_models(Seq::<MythrilIssue>::empty()) =~= Seq::<
                MythrilIssueModel,
            >::empty());
            Ok(MythrilAnalysis { success, issues })
        },
        _ => Err(failed("expected an object")),
    }
}

/// The report of the static analyser that a text holds: what [`slither_of`]
/// says of its document, or the message with which `serde_json` rejects it.
pub open spec fn slither_reading(text: Seq<char>) -> Result<SlitherAnalysisModel, Seq<char>> {
    match json_reading(text) {
        Ok(doc) => slither_of(doc),
        Err(message) => Err(message),
    }
}

/// The report of the symbolic analyser that a text holds: what [`mythril_of`]
/// says of its document, or the message with which `serde_json` rejects it.
pub open spec fn mythril_reading(text: Seq<char>) -> Result<MythrilAnalysisModel, Seq<char>> {
    match json_reading(text) {
        Ok(doc) => mythril_of(doc),
        Err(message) => Err(message),
    }
}

/// Reads the report of the static analyser from its JSON output.
pub fn parse_slither_output(json_string: &str) -> (r: Result<SlitherAnalysis, ParseError>)
    ensures
        match r {
            Ok(a) => slither_reading(json_string@) == Ok::<SlitherAnalysisModel, Seq<char>>(a@),
            Err(e) => slither_reading(json_string@) == Err::<SlitherAnalysisModel, Seq<char>>(
                e@,
            ),
        },
{
    match parse_json(json_string) {
        Ok(doc) => slither_from_json(&doc),
        Err(e) => Err(e),
    }
}

/// Reads the report of the symbolic analyser from its JSON output.
pub fn parse_mythril_output(json_string: &str) -> (r: Result<MythrilAnalysis, ParseError>)
    ensures
        match r {
            Ok(a) => mythril_reading(json_string@) == Ok::<MythrilAnalysisModel, Seq<char>>(a@),
            Err(e) => mythril_reading(json_string@) == Err::<MythrilAnalysisModel, Seq<char>>(
                e@,
            ),
        },
{
    match parse_json(json_string) {
        Ok(doc) => mythril_from_json(&doc),
        Err(e) => Err(e),
    }
}

/// One normalised issue: how severe it is, how certain the analyser is of it
/// where the analyser says so, its title, and its description.
#[derive(Clone, Debug, PartialEq, Eq)]
pub struct Finding {
    pub severity: String,
    pub confidence: Option<String>,
    pub title: String,
    pub description: String,
}

/// The findings of one run, in the order in which the analyser reported them,
/// and whether the analyser called its run a success.
///
/// A set with no findings stands for a run that found nothing. A run that
/// failed is an error and never a set.
#[derive(Clone, Debug, PartialEq, Eq)]
pub struct FindingSet {
    pub success: bool,
    pub findings: Vec<Finding>,
}

/// The mathematical content of a [`Finding`].
pub struct FindingModel {
    pub severity: Seq<char>,
    pub confidence: Option<Seq<char>>,
    pub title: Seq<char>,
    pub description: Seq<char>,
}

/// The mathematical content of a [`FindingSet`].
pub struct FindingSetModel {
    pub success: bool,
    pub findings: Seq<FindingModel>,
}

impl View for Finding {
    type V = FindingModel;

    open spec fn view(&self) -> FindingModel {
        FindingModel {
            severity: self.severity@,
            confidence: match self.confidence {
                Some(c) => Some(c@),
                None => None,
            },
            title: self.title@,
            description: self.description@,
        }
    }
}

/// The content of each finding, in order.
pub open spec fn finding_models(findings: Seq<Finding>) -> Seq<FindingModel> {
    Seq::new(findings.len(), |i: int| findings[i]@)
}

impl View for FindingSet {
    type V = FindingSetModel;

    open spec fn view(&self) -> FindingSetModel {
        FindingSetModel { success: self.success, findings: finding_models(self.findings@) }
    }
}

/// The finding that a detector stands for: its impact is the severity and its
/// check the title.
pub open spec fn finding_of_detector(d: SlitherDetectorModel) -> FindingModel {
    FindingModel {
        severity: d.impact,
        confidence: Some(d.confidence),
        title: d.check,
        description: d.description,
    }
}

/// The finding that an issue stands for. The symbolic analyser states no
/// confidence.
pub open spec fn finding_of_issue(issue: MythrilIssueModel) -> FindingModel {
    FindingModel {
        severity: issue.severity,
        confidence: None,
        title: issue.title,
        description: issue.description,
    }
}

/// The findings of a report of the static analyser, in its order.
pub open spec fn slither_findings(analysis: SlitherAnalysisModel) -> FindingSetModel {
    FindingSetModel {
        success: analysis.success,
        findings: Seq::new(
            analysis.results.detectors.len(),
            |i: int| finding_of_detector(analysis.results.detectors[i]),
        ),
    }
}

/// The findings of a report of the symbolic analyser, in its order.
pub open spec fn mythril_findings(analysis: MythrilAnalysisModel) -> FindingSetModel {
    FindingSetModel {
        success: analysis.success,
        findings: Seq::new(analysis.issues.len(), |i: int| finding_of_issue(analysis.issues[i])),
    }
}

impl SlitherAnalysis {
    /// The findings of this report.
    pub fn findings(&self) -> (set: FindingSet)
        ensures
            set@ == slither_findings(self@),
    {
        let mut findings: Vec<Finding> = Vec::new();
        let mut i: usize = 0;
        while i < self.results.detectors.len()
            invariant
                i <= self.results.detectors.len(),
                findings@.len() == i,
                forall|k: int|
                    0 <= k < i ==> (#[trigger] findings@[k])@ == finding_of_detector(
                        self.results.detectors@[k]@,
                    ),
            decreases self.results.detectors.len() - i,
        {
            let d = &self.results.detectors[i];
            findings.push(
                Finding {
                    severity: d.impact.clone(),
                    confidence: Some(d.confidence.clone()),
                    title: d.check.clone(),
                    description: d.description.clone(),
                },
            );
            i += 1;
        }
        let set = FindingSet { success: self.success, findings };
        assert(set@.findings =~= slither_findings(self@).findings);
        set
    }
}

impl MythrilAnalysis {
    /// The findings of this report.
    pub fn findings(&self) -> (set: FindingSet)
        ensures
            set@ == mythril_findings(self@),
    {
        let mut findings: Vec<Finding> = Vec::new();
        let mut i: usize = 0;
        while i < self.issues.len()
            invariant
                i <= self.issues.len(),
                findings@.len() == i,
                forall|k: int|
                    0 <= k < i ==> (#[trigger] findings@[k])@ == finding_of_issue(
                        self.issues@[k]@,
                    ),
            decreases self.issues.len() - i,
        {
            let issue = &self.issues[i];
            findings.push(
                Finding {
                    severity: issue.severity.clone(),
                    confidence: None,
                    title: issue.title.clone(),
                    description: issue.description.clone(),
                },
            );
            i += 1;
        }
        let set = FindingSet { success: self.success, findings };
        assert(set@.findings =~= mythril_findings(self@).findings);
        set
    }
}

/// The findings that a document holds, read as the report of the engine `kind`.
pub open spec fn findings_of(kind: ToolKind, doc: JsonModel) -> Result<FindingSetModel, Seq<char>> {
    match kind {
        ToolKind::Slither => match slither_of(doc) {
            Ok(analysis) => Ok(slither_findings(analysis)),
            Err(reason) => Err(reason),
        },
        ToolKind::Mythril => match mythril_of(doc) {
            Ok(analysis) => Ok(mythril_findings(analysis)),
            Err(reason) => Err(reason),
        },
    }
}

/// Reads the findings of the engine `kind` from a document.
pub fn findings_from_json(doc: &Json, kind: ToolKind) -> (r: Result<FindingSet, ParseError>)
    ensures
        match r {
            Ok(set) => findings_of(kind, doc@) == Ok::<FindingSetModel, Seq<char>>(set@),
            Err(e) => findings_of(kind, doc@) == Err::<FindingSetModel, Seq<char>>(e@),
        },
{
    match kind {
        ToolKind::Slither => match slither_from_json(doc) {
            Ok(analysis) => Ok(analysis.findings()),
            Err(e) => Err(e),
        },
        ToolKind::Mythril => match mythril_from_json(doc) {
            Ok(analysis) => Ok(analysis.findings()),
            Err(e) => Err(e),
        },
    }
}

/// The reason given where the raw output of an analyser is not UTF-8.
pub open spec fn not_text() -> Seq<char> {
    "the output is not UTF-8 text"@
}

/// The findings that the output text of the engine `kind` holds: what
/// [`findings_of`] says of its document, or the message with which
/// `serde_json` rejects the text.
pub open spec fn findings_reading(kind: ToolKind, text: Seq<char>) -> Result<
    FindingSetModel,
    Seq<char>,
> {
    match json_reading(text) {
        Ok(doc) => findings_of(kind, doc),
        Err(message) => Err(message),
    }
}

/// The findings that the raw output of the engine `kind` holds. Output that
/// is not UTF-8 holds none, for the reason [`not_text`].
pub open spec fn raw_reading(kind: ToolKind, raw: Seq<u8>) -> Result<FindingSetModel, Seq<char>> {
    match strict_text(raw) {
        Some(text) => findings_reading(kind, text),
        None => Err(not_text()),
    }
}

/// Normalises the output text of the engine `kind`: the findings, or the
/// reason why the text is no report. A failure is never an empty set.
pub fn parse_text(text: &str, kind: ToolKind) -> (r: Result<FindingSet, ParseError>)
    ensures
        match r {
            Ok(set) => findings_reading(kind, text@) == Ok::<FindingSetModel, Seq<char>>(set@),
            Err(e) => findings_reading(kind, text@) == Err::<FindingSetModel, Seq<char>>(e@),
        },
{
    match parse_json(text) {
        Ok(doc) => findings_from_json(&doc, kind),
        Err(e) => Err(e),
    }
}

/// Normalises the raw output of the engine `kind`: the findings, or the
/// reason why the output is no report.
pub fn parse(raw: &[u8], kind: ToolKind) -> (r: Result<FindingSet, ParseError>)
    ensures
        match r {
            Ok(set) => raw_reading(kind, raw@) == Ok::<FindingSetModel, Seq<char>>(set@),
            Err(e) => raw_reading(kind, raw@) == Err::<FindingSetModel, Seq<char>>(e@),
        },
{
    match decode_strict(raw) {
        None => Err(failed("the output is not UTF-8 text")),
        Some(text) => parse_text(text.as_str(), kind),
    }
}

/// A collection of findings that is absent or `null` is an empty collection
/// and no error: a report of the static analyser with its two required
/// fields, and with no `detectors` or with `null` in their place, holds no
/// finding.
pub proof fn lemma_absent_detectors_are_empty(
    entries: Seq<(Seq<char>, JsonModel)>,
    inner: Seq<(Seq<char>, JsonModel)>,
    success: bool,
)
    requires
        member(entries, "success"@) == Some(JsonModel::Bool(success)),
        member(entries, "results"@) == Some(JsonModel::Object(inner)),
        member(inner, "detectors"@) is None || member(inner, "detectors"@) == Some(
            JsonModel::Null,
        ),
    ensures
        findings_of(ToolKind::Slither, JsonModel::Object(entries)) == Ok::<
            FindingSetModel,
            Seq<char>,
        >(FindingSetModel { success, findings: Seq::empty() }),
{
    let found = findings_of(ToolKind::Slither, JsonModel::Object(entries));
    assert(found is Ok);
    assert(found->Ok_0.findings =~= Seq::<FindingModel>::empty());
}

/// A report of the symbolic analyser with its required field, and with no
/// `issues` or with `null` in their place, holds no finding.
pub proof fn lemma_absent_issues_are_empty(entries: Seq<(Seq<char>, JsonModel)>, success: bool)
    requires
        member(entries, "success"@) == Some(JsonModel::Bool(success)),
        member(entries, "issues"@) is None || member(entries, "issues"@) == Some(JsonModel::Null),
    ensures
        findings_of(ToolKind::Mythril, JsonModel::Object(entries)) == Ok::<
            FindingSetModel,
            Seq<char>,
        >(FindingSetModel { success, findings: Seq::empty() }),
{
    let found = findings_of(ToolKind::Mythril, JsonModel::Object(entries));
    assert(found is Ok);
    assert(found->Ok_0.findings =~= Seq::<FindingModel>::empty());
}

/// A document that lacks a required top-level field is no report: without
/// `success`, and for the static analyser without `results`, reading fails
/// with the reason that names the field.
pub proof fn lemma_missing_required_field_fails(
    kind: ToolKind,
    entries: Seq<(Seq<char>, JsonModel)>,
)
    ensures
        member(entries, "success"@) is None ==> findings_of(kind, JsonModel::Object(entries))
            == Err::<FindingSetModel, Seq<char>>(missing_field("success"@)),
        member(entries, "success"@) matches Some(JsonModel::Bool(_)) && member(
            entries,
            "results"@,
        ) is None ==> findings_of(ToolKind::Slither, JsonModel::Object(entries)) == Err::<
            FindingSetModel,
            Seq<char>,
        >(missing_field("results"@)),
{
}

/// A document that is not an object is no report.
pub proof fn lemma_only_objects_are_reports(kind: ToolKind, doc: JsonModel)
    requires
        !(doc is Object),
    ensures
        findings_of(kind, doc) == Err::<FindingSetModel, Seq<char>>(not_an_object()),
{
}

} // verus!
