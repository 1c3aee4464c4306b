//! Scenarios and how they are parsed out of the configuration document.
//!
//! The configuration is TOML: each top-level table maps a scenario label
//! to a `files` array of path strings.  The TOML syntax itself is handled
//! by the `toml` crate behind a trusted wrapper; everything the tool reads
//! out of the parsed document — the lookup of the `files` field, the check
//! that it is an array of strings, the construction of the scenario list —
//! is verified here.

use vstd::prelude::*;
use vstd::string::StringExecFns;

verus! {

/// A named, ordered set of fixture file paths.
#[derive(Debug)]
pub struct Scenario {
    pub label: String,
    pub files: Vec<String>,
}

/// Mathematical model of a `Scenario`.
pub struct ScenarioView {
    pub label: Seq<char>,
    pub files: Seq<Seq<char>>,
}

impl View for Scenario {
    type V = ScenarioView;

    open spec fn view(&self) -> ScenarioView {
        ScenarioView { label: self.label@, files: self.files.deep_view() }
    }
}

impl DeepView for Scenario {
    type V = ScenarioView;

    open spec fn deep_view(&self) -> ScenarioView {
        self.view()
    }
}

/// The shape of a TOML value, as far as scenario parsing reads it.
/// String, integer, boolean, array and table values are carried over one
/// for one; a float or datetime leaf, which scenario parsing never
/// accepts anyway, becomes `Other`.
pub enum TomlShape {
    Str(String),
    Int(i64),
    Bool(bool),
    Arr(Vec<TomlShape>),
    Table(Vec<(String, TomlShape)>),
    Other,
}

/// Declares `toml::Value`, the parsed TOML tree, so wrappers can take it.
#[verifier::external_type_specification]
#[verifier::external_body]
pub struct ExTomlValue(toml::Value);

/// Relies on `toml::Value` only as data: each variant of the parsed value
/// is moved over into the matching `TomlShape` variant.
#[verifier::external_body]
fn shape_of_value(v: &toml::Value) -> TomlShape {
    match v {
        toml::Value::String(s) => TomlShape::Str(s.clone()),
        toml::Value::Integer(i) => TomlShape::Int(*i),
        toml::Value::Float(_) => TomlShape::Other,
        toml::Value::Boolean(b) => TomlShape::Bool(*b),
        toml::Value::Datetime(_) => TomlShape::Other,
        toml::Value::Array(a) => TomlShape::Arr(a.iter().map(shape_of_value).collect()),
        toml::Value::Table(t) => TomlShape::Table(
            t.iter().map(|(k, w)| (k.clone(), shape_of_value(w))).collect(),
        ),
    }
}

/// What the TOML parser yields on a given document text: `None` when the
/// text is not valid TOML, otherwise the top-level (label, value) entries
/// in the order the parser's table iterates them (a fixed order, so the
/// result is a function of the text alone).
pub uninterp spec fn toml_doc_of(text: Seq<char>) -> Option<Seq<(Seq<char>, TomlShape)>>;

/// Top-level entries as (label view, shape) pairs.
pub open spec fn entries_view(entries: Seq<(String, TomlShape)>) -> Seq<(Seq<char>, TomlShape)> {
    entries.map_values(|p: (String, TomlShape)| (p.0@, p.1))
}

/// Relies on `toml::from_str::<toml::value::Table>`: it returns `Err`
/// exactly on text that is not a valid TOML document, and otherwise the
/// top-level table; iterating that table visits its entries in a fixed
/// key order, so the outcome depends on the text alone.
#[verifier::external_body]
fn parse_toml(text: &str) -> (r: Option<Vec<(String, TomlShape)>>)
    ensures
        match r {
            Option::None => toml_doc_of(text@) is None,
            Option::Some(entries) => toml_doc_of(text@) == Option::Some(entries_view(entries@)),
        },
{
    match toml::from_str::<toml::value::Table>(text) {
        Result::Ok(t) => Option::Some(
            t.iter().map(|(k, v)| (k.clone(), shape_of_value(v))).collect(),
        ),
        Result::Err(_) => Option::None,
    }
}

/// First value bound to `key` among the entries, if any.
pub open spec fn lookup(entries: Seq<(String, TomlShape)>, key: Seq<char>) -> Option<TomlShape>
    decreases entries.len(),
{
    if entries.len() == 0 {
        Option::None
    } else if entries[0].0@ == key {
        Option::Some(entries[0].1)
    } else {
        lookup(entries.drop_first(), key)
    }
}

/// The path strings of an array value: `Some` exactly when every element
/// is a string, in declaration order.
pub open spec fn strings_of(items: Seq<TomlShape>) -> Option<Seq<Seq<char>>>
    decreases items.len(),
{
    if items.len() == 0 {
        Option::Some(Seq::<Seq<char>>::empty())
    } else {
        match items[0] {
            TomlShape::Str(s) => match strings_of(items.drop_first()) {
                Option::Some(rest) => Option::Some(seq![s@] + rest),
                Option::None => Option::None,
            },
            _ => Option::None,
        }
    }
}

/// The file list of one scenario block: the value must be a table whose
/// `files` field is an array of strings; `None` on any other shape.
pub open spec fn files_of_value(v: TomlShape) -> Option<Seq<Seq<char>>> {
    match v {
        TomlShape::Table(entries) => match lookup(entries@, "files"@) {
            Option::Some(fv) => match fv {
                TomlShape::Arr(items) => strings_of(items@),
                _ => Option::None,
            },
            Option::None => Option::None,
        },
        _ => Option::None,
    }
}

/// The scenario list of a parsed document: `Some` exactly when every
/// block yields a file list, one scenario per block, in document order.
pub open spec fn scenarios_of(doc: Seq<(Seq<char>, TomlShape)>) -> Option<Seq<ScenarioView>>
    decreases doc.len(),
{
    if doc.len() == 0 {
        Option::Some(Seq::<ScenarioView>::empty())
    } else {
        match files_of_value(doc[0].1) {
            Option::Some(fs) => match scenarios_of(doc.drop_first()) {
                Option::Some(rest) => Option::Some(
                    seq![ScenarioView { label: doc[0].0, files: fs }] + rest,
                ),
                Option::None => Option::None,
            },
            Option::None => Option::None,
        }
    }
}

/// Why a configuration document was rejected.
#[derive(Clone, Copy, PartialEq, Eq, Structural, Debug)]
pub enum ConfigError {
    /// The text is not valid TOML.
    Syntax,
    /// Some scenario block lacks a `files` array made of strings.
    Malformed,
}

/// Index of the first entry bound to `key`, searching from `i` on.
fn lookup_entry(entries: &Vec<(String, TomlShape)>, i: usize, key: &String) -> (r: Option<usize>)
    requires
        i <= entries.len(),
    ensures
        match r {
            Option::Some(j) => i <= j < entries.len()
                && lookup(entries@.skip(i as int), key@) == Option::Some(entries@[j as int].1),
            Option::None => lookup(entries@.skip(i as int), key@) is None,
        },
    decreases entries.len() - i,
{
    if i == entries.len() {
        assert(entries@.skip(i as int) =~= Seq::<(String, TomlShape)>::empty());
        Option::None
    } else if entries[i].0 == *key {
        assert(entries@.skip(i as int)[0] == entries@[i as int]);
        Option::Some(i)
    } else {
        let r = lookup_entry(entries, i + 1, key);
        assert(entries@.skip(i as int).drop_first() =~= entries@.skip(i as int + 1));
        assert(entries@.skip(i as int)[0] == entries@[i as int]);
        r
    }
}

/// Collect the strings of `items[i..]`; `None` at the first non-string.
fn strings_from(items: &Vec<TomlShape>, i: usize) -> (r: Option<Vec<String>>)
    requires
        i <= items.len(),
    ensures
        match r {
            Option::Some(fs) => strings_of(items@.skip(i as int))
                == Option::Some(fs.deep_view()),
            Option::None => strings_of(items@.skip(i as int)) is None,
        },
    decreases items.len() - i,
{
    if i == items.len() {
        assert(items@.skip(i as int) =~= Seq::<TomlShape>::empty());
        let fs: Vec<String> = Vec::new();
        assert(fs.deep_view() =~= Seq::<Seq<char>>::empty());
        Option::Some(fs)
    } else {
        assert(items@.skip(i as int)[0] == items@[i as int]);
        assert(items@.skip(i as int).drop_first() =~= items@.skip(i as int + 1));
        match &items[i] {
            TomlShape::Str(s) => match strings_from(items, i + 1) {
                Option::Some(mut rest) => {
                    let ghost old_rest = rest.deep_view();
                    rest.insert(0, s.clone());
                    assert(rest.deep_view() =~= seq![s@] + old_rest);
                    Option::Some(rest)
                }
                Option::None => Option::None,
            },
            _ => Option::None,
        }
    }
}

/// The file list of one scenario block, as `files_of_value` describes it.
fn files_from_value(v: &TomlShape) -> (r: Option<Vec<String>>)
    ensures
        match r {
            Option::Some(fs) => files_of_value(*v) == Option::Some(fs.deep_view()),
            Option::None => files_of_value(*v) is None,
        },
{
    match v {
        TomlShape::Table(entries) => {
            let key = String::from_str("files");
            match lookup_entry(entries, 0, &key) {
                Option::Some(j) => {
                    assert(entries@.skip(0) =~= entries@);
                    match &entries[j] {
                        (_, TomlShape::Arr(items)) => {
                            assert(items@.skip(0) =~= items@);
                            strings_from(items, 0)
                        }
                        _ => Option::None,
                    }
                }
                Option::None => {
                    assert(entries@.skip(0) =~= entries@);
                    Option::None
                }
            }
        }
        _ => Option::None,
    }
}

/// Build the scenarios of `entries[i..]`, as `scenarios_of` describes.
fn scenarios_from(entries: &Vec<(String, TomlShape)>, i: usize) -> (r: Option<Vec<Scenario>>)
    requires
        i <= entries.len(),
    ensures
        match r {
            Option::Some(out) => scenarios_of(entries_view(entries@).skip(i as int))
                == Option::Some(out.deep_view()),
            Option::None => scenarios_of(entries_view(entries@).skip(i as int)) is None,
        },
    decreases entries.len() - i,
{
    if i == entries.len() {
        assert(entries_view(entries@).skip(i as int) =~= Seq::<(Seq<char>, TomlShape)>::empty());
        let out: Vec<Scenario> = Vec::new();
        assert(out.deep_view() =~= Seq::<ScenarioView>::empty());
        Option::Some(out)
    } else {
        assert(entries_view(entries@).skip(i as int)[0] == entries_view(entries@)[i as int]);
        assert(entries_view(entries@).skip(i as int).drop_first()
            =~= entries_view(entries@).skip(i as int + 1));
        match files_from_value(&entries[i].1) {
            Option::Some(fs) => match scenarios_from(entries, i + 1) {
                Option::Some(mut out) => {
                    let ghost old_out = out.deep_view();
                    let label = entries[i].0.clone();
                    let sc = Scenario { label, files: fs };
                    out.insert(0, sc);
                    assert(out.deep_view() =~= seq![sc@] + old_out);
                    Option::Some(out)
                }
                Option::None => Option::None,
            },
            Option::None => Option::None,
        }
    }
}

/// Parse a configuration document into scenarios.
///
/// Succeeds exactly when the text is valid TOML and every top-level block
/// carries a `files` array of strings; the result then has one scenario
/// per block, labels and file order taken from the document.
pub fn parse_scenarios(config: String) -> (r: Result<Vec<Scenario>, ConfigError>)
    ensures
        match toml_doc_of(config@) {
            Option::None => r == Result::<Vec<Scenario>, ConfigError>::Err(ConfigError::Syntax),
            Option::Some(doc) => match scenarios_of(doc) {
                Option::None => r == Result::<Vec<Scenario>, ConfigError>::Err(
                    ConfigError::Malformed,
                ),
                Option::Some(ss) => r matches Result::Ok(out) && out.deep_view() == ss,
            },
        },
{
    match parse_toml(config.as_str()) {
        Option::None => Result::Err(ConfigError::Syntax),
        Option::Some(entries) => {
            assert(entries_view(entries@).skip(0) =~= entries_view(entries@));
            match scenarios_from(&entries, 0) {
                Option::Some(out) => Result::Ok(out),
                Option::None => Result::Err(ConfigError::Malformed),
            }
        }
    }
}

/// Parsing keeps every block: a successfully parsed document with N
/// top-level blocks yields exactly N scenarios, the i-th carrying the
/// i-th label and exactly the files declared under it, in order.
pub proof fn lemma_parse_preserves_blocks(doc: Seq<(Seq<char>, TomlShape)>)
    requires
        scenarios_of(doc) is Some,
    ensures
        scenarios_of(doc)->Some_0.len() == doc.len(),
        forall|i: int|
            0 <= i < doc.len() ==> (#[trigger] scenarios_of(doc)->Some_0[i]).label == doc[i].0,
        forall|i: int|
            0 <= i < doc.len() ==> files_of_value(doc[i].1) == Option::Some(
                scenarios_of(doc)->Some_0[i].files,
            ),
    decreases doc.len(),
{
    if doc.len() > 0 {
        lemma_parse_preserves_blocks(doc.drop_first());
        assert(forall|i: int|
            0 <= i < doc.drop_first().len() ==> #[trigger] doc.drop_first()[i] == doc[i + 1]);
        let rest = scenarios_of(doc.drop_first())->Some_0;
        let whole = scenarios_of(doc)->Some_0;
        assert(forall|i: int| 1 <= i < whole.len() ==> #[trigger] whole[i] == rest[i - 1]);
    }
}

/// A block without a proper `files` array poisons the whole parse: a
/// malformed document never yields a partial scenario list.
pub proof fn lemma_malformed_block_is_fatal(doc: Seq<(Seq<char>, TomlShape)>, i: int)
    requires
        0 <= i < doc.len(),
        files_of_value(doc[i].1) is None,
    ensures
        scenarios_of(doc) is None,
    decreases doc.len(),
{
    if i > 0 {
        assert(doc.drop_first()[i - 1] == doc[i]);
        lemma_malformed_block_is_fatal(doc.drop_first(), i - 1);
    }
}

/// Name of the configuration file, looked up in the working directory.
pub fn config_file_name() -> (r: String)
    ensures
        r@ == ".photofinish.toml"@,
{
    String::from_str(".photofinish.toml")
}

/// The diagnostic printed when the configuration file cannot be read;
/// `err` is the text of the underlying I/O error.
pub fn config_error_line(err: &String) -> (r: String)
    ensures
        r@ == "Error! Probably .photofinish.toml is missing\n"@ + err@,
{
    let mut r = String::from_str("Error! Probably .photofinish.toml is missing\n");
    r.append(err.as_str());
    r
}

} // verus!
