//! The settings file as a TOML document: a flat table of keys and scalars.
//!
//! Parsing and rendering are done by the `toml` crate. What this module says
//! of them is believed, not proved: each such item says so where it stands.

use vstd::prelude::*;

verus! {

/// A value that the settings file stores under a key.
#[derive(Debug, PartialEq, Eq)]
pub enum Scalar {
    Integer(i64),
    Text(String),
}

/// A [`Scalar`] as a mathematical value.
pub enum ScalarView {
    Integer(i64),
    Text(Seq<char>),
}

impl View for Scalar {
    type V = ScalarView;

    open spec fn view(&self) -> ScalarView {
        match self {
            Scalar::Integer(number) => ScalarView::Integer(*number),
            Scalar::Text(text) => ScalarView::Text(text@),
        }
    }
}

/// What a document holds under one key.
#[derive(Debug, PartialEq, Eq)]
pub enum Field {
    /// The document has no such key.
    Absent,
    /// An integer or a string.
    Scalar(Scalar),
    /// A value of any other kind: a float, a boolean, a date, an array or a table.
    Other,
}

/// A [`Field`] as a mathematical value.
pub enum FieldView {
    Absent,
    Scalar(ScalarView),
    Other,
}

impl View for Field {
    type V = FieldView;

    open spec fn view(&self) -> FieldView {
        match self {
            Field::Absent => FieldView::Absent,
            Field::Scalar(scalar) => FieldView::Scalar(scalar@),
            Field::Other => FieldView::Other,
        }
    }
}

/// The keys of a document's top-level table, each with the scalar it holds,
/// or with `None` where it holds a value of another kind.
pub type Fields = Map<Seq<char>, Option<ScalarView>>;

/// Keys and scalars in the order in which they are written to a document.
pub type Entries = Seq<(Seq<char>, ScalarView)>;

/// What `fields` holds under `key`.
pub open spec fn field_at(fields: Fields, key: Seq<char>) -> FieldView {
    if !fields.contains_key(key) {
        FieldView::Absent
    } else {
        match fields[key] {
            Some(scalar) => FieldView::Scalar(scalar),
            None => FieldView::Other,
        }
    }
}

/// The table that holds the given entries and no others, a later entry
/// taking the place of an earlier one with the same key.
pub open spec fn fields_of(entries: Entries) -> Fields
    decreases entries.len(),
{
    if entries.len() == 0 {
        Map::empty()
    } else {
        fields_of(entries.drop_last()).insert(entries.last().0, Some(entries.last().1))
    }
}

/// The entries of a list of keys and scalars, each by its view.
pub open spec fn entries_view(entries: Seq<(String, Scalar)>) -> Entries {
    entries.map_values(|entry: (String, Scalar)| (entry.0@, entry.1@))
}

/// Whether the `length` characters of `text` from `start` on are all `quote`.
pub open spec fn is_run(text: Seq<char>, start: int, length: int, quote: char) -> bool {
    &&& 0 <= start
    &&& start + length <= text.len()
    &&& forall|at: int| start <= at < start + length ==> text[at] == quote
}

/// Whether `text` holds `length` characters `quote` in a row somewhere.
pub open spec fn has_run(text: Seq<char>, length: int, quote: char) -> bool {
    exists|start: int| is_run(text, start, length, quote)
}

/// The number of equal quote characters in a row that is one too many for
/// the writer of strings: it counts them in a byte.
pub const QUOTE_RUN_LIMIT: usize = 256;

/// Whether a string can be written: it holds neither [`QUOTE_RUN_LIMIT`]
/// apostrophes in a row nor as many double quotes in a row.
pub open spec fn quote_runs_are_short(text: Seq<char>) -> bool {
    &&& !has_run(text, QUOTE_RUN_LIMIT as int, '\'')
    &&& !has_run(text, QUOTE_RUN_LIMIT as int, '"')
}

/// Whether every string among the entries can be written. Keys and
/// integers are written whatever they are.
pub open spec fn renders_safely(entries: Entries) -> bool {
    forall|at: int|
        0 <= at < entries.len() ==> (#[trigger] entries[at].1 matches ScalarView::Text(text)
            ==> quote_runs_are_short(text))
}

/// Whether `text` holds [`QUOTE_RUN_LIMIT`] characters `quote` in a row.
fn holds_long_run(text: &str, quote: char) -> (found: bool)
    ensures
        found == has_run(text@, QUOTE_RUN_LIMIT as int, quote),
{
    broadcast use vstd::string::axiom_spec_iter;

    let mut run: usize = 0;
    for c in iter: text.chars()
        invariant
            iter.seq() == text@,
            run < QUOTE_RUN_LIMIT,
            is_run(text@, iter.index() - run, run as int, quote),
            iter.index() - run > 0 ==> text@[iter.index() - run - 1] != quote,
            forall|start: int| #[trigger]
                is_run(text@, start, QUOTE_RUN_LIMIT as int, quote) ==> start + QUOTE_RUN_LIMIT
                    > iter.index(),
    {
        let ghost at = iter.index();
        if c == quote {
            run = run + 1;
            if run == QUOTE_RUN_LIMIT {
                assert(is_run(text@, at + 1 - run, QUOTE_RUN_LIMIT as int, quote));
                return true;
            }
            assert forall|start: int| #[trigger]
                is_run(text@, start, QUOTE_RUN_LIMIT as int, quote) implies start
                + QUOTE_RUN_LIMIT > at + 1 by {
                if start + QUOTE_RUN_LIMIT == at + 1 {
                    // Such a run would hold the character before the current run,
                    // which is no quote.
                    assert(text@[at - run] != quote);
                }
            }
        } else {
            run = 0;
            assert forall|start: int| #[trigger]
                is_run(text@, start, QUOTE_RUN_LIMIT as int, quote) implies start
                + QUOTE_RUN_LIMIT > at + 1 by {
                if start + QUOTE_RUN_LIMIT == at + 1 {
                    assert(text@[at] != quote);
                }
            }
        }
    }
    false
}

/// Whether a string can be written: see [`quote_runs_are_short`].
pub fn quote_runs_stay_short(text: &str) -> (short: bool)
    ensures
        short == quote_runs_are_short(text@),
{
    !holds_long_run(text, '\'') && !holds_long_run(text, '"')
}

/// The table of a TOML document, as the `toml` crate holds it:
/// `toml::map::Map`, which `toml::Table` is with strings for keys and
/// `toml::Value` for values. Nothing inside it is visible here.
#[verifier::external_type_specification]
#[verifier::external_body]
#[verifier::reject_recursive_types(K)]
#[verifier::reject_recursive_types(V)]
pub struct ExTable<K, V>(toml::map::Map<K, V>);

/// A value in a table of the `toml` crate: `toml::Value`. Nothing inside it
/// is visible here.
#[verifier::external_type_specification]
#[verifier::external_body]
pub struct ExValue(toml::Value);

/// The top-level table of a parsed document: what `toml::map::Map::get`
/// finds under each key.
pub uninterp spec fn document_fields(document: toml::Table) -> Fields;

/// The top-level table that `toml::from_str` reads from a text, or `None`
/// where it refuses the text as no TOML document.
pub uninterp spec fn parsed_fields(text: Seq<char>) -> Option<Fields>;

/// The text that `toml::to_string_pretty` writes for a table that was filled
/// with the given entries in the given order, or `None` where it refuses them.
pub uninterp spec fn rendered(entries: Entries) -> Option<Seq<char>>;

/// Calls `toml::from_str` for a `toml::Table`. Believed: the table comes
/// back exactly where the text parses, and it is the one that
/// [`parsed_fields`] names for that text.
#[verifier::external_body]
pub(crate) fn parse_document(text: &str) -> (document: Option<toml::Table>)
    ensures
        match document {
            Some(parsed) => parsed_fields(text@) == Some(document_fields(parsed)),
            None => parsed_fields(text@) is None,
        },
{
    toml::from_str::<toml::Table>(text).ok()
}

/// Calls `toml::map::Map::get`. Believed: the result tells whether the
/// table has the key and, where the value under it is an integer or a
/// string, which one; every other kind of value comes back as
/// [`Field::Other`].
#[verifier::external_body]
pub(crate) fn lookup(document: &toml::Table, key: &str) -> (field: Field)
    ensures
        field@ == field_at(document_fields(*document), key@),
{
    match document.get(key) {
        None => Field::Absent,
        Some(toml::Value::Integer(number)) => Field::Scalar(Scalar::Integer(*number)),
        Some(toml::Value::String(text)) => Field::Scalar(Scalar::Text(text.clone())),
        Some(_) => Field::Other,
    }
}

/// Collects the entries into a `toml::Table` and calls
/// `toml::to_string_pretty` on it. Believed: the text is the one that
/// [`rendered`] names for these entries in this order. The call counts the
/// quote characters that stand in a row in a string in a byte, and may
/// panic where that byte overflows: such strings are left out.
#[verifier::external_body]
pub(crate) fn render(entries: &Vec<(String, Scalar)>) -> (text: Option<String>)
    requires
        renders_safely(entries_view(entries@)),
    ensures
        match text {
            Some(written) => rendered(entries_view(entries@)) == Some(written@),
            None => rendered(entries_view(entries@)) is None,
        },
{
    let table: toml::Table = entries
        .iter()
        .map(|(key, scalar)| match scalar {
            Scalar::Integer(number) => (key.clone(), toml::Value::Integer(*number)),
            Scalar::Text(text) => (key.clone(), toml::Value::String(text.clone())),
        })
        .collect();
    toml::to_string_pretty(&table).ok()
}

} // verus!
