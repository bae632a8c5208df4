//! The locations file: a TOML document in which each top-level key names a
//! place and holds a table with a `latitude` and a `longitude`.

use vstd::prelude::*;
use crate::error::{Axis, Failure};
use crate::structs::{Location, Place};

verus! {

/// `toml::map::Map`, of which `toml::Table` is the one with `String` keys and
/// `toml::Value` values. Nothing inside it is seen from here.
#[verifier::external_type_specification]
#[verifier::external_body]
#[verifier::reject_recursive_types(K)]
#[verifier::reject_recursive_types(V)]
pub struct ExTomlMap<K, V>(toml::map::Map<K, V>);

/// `toml::Value`. Nothing inside it is seen from here.
#[verifier::external_type_specification]
#[verifier::external_body]
pub struct ExTomlValue(toml::Value);

/// `toml::de::Error`, the reason why a text is no TOML document.
#[verifier::external_type_specification]
#[verifier::external_body]
pub struct ExTomlError(toml::de::Error);

/// The kinds of TOML value.
#[derive(Debug, Clone, Copy, PartialEq, Eq, Structural)]
pub enum ValueKind {
    Text,
    Integer,
    Float,
    Boolean,
    Datetime,
    Array,
    Table,
}

/// What a TOML value holds as fields: for a table, each of its keys with the
/// kind of the key's value and the text that `toml` writes for that value; for
/// any other value, nothing. The text is read only of a number, which `toml`
/// can always write.
pub uninterp spec fn value_fields(value: toml::Value) -> Map<Seq<char>, (ValueKind, Seq<char>)>;

/// What a TOML table holds, as far as this library reads it: for each of its
/// keys, in the table's own order, the key and the `value_fields` of the
/// key's value.
pub uninterp spec fn table_entries(table: toml::map::Map<String, toml::Value>) -> Seq<
    (Seq<char>, Map<Seq<char>, (ValueKind, Seq<char>)>),
>;

/// What `toml` writes of an error with its `Display`.
pub uninterp spec fn complaint_text(error: toml::de::Error) -> Seq<char>;

/// What `toml` reads from a document: the `table_entries` of the table that
/// it builds, or, where it rejects the text, the `complaint_text` of its
/// error.
pub uninterp spec fn toml_document(text: Seq<char>) -> Result<
    Seq<(Seq<char>, Map<Seq<char>, (ValueKind, Seq<char>)>)>,
    Seq<char>,
>;

/// Calls `str::parse` for `toml::Table`, which is `toml::from_str`. The
/// contract names the outcome, and ties the name to what comes back: the
/// table, or the error.
#[verifier::external_body]
fn parse_table(text: &str) -> (parsed: Result<toml::Table, toml::de::Error>)
    ensures
        match parsed {
            Ok(table) => toml_document(text@) == Ok::<
                Seq<(Seq<char>, Map<Seq<char>, (ValueKind, Seq<char>)>)>,
                Seq<char>,
            >(table_entries(table)),
            Err(error) => toml_document(text@) == Err::<
                Seq<(Seq<char>, Map<Seq<char>, (ValueKind, Seq<char>)>)>,
                Seq<char>,
            >(complaint_text(error)),
        },
{
    text.parse()
}

/// Hands out what `toml::map::Map::iter` walks, in its order: each key with
/// its value. The map is a `BTreeMap`, so no key comes twice.
#[verifier::external_body]
fn table_items<'a>(table: &'a toml::Table) -> (items: Vec<(&'a String, &'a toml::Value)>)
    ensures
        items@.len() == table_entries(*table).len(),
        forall|i: int|
            0 <= i < items@.len() ==> (#[trigger] items@[i]).0@ == table_entries(*table)[i].0
                && value_fields(*items@[i].1) == table_entries(*table)[i].1,
        forall|i: int, j: int|
            0 <= i < j < items@.len() ==> (#[trigger] items@[i]).0@ != (#[trigger] items@[j]).0@,
{
    table.iter().collect()
}

/// Looks `field` up with `toml::Value::get`, which finds it only in a table,
/// and says which kind of value it found. Nothing is written here.
#[verifier::external_body]
fn kind_of(value: &toml::Value, field: &str) -> (found: Option<ValueKind>)
    ensures
        match found {
            Some(kind) => value_fields(*value).contains_key(field@) && value_fields(
                *value,
            )[field@].0 == kind,
            None => !value_fields(*value).contains_key(field@),
        },
{
    Some(match value.get(field)? {
        toml::Value::String(_) => ValueKind::Text,
        toml::Value::Integer(_) => ValueKind::Integer,
        toml::Value::Float(_) => ValueKind::Float,
        toml::Value::Boolean(_) => ValueKind::Boolean,
        toml::Value::Datetime(_) => ValueKind::Datetime,
        toml::Value::Array(_) => ValueKind::Array,
        toml::Value::Table(_) => ValueKind::Table,
    })
}

/// Writes the number that `value` holds as `field`, with `toml::Value`'s
/// `Display`. That `Display` gives up on some values that `toml` cannot write,
/// a date without a day among them, but never on an integer or a float: so
/// the field is held to be there, and to be a number.
#[verifier::external_body]
fn number_text(value: &toml::Value, field: &str) -> (text: String)
    requires
        value_fields(*value).contains_key(field@),
        is_number(value_fields(*value)[field@].0),
    ensures
        text@ == value_fields(*value)[field@].1,
{
    value[field].to_string()
}

/// Writes `toml::de::Error` with its `Display`: what `toml` found wrong and
/// where, in its own words.
#[verifier::external_body]
fn complaint(error: &toml::de::Error) -> (detail: String)
    ensures
        detail@ == complaint_text(*error),
{
    error.to_string()
}

/// The locations file that is written where there is none: two places.
pub open spec fn default_config_text() -> Seq<char> {
    "\"Effectsoft G\u{f6}teborg\" = { latitude = 57.960308, longitude = 12.126554 }\n"@
        + "\"Effectsoft Halmstad\" = { latitude = 56.676086, longitude = 12.858977 }\n"@
}

/// The text of the locations file that is written where there is none.
pub fn default_config() -> (text: String)
    ensures
        text@ == default_config_text(),
{
    let mut text = String::from_str(
        "\"Effectsoft G\u{f6}teborg\" = { latitude = 57.960308, longitude = 12.126554 }\n",
    );
    text.append("\"Effectsoft Halmstad\" = { latitude = 56.676086, longitude = 12.858977 }\n");
    text
}

/// Whether a value of this kind is a number: an integer or a float.
pub open spec fn is_number(kind: ValueKind) -> bool {
    kind is Integer || kind is Float
}

/// Whether `fields` hold the coordinate `axis` as a number.
pub open spec fn has_number(fields: Map<Seq<char>, (ValueKind, Seq<char>)>, axis: Axis) -> bool {
    fields.contains_key(axis.key_text()) && is_number(fields[axis.key_text()].0)
}

/// The coordinate that an entry lacks, latitude before longitude, if any. A
/// coordinate that is there but is no number is lacking too.
pub open spec fn missing_axis(fields: Map<Seq<char>, (ValueKind, Seq<char>)>) -> Option<Axis> {
    if !has_number(fields, Axis::Latitude) {
        Some(Axis::Latitude)
    } else if !has_number(fields, Axis::Longitude) {
        Some(Axis::Longitude)
    } else {
        None
    }
}

/// The place that a complete entry stands for: its key, and the text of each
/// coordinate.
pub open spec fn place_of(entry: (Seq<char>, Map<Seq<char>, (ValueKind, Seq<char>)>)) -> Place {
    Place {
        name: entry.0,
        latitude: entry.1[Axis::Latitude.key_text()].1,
        longitude: entry.1[Axis::Longitude.key_text()].1,
    }
}

impl ValueKind {
    /// Whether a value of this kind is a number: an integer or a float.
    pub fn is_number(self) -> (number: bool)
        ensures
            number == is_number(self),
    {
        match self {
            ValueKind::Integer => true,
            ValueKind::Float => true,
            _ => false,
        }
    }
}

/// The text of the coordinate `axis` of an entry, if the entry holds it as a
/// number.
fn number_of(value: &toml::Value, axis: Axis) -> (number: Option<String>)
    ensures
        match number {
            Some(text) => has_number(value_fields(*value), axis) && text@ == value_fields(
                *value,
            )[axis.key_text()].1,
            None => !has_number(value_fields(*value), axis),
        },
{
    match kind_of(value, axis.key()) {
        Some(kind) => if kind.is_number() {
            Some(number_text(value, axis.key()))
        } else {
            None
        },
        None => None,
    }
}

/// Whether no two places have the same name.
pub open spec fn names_differ(places: Seq<Place>) -> bool {
    forall|i: int, j: int|
        0 <= i < j < places.len() ==> (#[trigger] places[i]).name != (#[trigger] places[j]).name
}

/// Whether every entry holds both coordinates as numbers.
pub open spec fn all_complete(entries: Seq<(Seq<char>, Map<Seq<char>, (ValueKind, Seq<char>)>)>) -> bool {
    forall|i: int| 0 <= i < entries.len() ==> missing_axis((#[trigger] entries[i]).1) is None
}

/// The places read from a locations file, in the file's order of keys. No two
/// have the same name, and each has both coordinates.
pub struct LocationStore {
    locations: Vec<Location>,
}

impl View for LocationStore {
    type V = Seq<Place>;

    closed spec fn view(&self) -> Seq<Place> {
        self.locations@.map_values(|location: Location| location@)
    }
}

/// How a table's entries are read. They give a store exactly if all are
/// complete, and then the store holds the place of each, in order, and no
/// name twice. Otherwise the error names the first entry that lacks a
/// coordinate, and the first coordinate that it lacks.
pub open spec fn reads_as(
    entries: Seq<(Seq<char>, Map<Seq<char>, (ValueKind, Seq<char>)>)>,
    read: Result<LocationStore, Failure>,
) -> bool {
    match read {
        Ok(store) => all_complete(entries) && store@ == entries.map_values(
            |entry: (Seq<char>, Map<Seq<char>, (ValueKind, Seq<char>)>)| place_of(entry),
        ) && names_differ(store@),
        Err(Failure::ConfigCoordinate { name, axis }) => exists|at: int|
            0 <= at < entries.len() && all_complete(entries.take(at)) && #[trigger] missing_axis(
                entries[at].1,
            ) == Some(axis) && name@ == entries[at].0,
        Err(_) => false,
    }
}

impl LocationStore {
    #[verifier::type_invariant]
    spec fn no_name_twice(self) -> bool {
        forall|i: int, j: int|
            0 <= i < j < self.locations@.len() ==> (#[trigger] self.locations@[i]).name@
                != (#[trigger] self.locations@[j]).name@
    }

    /// Reads the locations file's text. Fails with `ConfigMalformed` exactly
    /// where `toml` rejects the text, and then with what `toml` says of it;
    /// what it reads is then handled as `from_table` does.
    pub fn parse(text: &str) -> (read: Result<LocationStore, Failure>)
        ensures
            match toml_document(text@) {
                Ok(entries) => reads_as(entries, read),
                Err(words) => read matches Err(Failure::ConfigMalformed { detail }) && detail@
                    == words,
            },
    {
        match parse_table(text) {
            Ok(table) => LocationStore::from_table(&table),
            Err(error) => Err(Failure::ConfigMalformed { detail: complaint(&error) }),
        }
    }

    /// Reads the places from a parsed document, as `reads_as` says.
    pub fn from_table(table: &toml::Table) -> (read: Result<LocationStore, Failure>)
        ensures
            reads_as(table_entries(*table), read),
    {
        let ghost entries = table_entries(*table);
        let items = table_items(table);
        let mut locations: Vec<Location> = Vec::new();
        let mut at: usize = 0;
        while at < items.len()
            invariant
                entries == table_entries(*table),
                items@.len() == entries.len(),
                forall|i: int|
                    0 <= i < items@.len() ==> (#[trigger] items@[i]).0@ == entries[i].0
                        && value_fields(*items@[i].1) == entries[i].1,
                forall|i: int, j: int|
                    0 <= i < j < items@.len() ==> (#[trigger] items@[i]).0@ != (
                    #[trigger] items@[j]).0@,
                at <= items@.len(),
                locations@.len() == at,
                forall|i: int|
                    0 <= i < at ==> missing_axis((#[trigger] entries[i]).1) is None
                        && locations@[i]@ == place_of(entries[i]),
            decreases items@.len() - at,
        {
            let (name, value) = items[at];
            assert(entries[at as int].0 == name@);
            proof {
                assert(entries.take(at as int).len() == at);
                assert forall|i: int| 0 <= i < at implies missing_axis(
                    (#[trigger] entries.take(at as int)[i]).1,
                ) is None by {
                    assert(entries.take(at as int)[i] == entries[i]);
                }
            }
            let latitude = match number_of(value, Axis::Latitude) {
                Some(text) => text,
                None => {
                    assert(missing_axis(entries[at as int].1) == Some(Axis::Latitude));
                    return Err(
                        Failure::ConfigCoordinate { name: name.clone(), axis: Axis::Latitude },
                    );
                },
            };
            let longitude = match number_of(value, Axis::Longitude) {
                Some(text) => text,
                None => {
                    assert(missing_axis(entries[at as int].1) == Some(Axis::Longitude));
                    return Err(
                        Failure::ConfigCoordinate { name: name.clone(), axis: Axis::Longitude },
                    );
                },
            };
            locations.push(Location { name: name.clone(), latitude, longitude });
            at = at + 1;
        }
        proof {
            assert forall|i: int, j: int| 0 <= i < j < locations@.len() implies (
            #[trigger] locations@[i]).name@ != (#[trigger] locations@[j]).name@ by {
                assert(locations@[i]@ == place_of(entries[i]));
                assert(locations@[j]@ == place_of(entries[j]));
                assert(items@[i].0@ == entries[i].0);
                assert(items@[j].0@ == entries[j].0);
            }
        }
        let store = LocationStore { locations };
        proof {
            assert(store@ =~= entries.map_values(
                |entry: (Seq<char>, Map<Seq<char>, (ValueKind, Seq<char>)>)| place_of(entry),
            ));
            assert forall|i: int, j: int| 0 <= i < j < store@.len() implies (#[trigger] store@[i]).name
                != (#[trigger] store@[j]).name by {
                assert(store@[i] == store.locations@[i]@);
                assert(store@[j] == store.locations@[j]@);
            }
        }
        Ok(store)
    }

    /// How many places the store holds.
    pub fn len(&self) -> (count: usize)
        ensures
            count == self@.len(),
    {
        self.locations.len()
    }

    /// The names of the places, in the store's order.
    pub fn names(&self) -> (names: Vec<String>)
        ensures
            names@.len() == self@.len(),
            forall|i: int| 0 <= i < names@.len() ==> (#[trigger] names@[i])@ == self@[i].name,
    {
        let mut names: Vec<String> = Vec::new();
        let mut at: usize = 0;
        while at < self.locations.len()
            invariant
                at <= self.locations@.len(),
                names@.len() == at,
                forall|i: int|
                    0 <= i < at ==> (#[trigger] names@[i])@ == self.locations@[i].name@,
            decreases self.locations@.len() - at,
        {
            names.push(self.locations[at].name.clone());
            at = at + 1;
        }
        names
    }

    /// The place called `name`: exactly as stored where the store has one of
    /// that name, and `UnknownLocation` with the name where it has none.
    pub fn resolve(&self, name: &str) -> (found: Result<&Location, Failure>)
        ensures
            forall|i: int|
                0 <= i < self@.len() && (#[trigger] self@[i]).name == name@ ==> (found matches Ok(
                    location,
                ) && location@ == self@[i]),
            (forall|i: int| 0 <= i < self@.len() ==> (#[trigger] self@[i]).name != name@) ==> (
            found matches Err(Failure::UnknownLocation { name: unknown }) && unknown@ == name@),
    {
        let wanted = String::from_str(name);
        let mut at: usize = 0;
        while at < self.locations.len()
            invariant
                wanted@ == name@,
                at <= self.locations@.len(),
                forall|i: int| 0 <= i < at ==> (#[trigger] self.locations@[i]).name@ != name@,
            decreases self.locations@.len() - at,
        {
            if self.locations[at].name == wanted {
                proof {
                    use_type_invariant(self);
                    assert forall|i: int|
                        0 <= i < self@.len() && (#[trigger] self@[i]).name == name@ implies i
                        == at by {
                        assert(self@[i] == self.locations@[i]@);
                    }
                    assert(self@[at as int] == self.locations@[at as int]@);
                }
                return Ok(&self.locations[at]);
            }
            at = at + 1;
        }
        proof {
            assert forall|i: int| 0 <= i < self@.len() implies (#[trigger] self@[i]).name
                != name@ by {
                assert(self@[i] == self.locations@[i]@);
            }
        }
        Err(Failure::UnknownLocation { name: wanted })
    }
}

} // verus!
