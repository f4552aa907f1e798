//! The values that the device exchanges with Astarte.

use vstd::prelude::*;

use crate::string_map::StringMap;
use crate::uuids::parse_uuid;

verus! {

/// A value of an Astarte mapping.
#[derive(Debug)]
pub enum AstarteType {
    String(String),
    Boolean(bool),
    Integer(i32),
    LongInteger(i64),
    StringArray(Vec<String>),
    /// A value of any other Astarte type, which nothing here reads.
    Other,
}

/// An Astarte value as a mathematical value.
pub enum AstarteTypeView {
    String(Seq<char>),
    Boolean(bool),
    Integer(i32),
    LongInteger(i64),
    StringArray(Seq<Seq<char>>),
    Other,
}

/// The texts of a list of strings.
pub open spec fn texts(strings: Seq<String>) -> Seq<Seq<char>> {
    strings.map_values(|s: String| s@)
}

impl View for AstarteType {
    type V = AstarteTypeView;

    open spec fn view(&self) -> AstarteTypeView {
        match self {
            AstarteType::String(s) => AstarteTypeView::String(s@),
            AstarteType::Boolean(b) => AstarteTypeView::Boolean(*b),
            AstarteType::Integer(i) => AstarteTypeView::Integer(*i),
            AstarteType::LongInteger(i) => AstarteTypeView::LongInteger(*i),
            AstarteType::StringArray(a) => AstarteTypeView::StringArray(texts(a@)),
            AstarteType::Other => AstarteTypeView::Other,
        }
    }
}

impl AstarteType {
    /// The text of a string value.
    pub open spec fn text(self) -> Option<Seq<char>> {
        match self {
            AstarteType::String(s) => Some(s@),
            _ => None,
        }
    }

    /// The text of a string value.
    pub fn as_text(&self) -> (text: Option<&String>)
        ensures
            match text {
                Some(t) => self.text() == Some(t@),
                None => self.text() is None,
            },
    {
        match self {
            AstarteType::String(s) => Some(s),
            _ => None,
        }
    }
}

/// The text that an object holds under a key, where it holds a string there.
pub open spec fn text_at(data: Map<Seq<char>, AstarteType>, key: Seq<char>) -> Option<Seq<char>> {
    if data.contains_key(key) {
        data[key].text()
    } else {
        None
    }
}

/// The identifier that an object holds as text under a key.
pub open spec fn uuid_at(data: Map<Seq<char>, AstarteType>, key: Seq<char>) -> Option<u128> {
    match text_at(data, key) {
        Some(text) => crate::uuids::uuid_parsed(text),
        None => None,
    }
}

/// Reads the text that an object holds under a key.
pub(crate) fn read_text<'a>(data: &'a StringMap<AstarteType>, key: &str) -> (text: Option<
    &'a String,
>)
    ensures
        match text {
            Some(t) => text_at(data@, key@) == Some(t@),
            None => text_at(data@, key@) is None,
        },
{
    match data.get(key) {
        Some(value) => value.as_text(),
        None => None,
    }
}

/// Reads the identifier that an object holds as text under a key.
pub(crate) fn read_uuid(data: &StringMap<AstarteType>, key: &str) -> (uuid: Option<u128>)
    ensures
        uuid == uuid_at(data@, key@),
{
    match read_text(data, key) {
        Some(text) => parse_uuid(text.as_str()),
        None => None,
    }
}

/// What an event from Astarte carries: one value, an object, or the unset of a
/// property.
#[derive(Debug)]
pub enum Value {
    Individual(AstarteType),
    Object(StringMap<AstarteType>),
    Unset,
}

/// An event that the device received from Astarte.
#[derive(Debug)]
pub struct DeviceEvent {
    pub interface: String,
    pub path: String,
    pub data: Value,
}

} // verus!
