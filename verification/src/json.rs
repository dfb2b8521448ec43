//! JSON messages: the `serde_json` values and the `hashbrown` map that hold them, and a
//! mathematical model of what they contain.
use vstd::prelude::*;

verus! {

/// What a JSON value holds. A number is told apart only by whether it is a natural number of
/// at most 64 bits, and which.
pub enum Json {
    Null,
    Bool(bool),
    Number(Option<u64>),
    Text(Seq<char>),
    Array(Seq<Json>),
    Object(Map<Seq<char>, Json>),
}

impl Json {
    /// The natural number that the value is, if it is one.
    pub open spec fn unsigned(self) -> Option<u64> {
        match self {
            Json::Number(n) => n,
            _ => None,
        }
    }

    /// Neither a container nor a number outside the natural numbers of 64 bits.
    pub open spec fn is_scalar(self) -> bool {
        match self {
            Json::Null => true,
            Json::Bool(_) => true,
            Json::Number(n) => n is Some,
            Json::Text(_) => true,
            Json::Array(_) => false,
            Json::Object(_) => false,
        }
    }

    /// A scalar, or an object of scalars.
    pub open spec fn is_shallow(self) -> bool {
        match self {
            Json::Object(fields) => forall|key: Seq<char>|
                fields.contains_key(key) ==> (#[trigger] fields[key]).is_scalar(),
            _ => self.is_scalar(),
        }
    }
}

/// The contents of a message or an object without fields.
pub open spec fn no_fields() -> Map<Seq<char>, Json> {
    Map::empty()
}

/// Every field of the message is a scalar or an object of scalars.
pub open spec fn is_shallow_message(fields: Map<Seq<char>, Json>) -> bool {
    forall|key: Seq<char>| fields.contains_key(key) ==> (#[trigger] fields[key]).is_shallow()
}

/// `serde_json::Value`: one JSON value.
#[verifier::external_type_specification]
#[verifier::external_body]
pub struct ExValue(serde_json::Value);

/// `serde_json::Map`: the members of a JSON object.
#[verifier::external_type_specification]
#[verifier::external_body]
#[verifier::reject_recursive_types(K)]
#[verifier::reject_recursive_types(V)]
pub struct ExObject<K, V>(serde_json::Map<K, V>);

/// `serde_json::Error`: why a text is not the JSON that was asked for.
#[verifier::external_type_specification]
#[verifier::external_body]
pub struct ExError(serde_json::Error);

/// What a `serde_json::Value` holds.
pub uninterp spec fn value_contents(value: serde_json::Value) -> Json;

/// What a `serde_json::Map` from names to values holds.
pub uninterp spec fn object_contents(
    object: serde_json::Map<String, serde_json::Value>,
) -> Map<Seq<char>, Json>;

/// `serde_json::Value::as_u64`: the number, if the value is a number that was read or made as
/// a natural number of 64 bits.
pub assume_specification[ serde_json::Value::as_u64 ](value: &serde_json::Value) -> (number: Option<
    u64,
>)
    ensures
        number == value_contents(*value).unsigned(),
;

/// `serde_json::Value::as_str`: the text, if the value is a string.
pub assume_specification[ serde_json::Value::as_str ](value: &serde_json::Value) -> (text: Option<
    &str,
>)
    ensures
        text is Some <==> value_contents(*value) is Text,
        text matches Some(t) ==> value_contents(*value) == Json::Text(t@),
;

/// `serde_json::Value::as_object`: the members, if the value is an object.
pub assume_specification[ serde_json::Value::as_object ](value: &serde_json::Value) -> (object:
    Option<&serde_json::Map<String, serde_json::Value>>)
    ensures
        object is Some <==> value_contents(*value) is Object,
        object matches Some(o) ==> value_contents(*value) == Json::Object(object_contents(*o)),
;

/// `serde_json::Map::new`: an object without members.
pub assume_specification[ serde_json::Map::<String, serde_json::Value>::new ]() -> (object:
    serde_json::Map<String, serde_json::Value>)
    ensures
        object_contents(object) == no_fields(),
;

/// `serde_json::Map::insert`: sets the member of that name, and hands back the value that it
/// had before.
pub assume_specification[ serde_json::Map::<String, serde_json::Value>::insert ](
    object: &mut serde_json::Map<String, serde_json::Value>,
    name: String,
    value: serde_json::Value,
) -> (previous: Option<serde_json::Value>)
    ensures
        object_contents(*final(object)) == object_contents(*old(object)).insert(
            name@,
            value_contents(value),
        ),
        previous is Some <==> object_contents(*old(object)).contains_key(name@),
        previous matches Some(p) ==> value_contents(p) == object_contents(*old(object))[name@],
;

/// `serde_json::Map::get`: the value of the member of that name, if there is one.
#[verifier::external_body]
pub(crate) fn object_get<'a>(
    object: &'a serde_json::Map<String, serde_json::Value>,
    name: &str,
) -> (value: Option<&'a serde_json::Value>)
    ensures
        value is Some <==> object_contents(*object).contains_key(name@),
        value matches Some(v) ==> value_contents(*v) == object_contents(*object)[name@],
{
    object.get(name)
}

/// `serde_json::Value::from` on a byte: the number that the byte is.
#[verifier::external_body]
pub(crate) fn number_value(number: u8) -> (value: serde_json::Value)
    ensures
        value_contents(value) == Json::Number(Some(number as u64)),
{
    serde_json::Value::from(number)
}

/// `serde_json::Value::from` on a text: the string of that text.
#[verifier::external_body]
pub(crate) fn text_value(text: &str) -> (value: serde_json::Value)
    ensures
        value_contents(value) == Json::Text(text@),
{
    serde_json::Value::from(text)
}

/// `serde_json::Value::from` on a map: the object with those members.
#[verifier::external_body]
pub(crate) fn object_value(object: serde_json::Map<String, serde_json::Value>) -> (value:
    serde_json::Value)
    ensures
        value_contents(value) == Json::Object(object_contents(object)),
{
    serde_json::Value::from(object)
}

/// A JSON message: named values, held in a `hashbrown::HashMap`.
#[verifier::external_body]
pub struct Message {
    fields: hashbrown::HashMap<String, serde_json::Value>,
}

/// What a message holds: the value of each name.
pub uninterp spec fn message_contents(message: Message) -> Map<Seq<char>, Json>;

/// The message that a text is the JSON of, as `serde_json::from_str` reads it into a
/// `hashbrown::HashMap` from names to values; `None` where it reports an error.
pub uninterp spec fn parsed_message(text: Seq<char>) -> Option<Map<Seq<char>, Json>>;

impl View for Message {
    type V = Map<Seq<char>, Json>;

    open spec fn view(&self) -> Map<Seq<char>, Json> {
        message_contents(*self)
    }
}

impl Message {
    /// `hashbrown::HashMap::new`: a message without fields.
    #[verifier::external_body]
    pub(crate) fn new() -> (message: Message)
        ensures
            message_contents(message) == no_fields(),
    {
        Message { fields: hashbrown::HashMap::new() }
    }

    /// `hashbrown::HashMap::insert`: sets the field of that name, and hands back the value
    /// that it had before.
    #[verifier::external_body]
    pub(crate) fn insert(&mut self, name: String, value: serde_json::Value) -> (previous: Option<
        serde_json::Value,
    >)
        ensures
            message_contents(*final(self)) == message_contents(*old(self)).insert(
                name@,
                value_contents(value),
            ),
            previous is Some <==> message_contents(*old(self)).contains_key(name@),
            previous matches Some(p) ==> value_contents(p) == message_contents(*old(self))[name@],
    {
        self.fields.insert(name, value)
    }

    /// `hashbrown::HashMap::remove`: takes the field of that name out, and hands back the value
    /// that it had.
    #[verifier::external_body]
    pub(crate) fn remove(&mut self, name: &str) -> (removed: Option<serde_json::Value>)
        ensures
            message_contents(*final(self)) == message_contents(*old(self)).remove(name@),
            removed is Some <==> message_contents(*old(self)).contains_key(name@),
            removed matches Some(r) ==> value_contents(r) == message_contents(*old(self))[name@],
    {
        self.fields.remove(name)
    }

    /// `hashbrown::HashMap::get`: the value of the field of that name, if there is one.
    #[verifier::external_body]
    pub(crate) fn get(&self, name: &str) -> (value: Option<&serde_json::Value>)
        ensures
            value is Some <==> message_contents(*self).contains_key(name@),
            value matches Some(v) ==> value_contents(*v) == message_contents(*self)[name@],
    {
        self.fields.get(name)
    }

    /// `serde_json::from_str`: reads a JSON object into a message.
    #[verifier::external_body]
    pub(crate) fn from_json(text: &str) -> (message: Result<Message, serde_json::Error>)
        ensures
            message is Ok <==> parsed_message(text@) is Some,
            message matches Ok(m) ==> parsed_message(text@) == Some(message_contents(m)),
    {
        match serde_json::from_str(text) {
            Ok(fields) => Ok(Message { fields }),
            Err(error) => Err(error),
        }
    }

    /// `serde_json::to_string`: writes the message as a JSON object. A message of scalars and
    /// of objects of scalars is read back from the text as it was. In what order the fields
    /// come is left open, as it is the order in which the map is walked; so is what is read
    /// back of deeper values and of other numbers.
    #[verifier::external_body]
    pub(crate) fn to_json(&self) -> (text: Result<String, serde_json::Error>)
        ensures
            text is Ok,
            is_shallow_message(message_contents(*self)) ==> parsed_message(text->Ok_0@) == Some(
                message_contents(*self),
            ),
    {
        serde_json::to_string(&self.fields)
    }
}

} // verus!
