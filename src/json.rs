use vstd::prelude::*;

verus! {

/// A JSON value as the protocol exchanges it. Numbers that fit an `i64` are held
/// exactly; any other number keeps its JSON text.
#[derive(Debug, PartialEq)]
pub enum JsonValue {
    Null,
    Bool(bool),
    Integer(i64),
    Decimal(String),
    Str(String),
    Array(Vec<JsonValue>),
    Object(Vec<(String, JsonValue)>),
}

/// The value of the first field named `key`, if any.
pub open spec fn field_of(fields: Seq<(String, JsonValue)>, key: Seq<char>) -> Option<JsonValue>
    decreases fields.len(),
{
    if fields.len() == 0 {
        None
    } else if fields[0].0@ == key {
        Some(fields[0].1)
    } else {
        field_of(fields.drop_first(), key)
    }
}

/// The member `key` of an object; nothing for any other value.
pub open spec fn member(v: JsonValue, key: Seq<char>) -> Option<JsonValue> {
    match v {
        JsonValue::Object(fields) => field_of(fields@, key),
        _ => None,
    }
}

/// The characters of a JSON string.
pub open spec fn text_of(v: JsonValue) -> Option<Seq<char>> {
    match v {
        JsonValue::Str(s) => Some(s@),
        _ => None,
    }
}

proof fn lemma_field_of_index(fields: Seq<(String, JsonValue)>, key: Seq<char>, i: int)
    requires
        0 <= i < fields.len(),
        fields[i].0@ == key,
        forall|j: int| 0 <= j < i ==> fields[j].0@ != key,
    ensures
        field_of(fields, key) == Some(fields[i].1),
    decreases i,
{
    if i > 0 {
        lemma_field_of_index(fields.drop_first(), key, i - 1);
    }
}

proof fn lemma_field_of_absent(fields: Seq<(String, JsonValue)>, key: Seq<char>)
    requires
        forall|j: int| 0 <= j < fields.len() ==> fields[j].0@ != key,
    ensures
        field_of(fields, key) is None,
    decreases fields.len(),
{
    if fields.len() > 0 {
        lemma_field_of_absent(fields.drop_first(), key);
    }
}

impl JsonValue {
    /// Where the first field named `key` stands, if any.
    fn position(fields: &Vec<(String, JsonValue)>, key: &str) -> (r: Option<usize>)
        ensures
            field_of(fields@, key@) is None <==> r is None,
            r matches Some(i) ==> i < fields@.len() && field_of(fields@, key@) == Some(
                fields@[i as int].1,
            ),
    {
        let k = key.to_owned();
        let mut i: usize = 0;
        while i < fields.len()
            invariant
                i <= fields@.len(),
                k@ == key@,
                forall|j: int| 0 <= j < i ==> fields@[j].0@ != key@,
            decreases fields@.len() - i,
        {
            if fields[i].0 == k {
                proof {
                    lemma_field_of_index(fields@, key@, i as int);
                }
                return Some(i);
            }
            i = i + 1;
        }
        proof {
            lemma_field_of_absent(fields@, key@);
        }
        None
    }

    /// Looks up the member `key` of an object.
    pub fn get(&self, key: &str) -> (r: Option<&JsonValue>)
        ensures
            r is Some <==> member(*self, key@) is Some,
            r matches Some(v) ==> *v == member(*self, key@)->0,
    {
        match self {
            JsonValue::Object(fields) => match JsonValue::position(fields, key) {
                Some(i) => Some(&fields[i].1),
                None => None,
            },
            _ => None,
        }
    }

    /// Takes the member `key` out of an object.
    pub fn into_member(self, key: &str) -> (r: Option<JsonValue>)
        ensures
            r == member(self, key@),
    {
        match self {
            JsonValue::Object(fields) => match JsonValue::position(&fields, key) {
                Some(i) => {
                    let mut fields = fields;
                    let (_, v) = fields.remove(i);
                    Some(v)
                },
                None => None,
            },
            _ => None,
        }
    }

    /// The string held by a JSON string.
    pub fn as_str(&self) -> (r: Option<&String>)
        ensures
            r is Some <==> text_of(*self) is Some,
            r matches Some(s) ==> s@ == text_of(*self)->0,
    {
        match self {
            JsonValue::Str(s) => Some(s),
            _ => None,
        }
    }
}

} // verus!
