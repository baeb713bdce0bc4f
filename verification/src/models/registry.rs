//! A key-value store of settings.
use vstd::prelude::*;
use crate::date::{Timestamp, utc_now};
use crate::error::{ErrorKind, PayrollError};
use crate::text::{
    char_alphanumeric, char_at, char_count, i64_text, int_text, is_alphanumeric, law_i64_text_parses, parse_i64,
    parsed_i64, push_str, str_eq, text_trim, to_owned_string, trim,
};

verus! {

/// What parsing a text as JSON gives: the value written back as compact
/// JSON text (`serde_json::Value`'s `to_string`), or the parser's message.
pub uninterp spec fn json_reparse(s: Seq<char>) -> Result<Seq<char>, Seq<char>>;

/// `serde_json::from_str::<serde_json::Value>`, the value written back
/// with `to_string`, or the error's text.  The result is a function of the
/// text alone.
#[verifier::external_body]
fn reparse_json(s: &str) -> (r: Result<String, String>)
    ensures
        match r {
            Ok(t) => json_reparse(s@) == Ok::<Seq<char>, Seq<char>>(t@),
            Err(e) => json_reparse(s@) == Err::<Seq<char>, Seq<char>>(e@),
        },
{
    match serde_json::from_str::<serde_json::Value>(s) {
        Ok(v) => Ok(v.to_string()),
        Err(e) => Err(e.to_string()),
    }
}

/// A stored setting.  A JSON value is held as its compact JSON text.
#[derive(Debug, Clone, PartialEq)]
pub enum RegistryValue {
    String(String),
    Integer(i64),
    Boolean(bool),
    Json(String),
}

/// `str::parse::<bool>`: exactly `true` or `false`.
pub open spec fn parsed_bool(s: Seq<char>) -> Option<bool> {
    if s == "true"@ {
        Some(true)
    } else if s == "false"@ {
        Some(false)
    } else {
        None
    }
}

pub fn parse_bool(s: &str) -> (r: Option<bool>)
    ensures
        r == parsed_bool(s@),
{
    if str_eq(s, "true") {
        Some(true)
    } else if str_eq(s, "false") {
        Some(false)
    } else {
        None
    }
}

pub open spec fn bool_text(b: bool) -> Seq<char> {
    if b {
        "true"@
    } else {
        "false"@
    }
}

proof fn lemma_type_names_distinct()
    ensures
        "String"@ != "Integer"@,
        "String"@ != "Boolean"@,
        "String"@ != "Json"@,
        "Integer"@ != "Boolean"@,
        "Integer"@ != "Json"@,
        "Boolean"@ != "Json"@,
{
    reveal_strlit("String");
    reveal_strlit("Integer");
    reveal_strlit("Boolean");
    reveal_strlit("Json");
    assert("String"@.len() == 6);
    assert("Integer"@.len() == 7);
    assert("Boolean"@.len() == 7);
    assert("Json"@.len() == 4);
    assert("Integer"@[0] != "Boolean"@[0]);
}

/// `r` is what the text `value` of a value of type `value_type` reads as.
pub open spec fn parses_as(value: Seq<char>, value_type: Seq<char>, r: RegistryValue) -> bool {
    if value_type == "String"@ {
        r matches RegistryValue::String(s) && s@ == value
    } else if value_type == "Integer"@ {
        parsed_i64(value) matches Some(i) && r == RegistryValue::Integer(i)
    } else if value_type == "Boolean"@ {
        parsed_bool(value) matches Some(b) && r == RegistryValue::Boolean(b)
    } else if value_type == "Json"@ {
        json_reparse(value) matches Ok(t) && (r matches RegistryValue::Json(j) && j@ == t)
    } else {
        false
    }
}

impl RegistryValue {
    pub open spec fn type_text(self) -> Seq<char> {
        match self {
            RegistryValue::String(_) => "String"@,
            RegistryValue::Integer(_) => "Integer"@,
            RegistryValue::Boolean(_) => "Boolean"@,
            RegistryValue::Json(_) => "Json"@,
        }
    }

    /// The name of the value's type: `String`, `Integer`, `Boolean` or `Json`.
    pub fn value_type_name(&self) -> (r: &'static str)
        ensures
            r@ == self.type_text(),
    {
        match self {
            RegistryValue::String(_) => "String",
            RegistryValue::Integer(_) => "Integer",
            RegistryValue::Boolean(_) => "Boolean",
            RegistryValue::Json(_) => "Json",
        }
    }

    /// The value's text as it is stored.
    pub open spec fn text(self) -> Seq<char> {
        match self {
            RegistryValue::String(s) => s@,
            RegistryValue::Integer(i) => int_text(i as int),
            RegistryValue::Boolean(b) => bool_text(b),
            RegistryValue::Json(j) => j@,
        }
    }

    /// The value as text: strings as they are, integers in decimal,
    /// booleans as `true`/`false`, JSON as compact JSON.
    pub fn to_string_value(&self) -> (r: String)
        ensures
            r@ == self.text(),
    {
        match self {
            RegistryValue::String(s) => to_owned_string(s.as_str()),
            RegistryValue::Integer(i) => i64_text(*i),
            RegistryValue::Boolean(b) => {
                if *b {
                    to_owned_string("true")
                } else {
                    to_owned_string("false")
                }
            },
            RegistryValue::Json(j) => to_owned_string(j.as_str()),
        }
    }

    /// A value from its stored text and the name of its type.
    pub fn from_string_and_type(value: &str, value_type: &str) -> (r: Result<RegistryValue, PayrollError>)
        ensures
            r matches Ok(x) ==> parses_as(value@, value_type@, x),
            value_type@ == "String"@ ==> (r matches Ok(RegistryValue::String(s)) && s@ == value@),
            value_type@ == "Integer"@ ==> match parsed_i64(value@) {
                Some(i) => (r matches Ok(RegistryValue::Integer(j)) && j == i),
                None => r is Err && r->Err_0.is(
                    ErrorKind::ValidationError,
                    "Invalid integer value: "@ + value@,
                ),
            },
            value_type@ == "Boolean"@ ==> match parsed_bool(value@) {
                Some(b) => (r matches Ok(RegistryValue::Boolean(c)) && c == b),
                None => r is Err && r->Err_0.is(
                    ErrorKind::ValidationError,
                    "Invalid boolean value: "@ + value@,
                ),
            },
            value_type@ == "Json"@ ==> match json_reparse(value@) {
                Ok(t) => (r matches Ok(RegistryValue::Json(j)) && j@ == t),
                Err(e) => r is Err && r->Err_0.is(
                    ErrorKind::ValidationError,
                    "Invalid JSON value: "@ + e,
                ),
            },
            !(value_type@ == "String"@ || value_type@ == "Integer"@ || value_type@ == "Boolean"@
                || value_type@ == "Json"@) ==> r is Err && r->Err_0.is(
                ErrorKind::ValidationError,
                "Unknown value type: "@ + value_type@,
            ),
    {
        proof {
            lemma_type_names_distinct();
        }
        if str_eq(value_type, "String") {
            Ok(RegistryValue::String(to_owned_string(value)))
        } else if str_eq(value_type, "Integer") {
            match parse_i64(value) {
                Some(i) => Ok(RegistryValue::Integer(i)),
                None => {
                    let mut msg = to_owned_string("Invalid integer value: ");
                    push_str(&mut msg, value);
                    Err(PayrollError::ValidationError(msg))
                },
            }
        } else if str_eq(value_type, "Boolean") {
            match parse_bool(value) {
                Some(b) => Ok(RegistryValue::Boolean(b)),
                None => {
                    let mut msg = to_owned_string("Invalid boolean value: ");
                    push_str(&mut msg, value);
                    Err(PayrollError::ValidationError(msg))
                },
            }
        } else if str_eq(value_type, "Json") {
            match reparse_json(value) {
                Ok(t) => Ok(RegistryValue::Json(t)),
                Err(e) => {
                    let mut msg = to_owned_string("Invalid JSON value: ");
                    push_str(&mut msg, e.as_str());
                    Err(PayrollError::ValidationError(msg))
                },
            }
        } else {
            let mut msg = to_owned_string("Unknown value type: ");
            push_str(&mut msg, value_type);
            Err(PayrollError::ValidationError(msg))
        }
    }
}

/// How the settings table holds a value: the type's name and either the
/// text column or the integer column (booleans as `true`/`false`).
#[derive(Debug, Clone)]
pub struct StoredValue {
    pub value_type: &'static str,
    pub value_string: Option<String>,
    pub value_integer: Option<i64>,
}

/// What a stored row reads as: an `Integer` row is its integer column
/// (zero where it is empty); a `Boolean` row is true only for the text
/// `true`; a `Json` row is its text parsed and written back (`{}` where it
/// is empty, `null` where it does not parse); any other row is a string,
/// its text (empty where there is none).
pub open spec fn reads_as(value_type: Seq<char>, value_string: Option<String>, value_integer: Option<i64>, r: RegistryValue) -> bool {
    if value_type == "Integer"@ {
        r == RegistryValue::Integer(
            match value_integer {
                Some(i) => i,
                None => 0,
            },
        )
    } else if value_type == "Boolean"@ {
        r == RegistryValue::Boolean(
            match value_string {
                Some(t) => t@ == "true"@,
                None => false,
            },
        )
    } else if value_type == "Json"@ {
        r matches RegistryValue::Json(j) && j@ == match json_reparse(
            match value_string {
                Some(t) => t@,
                None => "{}"@,
            },
        ) {
            Ok(t) => t,
            Err(_) => "null"@,
        }
    } else {
        r matches RegistryValue::String(s) && s@ == match value_string {
            Some(t) => t@,
            None => Seq::<char>::empty(),
        }
    }
}

/// The columns `stored` gives for a value.
pub open spec fn stores(v: RegistryValue, s: StoredValue) -> bool {
    &&& s.value_type@ == v.type_text()
    &&& match v {
        RegistryValue::Integer(i) => s.value_integer == Some(i) && s.value_string is None,
        _ => s.value_integer is None && (s.value_string matches Some(t) && t@ == v.text()),
    }
}

/// A string, integer or boolean value that is stored reads back as the
/// same value, and so does a JSON value whose text is already what
/// parsing and writing back gives.
pub proof fn law_stored_value_reads_back(v: RegistryValue, s: StoredValue)
    requires
        stores(v, s),
        v matches RegistryValue::Json(j) ==> json_reparse(j@) == Ok::<Seq<char>, Seq<char>>(j@),
    ensures
        reads_as(s.value_type@, s.value_string, s.value_integer, v),
{
    lemma_type_names_distinct();
    reveal_strlit("true");
    reveal_strlit("false");
    assert("true"@.len() != "false"@.len());
}

impl RegistryValue {
    /// The columns that hold the value.
    pub fn stored(&self) -> (r: StoredValue)
        ensures
            stores(*self, r),
    {
        match self {
            RegistryValue::Integer(i) => StoredValue {
                value_type: "Integer",
                value_string: None,
                value_integer: Some(*i),
            },
            _ => StoredValue {
                value_type: self.value_type_name(),
                value_string: Some(self.to_string_value()),
                value_integer: None,
            },
        }
    }

    /// The value that a stored row holds.  A missing text reads as empty
    /// (`false` for a boolean, `{}` for JSON), a missing integer as zero;
    /// a boolean is true only for the text `true`; JSON that does not
    /// parse reads as `null`; an unknown type reads as a string.
    pub fn from_stored(value_type: &str, value_string: Option<String>, value_integer: Option<i64>) -> (r: RegistryValue)
        ensures
            reads_as(value_type@, value_string, value_integer, r),
    {
        proof {
            lemma_type_names_distinct();
        }
        if str_eq(value_type, "Integer") {
            RegistryValue::Integer(
                match value_integer {
                    Some(i) => i,
                    None => 0,
                },
            )
        } else if str_eq(value_type, "Boolean") {
            let b = match &value_string {
                Some(t) => str_eq(t.as_str(), "true"),
                None => false,
            };
            RegistryValue::Boolean(b)
        } else if str_eq(value_type, "Json") {
            let text = match value_string {
                Some(t) => t,
                None => to_owned_string("{}"),
            };
            match reparse_json(text.as_str()) {
                Ok(t) => RegistryValue::Json(t),
                Err(_) => RegistryValue::Json(to_owned_string("null")),
            }
        } else {
            RegistryValue::String(
                match value_string {
                    Some(t) => t,
                    None => String::new(),
                },
            )
        }
    }
}

/// A string, integer or boolean value, written as text with the name of
/// its type, reads back as the same value.
pub proof fn law_text_reads_back(v: RegistryValue)
    requires
        !(v is Json),
    ensures
        parses_as(v.text(), v.type_text(), v),
{
    lemma_type_names_distinct();
    reveal_strlit("true");
    reveal_strlit("false");
    assert("true"@.len() != "false"@.len());
    if let RegistryValue::Integer(i) = v {
        law_i64_text_parses(i);
    }
}

/// A key and its value.
#[derive(Debug, Clone)]
pub struct RegistryEntry {
    pub id: Option<i64>,
    pub key_path: String,
    pub value: RegistryValue,
    pub created_at: Timestamp,
    pub updated_at: Timestamp,
}

/// A character a key path may hold: alphanumeric, `_`, `-`, `/` or `.`.
pub open spec fn key_char_ok(c: char) -> bool {
    char_alphanumeric(c) || c == '_' || c == '-' || c == '/' || c == '.'
}

impl RegistryEntry {
    /// A new entry, created and updated now.
    pub fn new(key_path: String, value: RegistryValue) -> (r: RegistryEntry)
        ensures
            r.id is None,
            r.key_path@ == key_path@,
            r.value == value,
            r.created_at == r.updated_at,
    {
        let now = utc_now();
        RegistryEntry { id: None, key_path, value, created_at: now, updated_at: now }
    }

    pub open spec fn issue(self) -> Option<(ErrorKind, Seq<char>)> {
        if text_trim(self.key_path@).len() == 0 {
            Some((ErrorKind::ValidationError, "Key path cannot be empty"@))
        } else if !(forall|i: int|
            0 <= i < self.key_path@.len() ==> key_char_ok(#[trigger] self.key_path@[i])) {
            Some(
                (
                    ErrorKind::ValidationError,
                    "Key path can only contain alphanumeric characters, underscores, hyphens, slashes, and dots"@,
                ),
            )
        } else {
            None
        }
    }

    /// A key path that is not blank and holds only alphanumeric
    /// characters, underscores, hyphens, slashes and dots.
    pub fn validate(&self) -> (r: Result<(), PayrollError>)
        ensures
            match self.issue() {
                None => r is Ok,
                Some(x) => r is Err && r->Err_0.is(x.0, x.1),
            },
    {
        let trimmed = trim(self.key_path.as_str());
        if char_count(trimmed) == 0 {
            return Err(PayrollError::ValidationError(to_owned_string("Key path cannot be empty")));
        }
        let key = self.key_path.as_str();
        let n = char_count(key);
        let mut i: usize = 0;
        while i < n
            invariant
                n == key@.len(),
                key@ == self.key_path@,
                text_trim(self.key_path@).len() != 0,
                i <= n,
                forall|j: int| 0 <= j < i ==> key_char_ok(#[trigger] key@[j]),
            decreases n - i,
        {
            let c = char_at(key, i);
            if !(is_alphanumeric(c) || c == '_' || c == '-' || c == '/' || c == '.') {
                assert(!key_char_ok(key@[i as int]));
                return Err(
                    PayrollError::ValidationError(
                        to_owned_string(
                            "Key path can only contain alphanumeric characters, underscores, hyphens, slashes, and dots",
                        ),
                    ),
                );
            }
            i = i + 1;
        }
        Ok(())
    }
}

} // verus!
