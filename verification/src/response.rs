//! The native response record, copied out of native memory field for field.

use vstd::prelude::*;

verus! {

/// The discriminants a response can carry.
#[derive(Clone, Copy, Debug, PartialEq, Eq, Structural)]
pub enum ResponseType {
    Null,
    Int,
    Float,
    Bool,
    ByteString,
    Array,
    Mapping,
    Sets,
}

impl ResponseType {
    /// The discriminant that a numeric code stands for, if any.
    pub open spec fn of_code(code: u32) -> Option<ResponseType> {
        if code == 0 {
            Some(ResponseType::Null)
        } else if code == 1 {
            Some(ResponseType::Int)
        } else if code == 2 {
            Some(ResponseType::Float)
        } else if code == 3 {
            Some(ResponseType::Bool)
        } else if code == 4 {
            Some(ResponseType::ByteString)
        } else if code == 5 {
            Some(ResponseType::Array)
        } else if code == 6 {
            Some(ResponseType::Mapping)
        } else if code == 7 {
            Some(ResponseType::Sets)
        } else {
            None
        }
    }

    /// The numeric code of a discriminant.
    pub open spec fn code_of(self) -> u32 {
        match self {
            ResponseType::Null => 0,
            ResponseType::Int => 1,
            ResponseType::Float => 2,
            ResponseType::Bool => 3,
            ResponseType::ByteString => 4,
            ResponseType::Array => 5,
            ResponseType::Mapping => 6,
            ResponseType::Sets => 7,
        }
    }

    /// Reads a numeric code; `None` for a code that names no discriminant.
    pub fn from_code(code: u32) -> (r: Option<ResponseType>)
        ensures
            r == Self::of_code(code),
            r is Some <==> code <= 7,
    {
        match code {
            0 => Some(ResponseType::Null),
            1 => Some(ResponseType::Int),
            2 => Some(ResponseType::Float),
            3 => Some(ResponseType::Bool),
            4 => Some(ResponseType::ByteString),
            5 => Some(ResponseType::Array),
            6 => Some(ResponseType::Mapping),
            7 => Some(ResponseType::Sets),
            _ => None,
        }
    }

    /// The numeric code of this discriminant.
    pub fn code(self) -> (c: u32)
        ensures
            c == self.code_of(),
            Self::of_code(c) == Some(self),
    {
        match self {
            ResponseType::Null => 0,
            ResponseType::Int => 1,
            ResponseType::Float => 2,
            ResponseType::Bool => 3,
            ResponseType::ByteString => 4,
            ResponseType::Array => 5,
            ResponseType::Mapping => 6,
            ResponseType::Sets => 7,
        }
    }
}

/// The numeric codes and the discriminants stand for one another: a code
/// names a discriminant exactly when it is at most 7, and reading the code
/// of a discriminant gives that discriminant back.
pub proof fn law_codes_round_trip(response_type: ResponseType, code: u32)
    ensures
        ResponseType::of_code(response_type.code_of()) == Some(response_type),
        ResponseType::of_code(code) is Some <==> code <= 7,
        ResponseType::of_code(code) matches Some(named) ==> named.code_of() == code,
{
}

/// One native response: a discriminant and the payload fields beside it.
/// A field that is a pointer on the native side is `None` where that
/// pointer was null. A floating-point payload is held as its IEEE-754 bits.
/// The entries of a map lie in `array_value`, each an element whose
/// `map_key` and `map_value` point at the two sides.
#[derive(Debug, PartialEq, Eq)]
pub struct CommandResponse {
    pub response_type: u32,
    pub int_value: i64,
    pub float_bits: u64,
    pub bool_value: bool,
    pub string_value: Option<Vec<u8>>,
    pub array_value: Option<Vec<CommandResponse>>,
    pub map_key: Option<Box<CommandResponse>>,
    pub map_value: Option<Box<CommandResponse>>,
    pub sets_value: Option<Vec<CommandResponse>>,
}

/// The mathematical content of a [`CommandResponse`].
pub struct ResponseView {
    pub response_type: u32,
    pub int_value: i64,
    pub float_bits: u64,
    pub bool_value: bool,
    pub string_value: Option<Seq<u8>>,
    pub array_value: Option<Seq<ResponseView>>,
    pub map_key: Option<Box<ResponseView>>,
    pub map_value: Option<Box<ResponseView>>,
    pub sets_value: Option<Seq<ResponseView>>,
}

/// What a response record holds, as mathematics.
pub open spec fn response_view(r: CommandResponse) -> ResponseView
    decreases r,
{
    ResponseView {
        response_type: r.response_type,
        int_value: r.int_value,
        float_bits: r.float_bits,
        bool_value: r.bool_value,
        string_value: match r.string_value {
            Some(bytes) => Some(bytes@),
            None => None,
        },
        array_value: match r.array_value {
            Some(items) => Some(
                Seq::new(
                    items@.len(),
                    |i: int|
                        if 0 <= i < items@.len() {
                            response_view(items@[i])
                        } else {
                            arbitrary()
                        },
                ),
            ),
            None => None,
        },
        map_key: match r.map_key {
            Some(key) => Some(Box::new(response_view(*key))),
            None => None,
        },
        map_value: match r.map_value {
            Some(value) => Some(Box::new(response_view(*value))),
            None => None,
        },
        sets_value: match r.sets_value {
            Some(items) => Some(
                Seq::new(
                    items@.len(),
                    |i: int|
                        if 0 <= i < items@.len() {
                            response_view(items@[i])
                        } else {
                            arbitrary()
                        },
                ),
            ),
            None => None,
        },
    }
}

impl View for CommandResponse {
    type V = ResponseView;

    open spec fn view(&self) -> ResponseView {
        response_view(*self)
    }
}

impl CommandResponse {
    /// A response with the given discriminant, every payload field zero or
    /// null.
    pub fn blank(response_type: ResponseType) -> (r: CommandResponse)
        ensures
            r == Self::blank_of(response_type),
    {
        CommandResponse {
            response_type: response_type.code(),
            int_value: 0,
            float_bits: 0,
            bool_value: false,
            string_value: None,
            array_value: None,
            map_key: None,
            map_value: None,
            sets_value: None,
        }
    }

    /// The null response.
    pub fn null() -> (r: CommandResponse)
        ensures
            r == Self::blank_of(ResponseType::Null),
    {
        Self::blank(ResponseType::Null)
    }

    /// An integer response.
    pub fn integer(value: i64) -> (r: CommandResponse)
        ensures
            r == (CommandResponse { int_value: value, ..Self::blank_of(ResponseType::Int) }),
    {
        let mut r = Self::blank(ResponseType::Int);
        r.int_value = value;
        r
    }

    /// A floating-point response, from the number's IEEE-754 bits.
    pub fn floating(bits: u64) -> (r: CommandResponse)
        ensures
            r == (CommandResponse { float_bits: bits, ..Self::blank_of(ResponseType::Float) }),
    {
        let mut r = Self::blank(ResponseType::Float);
        r.float_bits = bits;
        r
    }

    /// A boolean response.
    pub fn boolean(value: bool) -> (r: CommandResponse)
        ensures
            r == (CommandResponse { bool_value: value, ..Self::blank_of(ResponseType::Bool) }),
    {
        let mut r = Self::blank(ResponseType::Bool);
        r.bool_value = value;
        r
    }

    /// A string response that holds the given bytes.
    pub fn byte_string(bytes: Vec<u8>) -> (r: CommandResponse)
        ensures
            r == (CommandResponse {
                string_value: Some(bytes),
                ..Self::blank_of(ResponseType::ByteString)
            }),
    {
        let mut r = Self::blank(ResponseType::ByteString);
        r.string_value = Some(bytes);
        r
    }

    /// An array response that holds the given children.
    pub fn array_of(items: Vec<CommandResponse>) -> (r: CommandResponse)
        ensures
            r == (CommandResponse { array_value: Some(items), ..Self::blank_of(ResponseType::Array) }),
    {
        let mut r = Self::blank(ResponseType::Array);
        r.array_value = Some(items);
        r
    }

    /// A map response that holds the given entries.
    pub fn mapping_of(entries: Vec<CommandResponse>) -> (r: CommandResponse)
        ensures
            r == (CommandResponse {
                array_value: Some(entries),
                ..Self::blank_of(ResponseType::Mapping)
            }),
    {
        let mut r = Self::blank(ResponseType::Mapping);
        r.array_value = Some(entries);
        r
    }

    /// One entry of a map; a side that is `None` is a null pointer.
    pub fn entry(key: Option<CommandResponse>, value: Option<CommandResponse>) -> (r:
        CommandResponse)
        ensures
            r == (CommandResponse {
                map_key: match key {
                    Some(k) => Some(Box::new(k)),
                    None => None,
                },
                map_value: match value {
                    Some(v) => Some(Box::new(v)),
                    None => None,
                },
                ..Self::blank_of(ResponseType::Mapping)
            }),
    {
        let mut r = Self::blank(ResponseType::Mapping);
        r.map_key = match key {
            Some(k) => Some(Box::new(k)),
            None => None,
        };
        r.map_value = match value {
            Some(v) => Some(Box::new(v)),
            None => None,
        };
        r
    }

    /// A set response that holds the given children.
    pub fn set_of(items: Vec<CommandResponse>) -> (r: CommandResponse)
        ensures
            r == (CommandResponse { sets_value: Some(items), ..Self::blank_of(ResponseType::Sets) }),
    {
        let mut r = Self::blank(ResponseType::Sets);
        r.sets_value = Some(items);
        r
    }

    /// The response that `blank` builds.
    pub open spec fn blank_of(response_type: ResponseType) -> CommandResponse {
        CommandResponse {
            response_type: response_type.code_of(),
            int_value: 0,
            float_bits: 0,
            bool_value: false,
            string_value: None,
            array_value: None,
            map_key: None,
            map_value: None,
            sets_value: None,
        }
    }
}

/// The views of the elements of a list of responses, in order.
pub open spec fn response_views(items: Seq<CommandResponse>) -> Seq<ResponseView> {
    Seq::new(items.len(), |i: int| items[i]@)
}

/// How the view of a response relates to the views of its children.
pub proof fn lemma_response_view(r: &CommandResponse)
    ensures
        r@.response_type == r.response_type,
        r@.int_value == r.int_value,
        r@.float_bits == r.float_bits,
        r@.bool_value == r.bool_value,
        r.string_value is None <==> r@.string_value is None,
        r.string_value is Some ==> r@.string_value == Some(r.string_value->0@),
        r.array_value is None <==> r@.array_value is None,
        r.array_value is Some ==> r@.array_value == Some(response_views(r.array_value->0@)),
        r.sets_value is None <==> r@.sets_value is None,
        r.sets_value is Some ==> r@.sets_value == Some(response_views(r.sets_value->0@)),
        r.map_key is None <==> r@.map_key is None,
        r.map_key is Some ==> *r@.map_key->0 == (*r.map_key->0)@,
        r.map_value is None <==> r@.map_value is None,
        r.map_value is Some ==> *r@.map_value->0 == (*r.map_value->0)@,
{
    if r.array_value is Some {
        assert(r@.array_value->0 =~= response_views(r.array_value->0@));
    }
    if r.sets_value is Some {
        assert(r@.sets_value->0 =~= response_views(r.sets_value->0@));
    }
}

} // verus!
