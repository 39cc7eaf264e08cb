//! Structured values carried by editor notifications (msgpack data model).

use vstd::prelude::*;

verus! {

/// A msgpack value, as the notification payloads carry it.
pub enum Msg {
    Nil,
    Boolean(bool),
    /// A non-negative integer.
    UInt(u64),
    /// A negative integer.
    NegInt(i64),
    Str(String),
    Array(Vec<Msg>),
    Dict(Vec<(Msg, Msg)>),
    /// Floats, binary data, extension values and non-UTF-8 strings.
    Other,
}

pub open spec fn msg_str(m: Msg) -> Option<Seq<char>> {
    match m {
        Msg::Str(s) => Some(s@),
        _ => None,
    }
}

pub open spec fn msg_u64(m: Msg) -> Option<u64> {
    match m {
        Msg::UInt(n) => Some(n),
        _ => None,
    }
}

pub open spec fn msg_bool(m: Msg) -> Option<bool> {
    match m {
        Msg::Boolean(b) => Some(b),
        _ => None,
    }
}

pub open spec fn msg_array(m: Msg) -> Option<Seq<Msg>> {
    match m {
        Msg::Array(v) => Some(v@),
        _ => None,
    }
}

impl Msg {
    pub fn as_str(&self) -> (r: Option<&str>)
        ensures
            match r {
                Some(s) => msg_str(*self) == Some(s@),
                None => msg_str(*self) is None,
            },
    {
        match self {
            Msg::Str(s) => Some(s.as_str()),
            _ => None,
        }
    }

    pub fn as_u64(&self) -> (r: Option<u64>)
        ensures
            r == msg_u64(*self),
    {
        match self {
            Msg::UInt(n) => Some(*n),
            _ => None,
        }
    }

    pub fn as_bool(&self) -> (r: Option<bool>)
        ensures
            r == msg_bool(*self),
    {
        match self {
            Msg::Boolean(b) => Some(*b),
            _ => None,
        }
    }

    pub fn as_array(&self) -> (r: Option<&Vec<Msg>>)
        ensures
            match r {
                Some(v) => msg_array(*self) == Some(v@),
                None => msg_array(*self) is None,
            },
    {
        match self {
            Msg::Array(v) => Some(v),
            _ => None,
        }
    }
}

} // verus!
