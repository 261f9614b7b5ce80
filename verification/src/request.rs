//! Requests as plain values: what is to be sent, for whoever sends it.

use crate::streams::{pairs, ParamsView};
use crate::text::{decimal, decimal_text};
use vstd::prelude::*;

verus! {

#[derive(Debug, Clone, Copy, PartialEq, Eq, Structural)]
pub enum Method {
    Get,
    Post,
}

/// The value of one member of a JSON body.
#[derive(Debug, Clone, PartialEq)]
pub enum Field {
    Integer(u64),
    Text(String),
    /// A number given by its bit pattern as an IEEE 754 double. A pattern
    /// that stands for no finite number is sent as JSON `null`.
    Number(u64),
}

/// `Field` with its text as a sequence of characters.
pub ghost enum FieldView {
    Integer(u64),
    Text(Seq<char>),
    Number(u64),
}

impl View for Field {
    type V = FieldView;

    open spec fn view(&self) -> FieldView {
        match *self {
            Field::Integer(n) => FieldView::Integer(n),
            Field::Text(text) => FieldView::Text(text@),
            Field::Number(bits) => FieldView::Number(bits),
        }
    }
}

/// The members of a JSON body as the contracts see them: name and value of
/// each, in order.
pub type BodyView = Seq<(Seq<char>, FieldView)>;

/// The members in `body`, as the contracts see them.
pub open spec fn members(body: Seq<(String, Field)>) -> BodyView {
    Seq::new(body.len(), |i: int| (body[i].0@, body[i].1@))
}

/// One request to the API.
#[derive(Debug, PartialEq)]
pub struct Request {
    pub method: Method,
    /// The address, without the query.
    pub url: String,
    /// The query parameters, in order.
    pub query: Vec<(String, String)>,
    /// The members of the JSON object to send, if the request has a body.
    pub body: Option<Vec<(String, Field)>>,
}

/// The mathematical content of a `Request`.
pub ghost struct RequestView {
    pub method: Method,
    pub url: Seq<char>,
    pub query: ParamsView,
    pub body: Option<BodyView>,
}

impl View for Request {
    type V = RequestView;

    open spec fn view(&self) -> RequestView {
        RequestView {
            method: self.method,
            url: self.url@,
            query: pairs(self.query@),
            body: match self.body {
                Some(body) => Some(members(body@)),
                None => None,
            },
        }
    }
}

/// No parameter where there is no value, else the one parameter `name` with
/// that value.
pub open spec fn optional(name: Seq<char>, value: Option<Seq<char>>) -> ParamsView {
    match value {
        Some(value) => seq![(name, value)],
        None => Seq::empty(),
    }
}

/// The numeral of a number that may be missing.
pub open spec fn numeral(n: Option<u32>) -> Option<Seq<char>> {
    match n {
        Some(n) => Some(decimal(n as nat)),
        None => None,
    }
}

/// The text of a string slice that may be missing.
pub open spec fn text(s: Option<&str>) -> Option<Seq<char>> {
    match s {
        Some(s) => Some(s@),
        None => None,
    }
}

/// Adds the parameter `name` to `params` where it has a value.
pub fn push_optional(params: &mut Vec<(String, String)>, name: &str, value: Option<&str>)
    ensures
        pairs(final(params)@) == pairs(old(params)@) + optional(name@, text(value)),
{
    match value {
        Some(value) => {
            params.push((name.to_owned(), value.to_owned()));
        },
        None => {},
    }
    assert(pairs(params@) =~= pairs(old(params)@) + optional(name@, text(value)));
}

/// Adds the parameter `name` to `params` where it has a number, written in
/// decimal.
pub fn push_optional_number(params: &mut Vec<(String, String)>, name: &str, value: Option<u32>)
    ensures
        pairs(final(params)@) == pairs(old(params)@) + optional(name@, numeral(value)),
{
    match value {
        Some(value) => {
            params.push((name.to_owned(), decimal_text(value)));
        },
        None => {},
    }
    assert(pairs(params@) =~= pairs(old(params)@) + optional(name@, numeral(value)));
}

} // verus!
