//! The reply of a successful call: the attributes that the chain emits for it.

use vstd::prelude::*;
use cosmwasm_std::Empty;

verus! {

/// The reply of a successful call. It holds the chain's own response value,
/// which the wall fills with attributes and nothing else.
#[verifier::external_body]
#[derive(Debug, PartialEq)]
pub struct Response {
    inner: cosmwasm_std::Response<Empty>,
}

/// The attributes of a response, each a key and a value, in the order in
/// which they were added.
pub uninterp spec fn response_attributes(response: Response) -> Seq<(Seq<char>, Seq<char>)>;

impl View for Response {
    type V = Seq<(Seq<char>, Seq<char>)>;

    open spec fn view(&self) -> Seq<(Seq<char>, Seq<char>)> {
        response_attributes(*self)
    }
}

/// Whether `key` may name an attribute: keys that begin with an underscore
/// are reserved, and the chain's response does not take them.
pub open spec fn is_free_key(key: Seq<char>) -> bool {
    key.len() == 0 || key[0] != '_'
}

/// The views of a list of attributes, in order.
pub open spec fn attribute_views(attributes: Seq<(String, String)>) -> Seq<(Seq<char>, Seq<char>)> {
    Seq::new(attributes.len(), |i: int| (attributes[i].0@, attributes[i].1@))
}

/// `cosmwasm_std::Response::new`: a response without attributes.
#[verifier::external_body]
fn empty_response() -> (response: Response)
    ensures
        response_attributes(response) == Seq::<(Seq<char>, Seq<char>)>::empty(),
{
    Response { inner: cosmwasm_std::Response::new() }
}

/// `cosmwasm_std::Response::add_attribute`: the response with one more
/// attribute at the end. It does not return for a key that begins with an
/// underscore.
#[verifier::external_body]
fn push_attribute(response: Response, key: &str, value: &str) -> (extended: Response)
    requires
        is_free_key(key@),
    ensures
        response_attributes(extended) == response_attributes(response).push((key@, value@)),
{
    Response { inner: response.inner.add_attribute(key, value) }
}

/// The public field `attributes` of `cosmwasm_std::Response`, each entry as
/// a pair of its key and its value.
#[verifier::external_body]
fn attribute_list(response: &Response) -> (attributes: Vec<(String, String)>)
    ensures
        attribute_views(attributes@) == response_attributes(*response),
{
    response.inner.attributes.iter().map(|a| (a.key.clone(), a.value.clone())).collect()
}

impl Response {
    /// A response without attributes.
    pub fn new() -> (response: Response)
        ensures
            response@ == Seq::<(Seq<char>, Seq<char>)>::empty(),
    {
        empty_response()
    }

    /// This response with the attribute `key`, `value` added at the end.
    /// The key must not begin with an underscore.
    pub fn add_attribute(self, key: &str, value: &str) -> (extended: Response)
        requires
            is_free_key(key@),
        ensures
            extended@ == self@.push((key@, value@)),
    {
        push_attribute(self, key, value)
    }

    /// The attributes of this response, in order.
    pub fn attributes(&self) -> (attributes: Vec<(String, String)>)
        ensures
            attribute_views(attributes@) == self@,
    {
        attribute_list(self)
    }
}

} // verus!
