//! The query parameters of the two websocket endpoints, and the paths they
//! are served under.

use vstd::prelude::*;
use serde_urlencoded::ser::Error as UrlEncodeError;

verus! {

/// Path of the endpoint that opens a new room.
pub const HOST_ROOM: &'static str = "/host_room";

/// Path of the endpoint that joins an existing room.
pub const JOIN_ROOM: &'static str = "/join_room";

/// The error `serde_urlencoded` reports when it cannot encode a value.
#[verifier::external_type_specification]
#[verifier::external_body]
pub struct ExUrlEncodeError(UrlEncodeError);

/// The name of what `serde_urlencoded::to_string` returns for a list of
/// name/value pairs: the `application/x-www-form-urlencoded` text.
pub uninterp spec fn spec_form_urlencoded(pairs: Seq<(Seq<char>, Seq<char>)>) -> Seq<char>;

/// The pairs of `v`, each taken as two character sequences.
pub open spec fn pairs_view(v: Seq<(String, String)>) -> Seq<(Seq<char>, Seq<char>)> {
    v.map_values(|p: (String, String)| (p.0@, p.1@))
}

/// `serde_urlencoded::to_string` on a list of name/value pairs of strings.
/// The crate's source has no error path for such input (a sequence of
/// two-element tuples whose parts serialize as strings), so it succeeds; its
/// text is named by `spec_form_urlencoded`.
#[verifier::external_body]
fn urlencode(pairs: &Vec<(String, String)>) -> (r: Result<String, UrlEncodeError>)
    ensures
        r is Ok,
        r matches Ok(s) ==> s@ == spec_form_urlencoded(pairs_view(pairs@)),
{
    serde_urlencoded::to_string(pairs)
}

/// What somebody opening a room sends: the name to be known by.
#[derive(Debug)]
pub struct HostParams {
    pub name: String,
}

/// What somebody joining a room sends: the name to be known by and the code
/// of the room.
#[derive(Debug)]
pub struct JoinParams {
    pub name: String,
    pub room_id: String,
}

impl HostParams {
    /// The query text: the single pair `name`.
    pub fn to_query(&self) -> (r: Result<String, UrlEncodeError>)
        ensures
            r is Ok,
            r matches Ok(s) ==> s@ == spec_form_urlencoded(seq![("name"@, self.name@)]),
    {
        let mut pairs: Vec<(String, String)> = Vec::new();
        pairs.push((String::from_str("name"), self.name.clone()));
        assert(pairs_view(pairs@) =~= seq![("name"@, self.name@)]);
        urlencode(&pairs)
    }
}

impl JoinParams {
    /// The query text: the pairs `name` and `room_id`, in that order.
    pub fn to_query(&self) -> (r: Result<String, UrlEncodeError>)
        ensures
            r is Ok,
            r matches Ok(s) ==> s@ == spec_form_urlencoded(seq![("name"@, self.name@), ("room_id"@, self.room_id@)]),
    {
        let mut pairs: Vec<(String, String)> = Vec::new();
        pairs.push((String::from_str("name"), self.name.clone()));
        pairs.push((String::from_str("room_id"), self.room_id.clone()));
        assert(pairs_view(pairs@) =~= seq![("name"@, self.name@), ("room_id"@, self.room_id@)]);
        urlencode(&pairs)
    }
}

} // verus!
