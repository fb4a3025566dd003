//! The credentials of the client and the payload that presents them.

use crate::json_text::{
    is_plain_text, json_escaped, lemma_plain_text_is_unchanged, push_json_escaped,
};
use vstd::prelude::*;
use vstd::string::StringExecFns;

verus! {

/// What the credentials are to the contracts: three texts.
pub struct ClientDataView {
    pub id: Seq<char>,
    pub secret: Seq<char>,
    pub audience: Seq<char>,
}

/// The payload of a client-credentials exchange: a JSON object of four
/// members, the three texts as JSON strings and the grant type.
pub open spec fn credentials_json(client: ClientDataView) -> Seq<char> {
    "{ \"client_id\": \""@ + json_escaped(client.id) + "\", \"client_secret\": \""@
        + json_escaped(client.secret) + "\", \"audience\": \""@ + json_escaped(client.audience)
        + "\", \"grant_type\":\"client_credentials\" }"@
}

/// Credentials of plain texts stand in the payload as they are.
pub proof fn lemma_plain_credentials_payload(client: ClientDataView)
    requires
        is_plain_text(client.id),
        is_plain_text(client.secret),
        is_plain_text(client.audience),
    ensures
        credentials_json(client) == "{ \"client_id\": \""@ + client.id
            + "\", \"client_secret\": \""@ + client.secret + "\", \"audience\": \""@
            + client.audience + "\", \"grant_type\":\"client_credentials\" }"@,
{
    lemma_plain_text_is_unchanged(client.id);
    lemma_plain_text_is_unchanged(client.secret);
    lemma_plain_text_is_unchanged(client.audience);
}

/// Client id, client secret and audience, set once and never changed.
pub struct ClientData {
    id: String,
    secret: String,
    audience: String,
}

impl View for ClientData {
    type V = ClientDataView;

    closed spec fn view(&self) -> ClientDataView {
        ClientDataView { id: self.id@, secret: self.secret@, audience: self.audience@ }
    }
}

impl ClientData {
    /// The credentials made of these three texts.
    pub fn new(id: String, secret: String, audience: String) -> (client: ClientData)
        ensures
            client@ == (ClientDataView { id: id@, secret: secret@, audience: audience@ }),
    {
        ClientData { id, secret, audience }
    }

    /// The payload of the exchange for these credentials.
    pub fn json(&self) -> (payload: String)
        ensures
            payload@ == credentials_json(self@),
    {
        let mut payload = String::from_str("{ \"client_id\": \"");
        push_json_escaped(&mut payload, self.id.as_str());
        payload.append("\", \"client_secret\": \"");
        push_json_escaped(&mut payload, self.secret.as_str());
        payload.append("\", \"audience\": \"");
        push_json_escaped(&mut payload, self.audience.as_str());
        payload.append("\", \"grant_type\":\"client_credentials\" }");
        payload
    }
}

} // verus!
