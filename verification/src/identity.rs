//! The exchange with the identity provider, and the decision to renew.
//!
//! An exchange has three steps. [`Identity::token_request`] says what to send.
//! The caller sends it and reports what happened as a [`ProviderReply`].
//! [`Identity::try_get_token`] reads that reply into a token or an error.
//! [`Identity::renew_token_if_expiring_after_seconds`] starts an exchange only
//! where the held token will not last.

use crate::client_data::{credentials_json, ClientData, ClientDataView};
use crate::error::{Error, ErrorKind, ErrorView};
use crate::header::{
    describe_invalid_header_value, header_fields, header_value_from_str, insert_first_header,
    is_header_value_text, is_plain_header_name, new_header_map, no_headers,
};
use crate::response_object::{
    object_fields, parse_failure_words, parse_object, parsed_fields, take_field, Field, FieldView,
};
use crate::token::{expired_at, expires_within, Token, TokenView};
use reqwest::header::{HeaderMap, HeaderValue};
use std::sync::Arc;
use std::time::Instant;
use vstd::prelude::*;
use vstd::string::{is_ascii, StringExecFns, StringSliceAdditionalSpecFns};

verus! {

/// The seconds by which a token's validity is shorter than the lifetime that
/// the provider declares: what is lost between issuance and first use.
pub const EXPIRATION_ERROR_MARGIN_IN_SECONDS: u64 = 5;

/// What a result of the exchange is to the contracts.
pub open spec fn outcome(result: Result<Token, Error>) -> Result<TokenView, ErrorView> {
    match result {
        Ok(token) => Ok(token@),
        Err(error) => Err(error@),
    }
}

/// [`outcome`], for a token behind a shared handle.
pub open spec fn shared_outcome(result: Result<Arc<Token>, Error>) -> Result<
    TokenView,
    ErrorView,
> {
    match result {
        Ok(token) => Ok(token@),
        Err(error) => Err(error@),
    }
}

/// A reply that is not what an exchange has to yield.
pub open spec fn malformed(message: Seq<char>) -> ErrorView {
    ErrorView { kind: ErrorKind::MalformedResponse, message }
}

/// A failure to reach the provider or to read its reply: the message is the
/// given opening followed by the cause.
pub open spec fn provider_failure(opening: Seq<char>, cause: Seq<char>) -> ErrorView {
    ErrorView { kind: ErrorKind::IdentityProviderFailure, message: opening + cause }
}

/// What a taken field is to the contracts.
pub open spec fn read(field: Option<Field>) -> Option<FieldView> {
    match field {
        Some(field) => Some(field@),
        None => None,
    }
}

/// The field under `key`, where there is one.
pub open spec fn field_at(fields: Map<Seq<char>, FieldView>, key: Seq<char>) -> Option<
    FieldView,
> {
    if fields.contains_key(key) {
        Some(fields[key])
    } else {
        None
    }
}

/// The lifetime in seconds that a reply declares, where its field is a number
/// that fits `u64`.
pub open spec fn declared_lifetime(expires_in: Option<FieldView>) -> Option<u64> {
    match expires_in {
        Some(FieldView::Number(Some(declared))) => Some(declared),
        _ => None,
    }
}

/// The lifetime in seconds that a reply's object declares in its field
/// `expires_in`.
pub open spec fn declared_by(fields: Map<Seq<char>, FieldView>) -> Option<u64> {
    declared_lifetime(field_at(fields, "expires_in"@))
}

/// A reply's object out of which a token comes: its token is a text, and the
/// lifetime that it declares is beyond the margin.
pub open spec fn is_well_formed(fields: Map<Seq<char>, FieldView>) -> bool {
    &&& field_at(fields, "access_token"@) matches Some(FieldView::Text(_))
    &&& declared_by(fields) matches Some(declared) && declared
        > EXPIRATION_ERROR_MARGIN_IN_SECONDS
}

/// What the two fields of a reply yield. The token's text is looked at first.
/// A token comes out only of a text and a declared lifetime beyond the margin,
/// and is valid for that lifetime less the margin.
pub open spec fn extraction(
    access_token: Option<FieldView>,
    expires_in: Option<FieldView>,
) -> Result<TokenView, ErrorView> {
    match access_token {
        None => Err(malformed("missing token"@)),
        Some(FieldView::Text(value)) => match expires_in {
            None => Err(malformed("missing duration"@)),
            Some(FieldView::Number(Some(declared))) => if declared
                <= EXPIRATION_ERROR_MARGIN_IN_SECONDS {
                Err(malformed("duration is too short"@))
            } else {
                Ok(
                    TokenView {
                        value,
                        validity: (declared - EXPIRATION_ERROR_MARGIN_IN_SECONDS) as nat,
                    },
                )
            },
            Some(_) => Err(malformed("failed to read duration as u64"@)),
        },
        Some(_) => Err(malformed("failed to read token as string"@)),
    }
}

/// What a reply's object yields: [`extraction`] of its fields `access_token`
/// and `expires_in`.
pub open spec fn object_extraction(fields: Map<Seq<char>, FieldView>) -> Result<
    TokenView,
    ErrorView,
> {
    extraction(field_at(fields, "access_token"@), field_at(fields, "expires_in"@))
}

/// A declared lifetime of at most the margin yields no token but a malformed
/// reply, whatever the token's field holds.
pub proof fn lemma_short_lifetime_is_malformed(access_token: Option<FieldView>, declared: u64)
    requires
        declared <= EXPIRATION_ERROR_MARGIN_IN_SECONDS,
    ensures
        extraction(access_token, Some(FieldView::Number(Some(declared)))) matches Err(error)
            && error.kind == ErrorKind::MalformedResponse,
{
}

/// A text and a declared lifetime beyond the margin yield a token with that
/// text, valid for the lifetime less the margin, and not expired at the moment
/// of its issuance.
pub proof fn lemma_long_lifetime_yields_fresh_token(value: Seq<char>, declared: u64)
    requires
        declared > EXPIRATION_ERROR_MARGIN_IN_SECONDS,
    ensures
        extraction(Some(FieldView::Text(value)), Some(FieldView::Number(Some(declared)))) == Ok::<
            TokenView,
            ErrorView,
        >(TokenView { value, validity: (declared - EXPIRATION_ERROR_MARGIN_IN_SECONDS) as nat }),
        !expired_at((declared - EXPIRATION_ERROR_MARGIN_IN_SECONDS) as nat, 0),
{
}

/// A reply without a token or without a lifetime is malformed.
pub proof fn lemma_missing_field_is_malformed(
    access_token: Option<FieldView>,
    expires_in: Option<FieldView>,
)
    requires
        access_token is None || expires_in is None,
    ensures
        extraction(access_token, expires_in) matches Err(error) && error.kind
            == ErrorKind::MalformedResponse,
{
}

/// Every token that an extraction yields has a validity above zero: the
/// lifetime that the reply declared, less the margin.
pub proof fn lemma_extracted_validity(
    access_token: Option<FieldView>,
    expires_in: Option<FieldView>,
)
    requires
        extraction(access_token, expires_in) is Ok,
    ensures
        extraction(access_token, expires_in) matches Ok(token) && declared_lifetime(expires_in)
            matches Some(declared) && declared > EXPIRATION_ERROR_MARGIN_IN_SECONDS
            && token.validity == declared - EXPIRATION_ERROR_MARGIN_IN_SECONDS && token.validity
            > 0 && access_token == Some(FieldView::Text(token.value)),
{
}

/// The token that the two fields of a reply yield, issued at `generated_at`.
pub fn token_from_fields(
    access_token: Option<Field>,
    expires_in: Option<Field>,
    generated_at: Instant,
) -> (result: Result<Token, Error>)
    ensures
        outcome(result) == extraction(read(access_token), read(expires_in)),
        result matches Ok(token) ==> token.issued_at() == generated_at,
{
    let token_string = match access_token {
        Some(Field::Text(text)) => text,
        Some(_) => {
            return Err(
                Error::new(
                    ErrorKind::MalformedResponse,
                    String::from_str("failed to read token as string"),
                ),
            );
        },
        None => {
            return Err(Error::new(ErrorKind::MalformedResponse, String::from_str("missing token")));
        },
    };
    let duration: u64 = match expires_in {
        Some(Field::Number(Some(duration))) => duration,
        Some(_) => {
            return Err(
                Error::new(
                    ErrorKind::MalformedResponse,
                    String::from_str("failed to read duration as u64"),
                ),
            );
        },
        None => {
            return Err(
                Error::new(ErrorKind::MalformedResponse, String::from_str("missing duration")),
            );
        },
    };
    if duration <= EXPIRATION_ERROR_MARGIN_IN_SECONDS {
        return Err(
            Error::new(ErrorKind::MalformedResponse, String::from_str("duration is too short")),
        );
    }
    Ok(Token::new(token_string, generated_at, duration - EXPIRATION_ERROR_MARGIN_IN_SECONDS))
}

/// The token that a reply's object yields, issued now.
///
/// A missing field, a field of the wrong shape and a declared lifetime of at
/// most the margin each give a malformed reply; anything else gives a token
/// valid for the declared lifetime less the margin.
pub fn extract_token_from_response_object(
    response_object: serde_json::Map<String, serde_json::Value>,
) -> (result: Result<Token, Error>)
    ensures
        outcome(result) == object_extraction(object_fields(response_object)),
        result is Ok <==> is_well_formed(object_fields(response_object)),
        result matches Err(error) ==> error@.kind == ErrorKind::MalformedResponse,
        !object_fields(response_object).contains_key("access_token"@) ==> result is Err,
        !object_fields(response_object).contains_key("expires_in"@) ==> result is Err,
        declared_by(object_fields(response_object)) is None ==> result is Err,
        declared_by(object_fields(response_object)) matches Some(declared) && declared
            <= EXPIRATION_ERROR_MARGIN_IN_SECONDS ==> result is Err,
        result matches Ok(token) ==> token@.validity > 0 && declared_by(
            object_fields(response_object),
        ) == Some((token@.validity + EXPIRATION_ERROR_MARGIN_IN_SECONDS) as u64),
{
    let generated_at = Instant::now();
    let mut remaining = response_object;
    let access_token = take_field(&mut remaining, "access_token");
    let expires_in = take_field(&mut remaining, "expires_in");
    proof {
        reveal_strlit("access_token");
        reveal_strlit("expires_in");
        assert("access_token"@.len() != "expires_in"@.len());
        let fields = object_fields(response_object);
        assert(read(access_token) == field_at(fields, "access_token"@));
        assert(read(expires_in) == field_at(fields, "expires_in"@));
        if extraction(read(access_token), read(expires_in)) is Ok {
            lemma_extracted_validity(read(access_token), read(expires_in));
        }
    }
    token_from_fields(access_token, expires_in, generated_at)
}

/// What the caller reports of one attempt to reach the provider.
pub enum ProviderReply {
    /// The request could not be sent or was not answered; the cause in words.
    SendFailed(String),
    /// An answer came, but its body could not be read; the cause in words.
    ReadFailed(String),
    /// The bytes of the answer's body.
    Body(Vec<u8>),
}

/// Whether `yielded` is what the reply yields. A failure to send and a failure
/// to read give a provider failure that names the cause. A body that is no
/// JSON object gives a provider failure too, with the parser's words as the
/// cause, and one that is gives what its fields yield.
pub open spec fn reply_yields(reply: ProviderReply, yielded: Result<TokenView, ErrorView>) -> bool
{
    match reply {
        ProviderReply::SendFailed(cause) => yielded == Err::<TokenView, ErrorView>(
            provider_failure("failed to get new token: "@, cause@),
        ),
        ProviderReply::ReadFailed(cause) => yielded == Err::<TokenView, ErrorView>(
            provider_failure("failed to parse response: "@, cause@),
        ),
        ProviderReply::Body(body) => match parsed_fields(body@) {
            Some(fields) => yielded == object_extraction(fields),
            None => yielded == Err::<TokenView, ErrorView>(
                provider_failure("failed to parse response: "@, parse_failure_words(body@)),
            ),
        },
    }
}

/// The error for a provider that could not be reached or read.
pub fn provider_error(opening: &str, cause: &str) -> (error: Error)
    ensures
        error@ == provider_failure(opening@, cause@),
        opening@.is_prefix_of(error@.message),
{
    let mut message = String::from_str(opening);
    message.append(cause);
    assert(message@.subrange(0, opening@.len() as int) =~= opening@);
    Error::new(ErrorKind::IdentityProviderFailure, message)
}

/// The token that one attempt to reach the provider yields.
pub fn try_get_new_token(reply: ProviderReply) -> (result: Result<Token, Error>)
    ensures
        reply_yields(reply, outcome(result)),
{
    match reply {
        ProviderReply::SendFailed(cause) => Err(
            provider_error("failed to get new token: ", cause.as_str()),
        ),
        ProviderReply::ReadFailed(cause) => Err(
            provider_error("failed to parse response: ", cause.as_str()),
        ),
        ProviderReply::Body(body) => match parse_object(body.as_slice()) {
            Ok(response_object) => extract_token_from_response_object(response_object),
            Err(cause) => Err(provider_error("failed to parse response: ", cause.as_str())),
        },
    }
}

/// The verb of a request. An exchange only ever posts.
#[derive(Clone, Copy, Debug, PartialEq, Eq)]
pub enum Method {
    Post,
}

/// What the caller has to send to the provider: a request with this verb to
/// `url`, with these headers and this body.
pub struct TokenRequest {
    pub method: Method,
    pub url: String,
    pub headers: HeaderMap<HeaderValue>,
    pub body: String,
}

/// The request of an exchange: a POST to the provider's address, with the one
/// header `content-type: application/json` and the credentials' payload as its
/// body.
pub open spec fn is_token_request(
    request: TokenRequest,
    url: Seq<char>,
    client: ClientDataView,
) -> bool {
    &&& request.method == Method::Post
    &&& request.url@ == url
    &&& header_fields(request.headers) == no_headers().insert(
        "content-type"@,
        seq!["application/json".spec_bytes()],
    )
    &&& request.body@ == credentials_json(client)
}

proof fn lemma_content_type_header()
    ensures
        is_plain_header_name("content-type"@),
        is_header_value_text("application/json".spec_bytes()),
{
    reveal_strlit("content-type");
    reveal_strlit("application/json");
    let text = "application/json";
    assert(is_ascii(text));
    vstd::string::is_ascii_spec_bytes(text);
}

/// The request of an exchange for these credentials at this address. It can
/// always be built.
pub fn new_token_request(identity_provider_url: &String, client_data: &ClientData) -> (result:
    Result<TokenRequest, Error>)
    ensures
        result matches Ok(request) && is_token_request(
            request,
            identity_provider_url@,
            client_data@,
        ),
{
    proof {
        lemma_content_type_header();
    }
    let mut header = new_header_map();
    let content_type_value = match header_value_from_str("application/json") {
        Ok(value) => value,
        Err(error) => {
            let mut message = String::from_str("failed to set content type: ");
            message.append(describe_invalid_header_value(&error).as_str());
            return Err(Error::new(ErrorKind::InternalFailure, message));
        },
    };
    insert_first_header(&mut header, "content-type", content_type_value);
    Ok(
        TokenRequest {
            method: Method::Post,
            url: identity_provider_url.clone(),
            headers: header,
            body: client_data.json(),
        },
    )
}

/// What a renewal comes to.
pub enum Renewal {
    /// The held token lasts: it is handed back as it is, and nothing is sent.
    Current(Arc<Token>),
    /// The held token does not last: this request starts one exchange, whose
    /// token replaces it.
    Exchange(TokenRequest),
}

/// What an identity is to the contracts: the provider's address and the
/// credentials.
pub struct IdentityView {
    pub url: Seq<char>,
    pub client: ClientDataView,
}

/// Whether `result` is the renewal owed for `token` by an identity, given
/// whether the token is `expiring`: the token itself where it is not, the
/// identity's request where it is.
pub open spec fn is_renewal(
    identity: IdentityView,
    token: Arc<Token>,
    expiring: bool,
    result: Result<Renewal, Error>,
) -> bool {
    if expiring {
        result matches Ok(Renewal::Exchange(request)) && is_token_request(
            request,
            identity.url,
            identity.client,
        )
    } else {
        result matches Ok(Renewal::Current(kept)) && kept == token
    }
}

/// The provider's address and the credentials to present there.
pub struct Identity {
    identity_provider_url: String,
    client_data: ClientData,
}

impl View for Identity {
    type V = IdentityView;

    closed spec fn view(&self) -> IdentityView {
        IdentityView { url: self.identity_provider_url@, client: self.client_data@ }
    }
}

impl Identity {
    /// An identity for this provider and these credentials. It can always be
    /// made.
    pub fn try_new(identity_provider_url: String, client_data: ClientData) -> (result: Result<
        Identity,
        Error,
    >)
        ensures
            result matches Ok(identity) && identity@ == (IdentityView {
                url: identity_provider_url@,
                client: client_data@,
            }),
    {
        Ok(Identity { identity_provider_url, client_data })
    }

    /// The request that starts an exchange.
    pub fn token_request(&self) -> (result: Result<TokenRequest, Error>)
        ensures
            result matches Ok(request) && is_token_request(request, self@.url, self@.client),
    {
        new_token_request(&self.identity_provider_url, &self.client_data)
    }

    /// The token that an exchange yields, from what the caller reports of it,
    /// behind a handle that its holders share.
    pub fn try_get_token(&self, reply: ProviderReply) -> (result: Result<Arc<Token>, Error>)
        ensures
            reply_yields(reply, shared_outcome(result)),
    {
        match try_get_new_token(reply) {
            Ok(token) => Ok(Arc::new(token)),
            Err(error) => Err(error),
        }
    }

    /// The renewal owed for a token of the given age that has to last for
    /// `expiring_after_seconds` more: the token itself where age and lookahead
    /// together stay within its validity, else the request of an exchange.
    pub fn renew_token_at_age(
        &self,
        token: Arc<Token>,
        age_in_seconds: u64,
        expiring_after_seconds: u64,
    ) -> (result: Result<Renewal, Error>)
        ensures
            is_renewal(
                self@,
                token,
                expires_within(
                    token@.validity,
                    age_in_seconds as nat,
                    expiring_after_seconds as nat,
                ),
                result,
            ),
    {
        if token.does_expire_after_at_age(age_in_seconds, expiring_after_seconds) {
            match self.token_request() {
                Ok(request) => Ok(Renewal::Exchange(request)),
                Err(error) => Err(error),
            }
        } else {
            Ok(Renewal::Current(token))
        }
    }

    /// The renewal owed for a token that has to last for
    /// `expiring_after_seconds` more. The clock decides the token's age; the
    /// result is the renewal owed at that age. A lookahead beyond the token's
    /// validity starts an exchange at any age.
    pub fn renew_token_if_expiring_after_seconds(
        &self,
        token: Arc<Token>,
        expiring_after_seconds: u64,
    ) -> (result: Result<Renewal, Error>)
        ensures
            exists|age: u64|
                is_renewal(
                    self@,
                    token,
                    #[trigger] expires_within(
                        token@.validity,
                        age as nat,
                        expiring_after_seconds as nat,
                    ),
                    result,
                ),
            expiring_after_seconds > token@.validity ==> (result matches Ok(Renewal::Exchange(_))),
            result matches Ok(Renewal::Current(kept)) ==> kept == token,
    {
        let age: u64 = token.age_in_seconds();
        self.renew_token_at_age(token, age, expiring_after_seconds)
    }
}

/// A token that lasts through the lookahead is handed back as it is: the
/// renewal is the held token, and no request is made.
pub proof fn lemma_lasting_token_is_kept(
    identity: IdentityView,
    token: Arc<Token>,
    age: nat,
    lookahead: nat,
    result: Result<Renewal, Error>,
)
    requires
        age + lookahead <= token@.validity,
        is_renewal(identity, token, expires_within(token@.validity, age, lookahead), result),
    ensures
        result matches Ok(Renewal::Current(kept)) && kept == token && kept@.value == token@.value,
{
}

/// A token that does not last through the lookahead is replaced: the renewal
/// is the request of an exchange. The token that a well-formed reply to it
/// yields carries the text of that reply, so it differs from the held one
/// whenever the provider issues another text.
pub proof fn lemma_expiring_token_is_replaced(
    identity: IdentityView,
    token: Arc<Token>,
    age: nat,
    lookahead: nat,
    result: Result<Renewal, Error>,
    issued: Seq<char>,
    declared: u64,
)
    requires
        age + lookahead > token@.validity,
        is_renewal(identity, token, expires_within(token@.validity, age, lookahead), result),
        declared > EXPIRATION_ERROR_MARGIN_IN_SECONDS,
    ensures
        result matches Ok(Renewal::Exchange(request)) && is_token_request(
            request,
            identity.url,
            identity.client,
        ),
        extraction(Some(FieldView::Text(issued)), Some(FieldView::Number(Some(declared))))
            matches Ok(renewed) && renewed.value == issued && (issued != token@.value
            ==> renewed.value != token@.value),
{
}

} // verus!
