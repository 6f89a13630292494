//! The mail client: credentials, token lifecycle and message decoding.

use crate::codec::{
    base64_standard, percent_encode, percent_encoded, sha256_hex, sha256_hex_of, standard_decode,
    utf8_text,
};
use crate::error::{EngineError, ErrorKind};
use crate::history::strings_view;
use crate::keychain::KeychainManager;
use crate::text::{lowercase, lowercase_of, same_text};
use vstd::prelude::*;
use vstd::string::StringExecFns;
use vstd::utf8::{decode_utf8, encode_utf8, valid_utf8};

verus! {

/// A message as the engine sees it. It lives for one polling cycle.
#[derive(Debug, PartialEq, Eq)]
pub struct EmailMessage {
    pub id: String,
    pub from: String,
    pub subject: String,
    pub snippet: String,
    pub body: String,
}

/// A message by its texts.
pub struct MessageModel {
    pub id: Seq<char>,
    pub from: Seq<char>,
    pub subject: Seq<char>,
    pub snippet: Seq<char>,
    pub body: Seq<char>,
}

impl View for EmailMessage {
    type V = MessageModel;

    open spec fn view(&self) -> MessageModel {
        MessageModel {
            id: self.id@,
            from: self.from@,
            subject: self.subject@,
            snippet: self.snippet@,
            body: self.body@,
        }
    }
}

impl Clone for EmailMessage {
    fn clone(&self) -> (r: Self)
        ensures
            r == *self,
    {
        EmailMessage {
            id: self.id.clone(),
            from: self.from.clone(),
            subject: self.subject.clone(),
            snippet: self.snippet.clone(),
            body: self.body.clone(),
        }
    }
}

/// The message of the failure for a body that is no base64.
pub const MALFORMED_BODY_MESSAGE: &'static str = "Invalid base64 in message body";

/// How many levels below the top node of a message are searched for text.
pub const MAX_PART_DEPTH: usize = 64;

/// The header that names the sender, in lowercase.
pub const HEADER_FROM: &'static str = "from";

/// The header that holds the subject, in lowercase.
pub const HEADER_SUBJECT: &'static str = "subject";

/// A header of a message.
#[derive(Debug, PartialEq, Eq)]
pub struct Header {
    pub name: String,
    pub value: String,
}

/// The encoded content of one node of a message.
#[derive(Debug, PartialEq, Eq)]
pub struct BodyPart {
    pub data: String,
}

/// A node below the top of a message: content of its own, children, or
/// both.
#[derive(Debug, PartialEq, Eq)]
pub struct Part {
    pub body: Option<BodyPart>,
    pub parts: Option<Vec<Part>>,
}

/// The top node of a message, with its headers.
#[derive(Debug, PartialEq, Eq)]
pub struct Payload {
    pub headers: Vec<Header>,
    pub body: Option<BodyPart>,
    pub parts: Option<Vec<Part>>,
}

/// A message in full, as the mail provider returns it.
#[derive(Debug, PartialEq, Eq)]
pub struct MessageDetail {
    pub payload: Option<Payload>,
    pub snippet: String,
}

/// The byte of the standard alphabet that a byte of the provider's alphabet
/// stands for: `-` is `+`, `_` is `/`, any other byte is itself.
pub open spec fn standard_byte(b: u8) -> u8 {
    if b == 0x2D {
        0x2B
    } else if b == 0x5F {
        0x2F
    } else {
        b
    }
}

/// The byte of the provider's alphabet for a byte of the standard one: `+`
/// is `-`, `/` is `_`, any other byte is itself.
pub open spec fn url_byte(b: u8) -> u8 {
    if b == 0x2B {
        0x2D
    } else if b == 0x2F {
        0x5F
    } else {
        b
    }
}

/// How many `=` bring a text of length `n` to a multiple of four.
pub open spec fn padding_for(n: nat) -> nat {
    ((4 - n % 4) % 4) as nat
}

/// A run of `n` padding bytes.
pub open spec fn padding(n: nat) -> Seq<u8> {
    Seq::new(n, |i: int| 0x3Du8)
}

/// The provider's encoding brought back to standard base64: the two
/// substituted characters restored, then padded with `=` to a multiple of
/// four.
pub open spec fn restored(input: Seq<u8>) -> Seq<u8> {
    input.map_values(|b: u8| standard_byte(b)) + padding(padding_for(input.len()))
}

/// The bytes that a body in the provider's encoding stands for.
pub open spec fn url_decoded(input: Seq<u8>) -> Option<Seq<u8>> {
    base64_standard(restored(input))
}

/// A text without its trailing `=`.
pub open spec fn unpadded(text: Seq<u8>) -> Seq<u8>
    decreases text.len(),
{
    if text.len() > 0 && text.last() == 0x3D {
        unpadded(text.drop_last())
    } else {
        text
    }
}

/// The provider's form of a standard base64 text: padding stripped and the
/// two characters substituted.
pub open spec fn url_form(standard: Seq<u8>) -> Seq<u8> {
    unpadded(standard).map_values(|b: u8| url_byte(b))
}

/// A text is what is left of it without padding, followed by padding.
proof fn lemma_unpadded_prefix(text: Seq<u8>)
    ensures
        unpadded(text).len() <= text.len(),
        text == unpadded(text) + padding((text.len() - unpadded(text).len()) as nat),
    decreases text.len(),
{
    if text.len() > 0 && text.last() == 0x3D {
        lemma_unpadded_prefix(text.drop_last());
        let shorter = text.drop_last();
        let k = (shorter.len() - unpadded(shorter).len()) as nat;
        assert(shorter == unpadded(shorter) + padding(k));
        assert(text =~= shorter.push(0x3Du8));
        assert(text =~= unpadded(shorter) + padding((k + 1) as nat));
    } else {
        assert(text =~= text + padding(0));
    }
}

/// Decoding round-trips through the provider's form: a standard base64
/// text, stripped and substituted and then restored, is the text again, so
/// it decodes to the bytes it stood for.
pub proof fn lemma_url_form_round_trip(standard: Seq<u8>)
    requires
        standard.len() % 4 == 0,
        standard.len() - unpadded(standard).len() < 4,
        forall|i: int| 0 <= i < standard.len() ==> standard[i] != 0x2D && standard[i] != 0x5F,
    ensures
        restored(url_form(standard)) == standard,
        url_decoded(url_form(standard)) == base64_standard(standard),
{
    lemma_unpadded_prefix(standard);
    let core = unpadded(standard);
    let k = (standard.len() - core.len()) as nat;
    let form = url_form(standard);
    assert(form.len() == core.len());
    assert(padding_for(form.len()) == k);
    assert forall|i: int| 0 <= i < core.len() implies standard_byte(url_byte(core[i]))
        == core[i] by {
        assert(core[i] == standard[i]);
    }
    assert(form.map_values(|b: u8| standard_byte(b)) =~= core);
    assert(restored(form) =~= standard);
}

/// Padding at the end of a text does not show in what is left without it.
proof fn lemma_unpadded_padding(text: Seq<u8>, k: nat)
    ensures
        unpadded(text + padding(k)) == unpadded(text),
    decreases k,
{
    if k == 0 {
        assert(text + padding(0) =~= text);
    } else {
        let padded = text + padding(k);
        assert(padded.last() == 0x3D);
        assert(padded.drop_last() =~= text + padding((k - 1) as nat));
        lemma_unpadded_padding(text, (k - 1) as nat);
    }
}

/// The other way round: a body in the provider's form, restored and then
/// stripped and substituted again, is the body again. The provider's form
/// holds neither `+` nor `/` nor `=`.
pub proof fn lemma_restored_round_trip(input: Seq<u8>)
    requires
        forall|i: int|
            0 <= i < input.len() ==> input[i] != 0x2B && input[i] != 0x2F && input[i] != 0x3D,
    ensures
        url_form(restored(input)) == input,
{
    let mapped = input.map_values(|b: u8| standard_byte(b));
    lemma_unpadded_padding(mapped, padding_for(input.len()));
    assert(unpadded(mapped) == mapped) by {
        if mapped.len() > 0 {
            assert(mapped.last() == standard_byte(input.last()));
        }
    }
    assert(mapped.map_values(|b: u8| url_byte(b)) =~= input);
}

/// Brings a body in the provider's encoding back to standard base64: the
/// two substituted characters are put back and the text is padded with `=`
/// to a multiple of four.
pub fn restore_base64(input: &str) -> (text: Vec<u8>)
    ensures
        text@ == restored(encode_utf8(input@)),
{
    let bytes = input.as_bytes();
    let ghost raw = encode_utf8(input@);
    let mut text: Vec<u8> = Vec::new();
    let mut i: usize = 0;
    while i < bytes.len()
        invariant
            i <= bytes.len(),
            bytes@ == raw,
            text@ == raw.take(i as int).map_values(|b: u8| standard_byte(b)),
        decreases bytes.len() - i,
    {
        let b = bytes[i];
        let restored_byte: u8 = if b == 0x2D {
            0x2B
        } else if b == 0x5F {
            0x2F
        } else {
            b
        };
        text.push(restored_byte);
        assert(text@ =~= raw.take(i + 1).map_values(|b: u8| standard_byte(b)));
        i += 1;
    }
    assert(raw.take(raw.len() as int) =~= raw);
    let pad: usize = (4 - bytes.len() % 4) % 4;
    let ghost substituted = text@;
    let mut k: usize = 0;
    while k < pad
        invariant
            k <= pad,
            text@ == substituted + padding(k as nat),
        decreases pad - k,
    {
        text.push(0x3D);
        assert(text@ =~= substituted + padding((k + 1) as nat));
        k += 1;
    }
    text
}

/// Decodes a body in the provider's encoding.
///
/// The text is brought back to standard base64 and decoded as such. A text
/// that is no such encoding is a parse failure.
pub fn base64_url_decode(input: &str) -> (decoded: Result<Vec<u8>, EngineError>)
    ensures
        match decoded {
            Ok(bytes) => url_decoded(encode_utf8(input@)) == Some(bytes@),
            Err(e) => url_decoded(encode_utf8(input@)) is None && e.carries(
                ErrorKind::Parse,
                MALFORMED_BODY_MESSAGE@,
            ),
        },
{
    let text = restore_base64(input);
    match standard_decode(&text) {
        Ok(decoded) => Ok(decoded),
        Err(_) => Err(EngineError::new(ErrorKind::Parse, MALFORMED_BODY_MESSAGE)),
    }
}

/// The text of one node's own content: its data decoded and read as UTF-8.
/// `None` when the node has no data, or the data does not decode, or the
/// bytes are no UTF-8.
pub open spec fn decoded_text(body: Option<BodyPart>) -> Option<Seq<char>> {
    match body {
        Some(b) => if b.data@.len() == 0 {
            None
        } else {
            match url_decoded(encode_utf8(b.data@)) {
                Some(bytes) => if valid_utf8(bytes) {
                    Some(decode_utf8(bytes))
                } else {
                    None
                },
                None => None,
            }
        },
        None => None,
    }
}

/// The text of a node: that of its own content when it has one, else that
/// of the first child, in order and depth first, whose text is not empty.
/// `depth` is how many levels below the node are searched.
pub open spec fn part_text(part: Part, depth: nat) -> Seq<char>
    decreases depth, 0nat,
{
    match decoded_text(part.body) {
        Some(text) => text,
        None => match part.parts {
            Some(children) => if depth > 0 {
                first_text(children@, 0, (depth - 1) as nat)
            } else {
                Seq::empty()
            },
            None => Seq::empty(),
        },
    }
}

/// The text of the first of `parts[from..]` whose text is not empty; empty
/// when there is none. `depth` is how many levels below these nodes are
/// searched.
pub open spec fn first_text(parts: Seq<Part>, from: int, depth: nat) -> Seq<char>
    decreases depth, parts.len() - from + 1,
{
    if 0 <= from < parts.len() {
        if part_text(parts[from], depth).len() > 0 {
            part_text(parts[from], depth)
        } else {
            first_text(parts, from + 1, depth)
        }
    } else {
        Seq::empty()
    }
}

/// The body text of a message: the top node's own content when it has one,
/// else the first non-empty text among its parts, searched depth first down
/// to the depth limit.
pub open spec fn payload_text(payload: Payload) -> Seq<char> {
    match decoded_text(payload.body) {
        Some(text) => text,
        None => match payload.parts {
            Some(children) => first_text(children@, 0, MAX_PART_DEPTH as nat),
            None => Seq::empty(),
        },
    }
}

/// The value of the first of `headers` whose name, in lowercase, is `name`;
/// empty when there is none.
pub open spec fn header_value(headers: Seq<Header>, name: Seq<char>) -> Seq<char> {
    match first_named(lowered_names(headers), name, 0) {
        Some(i) => headers[i].value@,
        None => Seq::empty(),
    }
}

/// The text of one node's own content.
fn decode_body(body: &Option<BodyPart>) -> (text: Option<String>)
    ensures
        match text {
            Some(t) => decoded_text(*body) == Some(t@),
            None => decoded_text(*body) is None,
        },
{
    match body {
        Some(b) => {
            if b.data.as_str().is_empty() {
                return None;
            }
            match base64_url_decode(b.data.as_str()) {
                Ok(bytes) => utf8_text(bytes),
                Err(_) => None,
            }
        },
        None => None,
    }
}

/// The text of the first of `parts` whose text is not empty.
fn extract_first_text(parts: &Vec<Part>, depth: usize) -> (text: String)
    ensures
        text@ == first_text(parts@, 0, depth as nat),
    decreases depth, parts.len() + 1,
{
    let mut i: usize = 0;
    while i < parts.len()
        invariant
            i <= parts.len(),
            first_text(parts@, 0, depth as nat) == first_text(parts@, i as int, depth as nat),
        decreases parts.len() - i,
    {
        let text = extract_part_text(&parts[i], depth);
        if !text.as_str().is_empty() {
            return text;
        }
        i += 1;
    }
    String::new()
}

/// The text of a node: its own content, else the first non-empty text among
/// its children, searched depth first. `depth` is how many levels below the
/// node are searched; deeper nodes count as having no text.
pub fn extract_part_text(part: &Part, depth: usize) -> (text: String)
    ensures
        text@ == part_text(*part, depth as nat),
    decreases depth, 0nat,
{
    if let Some(text) = decode_body(&part.body) {
        return text;
    }
    match &part.parts {
        Some(children) => if depth > 0 {
            extract_first_text(children, depth - 1)
        } else {
            String::new()
        },
        None => String::new(),
    }
}

/// The body text of a message: the top node's own content when it decodes,
/// else the first non-empty text among its parts, else nothing. A node whose
/// content does not decode counts as having none; the search goes on. The
/// search goes 64 levels deep and no deeper, so that a message nested
/// without end cannot exhaust the stack.
pub fn extract_body_text(payload: &Payload) -> (text: String)
    ensures
        text@ == payload_text(*payload),
{
    if let Some(text) = decode_body(&payload.body) {
        return text;
    }
    match &payload.parts {
        Some(children) => extract_first_text(children, MAX_PART_DEPTH),
        None => String::new(),
    }
}

/// The position of the first of `names` that is `name`.
pub open spec fn first_named(names: Seq<Seq<char>>, name: Seq<char>, from: int) -> Option<int>
    decreases names.len() - from,
{
    if 0 <= from < names.len() {
        if names[from] == name {
            Some(from)
        } else {
            first_named(names, name, from + 1)
        }
    } else {
        None
    }
}

/// The names of a run of headers, in lowercase.
pub open spec fn lowered_names(headers: Seq<Header>) -> Seq<Seq<char>> {
    Seq::new(headers.len(), |i: int| lowercase_of(headers[i].name@))
}

/// The position of the first of `names` that is `name`.
pub fn header_index(names: &Vec<String>, name: &str) -> (at: Option<usize>)
    ensures
        match at {
            Some(i) => first_named(strings_view(names@), name@, 0) == Some(i as int) && i
                < names.len(),
            None => first_named(strings_view(names@), name@, 0) is None,
        },
{
    let mut i: usize = 0;
    while i < names.len()
        invariant
            i <= names.len(),
            first_named(strings_view(names@), name@, 0) == first_named(
                strings_view(names@),
                name@,
                i as int,
            ),
        decreases names.len() - i,
    {
        assert(strings_view(names@)[i as int] == names@[i as int]@);
        if same_text(names[i].as_str(), name) {
            return Some(i);
        }
        i += 1;
    }
    None
}

/// The value of the first header whose name is `name` without regard to
/// case. `name` is given in lowercase.
pub fn find_header(headers: &Vec<Header>, name: &str) -> (value: String)
    ensures
        value@ == header_value(headers@, name@),
{
    let mut names: Vec<String> = Vec::new();
    let mut i: usize = 0;
    while i < headers.len()
        invariant
            i <= headers.len(),
            names@.len() == i,
            strings_view(names@) == lowered_names(headers@.take(i as int)),
        decreases headers.len() - i,
    {
        let ghost before = strings_view(names@);
        names.push(lowercase(headers[i].name.as_str()));
        assert forall|j: int| 0 <= j <= i implies strings_view(names@)[j] == lowered_names(
            headers@.take(i + 1),
        )[j] by {
            if j < i {
                assert(before[j] == lowered_names(headers@.take(i as int))[j]);
            }
        }
        assert(strings_view(names@) =~= lowered_names(headers@.take(i + 1)));
        i += 1;
    }
    assert(headers@.take(headers.len() as int) =~= headers@);
    match header_index(&names, name) {
        Some(at) => headers[at].value.clone(),
        None => String::new(),
    }
}

/// The message that the detail fetched for `id` stands for: sender and
/// subject from the headers, the snippet as given, the body text decoded. A
/// response without payload has neither headers nor body.
pub open spec fn fetched_message(id: Seq<char>, detail: MessageDetail) -> MessageModel {
    match detail.payload {
        Some(p) => MessageModel {
            id,
            from: header_value(p.headers@, HEADER_FROM@),
            subject: header_value(p.headers@, HEADER_SUBJECT@),
            snippet: detail.snippet@,
            body: payload_text(p),
        },
        None => MessageModel {
            id,
            from: Seq::empty(),
            subject: Seq::empty(),
            snippet: detail.snippet@,
            body: Seq::empty(),
        },
    }
}

/// Builds the message from a detail response.
pub fn fetch_message_detail(msg_id: &str, detail: &MessageDetail) -> (msg: EmailMessage)
    ensures
        msg@ == fetched_message(msg_id@, *detail),
{
    let (from, subject, body) = match &detail.payload {
        Some(p) => (
            find_header(&p.headers, HEADER_FROM),
            find_header(&p.headers, HEADER_SUBJECT),
            extract_body_text(p),
        ),
        None => (String::new(), String::new(), String::new()),
    };
    EmailMessage { id: msg_id.to_owned(), from, subject, snippet: detail.snippet.clone(), body }
}

/// The name under which a message is written to the log: the SHA-256 of its
/// id in hexadecimal, never the id itself.
pub fn hash_message_id(id: &str) -> (hash: String)
    ensures
        hash@ == sha256_hex_of(encode_utf8(id@)),
{
    sha256_hex(id.as_bytes())
}

/// The scope that is asked for: read-only access to the mailbox.
pub const GMAIL_SCOPE: &'static str = "https://www.googleapis.com/auth/gmail.readonly";

/// The loopback address to which the authorization is redirected.
pub const OAUTH_REDIRECT_URI: &'static str = "http://localhost:8234/callback";

/// The endpoint that exchanges codes and refresh tokens for access tokens.
pub const TOKEN_ENDPOINT: &'static str = "https://oauth2.googleapis.com/token";

/// The call with which restored credentials are checked.
pub const PROFILE_URL: &'static str = "https://gmail.googleapis.com/gmail/v1/users/me/profile";

/// The list call: unread messages of the last day, 25 ids at most.
pub const LIST_URL: &'static str =
    "https://gmail.googleapis.com/gmail/v1/users/me/messages?q=is%3Aunread%20newer_than:1d&maxResults=25";

/// What the detail call's address starts with; the message id follows.
pub const DETAIL_URL_PREFIX: &'static str =
    "https://gmail.googleapis.com/gmail/v1/users/me/messages/";

/// What follows the message id in the detail call's address.
pub const DETAIL_URL_SUFFIX: &'static str = "?format=full";

/// What the authorization header starts with; the access token follows.
pub const BEARER_PREFIX: &'static str = "Bearer ";

/// The authorization address up to the client id.
pub const AUTH_URL_CLIENT: &'static str =
    "https://accounts.google.com/o/oauth2/v2/auth?client_id=";

/// What stands between client id and redirect address.
pub const AUTH_URL_REDIRECT: &'static str = "&redirect_uri=";

/// What stands between redirect address and scope.
pub const AUTH_URL_SCOPE: &'static str = "&response_type=code&scope=";

/// What ends the authorization address.
pub const AUTH_URL_TAIL: &'static str = "&prompt=consent&access_type=offline";

/// Seconds for which an access token is taken to be valid when the response
/// does not say.
pub const DEFAULT_EXPIRES_IN: u64 = 3600;

/// Seconds before its expiry at which an access token is no longer used.
pub const EXPIRY_MARGIN_SECONDS: i64 = 60;

/// The message of the failure when an exchange brings no refresh token and
/// none is stored.
pub const NO_REFRESH_RECEIVED_MESSAGE: &'static str = "No refresh token received";

/// The message of the failure when a refresh is due and no refresh token is
/// stored.
pub const NO_REFRESH_STORED_MESSAGE: &'static str = "No refresh token stored";

/// The message of the failure when no access token is stored.
pub const NO_ACCESS_STORED_MESSAGE: &'static str = "No access token stored";

/// What the token endpoint answers.
#[derive(Debug, PartialEq, Eq)]
pub struct TokenResponse {
    pub access_token: String,
    pub refresh_token: Option<String>,
    pub expires_in: Option<u64>,
}

/// What a caller who needs an access token is to do.
#[derive(Debug, PartialEq, Eq)]
pub enum TokenPlan {
    /// Use the stored access token, which is this one.
    Use(String),
    /// Refresh first, with this refresh token.
    Refresh(String),
    /// Give up.
    Fail(EngineError),
}

/// The authorization address for a client id.
pub open spec fn auth_url(client_id: Seq<char>) -> Seq<char> {
    AUTH_URL_CLIENT@ + percent_encoded(encode_utf8(client_id)) + AUTH_URL_REDIRECT@
        + percent_encoded(encode_utf8(OAUTH_REDIRECT_URI@)) + AUTH_URL_SCOPE@ + percent_encoded(
        encode_utf8(GMAIL_SCOPE@),
    ) + AUTH_URL_TAIL@
}

/// The moment at which a token received at `now` expires.
pub open spec fn expiry_after(now: int, expires_in: Option<u64>) -> int {
    now + match expires_in {
        Some(seconds) => seconds as int,
        None => DEFAULT_EXPIRES_IN as int,
    }
}

/// Whether a token with this stored expiry has to be refreshed at `now`: it
/// has when the expiry is known and is 60 seconds away or less, or past.
pub open spec fn refresh_due(expiry: Option<i64>, now: int) -> bool {
    match expiry {
        Some(e) => now >= e - EXPIRY_MARGIN_SECONDS,
        None => false,
    }
}

/// The names and values of form parameters.
pub open spec fn params_view(params: Seq<(String, String)>) -> Seq<(Seq<char>, Seq<char>)> {
    Seq::new(params.len(), |i: int| (params[i].0@, params[i].1@))
}

/// The decision of `get_valid_access_token`, over the record's contents.
pub open spec fn token_plan(record: KeychainManager, now: int) -> PlanModel {
    if refresh_due(record.expiry(), now) {
        match record.refresh_token {
            Some(t) => PlanModel::Refresh(t@),
            None => PlanModel::Fail(ErrorKind::Auth, NO_REFRESH_STORED_MESSAGE@),
        }
    } else {
        match record.access_token {
            Some(t) => PlanModel::Use(t@),
            None => PlanModel::Fail(ErrorKind::Auth, NO_ACCESS_STORED_MESSAGE@),
        }
    }
}

/// A `TokenPlan` by its texts.
pub enum PlanModel {
    Use(Seq<char>),
    Refresh(Seq<char>),
    Fail(ErrorKind, Seq<char>),
}

impl View for TokenPlan {
    type V = PlanModel;

    open spec fn view(&self) -> PlanModel {
        match self {
            TokenPlan::Use(t) => PlanModel::Use(t@),
            TokenPlan::Refresh(t) => PlanModel::Refresh(t@),
            TokenPlan::Fail(e) => PlanModel::Fail(e.kind, e.message@),
        }
    }
}

/// Whether the expiry of a token received at `now` can be kept in an `i64`.
pub fn expiry_fits(now: i64, expires_in: Option<u64>) -> (fits: bool)
    ensures
        fits == (expiry_after(now as int, expires_in) <= i64::MAX),
{
    let lifetime: u64 = match expires_in {
        Some(seconds) => seconds,
        None => DEFAULT_EXPIRES_IN,
    };
    if now >= 0 {
        lifetime <= 0x7fff_ffff_ffff_ffff && now <= 0x7fff_ffff_ffff_ffff - lifetime as i64
    } else {
        let before: u64 = (-(now + 1)) as u64 + 1;
        lifetime <= before || lifetime - before <= 0x7fff_ffff_ffff_ffff
    }
}

/// The moment at which a token received at `now` expires.
pub fn token_expiry(now: i64, expires_in: Option<u64>) -> (expiry: i64)
    requires
        expiry_after(now as int, expires_in) <= i64::MAX,
    ensures
        expiry == expiry_after(now as int, expires_in),
{
    let lifetime: u64 = match expires_in {
        Some(seconds) => seconds,
        None => DEFAULT_EXPIRES_IN,
    };
    if now >= 0 {
        (now as u64 + lifetime) as i64
    } else {
        let before: u64 = (-(now + 1)) as u64 + 1;
        if lifetime >= before {
            (lifetime - before) as i64
        } else {
            -((before - lifetime - 1) as i64) - 1
        }
    }
}

/// The mail client: the client credentials and whether the user is signed
/// in.
#[derive(Debug)]
pub struct GmailClient {
    authenticated: bool,
    client_id: String,
    client_secret: String,
}

impl GmailClient {
    /// Whether the user is signed in.
    pub closed spec fn authenticated(&self) -> bool {
        self.authenticated
    }

    /// The client id.
    pub closed spec fn client_id(&self) -> Seq<char> {
        self.client_id@
    }

    /// The client secret.
    pub closed spec fn client_secret(&self) -> Seq<char> {
        self.client_secret@
    }

    /// Whether both client credentials are there.
    pub open spec fn configured(&self) -> bool {
        self.client_id().len() > 0 && self.client_secret().len() > 0
    }

    /// A client with these credentials, not signed in. Empty credentials are
    /// taken as they are: signing in will fail with them.
    pub fn new(client_id: String, client_secret: String) -> (client: Result<Self, EngineError>)
        ensures
            client is Ok,
            !client->Ok_0.authenticated(),
            client->Ok_0.client_id() == client_id@,
            client->Ok_0.client_secret() == client_secret@,
    {
        Ok(GmailClient { authenticated: false, client_id, client_secret })
    }

    /// Whether the user is signed in.
    pub fn is_authenticated(&self) -> (r: bool)
        ensures
            r == self.authenticated(),
    {
        self.authenticated
    }

    /// Whether both client credentials are there.
    pub fn is_configured(&self) -> (r: bool)
        ensures
            r == self.configured(),
    {
        !self.client_id.as_str().is_empty() && !self.client_secret.as_str().is_empty()
    }

    /// The address to which the user is sent to authorize: the same for the
    /// same client id, with the fixed scope and redirect address.
    pub fn get_auth_url(&self) -> (url: String)
        ensures
            url@ == auth_url(self.client_id()),
    {
        let mut url = AUTH_URL_CLIENT.to_owned();
        url.append(percent_encode(self.client_id.as_str()).as_str());
        url.append(AUTH_URL_REDIRECT);
        url.append(percent_encode(OAUTH_REDIRECT_URI).as_str());
        url.append(AUTH_URL_SCOPE);
        url.append(percent_encode(GMAIL_SCOPE).as_str());
        url.append(AUTH_URL_TAIL);
        url
    }

    /// The form that exchanges an authorization code for tokens.
    pub fn exchange_params(&self, code: &str) -> (params: Vec<(String, String)>)
        ensures
            params_view(params@) == seq![
                ("code"@, code@),
                ("client_id"@, self.client_id()),
                ("client_secret"@, self.client_secret()),
                ("redirect_uri"@, OAUTH_REDIRECT_URI@),
                ("grant_type"@, "authorization_code"@),
            ],
    {
        let mut params: Vec<(String, String)> = Vec::new();
        params.push(("code".to_owned(), code.to_owned()));
        params.push(("client_id".to_owned(), self.client_id.clone()));
        params.push(("client_secret".to_owned(), self.client_secret.clone()));
        params.push(("redirect_uri".to_owned(), OAUTH_REDIRECT_URI.to_owned()));
        params.push(("grant_type".to_owned(), "authorization_code".to_owned()));
        assert(params_view(params@) =~= seq![
            ("code"@, code@),
            ("client_id"@, self.client_id()),
            ("client_secret"@, self.client_secret()),
            ("redirect_uri"@, OAUTH_REDIRECT_URI@),
            ("grant_type"@, "authorization_code"@),
        ]);
        params
    }

    /// The form that asks for a new access token.
    pub fn refresh_params(&self, refresh_token: &str) -> (params: Vec<(String, String)>)
        ensures
            params_view(params@) == seq![
                ("refresh_token"@, refresh_token@),
                ("client_id"@, self.client_id()),
                ("client_secret"@, self.client_secret()),
                ("grant_type"@, "refresh_token"@),
            ],
    {
        let mut params: Vec<(String, String)> = Vec::new();
        params.push(("refresh_token".to_owned(), refresh_token.to_owned()));
        params.push(("client_id".to_owned(), self.client_id.clone()));
        params.push(("client_secret".to_owned(), self.client_secret.clone()));
        params.push(("grant_type".to_owned(), "refresh_token".to_owned()));
        assert(params_view(params@) =~= seq![
            ("refresh_token"@, refresh_token@),
            ("client_id"@, self.client_id()),
            ("client_secret"@, self.client_secret()),
            ("grant_type"@, "refresh_token"@),
        ]);
        params
    }

    /// Takes in the answer to a code exchange, received at `now`.
    ///
    /// The access token and its expiry are stored. A refresh token that came
    /// with them is stored too. When none came, the exchange succeeds only
    /// if one is stored already; otherwise it fails, and the user is not
    /// signed in by it.
    pub fn exchange_code(
        &mut self,
        keychain: &mut KeychainManager,
        response: TokenResponse,
        now: i64,
    ) -> (done: Result<(), EngineError>)
        requires
            expiry_after(now as int, response.expires_in) <= i64::MAX,
        ensures
            final(self).client_id() == old(self).client_id(),
            final(self).client_secret() == old(self).client_secret(),
            final(keychain).access_token == Some(response.access_token),
            final(keychain).expiry() == Some(expiry_after(now as int, response.expires_in) as i64),
            final(keychain).refresh_token == (if response.refresh_token is Some {
                response.refresh_token
            } else {
                old(keychain).refresh_token
            }),
            done is Ok <==> (response.refresh_token is Some || old(keychain).refresh_token is Some),
            done is Ok ==> final(self).authenticated(),
            done is Err ==> final(self).authenticated() == old(self).authenticated()
                && done->Err_0.carries(ErrorKind::Auth, NO_REFRESH_RECEIVED_MESSAGE@),
    {
        let expiry = token_expiry(now, response.expires_in);
        keychain.access_token = Some(response.access_token);
        keychain.set_token_expiry(expiry);
        match response.refresh_token {
            Some(token) => {
                keychain.refresh_token = Some(token);
            },
            None => {
                if keychain.refresh_token.is_none() {
                    return Err(EngineError::new(ErrorKind::Auth, NO_REFRESH_RECEIVED_MESSAGE));
                }
            },
        }
        self.authenticated = true;
        Ok(())
    }

    /// Says how to come by an access token that can be used at `now`.
    ///
    /// When the stored expiry is 60 seconds away or less, or past, the token
    /// has to be refreshed first, which takes a stored refresh token.
    /// Otherwise the stored access token is used. A record without a
    /// readable expiry is taken as not due.
    pub fn get_valid_access_token(&self, keychain: &KeychainManager, now: i64) -> (plan: TokenPlan)
        ensures
            plan@ == token_plan(*keychain, now as int),
    {
        let due = match keychain.get_token_expiry() {
            Some(expiry) => {
                if expiry >= i64::MIN + EXPIRY_MARGIN_SECONDS {
                    now >= expiry - EXPIRY_MARGIN_SECONDS
                } else {
                    true
                }
            },
            None => false,
        };
        if due {
            match keychain.get_refresh_token() {
                Some(token) => TokenPlan::Refresh(token),
                None => TokenPlan::Fail(
                    EngineError::new(ErrorKind::Auth, NO_REFRESH_STORED_MESSAGE),
                ),
            }
        } else {
            match keychain.get_access_token() {
                Some(token) => TokenPlan::Use(token),
                None => TokenPlan::Fail(
                    EngineError::new(ErrorKind::Auth, NO_ACCESS_STORED_MESSAGE),
                ),
            }
        }
    }

    /// Takes in the answer to a refresh, received at `now`: the new access
    /// token and its expiry are stored, and the token is handed back for
    /// use. The refresh token stays as it is.
    pub fn refresh_access_token(
        &self,
        keychain: &mut KeychainManager,
        response: TokenResponse,
        now: i64,
    ) -> (token: String)
        requires
            expiry_after(now as int, response.expires_in) <= i64::MAX,
        ensures
            token == response.access_token,
            final(keychain).access_token == Some(response.access_token),
            final(keychain).expiry() == Some(expiry_after(now as int, response.expires_in) as i64),
            final(keychain).refresh_token == old(keychain).refresh_token,
    {
        let expiry = token_expiry(now, response.expires_in);
        let token = response.access_token.clone();
        keychain.access_token = Some(response.access_token);
        keychain.set_token_expiry(expiry);
        token
    }

    /// Whether stored credentials are worth checking at start-up: they are
    /// when both client credentials are there and a refresh token is
    /// stored.
    pub fn wants_validation(&self, keychain: &KeychainManager) -> (r: bool)
        ensures
            r == (self.configured() && keychain.refresh_token is Some),
    {
        self.is_configured() && keychain.refresh_token.is_some()
    }

    /// Signs the user in from stored credentials, given how checking them
    /// went.
    ///
    /// Without client credentials or a stored refresh token nothing is
    /// restored and nothing changes. Credentials that passed the check sign
    /// the user in. Credentials that failed it are deleted, so that the user
    /// can sign in anew.
    pub fn try_restore_auth(
        &mut self,
        keychain: &mut KeychainManager,
        validated: bool,
    ) -> (restored: bool)
        ensures
            final(self).client_id() == old(self).client_id(),
            final(self).client_secret() == old(self).client_secret(),
            restored == (old(self).configured() && old(keychain).refresh_token is Some
                && validated),
            !(old(self).configured() && old(keychain).refresh_token is Some) ==> {
                &&& *final(keychain) == *old(keychain)
                &&& final(self).authenticated() == old(self).authenticated()
            },
            restored ==> final(self).authenticated() && *final(keychain) == *old(keychain),
            old(self).configured() && old(keychain).refresh_token is Some && !validated ==> {
                &&& !final(self).authenticated()
                &&& final(keychain).refresh_token is None
                &&& final(keychain).access_token is None
                &&& final(keychain).token_expiry is None
            },
    {
        if !self.wants_validation(keychain) {
            return false;
        }
        if validated {
            self.authenticated = true;
            true
        } else {
            self.clear_auth(keychain);
            false
        }
    }

    /// Signs the user out: all three stored secrets are deleted.
    pub fn clear_auth(&mut self, keychain: &mut KeychainManager)
        ensures
            final(self).client_id() == old(self).client_id(),
            final(self).client_secret() == old(self).client_secret(),
            !final(self).authenticated(),
            final(keychain).refresh_token is None,
            final(keychain).access_token is None,
            final(keychain).token_expiry is None,
    {
        keychain.delete_all_credentials();
        self.authenticated = false;
    }

    /// The messages of a batch whose details could be fetched, in the order
    /// of the list. A message whose fetch failed is left out; the others
    /// are not affected by it.
    pub fn get_recent_unread(
        &self,
        fetched: &Vec<(String, Result<MessageDetail, EngineError>)>,
    ) -> (messages: Vec<EmailMessage>)
        ensures
            messages_view(messages@) == fetched_messages(fetched@),
    {
        let mut messages: Vec<EmailMessage> = Vec::new();
        let mut i: usize = 0;
        assert(fetched@.skip(0) =~= fetched@);
        assert(messages_view(messages@) + fetched_messages(fetched@) =~= fetched_messages(
            fetched@,
        ));
        while i < fetched.len()
            invariant
                i <= fetched.len(),
                messages_view(messages@) + fetched_messages(fetched@.skip(i as int))
                    == fetched_messages(fetched@),
            decreases fetched.len() - i,
        {
            let ghost before = messages_view(messages@);
            let ghost rest = fetched@.skip(i as int);
            assert(rest[0] == fetched@[i as int]);
            assert(rest.skip(1) =~= fetched@.skip(i + 1));
            match &fetched[i].1 {
                Ok(detail) => {
                    let msg = fetch_message_detail(fetched[i].0.as_str(), detail);
                    messages.push(msg);
                    assert(messages_view(messages@) =~= before.push(msg@));
                    assert(before.push(msg@) + fetched_messages(rest.skip(1)) =~= before
                        + fetched_messages(rest));
                },
                Err(_) => {},
            }
            i += 1;
        }
        assert(fetched@.skip(fetched.len() as int) =~= Seq::empty());
        assert(messages_view(messages@) + Seq::<MessageModel>::empty() =~= messages_view(
            messages@,
        ));
        messages
    }
}

/// The texts of each of a run of messages.
pub open spec fn messages_view(msgs: Seq<EmailMessage>) -> Seq<MessageModel> {
    Seq::new(msgs.len(), |i: int| msgs[i]@)
}

/// The messages of a batch: one for each id whose detail was fetched, in
/// order; none for an id whose fetch failed.
pub open spec fn fetched_messages(
    fetched: Seq<(String, Result<MessageDetail, EngineError>)>,
) -> Seq<MessageModel>
    decreases fetched.len(),
{
    if fetched.len() == 0 {
        Seq::empty()
    } else {
        match fetched[0].1 {
            Ok(detail) => seq![fetched_message(fetched[0].0@, detail)] + fetched_messages(
                fetched.skip(1),
            ),
            Err(_) => fetched_messages(fetched.skip(1)),
        }
    }
}

/// The log names of the messages of a batch whose fetch failed, in order:
/// the hash of each id.
pub open spec fn failed_hashes(
    fetched: Seq<(String, Result<MessageDetail, EngineError>)>,
) -> Seq<Seq<char>>
    decreases fetched.len(),
{
    if fetched.len() == 0 {
        Seq::empty()
    } else {
        match fetched.last().1 {
            Ok(_) => failed_hashes(fetched.drop_last()),
            Err(_) => failed_hashes(fetched.drop_last()).push(
                sha256_hex_of(encode_utf8(fetched.last().0@)),
            ),
        }
    }
}

/// The names under which the failed fetches of a batch are written to the
/// log: for each message whose fetch failed, the hash of its id.
pub fn failed_message_hashes(
    fetched: &Vec<(String, Result<MessageDetail, EngineError>)>,
) -> (hashes: Vec<String>)
    ensures
        strings_view(hashes@) == failed_hashes(fetched@),
{
    let mut hashes: Vec<String> = Vec::new();
    let mut i: usize = 0;
    assert(fetched@.take(0) =~= Seq::empty());
    assert(strings_view(hashes@) =~= Seq::<Seq<char>>::empty());
    while i < fetched.len()
        invariant
            i <= fetched.len(),
            strings_view(hashes@) == failed_hashes(fetched@.take(i as int)),
        decreases fetched.len() - i,
    {
        let ghost before = strings_view(hashes@);
        let ghost upto = fetched@.take(i + 1);
        assert(upto.drop_last() =~= fetched@.take(i as int));
        assert(upto.last() == fetched@[i as int]);
        if fetched[i].1.is_err() {
            let hash = hash_message_id(fetched[i].0.as_str());
            hashes.push(hash);
            assert(strings_view(hashes@) =~= before.push(hash@));
        }
        i += 1;
    }
    assert(fetched@.take(fetched.len() as int) =~= fetched@);
    hashes
}

/// The address of the detail call for a message.
pub fn detail_url(msg_id: &str) -> (url: String)
    ensures
        url@ == DETAIL_URL_PREFIX@ + msg_id@ + DETAIL_URL_SUFFIX@,
{
    let mut url = DETAIL_URL_PREFIX.to_owned();
    url.append(msg_id);
    url.append(DETAIL_URL_SUFFIX);
    url
}

/// The authorization header for an access token.
pub fn bearer_header(access_token: &str) -> (value: String)
    ensures
        value@ == BEARER_PREFIX@ + access_token@,
{
    let mut value = BEARER_PREFIX.to_owned();
    value.append(access_token);
    value
}

/// A token whose expiry is 60 seconds away or less, or past, is never used
/// as it is: the plan is to refresh with the stored refresh token, or to
/// fail when there is none.
pub proof fn lemma_expiring_token_refreshed(record: KeychainManager, expiry: i64, now: i64)
    requires
        record.expiry() == Some(expiry),
        expiry - now <= EXPIRY_MARGIN_SECONDS,
    ensures
        !(token_plan(record, now as int) is Use),
        record.refresh_token is Some ==> token_plan(record, now as int) == PlanModel::Refresh(
            record.refresh_token->0@,
        ),
{
}

/// A token whose expiry is more than 60 seconds away is used as it is.
pub proof fn lemma_fresh_token_used(record: KeychainManager, expiry: i64, now: i64)
    requires
        record.expiry() == Some(expiry),
        expiry - now > EXPIRY_MARGIN_SECONDS,
        record.access_token is Some,
    ensures
        token_plan(record, now as int) == PlanModel::Use(record.access_token->0@),
{
}

} // verus!
