//! The addresses of the chat platform's methods and the reading of its
//! answers. The requests themselves are sent elsewhere.

use vstd::prelude::*;
use vstd::string::StringExecFns;

use crate::telegram::error::{TelegramError, TelegramErrorView};
use crate::telegram::json::{json_member, json_text, Json, JsonView};

verus! {

/// `serde_json::Value`: a JSON document as the parser hands it out.
#[verifier::external_type_specification]
#[verifier::external_body]
pub struct ExJsonValue(serde_json::Value);

/// The address of the platform that a client speaks to unless told otherwise.
pub const DEFAULT_DOMAIN: &'static str = "https://api.telegram.org";

/// Who the bot is to the chat platform and where the platform is.
#[derive(Debug)]
pub struct TelegramClient {
    token: String,
    domain: String,
}

/// A client as plain values.
pub struct ClientView {
    pub token: Seq<char>,
    pub domain: Seq<char>,
}

impl View for TelegramClient {
    type V = ClientView;

    closed spec fn view(&self) -> ClientView {
        ClientView { token: self.token@, domain: self.domain@ }
    }
}

/// The address of `method` for the bot `client`.
pub open spec fn method_url(client: ClientView, method: Seq<char>) -> Seq<char> {
    client.domain + "/bot"@ + client.token + "/"@ + method
}

impl TelegramClient {
    /// A client of the platform's public address.
    pub fn new(token: String) -> (r: TelegramClient)
        ensures
            r@ == (ClientView { token: token@, domain: DEFAULT_DOMAIN@ }),
    {
        TelegramClient { token, domain: String::from_str(DEFAULT_DOMAIN) }
    }

    /// A client of the platform at `domain`.
    pub fn new_with(token: String, domain: String) -> (r: TelegramClient)
        ensures
            r@ == (ClientView { token: token@, domain: domain@ }),
    {
        TelegramClient { token, domain }
    }

    pub fn token(&self) -> (r: &str)
        ensures
            r@ == self@.token,
    {
        self.token.as_str()
    }

    pub fn domain(&self) -> (r: &str)
        ensures
            r@ == self@.domain,
    {
        self.domain.as_str()
    }

    /// The address to post a request for `method` to.
    pub fn method_url(&self, method: &str) -> (r: String)
        ensures
            r@ == method_url(self@, method@),
    {
        let mut url = self.domain.clone();
        url.append("/bot");
        url.append(self.token.as_str());
        url.append("/");
        url.append(method);
        url
    }

    pub fn send_message_url(&self) -> (r: String)
        ensures
            r@ == method_url(self@, "sendMessage"@),
    {
        self.method_url("sendMessage")
    }

    pub fn send_photo_url(&self) -> (r: String)
        ensures
            r@ == method_url(self@, "sendPhoto"@),
    {
        self.method_url("sendPhoto")
    }

    pub fn delete_message_url(&self) -> (r: String)
        ensures
            r@ == method_url(self@, "deleteMessage"@),
    {
        self.method_url("deleteMessage")
    }

    pub fn edit_message_text_url(&self) -> (r: String)
        ensures
            r@ == method_url(self@, "editMessageText"@),
    {
        self.method_url("editMessageText")
    }

    pub fn edit_message_image_url(&self) -> (r: String)
        ensures
            r@ == method_url(self@, "editMessageMedia"@),
    {
        self.method_url("editMessageMedia")
    }
}

/// The document that `serde_json` reads out of `body`: none where the text
/// is no JSON document.
pub uninterp spec fn document_of(body: Seq<char>) -> Option<JsonView>;

/// `serde_json::from_str` at the type `serde_json::Value`: the document that
/// `body` holds, or the error of the parser. What it gives depends on the
/// text alone. The document is handed on in the library's own type, variant
/// for variant.
#[verifier::external_body]
fn parse_document(body: &str) -> (r: Result<Json, serde_json::Error>)
    ensures
        match r {
            Ok(document) => document_of(body@) == Some(document@),
            Err(_) => document_of(body@) is None,
        },
{
    serde_json::from_str::<serde_json::Value>(body).map(|value| json_of(&value))
}

/// A `serde_json::Value` in the library's own type, variant for variant: a
/// number as the text that `serde_json` writes for it, the members of an
/// object in the order in which `serde_json` walks them.
#[verifier::external_body]
fn json_of(value: &serde_json::Value) -> (r: Json) {
    match value {
        serde_json::Value::Null => Json::Null,
        serde_json::Value::Bool(flag) => Json::Bool(*flag),
        serde_json::Value::Number(number) => Json::Number(number.to_string()),
        serde_json::Value::String(text) => Json::Text(text.clone()),
        serde_json::Value::Array(items) => Json::Array(items.iter().map(json_of).collect()),
        serde_json::Value::Object(members) => Json::Object(
            members.iter().map(|(key, member)| (key.clone(), json_of(member))).collect(),
        ),
    }
}

/// The text that a document of the platform reports as sent: the string at
/// `result.text`, where there is one.
pub open spec fn text_at(document: JsonView) -> Option<Seq<char>> {
    match json_member(document, "result"@) {
        Some(result) => match json_member(result, "text"@) {
            Some(text) => json_text(text),
            None => None,
        },
        None => None,
    }
}

/// The text or, where there is none, the empty text.
pub open spec fn or_empty(text: Option<Seq<char>>) -> Seq<char> {
    match text {
        Some(t) => t,
        None => Seq::empty(),
    }
}

/// Picks the text at `result.text` out of `document`.
pub fn delivered_text(document: &Json) -> (r: Option<&str>)
    ensures
        match r {
            Some(text) => text_at(document@) == Some(text@),
            None => text_at(document@) is None,
        },
{
    match document.get("result") {
        Some(result) => match result.get("text") {
            Some(text) => text.as_str(),
            None => None,
        },
        None => None,
    }
}

/// The text that was found, or the empty text.
pub fn text_or_empty(found: Option<&str>) -> (r: String)
    ensures
        r@ == match found {
            Some(text) => text@,
            None => Seq::<char>::empty(),
        },
{
    match found {
        Some(text) => text.to_owned(),
        None => String::new(),
    }
}

/// Reads the platform's answer to a sent message or photo. `success` says
/// whether the answer came with a success status, `body` is its text.
///
/// A refusal is handed on with its text. An accepted request answers with a
/// JSON document; the text sent is the string at `result.text` in it, and
/// empty when there is none. An answer that is no JSON document is
/// malformed.
pub fn sent_text(success: bool, body: &str) -> (r: Result<String, TelegramError>)
    ensures
        !success ==> r is Err && r->Err_0@ == TelegramErrorView::Unsuccessful(body@),
        success ==> match document_of(body@) {
            Some(document) => r is Ok && r->Ok_0@ == or_empty(text_at(document)),
            None => r is Err && r->Err_0 is MalformedResponse,
        },
{
    if success {
        match parse_document(body) {
            Ok(document) => Ok(text_or_empty(delivered_text(&document))),
            Err(error) => Err(TelegramError::MalformedResponse(error)),
        }
    } else {
        Err(TelegramError::Unsuccessful(body.to_owned()))
    }
}

/// Reads the platform's answer to a request that hands nothing back: a
/// refusal is handed on with its text.
pub fn acknowledged(success: bool, body: &str) -> (r: Result<(), TelegramError>)
    ensures
        r is Ok <==> success,
        r is Err ==> r->Err_0@ == TelegramErrorView::Unsuccessful(body@),
{
    if success {
        Ok(())
    } else {
        Err(TelegramError::Unsuccessful(body.to_owned()))
    }
}

} // verus!
