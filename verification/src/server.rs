//! The decisions of the notification server: its options, how it reads an
//! upload, and what it answers and logs for it. The transport stays outside.

use vstd::prelude::*;
use vstd::utf8::{decode_utf8, valid_utf8};

use crate::logging::DefaultLogger;
use crate::text::{decimal, push_decimal};

verus! {

/// Options for building the server's router.
#[derive(Clone)]
pub struct RouterOptions<L> {
    /// The route on which notifications arrive.
    pub notify_route: String,
    /// The logger for general logging.
    pub logger: L,
}

impl<L> RouterOptions<L> {
    /// Options with the given logger and the route `/notify`.
    pub fn new(logger: L) -> (r: Self)
        ensures
            r.notify_route@ == "/notify"@,
            r.logger == logger,
    {
        RouterOptions { notify_route: "/notify".to_owned(), logger }
    }

    /// The same options with notifications on `route`.
    pub fn with_route(self, route: &str) -> (r: Self)
        ensures
            r.notify_route@ == route@,
            r.logger == self.logger,
    {
        let mut options = self;
        options.notify_route = route.to_owned();
        options
    }
}

impl RouterOptions<DefaultLogger> {
    /// Options with the default logger and the route `/notify`.
    pub fn default() -> (r: Self)
        ensures
            r.notify_route@ == "/notify"@,
            r.logger == DefaultLogger,
    {
        RouterOptions { notify_route: "/notify".to_owned(), logger: DefaultLogger }
    }
}

/// Why a notification request is refused; the server answers it with
/// status 400.
#[derive(Debug, Clone, Copy, PartialEq, Eq, Structural)]
pub enum RequestError {
    BadRequest,
}

/// What the server does with a part of a multipart upload.
#[derive(Debug, Clone, Copy, PartialEq, Eq, Structural)]
pub enum FieldRole {
    /// The part named `payload_json`: the notification as JSON text.
    PayloadJson,
    /// The part named `file`: a screenshot.
    File,
    /// Any other part, which is not read.
    Ignored,
}

/// The role of a part named `name`.
pub open spec fn role_of(name: Option<Seq<char>>) -> FieldRole {
    if name == Some("payload_json"@) {
        FieldRole::PayloadJson
    } else if name == Some("file"@) {
        FieldRole::File
    } else {
        FieldRole::Ignored
    }
}

fn same_text(a: &str, b: &str) -> (r: bool)
    ensures
        r == (a@ == b@),
{
    a.to_owned() == b.to_owned()
}

/// The role of a multipart part, by its name.
pub fn field_role(name: Option<&str>) -> (r: FieldRole)
    ensures
        r == role_of(
            match name {
                Some(n) => Some(n@),
                None => None,
            },
        ),
{
    match name {
        Some(n) => {
            if same_text(n, "payload_json") {
                FieldRole::PayloadJson
            } else if same_text(n, "file") {
                FieldRole::File
            } else {
                FieldRole::Ignored
            }
        },
        None => FieldRole::Ignored,
    }
}

/// `String::from_utf8`: its documentation promises the text where the bytes
/// are valid UTF-8 and an error otherwise; `valid_utf8` and `decode_utf8`
/// state the encoding.
#[verifier::external_body]
fn utf8_text(bytes: Vec<u8>) -> (r: Option<String>)
    ensures
        r is Some <==> valid_utf8(bytes@),
        r matches Some(t) ==> t@ == decode_utf8(bytes@),
{
    String::from_utf8(bytes).ok()
}

/// The parts of a notification upload read so far.
pub struct NotificationUpload {
    /// The text of the last `payload_json` part.
    pub payload_json: Option<String>,
    /// The bytes of the last `file` part.
    pub file_data: Option<Vec<u8>>,
}

impl NotificationUpload {
    /// Nothing read yet.
    pub fn new() -> (r: NotificationUpload)
        ensures
            r.payload_json is None,
            r.file_data is None,
    {
        NotificationUpload { payload_json: None, file_data: None }
    }

    /// Takes the bytes of a `payload_json` part; the upload is refused where
    /// they are not UTF-8.
    pub fn accept_payload_json(&mut self, data: Vec<u8>) -> (r: Result<(), RequestError>)
        ensures
            r is Ok <==> valid_utf8(data@),
            r is Ok ==> (final(self).payload_json matches Some(t) && t@ == decode_utf8(data@)),
            r is Err ==> final(self).payload_json == old(self).payload_json,
            final(self).file_data == old(self).file_data,
    {
        match utf8_text(data) {
            Some(t) => {
                self.payload_json = Some(t);
                Ok(())
            },
            None => Err(RequestError::BadRequest),
        }
    }

    /// Takes the bytes of a `file` part.
    pub fn accept_file(&mut self, data: Vec<u8>)
        ensures
            final(self).file_data == Some(data),
            final(self).payload_json == old(self).payload_json,
    {
        self.file_data = Some(data);
    }
}

/// What `serde_json` reads from the JSON text `text` as member `key`:
/// `None` where the text is no JSON document, `Some(Some(s))` where the
/// document is an object whose own (top-level) member named exactly `key` is
/// the string `s`, and `Some(None)` otherwise. `Value::get` with a `&str`
/// looks in the top-level object alone, so members of nested objects play no
/// part.
pub uninterp spec fn json_string_member(text: Seq<char>, key: Seq<char>) -> Option<
    Option<Seq<char>>,
>;

/// The view of a member as `read_string_member` returns it.
pub open spec fn member_view(m: Option<Option<String>>) -> Option<Option<Seq<char>>> {
    match m {
        None => None,
        Some(None) => Some(None),
        Some(Some(s)) => Some(Some(s@)),
    }
}

/// Parses `text` with `serde_json::from_str` into a `serde_json::Value`, then
/// takes member `key` with `Value::get` and its text with `Value::as_str`.
/// The contract names the result and claims nothing more of it.
#[verifier::external_body]
fn read_string_member(text: &str, key: &str) -> (r: Option<Option<String>>)
    ensures
        member_view(r) == json_string_member(text@, key@),
{
    match serde_json::from_str::<serde_json::Value>(text) {
        Ok(v) => match v.get(key) {
            Some(m) => match m.as_str() {
                Some(t) => Some(Some(t.to_owned())),
                None => Some(None),
            },
            None => Some(None),
        },
        Err(_) => None,
    }
}

/// The string members of a notification payload that the server reads.
pub struct PayloadFields {
    pub notification_type: Option<String>,
    pub player_name: Option<String>,
    pub content: Option<String>,
    pub dink_account_hash: Option<String>,
}

/// The view of an optional text.
pub open spec fn opt_view(o: Option<String>) -> Option<Seq<char>> {
    match o {
        Some(s) => Some(s@),
        None => None,
    }
}

/// A member read from a document that parsed: its text, if it is a string.
pub open spec fn present(m: Option<Option<Seq<char>>>) -> Option<Seq<char>> {
    match m {
        Some(Some(s)) => Some(s),
        _ => None,
    }
}

/// The member's text, or `default`.
pub open spec fn or_default(o: Option<Seq<char>>, default: Seq<char>) -> Seq<char> {
    match o {
        Some(s) => s,
        None => default,
    }
}

fn take_member(m: Option<Option<String>>) -> (r: Option<String>)
    ensures
        opt_view(r) == present(member_view(m)),
{
    match m {
        Some(Some(s)) => Some(s),
        _ => None,
    }
}

/// Reads the members `type`, `playerName`, `content` and `dinkAccountHash` of
/// the JSON text `text`; `None` where the text is no JSON document.
pub fn read_payload(text: &str) -> (r: Option<PayloadFields>)
    ensures
        r is None <==> json_string_member(text@, "type"@) is None,
        r matches Some(f) ==> {
            &&& opt_view(f.notification_type) == payload_member(text@, "type"@)
            &&& opt_view(f.player_name) == payload_member(text@, "playerName"@)
            &&& opt_view(f.content) == payload_member(text@, "content"@)
            &&& opt_view(f.dink_account_hash) == payload_member(text@, "dinkAccountHash"@)
        },
{
    let kind = read_string_member(text, "type");
    if kind.is_none() {
        return None;
    }
    let player_name = read_string_member(text, "playerName");
    let content = read_string_member(text, "content");
    let dink_account_hash = read_string_member(text, "dinkAccountHash");
    Some(
        PayloadFields {
            notification_type: take_member(kind),
            player_name: take_member(player_name),
            content: take_member(content),
            dink_account_hash: take_member(dink_account_hash),
        },
    )
}

/// What the server answers an accepted notification with, and what it logs.
pub struct NotificationReceipt {
    pub notification_type: String,
    pub player_name: String,
    pub has_screenshot: bool,
    /// The messages to log at level info, in order.
    pub log_messages: Vec<String>,
}

/// The message logged for every accepted notification.
pub open spec fn notification_log(
    kind: Seq<char>,
    player: Seq<char>,
    content: Seq<char>,
    hash: Seq<char>,
) -> Seq<char> {
    "📨 NOTIFICATION: "@ + kind + " from "@ + player + " - "@ + content + " - (dinkAccountHash: "@
        + hash + ")"@
}

/// The message logged for a screenshot of `n` bytes.
pub open spec fn screenshot_log(n: nat) -> Seq<char> {
    "Received screenshot attachment ("@ + decimal(n) + " bytes)"@
}

/// The messages logged for an accepted notification of type `kind`, with
/// the members `player`, `content` and `hash` where the payload has them,
/// and a screenshot of `screenshot_len` bytes where one came.
pub open spec fn accepted_logs(
    kind: Seq<char>,
    player: Option<Seq<char>>,
    content: Option<Seq<char>>,
    hash: Option<Seq<char>>,
    screenshot_len: Option<nat>,
) -> Seq<Seq<char>> {
    let first = notification_log(
        kind,
        or_default(player, "Unknown"@),
        or_default(content, ""@),
        or_default(hash, ""@),
    );
    match screenshot_len {
        Some(n) => seq![first, screenshot_log(n)],
        None => seq![first],
    }
}

/// The length of an optional screenshot.
pub open spec fn len_of(n: Option<usize>) -> Option<nat> {
    match n {
        Some(n) => Some(n as nat),
        None => None,
    }
}

/// The string member `key` of the payload `text`, where it parses and has one.
pub open spec fn payload_member(text: Seq<char>, key: Seq<char>) -> Option<Seq<char>> {
    present(json_string_member(text, key))
}

impl PayloadFields {
    /// Accepts the notification where it names its type: the answer carries
    /// the type, the player (`Unknown` where it has none) and whether a
    /// screenshot of `screenshot_len` bytes came with it.
    pub fn receipt(&self, screenshot_len: Option<usize>) -> (r: Result<NotificationReceipt, RequestError>)
        ensures
            r is Err <==> self.notification_type is None,
            r matches Ok(rc) ==> {
                &&& Some(rc.notification_type@) == opt_view(self.notification_type)
                &&& rc.player_name@ == or_default(opt_view(self.player_name), "Unknown"@)
                &&& rc.has_screenshot == screenshot_len is Some
                &&& rc.log_messages.deep_view() == accepted_logs(
                    self.notification_type->0@,
                    opt_view(self.player_name),
                    opt_view(self.content),
                    opt_view(self.dink_account_hash),
                    len_of(screenshot_len),
                )
            },
    {
        let kind = match &self.notification_type {
            Some(t) => t.clone(),
            None => {
                return Err(RequestError::BadRequest);
            },
        };
        let player_name = match &self.player_name {
            Some(p) => p.clone(),
            None => "Unknown".to_owned(),
        };
        let content: &str = match &self.content {
            Some(c) => c.as_str(),
            None => "",
        };
        let hash: &str = match &self.dink_account_hash {
            Some(h) => h.as_str(),
            None => "",
        };
        let mut first = "📨 NOTIFICATION: ".to_owned();
        first.append(kind.as_str());
        first.append(" from ");
        first.append(player_name.as_str());
        first.append(" - ");
        first.append(content);
        first.append(" - (dinkAccountHash: ");
        first.append(hash);
        first.append(")");
        let mut log_messages: Vec<String> = Vec::new();
        log_messages.push(first);
        let has_screenshot = match screenshot_len {
            Some(n) => {
                let mut second = "Received screenshot attachment (".to_owned();
                push_decimal(&mut second, n);
                second.append(" bytes)");
                log_messages.push(second);
                true
            },
            None => false,
        };
        let rc = NotificationReceipt { notification_type: kind, player_name, has_screenshot, log_messages };
        assert(rc.log_messages.deep_view() =~= accepted_logs(
            self.notification_type->0@,
            opt_view(self.player_name),
            opt_view(self.content),
            opt_view(self.dink_account_hash),
            len_of(screenshot_len),
        ));
        Ok(rc)
    }
}

impl NotificationUpload {
    /// Decides on the upload: refused where there is no payload, where it is
    /// no JSON document, or where it names no type.
    pub fn process(&self) -> (r: Result<NotificationReceipt, RequestError>)
        ensures
            r is Err <==> (self.payload_json is None || payload_member(
                self.payload_json->0@,
                "type"@,
            ) is None),
            r matches Ok(rc) ==> {
                let text = self.payload_json->0@;
                &&& rc.notification_type@ == payload_member(text, "type"@)->0
                &&& rc.player_name@ == or_default(payload_member(text, "playerName"@), "Unknown"@)
                &&& rc.has_screenshot == self.file_data is Some
                &&& rc.log_messages.deep_view() == accepted_logs(
                    payload_member(text, "type"@)->0,
                    payload_member(text, "playerName"@),
                    payload_member(text, "content"@),
                    payload_member(text, "dinkAccountHash"@),
                    match self.file_data {
                        Some(d) => Some(d.len() as nat),
                        None => None,
                    },
                )
            },
    {
        let text = match &self.payload_json {
            Some(t) => t,
            None => {
                return Err(RequestError::BadRequest);
            },
        };
        let fields = match read_payload(text.as_str()) {
            Some(f) => f,
            None => {
                return Err(RequestError::BadRequest);
            },
        };
        let screenshot_len = match &self.file_data {
            Some(d) => Some(d.len()),
            None => None,
        };
        fields.receipt(screenshot_len)
    }
}

} // verus!
