//! Configuration and activation, as the server hands them out.

use vstd::prelude::*;
use vstd::string::*;
use vstd::utf8::*;

use crate::identity::DeviceIdentity;
use crate::json::Json;
use crate::{identity, json, text};

verus! {

/// How long a request may take, in seconds.
pub const HTTP_TIMEOUT_SECS: u64 = 60;

/// How often the activation is asked for.
pub const MAX_POLLS: u32 = 12;

/// How long to wait between two questions, in seconds.
pub const POLL_INTERVAL_SECS: u32 = 5;

/// How many activation codes a device may let expire.
pub const MAX_RETRIES: u32 = 5;

/// The server's answer: connection parameters and an optional activation task.
#[derive(Debug)]
pub struct OtaConfig {
    pub websocket: WebSocketConfig,
    /// The primary link; without it only WebSocket is left.
    pub mqtt: Option<OtaMqttConfig>,
    pub activation: Option<ActivationData>,
}

impl Default for OtaConfig {
    fn default() -> (c: Self)
        ensures
            c.websocket.url is None,
            c.websocket.token is None,
            c.mqtt is None,
            c.activation is None,
    {
        OtaConfig { websocket: WebSocketConfig::default(), mqtt: None, activation: None }
    }
}

/// Where the WebSocket endpoint is.
#[derive(Debug)]
pub struct WebSocketConfig {
    pub url: Option<String>,
    pub token: Option<String>,
}

impl Default for WebSocketConfig {
    fn default() -> (c: Self)
        ensures
            c.url is None,
            c.token is None,
    {
        WebSocketConfig { url: None, token: None }
    }
}

/// Where the MQTT broker is.
#[derive(Debug)]
pub struct OtaMqttConfig {
    /// Host, possibly with a port (`host:port`).
    pub endpoint: Option<String>,
    /// The client id that the server assigned; it has to be used.
    pub client_id: Option<String>,
    pub username: Option<String>,
    pub password: Option<String>,
    pub publish_topic: Option<String>,
    pub subscribe_topic: Option<String>,
    pub tls: bool,
}

impl Default for OtaMqttConfig {
    fn default() -> (c: Self)
        ensures
            c.endpoint is None,
            c.client_id is None,
            c.username is None,
            c.password is None,
            c.publish_topic is None,
            c.subscribe_topic is None,
            !c.tls,
    {
        OtaMqttConfig {
            endpoint: None,
            client_id: None,
            username: None,
            password: None,
            publish_topic: None,
            subscribe_topic: None,
            tls: false,
        }
    }
}

/// What a device that is not activated yet has to answer.
#[derive(Debug)]
pub struct ActivationData {
    pub challenge: String,
    pub code: String,
    pub message: Option<String>,
    pub authorization_url: Option<String>,
}

/// A request to the server, with a JSON body.
#[derive(Debug)]
pub struct HttpRequest {
    pub url: String,
    pub headers: Vec<(String, String)>,
    pub body: String,
}

/// Whether a list of headers is the given names and values, in this order.
pub open spec fn headers_are(headers: Seq<(String, String)>, want: Seq<(Seq<char>, Seq<char>)>) -> bool {
    &&& headers.len() == want.len()
    &&& forall|i: int|
        0 <= i < want.len() ==> (#[trigger] headers[i]).0@ == want[i].0 && headers[i].1@
            == want[i].1
}

/// The body that asks for the configuration: the firmware, with the HMAC key in place of its
/// hash, and the board.
pub open spec fn config_body(hmac_key: Seq<char>, device_id: Seq<char>) -> Seq<char> {
    "{\"application\":{\"elf_sha256\":"@ + json::quoted(hmac_key)
        + ",\"version\":\"2.1.1\"},\"board\":{\"mac\":"@ + json::quoted(device_id)
        + ",\"name\":\"xiaozhi-rs\",\"type\":\"bread-compact-wifi\"}}"@
}

/// The request for the configuration, from a client of the given version.
pub fn config_request(identity: &DeviceIdentity, version: &str) -> (r: HttpRequest)
    ensures
        r.url@ == "https://api.tenclass.net/xiaozhi/ota/"@,
        headers_are(
            r.headers@,
            seq![
                ("Device-Id"@, identity.device_id@),
                ("Client-Id"@, identity.client_id@),
                ("User-Agent"@, "bread-compact-wifi/xiaozhi-rs-"@ + version@),
                ("Accept-Language"@, "zh-CN"@),
            ],
        ),
        r.body@ == config_body(identity.hmac_key@, identity.device_id@),
{
    let mut headers: Vec<(String, String)> = Vec::new();
    headers.push(("Device-Id".to_owned(), identity.device_id.clone()));
    headers.push(("Client-Id".to_owned(), identity.client_id.clone()));
    headers.push(("User-Agent".to_owned(), text::join("bread-compact-wifi/xiaozhi-rs-", version)));
    headers.push(("Accept-Language".to_owned(), "zh-CN".to_owned()));
    let mut body = "{\"application\":{\"elf_sha256\":".to_owned();
    body.append(json::quote(identity.hmac_key.as_str()).as_str());
    body.append(",\"version\":\"2.1.1\"},\"board\":{\"mac\":");
    body.append(json::quote(identity.device_id.as_str()).as_str());
    body.append(",\"name\":\"xiaozhi-rs\",\"type\":\"bread-compact-wifi\"}}");
    HttpRequest { url: "https://api.tenclass.net/xiaozhi/ota/".to_owned(), headers, body }
}

/// Takes the server's answer to the request for the configuration: the text of an answer that
/// succeeded, or what to say of one that did not.
pub fn config_answer(status: u16, status_text: &str, body: String) -> (r: Result<String, String>)
    ensures
        match r {
            Ok(t) => 200 <= status < 300 && t == body,
            Err(m) => !(200 <= status < 300) && m@ == "OTA 请求失败: HTTP "@ + status_text@,
        },
{
    if 200 <= status && status < 300 {
        Ok(body)
    } else {
        Err(text::join("OTA 请求失败: HTTP ", status_text))
    }
}

/// Whether `after` is the member `before`, with its value hidden if its name is one of `secrets`.
pub open spec fn hidden_member(
    before: (String, Json),
    after: (String, Json),
    secrets: Seq<Seq<char>>,
) -> bool {
    &&& after.0 == before.0
    &&& if secrets.contains(before.0@) {
        after.1 matches Json::Text(t) && t@ == "***"@
    } else {
        after.1 == before.1
    }
}

/// Whether `after` is the value `before`, with the members named in `secrets` hidden if it is an
/// object.
pub open spec fn hidden_in(before: Json, after: Json, secrets: Seq<Seq<char>>) -> bool {
    match (before, after) {
        (Json::Object(b), Json::Object(a)) => {
            &&& a@.len() == b@.len()
            &&& forall|i: int|
                0 <= i < b@.len() ==> hidden_member(b@[i], #[trigger] a@[i], secrets)
        },
        _ => after == before && !(before is Object),
    }
}

/// The secrets of the WebSocket part.
pub open spec fn websocket_secrets() -> Seq<Seq<char>> {
    seq!["token"@]
}

/// The secrets of the MQTT part.
pub open spec fn mqtt_secrets() -> Seq<Seq<char>> {
    seq!["password"@, "pwd"@, "secret"@]
}

/// Whether `after` is the member `before` of an answer, with the secrets in it hidden.
pub open spec fn redacted_member(before: (String, Json), after: (String, Json)) -> bool {
    &&& after.0 == before.0
    &&& if before.0@ == "websocket"@ {
        hidden_in(before.1, after.1, websocket_secrets())
    } else if before.0@ == "mqtt"@ {
        hidden_in(before.1, after.1, mqtt_secrets())
    } else {
        after.1 == before.1
    }
}

/// Whether `after` is the answer `before` with its token and passwords hidden and nothing else
/// changed.
pub open spec fn redacted(before: Json, after: Json) -> bool {
    match (before, after) {
        (Json::Object(b), Json::Object(a)) => {
            &&& a@.len() == b@.len()
            &&& forall|i: int| 0 <= i < b@.len() ==> redacted_member(b@[i], #[trigger] a@[i])
        },
        _ => after == before && !(before is Object),
    }
}

/// Whether a name is one of the secrets of the WebSocket part, or else of the MQTT part.
fn is_secret(name: &str, websocket: bool) -> (r: bool)
    ensures
        r == (if websocket {
            websocket_secrets()
        } else {
            mqtt_secrets()
        }).contains(name@),
{
    proof {
        assert(websocket_secrets()[0] == "token"@);
        assert(mqtt_secrets()[0] == "password"@);
        assert(mqtt_secrets()[1] == "pwd"@);
        assert(mqtt_secrets()[2] == "secret"@);
    }
    if websocket {
        text::same_text(name, "token")
    } else {
        text::same_text(name, "password") || text::same_text(name, "pwd") || text::same_text(
            name,
            "secret",
        )
    }
}

/// Hides the secrets of the WebSocket part, or else of the MQTT part.
fn hide_secrets(part: Json, websocket: bool) -> (r: Json)
    ensures
        hidden_in(
            part,
            r,
            if websocket {
                websocket_secrets()
            } else {
                mqtt_secrets()
            },
        ),
{
    let ghost secrets = if websocket {
        websocket_secrets()
    } else {
        mqtt_secrets()
    };
    match part {
        Json::Object(members) => {
            let ghost before = members@;
            let mut members = members;
            let n: usize = members.len();
            let mut i: usize = 0;
            while i < n
                invariant
                    i <= n == members@.len() == before.len(),
                    secrets == if websocket {
                        websocket_secrets()
                    } else {
                        mqtt_secrets()
                    },
                    forall|j: int|
                        0 <= j < i ==> hidden_member(before[j], #[trigger] members@[j], secrets),
                    forall|j: int| i <= j < n ==> #[trigger] members@[j] == before[j],
                decreases n - i,
            {
                if is_secret(members[i].0.as_str(), websocket) {
                    members[i].1 = Json::Text("***".to_owned());
                }
                i = i + 1;
            }
            Json::Object(members)
        },
        other => other,
    }
}

/// An answer of the server with its token and passwords hidden, fit to be shown.
pub fn redact(answer: Json) -> (r: Json)
    ensures
        redacted(answer, r),
{
    match answer {
        Json::Object(members) => {
            let ghost before = members@;
            let mut members = members;
            let n: usize = members.len();
            let mut i: usize = 0;
            while i < n
                invariant
                    i <= n == members@.len() == before.len(),
                    forall|j: int| 0 <= j < i ==> redacted_member(before[j], #[trigger] members@[j]),
                    forall|j: int| i <= j < n ==> #[trigger] members@[j] == before[j],
                decreases n - i,
            {
                let websocket = text::same_text(members[i].0.as_str(), "websocket");
                if websocket || text::same_text(members[i].0.as_str(), "mqtt") {
                    let mut part = Json::Null;
                    core::mem::swap(&mut part, &mut members[i].1);
                    members[i].1 = hide_secrets(part, websocket);
                }
                i = i + 1;
            }
            Json::Object(members)
        },
        other => other,
    }
}

/// The body that answers a challenge.
pub open spec fn activation_body(
    challenge: Seq<char>,
    signature: Seq<char>,
    serial_number: Seq<char>,
) -> Seq<char> {
    "{\"Payload\":{\"algorithm\":\"hmac-sha256\",\"challenge\":"@ + json::quoted(challenge)
        + ",\"hmac\":"@ + json::quoted(signature) + ",\"serial_number\":"@ + json::quoted(
        serial_number,
    ) + "}}"@
}

/// The request that answers a challenge, signed with the key of the device.
pub fn activation_request(identity: &DeviceIdentity, challenge: &str) -> (r: HttpRequest)
    ensures
        r.url@ == "https://api.tenclass.net/xiaozhi/ota/activate"@,
        headers_are(
            r.headers@,
            seq![("Device-Id"@, identity.device_id@), ("Client-Id"@, identity.client_id@)],
        ),
        r.body@ == activation_body(
            challenge@,
            text::hex_text(
                identity::hmac_sha256(
                    encode_utf8(identity.hmac_key@),
                    encode_utf8(challenge@),
                ),
            ),
            identity.serial_number@,
        ),
{
    let signature = identity.generate_hmac_signature(challenge);
    let mut headers: Vec<(String, String)> = Vec::new();
    headers.push(("Device-Id".to_owned(), identity.device_id.clone()));
    headers.push(("Client-Id".to_owned(), identity.client_id.clone()));
    let mut body = "{\"Payload\":{\"algorithm\":\"hmac-sha256\",\"challenge\":".to_owned();
    body.append(json::quote(challenge).as_str());
    body.append(",\"hmac\":");
    body.append(json::quote(signature.as_str()).as_str());
    body.append(",\"serial_number\":");
    body.append(json::quote(identity.serial_number.as_str()).as_str());
    body.append("}}");
    HttpRequest { url: "https://api.tenclass.net/xiaozhi/ota/activate".to_owned(), headers, body }
}

/// Asks the server over and over whether the device is activated.
pub struct ActivationPoll {
    /// The question that is out, counted from one.
    pub attempt: u32,
}

/// What to do about the activation.
#[derive(Debug, Clone, Copy, PartialEq, Eq, Structural)]
pub enum PollStep {
    /// The device is activated.
    Activated,
    /// Wait five seconds and ask again. `remaining_secs` is what is left of the minute, where the
    /// server is waiting for the code or did not answer.
    Again { remaining_secs: Option<u32> },
    /// The code has expired.
    Expired,
}

impl ActivationPoll {
    /// Whether a question is out.
    pub open spec fn wf(self) -> bool {
        1 <= self.attempt <= MAX_POLLS
    }

    /// The first question goes out.
    pub fn new() -> (p: Self)
        ensures
            p.wf(),
            p.attempt == 1,
    {
        ActivationPoll { attempt: 1 }
    }

    /// Takes the status of the server's answer, or `None` where there was none.
    pub fn answered(&mut self, status: Option<u16>) -> (s: PollStep)
        requires
            old(self).wf(),
        ensures
            final(self).wf(),
            status == Some(200u16) ==> s == PollStep::Activated && *final(self) == *old(self),
            status != Some(200u16) && old(self).attempt < MAX_POLLS ==> {
                &&& final(self).attempt == old(self).attempt + 1
                &&& s == (PollStep::Again {
                    remaining_secs: if status is None || status == Some(202u16) {
                        Some(((MAX_POLLS - old(self).attempt) * POLL_INTERVAL_SECS) as u32)
                    } else {
                        None
                    },
                })
            },
            status != Some(200u16) && old(self).attempt == MAX_POLLS ==> s == PollStep::Expired
                && *final(self) == *old(self),
    {
        let left: u32 = (MAX_POLLS - self.attempt) * POLL_INTERVAL_SECS;
        let remaining_secs: Option<u32> = match status {
            Some(code) => {
                if code == 200 {
                    return PollStep::Activated;
                }
                if code == 202 {
                    Some(left)
                } else {
                    None
                }
            },
            None => Some(left),
        };
        if self.attempt < MAX_POLLS {
            self.attempt = self.attempt + 1;
            PollStep::Again { remaining_secs }
        } else {
            PollStep::Expired
        }
    }
}

/// The waits before any question add up to less than a minute.
pub proof fn law_poll_within_a_minute(p: ActivationPoll)
    requires
        p.wf(),
    ensures
        (p.attempt - 1) * POLL_INTERVAL_SECS < 60,
{
}

/// Brings a device to activation, over as many codes as it takes up to a limit.
pub struct Activator {
    /// Whether to go on without activation.
    pub skip: bool,
    /// The code that is out, counted from one; none yet at zero.
    pub attempt: u32,
}

/// What to do to get the device activated.
#[derive(Debug)]
pub enum ActivationStep {
    /// Go on with this configuration. What has to be stored comes along.
    Ready { config: OtaConfig, store: Option<String> },
    /// Show the code and poll for the answer to the challenge.
    Poll { config: OtaConfig, challenge: String, code: String },
    /// Fetch the configuration again: the code has expired.
    Fetch,
    /// Give up.
    Failed(String),
}

impl Activator {
    /// Whether no more codes than allowed are out.
    pub open spec fn wf(self) -> bool {
        self.attempt <= MAX_RETRIES
    }

    /// No configuration fetched yet.
    pub fn new(skip: bool) -> (a: Self)
        ensures
            a.wf(),
            a.skip == skip,
            a.attempt == 0,
    {
        Activator { skip, attempt: 0 }
    }

    /// Takes a configuration that was fetched. The first one is enough where activation is to be
    /// skipped or the device is activated; any is enough that asks for no activation.
    pub fn fetched(&mut self, activated: bool, config: OtaConfig) -> (s: ActivationStep)
        requires
            old(self).wf(),
            old(self).attempt < MAX_RETRIES,
        ensures
            final(self).wf(),
            final(self).skip == old(self).skip,
            (old(self).attempt == 0 && (old(self).skip || activated)) || config.activation is None
                ==> {
                &&& s == (ActivationStep::Ready { config, store: None })
                &&& final(self).attempt == old(self).attempt
            },
            !((old(self).attempt == 0 && (old(self).skip || activated)) || config.activation
                is None) ==> {
                &&& final(self).attempt == old(self).attempt + 1
                &&& s matches ActivationStep::Poll { config: c, challenge, code } && c == config
                    && challenge == config.activation->0.challenge && code
                    == config.activation->0.code
            },
    {
        if self.attempt == 0 && (self.skip || activated) {
            return ActivationStep::Ready { config, store: None };
        }
        let asked = match &config.activation {
            Some(a) => Some((a.challenge.clone(), a.code.clone())),
            None => None,
        };
        match asked {
            Some((challenge, code)) => {
                self.attempt = self.attempt + 1;
                ActivationStep::Poll { config, challenge, code }
            },
            None => ActivationStep::Ready { config, store: None },
        }
    }

    /// Takes the outcome of polling for an answer: an activated device is marked as such, an
    /// expired code is followed by another one unless it was the last.
    pub fn polled(
        &mut self,
        identity: &mut DeviceIdentity,
        config: OtaConfig,
        outcome: Result<(), String>,
    ) -> (s: ActivationStep)
        requires
            old(self).wf(),
        ensures
            *final(self) == *old(self),
            outcome is Ok ==> {
                &&& *final(identity) == (DeviceIdentity {
                    activation_status: true,
                    ..*old(identity)
                })
                &&& s matches ActivationStep::Ready { config: c, store: Some(t) } && c == config
                    && t@ == final(identity).stored_text()
            },
            outcome is Err ==> *final(identity) == *old(identity),
            outcome is Err && old(self).attempt < MAX_RETRIES ==> s == ActivationStep::Fetch,
            outcome is Err && old(self).attempt == MAX_RETRIES ==> {
                s matches ActivationStep::Failed(m) && m@ == "激活失败，已达到最大重试次数: "@
                    + outcome->Err_0@
            },
    {
        match outcome {
            Ok(_) => {
                let content = identity.set_activated();
                ActivationStep::Ready { config, store: Some(content) }
            },
            Err(why) => {
                if self.attempt < MAX_RETRIES {
                    ActivationStep::Fetch
                } else {
                    ActivationStep::Failed(
                        text::join("激活失败，已达到最大重试次数: ", why.as_str()),
                    )
                }
            },
        }
    }
}

/// What is shown of an answer holds no secret: after redaction every token of the WebSocket part
/// and every password of the MQTT part reads `***`.
pub proof fn law_redaction_hides_secrets(before: Json, after: Json, i: int, j: int)
    requires
        redacted(before, after),
        after matches Json::Object(a) && 0 <= i < a@.len() && (a@[i].1 matches Json::Object(m) && 0
            <= j < m@.len() && ((a@[i].0@ == "websocket"@ && websocket_secrets().contains(m@[j].0@))
            || (a@[i].0@ == "mqtt"@ && mqtt_secrets().contains(m@[j].0@)))),
    ensures
        after matches Json::Object(a) && (a@[i].1 matches Json::Object(m) && (m@[j].1 matches
            Json::Text(t) && t@ == "***"@)),
{
    reveal_strlit("websocket");
    reveal_strlit("mqtt");
    assert("websocket"@.len() != "mqtt"@.len());
    let a = after->Object_0;
    let b = before->Object_0;
    assert(redacted_member(b@[i], a@[i]));
    let m = a@[i].1->Object_0;
    let n = b@[i].1->Object_0;
    if a@[i].0@ == "websocket"@ {
        assert(hidden_member(n@[j], m@[j], websocket_secrets()));
    } else {
        assert(hidden_member(n@[j], m@[j], mqtt_secrets()));
    }
}

/// The request for the configuration goes to the server under the ids of the device, and tells the
/// key and the address of the device.
pub proof fn law_config_requests(id: DeviceIdentity, version: &str, r: HttpRequest)
    requires
        call_ensures(config_request, (&id, version), r),
    ensures
        r.url@ == "https://api.tenclass.net/xiaozhi/ota/"@,
        r.headers@.len() == 4,
        r.headers@[0].0@ == "Device-Id"@ && r.headers@[0].1@ == id.device_id@,
        r.headers@[1].0@ == "Client-Id"@ && r.headers@[1].1@ == id.client_id@,
        r.headers@[2].0@ == "User-Agent"@ && r.headers@[2].1@ == "bread-compact-wifi/xiaozhi-rs-"@
            + version@,
        r.headers@[3].0@ == "Accept-Language"@ && r.headers@[3].1@ == "zh-CN"@,
        r.body@ == "{\"application\":{\"elf_sha256\":"@ + json::quoted(id.hmac_key@)
            + ",\"version\":\"2.1.1\"},\"board\":{\"mac\":"@ + json::quoted(id.device_id@)
            + ",\"name\":\"xiaozhi-rs\",\"type\":\"bread-compact-wifi\"}}"@,
{
    assert(r.headers@[0].0@ == "Device-Id"@);
    assert(r.headers@[1].0@ == "Client-Id"@);
    assert(r.headers@[2].0@ == "User-Agent"@);
    assert(r.headers@[3].0@ == "Accept-Language"@);
}

/// The answer to a challenge names the challenge, the serial number of the device, and the code of
/// the challenge under the key of the device.
pub proof fn law_activation_requests(id: DeviceIdentity, challenge: &str, r: HttpRequest)
    requires
        call_ensures(activation_request, (&id, challenge), r),
    ensures
        r.url@ == "https://api.tenclass.net/xiaozhi/ota/activate"@,
        r.headers@.len() == 2,
        r.headers@[0].0@ == "Device-Id"@ && r.headers@[0].1@ == id.device_id@,
        r.headers@[1].0@ == "Client-Id"@ && r.headers@[1].1@ == id.client_id@,
        r.body@ == "{\"Payload\":{\"algorithm\":\"hmac-sha256\",\"challenge\":"@
            + json::quoted(challenge@) + ",\"hmac\":"@ + json::quoted(
            text::hex_text(
                identity::hmac_sha256(encode_utf8(id.hmac_key@), encode_utf8(challenge@)),
            ),
        ) + ",\"serial_number\":"@ + json::quoted(id.serial_number@) + "}}"@,
{
    assert(r.headers@[0].0@ == "Device-Id"@);
    assert(r.headers@[1].0@ == "Client-Id"@);
}

/// An answer counts exactly where its status says success, and then it is taken as it is.
pub proof fn law_config_answers(
    status: u16,
    status_text: &str,
    body: String,
    r: Result<String, String>,
)
    requires
        call_ensures(config_answer, (status, status_text, body), r),
    ensures
        r is Ok <==> 200 <= status <= 299,
        r matches Ok(t) ==> t@ == body@,
        r matches Err(m) ==> m@ == "OTA 请求失败: HTTP "@ + status_text@,
{
}

/// What is shown of an answer has the members of the answer, under their names and in their order;
/// of the `websocket` part the `token` is hidden and of the `mqtt` part `password`, `pwd` and
/// `secret`, and nothing else is changed.
pub proof fn law_redaction_changes_nothing_else(answer: Json, r: Json, i: int, j: int)
    requires
        call_ensures(redact, (answer,), r),
        answer matches Json::Object(b) && 0 <= i < b@.len(),
    ensures
        answer matches Json::Object(b) && (r matches Json::Object(a) && {
            &&& a@.len() == b@.len()
            &&& a@[i].0@ == b@[i].0@
            &&& b@[i].0@ != "websocket"@ && b@[i].0@ != "mqtt"@ ==> a@[i].1 == b@[i].1
            &&& !(b@[i].1 is Object) ==> a@[i].1 == b@[i].1
            &&& b@[i].1 matches Json::Object(n) ==> 0 <= j < n@.len() ==> (a@[i].1 matches
                Json::Object(m) && {
                let secret = (b@[i].0@ == "websocket"@ && n@[j].0@ == "token"@) || (b@[i].0@
                    == "mqtt"@ && (n@[j].0@ == "password"@ || n@[j].0@ == "pwd"@ || n@[j].0@
                    == "secret"@));
                &&& m@.len() == n@.len()
                &&& m@[j].0@ == n@[j].0@
                &&& secret ==> (m@[j].1 matches Json::Text(t) && t@ == "***"@)
                &&& !secret ==> m@[j].1 == n@[j].1
            })
        }),
{
    reveal_strlit("websocket");
    reveal_strlit("mqtt");
    assert("websocket"@.len() != "mqtt"@.len());
    let b = answer->Object_0@;
    let a = r->Object_0@;
    assert(redacted_member(b[i], a[i]));
    assert(websocket_secrets()[0] == "token"@);
    assert(mqtt_secrets()[0] == "password"@);
    assert(mqtt_secrets()[1] == "pwd"@);
    assert(mqtt_secrets()[2] == "secret"@);
    if b[i].1 is Object && 0 <= j < b[i].1->Object_0@.len() {
        let n = b[i].1->Object_0@;
        let m = a[i].1->Object_0@;
        if b[i].0@ == "websocket"@ {
            assert(hidden_member(n[j], m[j], websocket_secrets()));
            if websocket_secrets().contains(n[j].0@) {
                let k = choose|k: int|
                    0 <= k < websocket_secrets().len() && websocket_secrets()[k] == n[j].0@;
                assert(k == 0);
            }
        } else if b[i].0@ == "mqtt"@ {
            assert(hidden_member(n[j], m[j], mqtt_secrets()));
            if mqtt_secrets().contains(n[j].0@) {
                let k = choose|k: int| 0 <= k < mqtt_secrets().len() && mqtt_secrets()[k]
                    == n[j].0@;
                assert(k == 0 || k == 1 || k == 2);
            }
        }
    }
}

/// Anything but an object is shown as it is.
pub proof fn law_redaction_of_others(answer: Json, r: Json)
    requires
        call_ensures(redact, (answer,), r),
        !(answer is Object),
    ensures
        r == answer,
{
}

/// The device is activated exactly by the status 200. Up to the twelfth question any other answer
/// is followed by another one, with five seconds less left for each; the twelfth ends the waiting.
pub proof fn law_activation_is_asked_for(p: &mut ActivationPoll, status: Option<u16>, s: PollStep)
    requires
        call_ensures(ActivationPoll::answered, (p, status), s),
        1 <= old(p).attempt <= 12,
    ensures
        s == PollStep::Activated <==> status == Some(200u16),
        s == PollStep::Expired <==> status != Some(200u16) && old(p).attempt == 12,
        s is Again ==> final(p).attempt == old(p).attempt + 1,
        s matches PollStep::Again { remaining_secs } ==> (remaining_secs is Some <==> status is None
            || status == Some(202u16)),
        s matches PollStep::Again { remaining_secs: Some(left) } ==> left == 60 - 5 * old(
            p,
        ).attempt,
        !(s is Again) ==> final(p).attempt == old(p).attempt,
{
}

/// Activation is needed exactly where the server hands out a challenge, unless it is to be skipped
/// or the device is activated already when the first configuration comes. The challenge and the
/// code of the configuration are then what is polled for and shown.
pub proof fn law_when_to_activate(
    a: &mut Activator,
    activated: bool,
    config: OtaConfig,
    s: ActivationStep,
)
    requires
        call_ensures(Activator::fetched, (a, activated, config), s),
    ensures
        s is Poll <==> config.activation is Some && !(old(a).attempt == 0 && (old(a).skip
            || activated)),
        s matches ActivationStep::Poll { config: c, challenge, code } ==> c == config && challenge@
            == config.activation->0.challenge@ && code@ == config.activation->0.code@
            && final(a).attempt == old(a).attempt + 1,
        !(s is Poll) ==> s == (ActivationStep::Ready { config, store: None }) && final(a).attempt
            == old(a).attempt,
{
}

/// An answer that succeeds activates the device, and this is stored; a code that expires is
/// followed by a new configuration, up to the fifth.
pub proof fn law_after_the_polling(
    a: &mut Activator,
    id: &mut DeviceIdentity,
    config: OtaConfig,
    outcome: Result<(), String>,
    s: ActivationStep,
)
    requires
        call_ensures(Activator::polled, (a, id, config, outcome), s),
        old(a).attempt <= 5,
    ensures
        outcome is Ok ==> final(id).activation_status && (s matches ActivationStep::Ready {
            config: c,
            store: Some(_),
        } && c == config),
        outcome is Err ==> final(id).activation_status == old(id).activation_status,
        s == ActivationStep::Fetch <==> outcome is Err && old(a).attempt < 5,
        s is Failed <==> outcome is Err && old(a).attempt == 5,
        final(id).device_id == old(id).device_id,
        final(id).client_id == old(id).client_id,
        final(id).serial_number == old(id).serial_number,
        final(id).hmac_key == old(id).hmac_key,
{
}

} // verus!
