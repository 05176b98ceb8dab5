//! The Bilibili web API as data: the response envelope and its rule, the
//! payloads the tool reads, the signed parameters of the live-streaming
//! endpoints, and the outcome of a start request.

use crate::signing::{
    form_urlencoded, md5_bytes, md5_digest, param_views, sort_params_by_name, stable_sort_by_name, lemma_stable_sort_unique,
    urlencode_pairs, ParamView,
};
use crate::text::{decimal, decimal_string, hex_lower, hex_string, is_hex_lower_digit, lemma_hex_lower_shape};
use anyhow::Error as AnyError;
use reqwest::Error as HttpError;
use vstd::prelude::*;
use vstd::utf8::encode_utf8;

verus! {

#[verifier::external_type_specification]
#[verifier::external_body]
pub struct ExHttpError(HttpError);

#[verifier::external_type_specification]
#[verifier::external_body]
pub struct ExAnyError(AnyError);

/// Why an API call failed.
#[derive(Debug)]
pub enum Error {
    /// The HTTP exchange failed.
    Http(HttpError),
    /// A middleware of the HTTP client failed.
    Middleware(AnyError),
    /// The server answered with a non-zero code.
    Api { code: i32, message: String },
    /// The server answered with code zero but without a payload.
    EmptyPayload,
}

/// The envelope every endpoint answers with.
#[derive(Debug, Default)]
pub struct Response<T> {
    pub code: i32,
    pub message: String,
    pub data: Option<T>,
}

impl<T> Response<T> {
    /// The payload of a successful answer: code zero with data. A non-zero
    /// code is an API error carrying the code and message; code zero without
    /// data is an empty payload.
    pub fn into_data(self) -> (res: Result<T, Error>)
        ensures
            self.code == 0 && self.data is Some ==> res == Ok::<T, Error>(self.data->Some_0),
            self.code == 0 && self.data is None ==> res matches Err(Error::EmptyPayload),
            self.code != 0 ==> (res matches Err(Error::Api { code, message }) && code == self.code
                && message == self.message),
    {
        if self.code == 0 {
            match self.data {
                Some(data) => Ok(data),
                None => Err(Error::EmptyPayload),
            }
        } else {
            Err(Error::Api { code: self.code, message: self.message })
        }
    }
}

/// The key of the live-streaming client application.
pub const APP_KEY: &'static str = "aae92bc66f3edfab";

/// The secret the application signs its requests with.
pub const APP_SEC: &'static str = "af125a0d5279fd576c1b4418a3e8276d";

/// The signature of already sorted parameters: the lowercase hexadecimal
/// MD5 of their form encoding followed by the application secret.
pub open spec fn signature_for(sorted: Seq<ParamView>) -> Seq<char> {
    hex_lower(md5_digest(encode_utf8(form_urlencoded(sorted) + APP_SEC@)))
}

/// `signed` is `params` signed for the application: the application key is
/// added, everything is stably sorted by name, and the signature of that
/// sorted list is appended last under the name `sign`.
pub open spec fn app_signed(params: Seq<ParamView>, signed: Seq<ParamView>) -> bool {
    &&& signed.len() == params.len() + 2
    &&& stable_sort_by_name(params.push(("appkey"@, APP_KEY@)), signed.drop_last())
    &&& signed.last() == ("sign"@, signature_for(signed.drop_last()))
}

/// A signature as sent: thirty-two lowercase hexadecimal digits.
pub open spec fn is_signature_text(sign: Seq<char>) -> bool {
    &&& sign.len() == 32
    &&& forall|i: int| 0 <= i < 32 ==> is_hex_lower_digit(#[trigger] sign[i])
}

/// Signs request parameters as the live-streaming client application does.
pub fn app_sign(params: Vec<(String, String)>) -> (signed: Vec<(String, String)>)
    ensures
        app_signed(param_views(params@), param_views(signed@)),
        is_signature_text(param_views(signed@).last().1),
{
    let mut params = params;
    let ghost given = param_views(params@);
    params.push((String::from_str("appkey"), String::from_str(APP_KEY)));
    assert(param_views(params@) =~= given.push(("appkey"@, APP_KEY@)));
    let mut sorted = sort_params_by_name(&params);
    let mut query = match urlencode_pairs(&sorted) {
        Ok(text) => text,
        Err(_) => {
            proof {
                assert(false);
            }
            String::new()
        },
    };
    query.append(APP_SEC);
    let digest = md5_bytes(query.as_str().as_bytes());
    let sign = hex_string(digest.as_slice());
    proof {
        lemma_hex_lower_shape(digest@);
    }
    let ghost unsigned = sorted@;
    sorted.push((String::from_str("sign"), sign));
    assert(sorted@.drop_last() =~= unsigned);
    assert(param_views(sorted@).drop_last() =~= param_views(unsigned));
    sorted
}

/// Signing is deterministic: the same parameters always give the same
/// signed list, signature included.
pub proof fn lemma_app_sign_deterministic(
    params: Seq<ParamView>,
    first: Seq<ParamView>,
    second: Seq<ParamView>,
)
    requires
        app_signed(params, first),
        app_signed(params, second),
    ensures
        first == second,
{
    lemma_stable_sort_unique(
        params.push(("appkey"@, APP_KEY@)),
        first.drop_last(),
        second.drop_last(),
    );
    assert(first =~= first.drop_last().push(first.last()));
    assert(second =~= second.drop_last().push(second.last()));
}

fn param(name: &str, value: String) -> (p: (String, String))
    ensures
        p.0@ == name@,
        p.1@ == value@,
{
    (String::from_str(name), value)
}

/// The signed query of the live-version lookup at server time `timestamp`.
pub fn live_version_query(timestamp: u64) -> (query: Vec<(String, String)>)
    ensures
        app_signed(
            seq![("system_version"@, "2"@), ("ts"@, decimal(timestamp as nat))],
            param_views(query@),
        ),
{
    let params = vec![
        param("system_version", String::from_str("2")),
        param("ts", decimal_string(timestamp)),
    ];
    assert(param_views(params@) =~= seq![
        ("system_version"@, "2"@),
        ("ts"@, decimal(timestamp as nat)),
    ]);
    app_sign(params)
}

/// The signed form that starts a broadcast of room `room_id` in area
/// `area_id`, announcing the client `version` at server time `timestamp`.
pub fn start_live_form(
    room_id: u64,
    area_id: u64,
    csrf: &str,
    version: &LiveVersion,
    timestamp: u64,
) -> (form: Vec<(String, String)>)
    ensures
        app_signed(
            seq![
                ("room_id"@, decimal(room_id as nat)),
                ("area_v2"@, decimal(area_id as nat)),
                ("platform"@, "pc_link"@),
                ("backup_stream"@, "0"@),
                ("csrf_token"@, csrf@),
                ("csrf"@, csrf@),
                ("build"@, decimal(version.build as nat)),
                ("version"@, version.curr_version@),
                ("ts"@, decimal(timestamp as nat)),
            ],
            param_views(form@),
        ),
{
    let params = vec![
        param("room_id", decimal_string(room_id)),
        param("area_v2", decimal_string(area_id)),
        param("platform", String::from_str("pc_link")),
        param("backup_stream", String::from_str("0")),
        param("csrf_token", String::from_str(csrf)),
        param("csrf", String::from_str(csrf)),
        param("build", decimal_string(version.build)),
        param("version", version.curr_version.clone()),
        param("ts", decimal_string(timestamp)),
    ];
    assert(param_views(params@) =~= seq![
        ("room_id"@, decimal(room_id as nat)),
        ("area_v2"@, decimal(area_id as nat)),
        ("platform"@, "pc_link"@),
        ("backup_stream"@, "0"@),
        ("csrf_token"@, csrf@),
        ("csrf"@, csrf@),
        ("build"@, decimal(version.build as nat)),
        ("version"@, version.curr_version@),
        ("ts"@, decimal(timestamp as nat)),
    ]);
    app_sign(params)
}

/// The form that renames the broadcast of room `room_id` to `title`.
pub fn update_title_form(room_id: u64, title: &str, csrf: &str) -> (form: Vec<(String, String)>)
    ensures
        param_views(form@) == seq![
            ("room_id"@, decimal(room_id as nat)),
            ("platform"@, "pc_link"@),
            ("title"@, title@),
            ("csrf_token"@, csrf@),
            ("csrf"@, csrf@),
        ],
{
    let form = vec![
        param("room_id", decimal_string(room_id)),
        param("platform", String::from_str("pc_link")),
        param("title", String::from_str(title)),
        param("csrf_token", String::from_str(csrf)),
        param("csrf", String::from_str(csrf)),
    ];
    assert(param_views(form@) =~= seq![
        ("room_id"@, decimal(room_id as nat)),
        ("platform"@, "pc_link"@),
        ("title"@, title@),
        ("csrf_token"@, csrf@),
        ("csrf"@, csrf@),
    ]);
    form
}

/// The form that moves room `room_id` to area `area_id`.
pub fn update_area_form(room_id: u64, area_id: u64, csrf: &str) -> (form: Vec<(String, String)>)
    ensures
        param_views(form@) == seq![
            ("room_id"@, decimal(room_id as nat)),
            ("area_id"@, decimal(area_id as nat)),
            ("platform"@, "pc_link"@),
            ("csrf_token"@, csrf@),
            ("csrf"@, csrf@),
        ],
{
    let form = vec![
        param("room_id", decimal_string(room_id)),
        param("area_id", decimal_string(area_id)),
        param("platform", String::from_str("pc_link")),
        param("csrf_token", String::from_str(csrf)),
        param("csrf", String::from_str(csrf)),
    ];
    assert(param_views(form@) =~= seq![
        ("room_id"@, decimal(room_id as nat)),
        ("area_id"@, decimal(area_id as nat)),
        ("platform"@, "pc_link"@),
        ("csrf_token"@, csrf@),
        ("csrf"@, csrf@),
    ]);
    form
}

/// The form that ends the broadcast of room `room_id`.
pub fn stop_live_form(room_id: u64, csrf: &str) -> (form: Vec<(String, String)>)
    ensures
        param_views(form@) == seq![
            ("platform"@, "pc_link"@),
            ("room_id"@, decimal(room_id as nat)),
            ("csrf"@, csrf@),
        ],
{
    let form = vec![
        param("platform", String::from_str("pc_link")),
        param("room_id", decimal_string(room_id)),
        param("csrf", String::from_str(csrf)),
    ];
    assert(param_views(form@) =~= seq![
        ("platform"@, "pc_link"@),
        ("room_id"@, decimal(room_id as nat)),
        ("csrf"@, csrf@),
    ]);
    form
}

/// The payload of endpoints that answer nothing but the envelope.
#[derive(Debug, Default)]
pub struct NoneData {}

/// A fresh login QR code: the URL it encodes and the key to poll it with.
#[derive(Debug, Default)]
pub struct GeneratePassportQrcode {
    pub url: String,
    pub qrcode_key: String,
}

/// Where a login QR code stands.
#[derive(Debug, Default)]
pub struct PollPassportQrcodeStatus {
    pub url: String,
    pub refresh_token: String,
    pub timestamp: u64,
    pub code: PollPassportQrcodeStatusCode,
    pub message: String,
}

/// The state of a login QR code (wire codes 0, 86038, 86090 and 86101).
#[derive(Debug, Default, PartialEq, Eq, Structural, Clone, Copy)]
pub enum PollPassportQrcodeStatusCode {
    Success,
    Expired,
    Confirming,
    Waiting,
    #[default]
    Unknown,
}

/// The signed-in account, as the navigation endpoint reports it.
#[derive(Debug, Default)]
pub struct NavUserInfo {
    pub is_login: bool,
    pub face: String,
    pub uname: String,
    pub mid: u64,
}

/// The live room of an account.
#[derive(Debug, Default)]
pub struct RoomId {
    pub room_id: u64,
}

/// Whether a room is on the air (wire codes 0, 1 and 2).
#[derive(Debug, Default, PartialEq, Eq, Structural, Clone, Copy)]
pub enum LiveStatus {
    #[default]
    Preparing,
    Living,
    Round,
}

/// What the editor reads of a live room.
#[derive(Debug, Default)]
pub struct RoomInfo {
    pub title: String,
    pub area_id: u64,
    pub parent_area_id: u64,
    pub live_status: LiveStatus,
}

/// A top-level live area and its sub-areas.
#[derive(Debug, Default)]
pub struct Area {
    pub id: u64,
    pub name: String,
    pub list: Vec<SubArea>,
}

/// A live area one chooses to stream in.
#[derive(Debug, Default)]
pub struct SubArea {
    pub id: u64,
    pub name: String,
}

/// The server time.
#[derive(Debug, Default)]
pub struct Timpstamp {
    pub now: u64,
}

/// The current version of the live-streaming client.
#[derive(Debug, Default)]
pub struct LiveVersion {
    pub curr_version: String,
    pub build: u64,
}

/// The answer to a start request.
#[derive(Debug, Default)]
pub struct StartLiveResponse {
    pub rtmp: Rtmp,
    pub protocols: Vec<Protocol>,
    pub need_face_auth: bool,
    pub qr: String,
}

/// A push endpoint the broadcaster can stream to: the protocol's name, the
/// server address and the stream key.
#[derive(Debug, Clone)]
pub struct StreamProtocol {
    pub name: String,
    pub addr: String,
    pub code: String,
}

/// How a start request ended: on the air with these push endpoints, or
/// held until the broadcaster passes face verification at this URL.
#[derive(Debug)]
pub enum StartLiveOutcome {
    Started(Vec<StreamProtocol>),
    FaceVerification(String),
}

/// The push endpoint a protocol entry of a start answer describes.
pub open spec fn stream_protocol_of(p: Protocol) -> StreamProtocol {
    StreamProtocol { name: p.protocol, addr: p.addr, code: p.code }
}

impl StartLiveResponse {
    /// A start answer that asks for face verification holds the broadcast
    /// at the verification URL; any other lists the push endpoints, in the
    /// order the server gave them.
    pub fn into_outcome(self) -> (outcome: StartLiveOutcome)
        ensures
            self.need_face_auth ==> outcome == StartLiveOutcome::FaceVerification(self.qr),
            !self.need_face_auth ==> (outcome matches StartLiveOutcome::Started(endpoints)
                && endpoints@ == self.protocols@.map_values(|p: Protocol| stream_protocol_of(p))),
    {
        if self.need_face_auth {
            return StartLiveOutcome::FaceVerification(self.qr);
        }
        let mut endpoints: Vec<StreamProtocol> = Vec::new();
        let n = self.protocols.len();
        for i in 0..n
            invariant
                n == self.protocols@.len(),
                endpoints@ == self.protocols@.take(i as int).map_values(
                    |p: Protocol| stream_protocol_of(p),
                ),
        {
            let p = &self.protocols[i];
            endpoints.push(
                StreamProtocol {
                    name: p.protocol.clone(),
                    addr: p.addr.clone(),
                    code: p.code.clone(),
                },
            );
            assert(self.protocols@.take(i + 1).map_values(|p: Protocol| stream_protocol_of(p))
                =~= self.protocols@.take(i as int).map_values(|p: Protocol| stream_protocol_of(p)).push(
                stream_protocol_of(self.protocols@[i as int]),
            ));
        }
        assert(self.protocols@.take(n as int) =~= self.protocols@);
        StartLiveOutcome::Started(endpoints)
    }
}

/// The main push address.
#[derive(Debug, Default)]
pub struct Rtmp {
    pub addr: String,
    pub code: String,
}

/// One push protocol offered by the server.
#[derive(Debug, Default)]
pub struct Protocol {
    pub protocol: String,
    pub addr: String,
    pub code: String,
}

} // verus!
