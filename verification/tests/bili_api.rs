//! The `deserialize_*` tests start from the values the program's JSON
//! decoding (in `app/`, with its wire types) hands the library, and check
//! those values and the envelope rule `Response::into_data` on them.

use bili_live_tool::bili_api::{
    app_sign, live_version_query, start_live_form, stop_live_form, update_area_form,
    update_title_form, Area, Error, GeneratePassportQrcode, LiveStatus, LiveVersion, NavUserInfo,
    PollPassportQrcodeStatus, PollPassportQrcodeStatusCode, Protocol, Response, RoomId, RoomInfo,
    Rtmp, StartLiveOutcome, StartLiveResponse, SubArea, Timpstamp,
};

fn envelope<T>(code: i32, message: &str, data: Option<T>) -> Response<T> {
    Response { code, message: message.to_string(), data }
}

fn pairs(v: &[(&str, &str)]) -> Vec<(String, String)> {
    v.iter().map(|(k, x)| (k.to_string(), x.to_string())).collect()
}

#[test]
fn deserialize_generate_passport_qrcode() {
    let response = envelope(
        0,
        "0",
        Some(GeneratePassportQrcode {
            url: "https://passport.bilibili.com/h5-app/passport/login/scan?navhide=1&qrcode_key=8587cf8106a0b863c46d6bab913537f6&from=".to_string(),
            qrcode_key: "8587cf8106a0b863c46d6bab913537f6".to_string(),
        }),
    );
    assert_eq!(response.code, 0);
    assert_eq!(response.message, "0");
    let data = response.into_data().unwrap();
    assert_eq!(
        data.url,
        r"https://passport.bilibili.com/h5-app/passport/login/scan?navhide=1&qrcode_key=8587cf8106a0b863c46d6bab913537f6&from="
    );
    assert_eq!(data.qrcode_key, "8587cf8106a0b863c46d6bab913537f6");
}

fn poll(url: &str, token: &str, timestamp: u64, code: PollPassportQrcodeStatusCode, message: &str) -> Response<PollPassportQrcodeStatus> {
    envelope(
        0,
        "0",
        Some(PollPassportQrcodeStatus {
            url: url.to_string(),
            refresh_token: token.to_string(),
            timestamp,
            code,
            message: message.to_string(),
        }),
    )
}

#[test]
fn deserialize_poll_passport_qrcode_status() {
    let response = poll("", "", 0, PollPassportQrcodeStatusCode::Waiting, "未扫码");
    assert_eq!(response.code, 0);
    assert_eq!(response.message, "0");
    let data = response.into_data().unwrap();
    assert_eq!(data.url, "");
    assert_eq!(data.refresh_token, "");
    assert_eq!(data.timestamp, 0);
    assert_eq!(data.code, PollPassportQrcodeStatusCode::Waiting);
    assert_eq!(data.message, "未扫码");

    let response = poll("", "", 0, PollPassportQrcodeStatusCode::Confirming, "二维码已扫码未确认");
    assert_eq!(response.code, 0);
    assert_eq!(response.message, "0");
    let data = response.into_data().unwrap();
    assert_eq!(data.url, "");
    assert_eq!(data.refresh_token, "");
    assert_eq!(data.timestamp, 0);
    assert_eq!(data.code, PollPassportQrcodeStatusCode::Confirming);
    assert_eq!(data.message, "二维码已扫码未确认");

    let url = "https://passport.biligame.com/crossDomain?DedeUserID=***&DedeUserID__ckMd5=***&Expires=***&SESSDATA=***&bili_jct=***&gourl=https%3A%2F%2Fpassport.bilibili.com";
    let response = poll(url, "***", 1662363009601, PollPassportQrcodeStatusCode::Success, "");
    assert_eq!(response.code, 0);
    assert_eq!(response.message, "0");
    let data = response.into_data().unwrap();
    assert_eq!(data.url, url);
    assert_eq!(data.refresh_token, "***");
    assert_eq!(data.timestamp, 1662363009601);
    assert_eq!(data.code, PollPassportQrcodeStatusCode::Success);
    assert_eq!(data.message, "");

    let response = poll("", "", 0, PollPassportQrcodeStatusCode::Expired, "二维码已失效");
    assert_eq!(response.code, 0);
    assert_eq!(response.message, "0");
    let data = response.into_data().unwrap();
    assert_eq!(data.url, "");
    assert_eq!(data.refresh_token, "");
    assert_eq!(data.timestamp, 0);
    assert_eq!(data.code, PollPassportQrcodeStatusCode::Expired);
    assert_eq!(data.message, "二维码已失效");
}

#[test]
fn deserialize_nav_user_info() {
    let response = envelope(
        0,
        "0",
        Some(NavUserInfo {
            is_login: true,
            face: "https://i0.hdslb.com/bfs/face/aebb2639a0d47f2ce1fec0631f412eaf53d4a0be.jpg".to_string(),
            uname: "社会易姐QwQ".to_string(),
            mid: 293793435,
        }),
    );
    assert_eq!(response.code, 0);
    assert_eq!(response.message, "0");
    let data = response.into_data().unwrap();
    assert!(data.is_login);
    assert_eq!(
        data.face,
        "https://i0.hdslb.com/bfs/face/aebb2639a0d47f2ce1fec0631f412eaf53d4a0be.jpg"
    );
    assert_eq!(data.uname, "社会易姐QwQ");

    let response = envelope(
        -101,
        "账号未登录",
        Some(NavUserInfo { is_login: false, ..Default::default() }),
    );
    assert_eq!(response.code, -101);
    assert_eq!(response.message, "账号未登录");
    let data = response.data.unwrap();
    assert!(!data.is_login);
}

#[test]
fn deserialize_room_id() {
    let response = envelope(0, "ok", Some(RoomId { room_id: 123456 }));
    assert_eq!(response.code, 0);
    assert_eq!(response.message, "ok");
    let data = response.into_data().unwrap();
    assert_eq!(data.room_id, 123456);
}

#[test]
fn deserialize_room_info() {
    let response = envelope(
        0,
        "ok",
        Some(RoomInfo {
            title: "快乐运动研究社".to_string(),
            area_id: 145,
            parent_area_id: 1,
            live_status: LiveStatus::Round,
        }),
    );
    assert_eq!(response.code, 0);
    assert_eq!(response.message, "ok");
    let data = response.into_data().unwrap();
    assert_eq!(data.title, "快乐运动研究社");
    assert_eq!(data.area_id, 145);
    assert_eq!(data.parent_area_id, 1);
}

fn sub(id: u64, name: &str) -> SubArea {
    SubArea { id, name: name.to_string() }
}

#[test]
fn deserialize_area_list() {
    let response = envelope(
        0,
        "success",
        Some(vec![Area {
            id: 2,
            name: "网游".to_string(),
            list: vec![sub(86, "英雄联盟"), sub(252, "逃离塔科夫"), sub(80, "绝地求生")],
        }]),
    );
    assert_eq!(response.code, 0);
    assert_eq!(response.message, "success");
    let data = response.into_data().unwrap();
    assert_eq!(data.len(), 1);
    let area = &data[0];
    assert_eq!(area.id, 2);
    assert_eq!(area.name, "网游");
    assert_eq!(area.list.len(), 3);
    assert_eq!(area.list[0].id, 86);
    assert_eq!(area.list[0].name, "英雄联盟");
    assert_eq!(area.list[1].id, 252);
    assert_eq!(area.list[1].name, "逃离塔科夫");
    assert_eq!(area.list[2].id, 80);
    assert_eq!(area.list[2].name, "绝地求生");
}

#[test]
fn deserialize_timestamp() {
    let response = envelope(0, "0", Some(Timpstamp { now: 1592666471 }));
    assert_eq!(response.code, 0);
    assert_eq!(response.message, "0");
    let data = response.into_data().unwrap();
    assert_eq!(data.now, 1592666471);
}

#[test]
fn deserialize_live_version() {
    let response = envelope(
        0,
        "0",
        Some(LiveVersion { curr_version: "7.19.0.9432".to_string(), build: 9432 }),
    );
    assert_eq!(response.code, 0);
    assert_eq!(response.message, "0");
    let data = response.into_data().unwrap();
    assert_eq!(data.curr_version, "7.19.0.9432");
    assert_eq!(data.build, 9432);
}

fn start_answer(need_face_auth: bool, qr: &str) -> StartLiveResponse {
    StartLiveResponse {
        rtmp: Rtmp {
            addr: "rtmp://live-push.bilivideo.com/live-bvc/".to_string(),
            code: "?streamname=live_348892132_32373699&key=e03061d4a7529d8eaa322dc4d330ca1c&schedule=rtmp&pflag=11".to_string(),
        },
        protocols: vec![Protocol {
            protocol: "rtmp".to_string(),
            addr: "rtmp://live-push.bilivideo.com/live-bvc/".to_string(),
            code: "?streamname=live_348892132_32373699&key=e73061d4a1002d8eaa322dc4d880ca1c&schedule=rtmp&pflag=11".to_string(),
        }],
        need_face_auth,
        qr: qr.to_string(),
    }
}

#[test]
fn deserialize_start_live_response() {
    let response = envelope(0, "", Some(start_answer(false, "")));
    assert_eq!(response.code, 0);
    assert_eq!(response.message, "");
    let data = response.into_data().unwrap();
    assert_eq!(data.rtmp.addr, "rtmp://live-push.bilivideo.com/live-bvc/");
    assert_eq!(
        data.rtmp.code,
        r"?streamname=live_348892132_32373699&key=e03061d4a7529d8eaa322dc4d330ca1c&schedule=rtmp&pflag=11"
    );
    assert_eq!(data.protocols.len(), 1);
    assert_eq!(data.protocols[0].protocol, "rtmp");
    assert_eq!(data.protocols[0].addr, "rtmp://live-push.bilivideo.com/live-bvc/");
    assert_eq!(
        data.protocols[0].code,
        r"?streamname=live_348892132_32373699&key=e73061d4a1002d8eaa322dc4d880ca1c&schedule=rtmp&pflag=11"
    );
}

#[test]
fn into_data_reports_api_error_with_code_and_message() {
    let response: Response<RoomId> = envelope(-101, "账号未登录", None);
    match response.into_data() {
        Err(Error::Api { code, message }) => {
            assert_eq!(code, -101);
            assert_eq!(message, "账号未登录");
        }
        other => panic!("unexpected {other:?}"),
    }
}

#[test]
fn into_data_reports_empty_payload() {
    let response: Response<RoomId> = envelope(0, "0", None);
    assert!(matches!(response.into_data(), Err(Error::EmptyPayload)));
}

#[test]
fn into_data_api_error_wins_over_payload() {
    let response = envelope(-400, "bad", Some(RoomId { room_id: 1 }));
    assert!(matches!(response.into_data(), Err(Error::Api { code: -400, .. })));
}

#[test]
fn start_answer_lists_endpoints() {
    match start_answer(false, "").into_outcome() {
        StartLiveOutcome::Started(endpoints) => {
            assert_eq!(endpoints.len(), 1);
            assert_eq!(endpoints[0].name, "rtmp");
            assert_eq!(endpoints[0].addr, "rtmp://live-push.bilivideo.com/live-bvc/");
            assert!(endpoints[0].code.starts_with("?streamname=live_348892132_32373699&key=e73061d4"));
        }
        other => panic!("unexpected {other:?}"),
    }
}

#[test]
fn start_answer_asking_for_face_verification_holds_url() {
    match start_answer(true, "https://example.invalid/verify").into_outcome() {
        StartLiveOutcome::FaceVerification(url) => assert_eq!(url, "https://example.invalid/verify"),
        other => panic!("unexpected {other:?}"),
    }
}

#[test]
fn app_sign_sorts_and_signs_live_version_query() {
    let signed = app_sign(pairs(&[("system_version", "2"), ("ts", "1592666471")]));
    assert_eq!(
        signed,
        pairs(&[
            ("appkey", "aae92bc66f3edfab"),
            ("system_version", "2"),
            ("ts", "1592666471"),
            ("sign", "c7fde1f30355f15c17afa503b0508fb9"),
        ])
    );
    assert_eq!(live_version_query(1592666471), signed);
}

#[test]
fn app_sign_keeps_order_of_equal_names_and_encodes_values() {
    let signed = app_sign(pairs(&[("b", "x y"), ("a", "1"), ("b", "2")]));
    assert_eq!(
        signed,
        pairs(&[
            ("a", "1"),
            ("appkey", "aae92bc66f3edfab"),
            ("b", "x y"),
            ("b", "2"),
            ("sign", "c923423944620f6904a39533f0ee0830"),
        ])
    );
}

#[test]
fn start_live_form_is_signed() {
    let version = LiveVersion { curr_version: "7.19.0.9432".to_string(), build: 9432 };
    let form = start_live_form(5440, 145, "abc", &version, 1592666471);
    assert_eq!(
        form,
        pairs(&[
            ("appkey", "aae92bc66f3edfab"),
            ("area_v2", "145"),
            ("backup_stream", "0"),
            ("build", "9432"),
            ("csrf", "abc"),
            ("csrf_token", "abc"),
            ("platform", "pc_link"),
            ("room_id", "5440"),
            ("ts", "1592666471"),
            ("version", "7.19.0.9432"),
            ("sign", "665d78e59dbb0f61d43ae2a15d3446df"),
        ])
    );
}

#[test]
fn room_update_forms() {
    assert_eq!(
        update_title_form(5440, "新标题", "abc"),
        pairs(&[
            ("room_id", "5440"),
            ("platform", "pc_link"),
            ("title", "新标题"),
            ("csrf_token", "abc"),
            ("csrf", "abc"),
        ])
    );
    assert_eq!(
        update_area_form(5440, 86, "abc"),
        pairs(&[
            ("room_id", "5440"),
            ("area_id", "86"),
            ("platform", "pc_link"),
            ("csrf_token", "abc"),
            ("csrf", "abc"),
        ])
    );
    assert_eq!(
        stop_live_form(5440, "abc"),
        pairs(&[("platform", "pc_link"), ("room_id", "5440"), ("csrf", "abc")])
    );
}

#[test]
fn app_sign_is_deterministic() {
    let params = pairs(&[("ts", "1"), ("room_id", "2"), ("csrf", "c")]);
    assert_eq!(app_sign(params.clone()), app_sign(params));
}

#[test]
fn app_sign_ends_with_a_lowercase_md5_hex_signature() {
    let signed = app_sign(pairs(&[("a", "~!@#$%^&*()"), ("b", "中文 值")]));
    let (name, sign) = signed.last().unwrap();
    assert_eq!(name, "sign");
    assert_eq!(sign.len(), 32);
    assert!(sign.chars().all(|c| c.is_ascii_digit() || ('a'..='f').contains(&c)));
    assert_eq!(signed.len(), 4);
}
