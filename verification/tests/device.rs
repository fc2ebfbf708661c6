use xiaozhi_rs::calendar::{civil_from_days, log_line, MAX_DAY, MIN_DAY};
use xiaozhi_rs::cli::{exit_reason, parse_command, Command};
use xiaozhi_rs::crash::{crash_line, Crash, CrashModule, OpusCall};
use xiaozhi_rs::identity::{
    app_config_dir, hostname_str, ConfigDir, DeviceIdentity, EfuseData, Platform, StoredIdentity,
};
use xiaozhi_rs::json::Json;
use xiaozhi_rs::ota::{
    activation_request, config_answer, config_request, redact, ActivationData, ActivationPoll,
    ActivationStep, Activator, OtaConfig, PollStep,
};

const MAC_UUID: [u8; 16] = [0x11, 0x22, 0x33, 0x44, 0x55, 0x66, 0x47, 7, 0x88, 9, 10, 11, 12, 13, 14, 15];
const CLIENT_UUID: [u8; 16] = [0, 1, 2, 3, 4, 5, 0x46, 7, 0x88, 9, 10, 11, 12, 13, 14, 15];

fn identity() -> DeviceIdentity {
    DeviceIdentity::derive(&MAC_UUID, &CLIENT_UUID, "host", "path/efuse.json".into())
}

#[test]
fn identity_is_derived_from_uuids_and_host() {
    let id = identity();
    assert_eq!(id.device_id, "12:22:33:44:55:66");
    assert_eq!(id.client_id, "00010203-0405-4607-8809-0a0b0c0d0e0f");
    assert_eq!(id.serial_number, "SN-A7D30C5C-122233445566");
    assert_eq!(
        id.hmac_key,
        "5b7f7238557b4bc2002c91dd670e739713e217bb1ab38dd7a1372622589009ee"
    );
    assert!(!id.is_activated());
    assert_eq!(id.efuse_path, "path/efuse.json");
}

#[test]
fn signature_is_hmac_sha256() {
    let mut id = identity();
    id.hmac_key = "key".into();
    assert_eq!(
        id.generate_hmac_signature("The quick brown fox jumps over the lazy dog"),
        "f7bc83f430538424b13298e6aa6fb143ef4d59a14946175997479dbc2d1a3cd8"
    );
}

#[test]
fn new_identities_are_random_and_local() {
    let a = DeviceIdentity::create_new("h", "p".into());
    let b = DeviceIdentity::create_new("h", "p".into());
    assert_ne!(a.client_id, b.client_id);
    assert_eq!(a.client_id.as_bytes()[14], b'4');
    let first = u8::from_str_radix(&a.device_id[..2], 16).unwrap();
    assert_eq!(first & 3, 2);
    assert_eq!(a.device_id.len(), 17);
}

fn stored(content: &str, data: Option<EfuseData>) -> Option<StoredIdentity> {
    Some(StoredIdentity { content: content.into(), data })
}

#[test]
fn stored_identities_are_kept_and_completed() {
    let full = || EfuseData {
        mac_address: "m".into(),
        client_id: "c".into(),
        serial_number: "s".into(),
        hmac_key: "k".into(),
        activation_status: true,
    };
    let (id, save) = DeviceIdentity::load_or_create(stored("{}", Some(full())), "h", "p".into());
    assert_eq!((id.device_id.as_str(), id.client_id.as_str()), ("m", "c"));
    assert!(id.is_activated() && !save);
    let mut old = full();
    old.client_id = String::new();
    let (id, save) = DeviceIdentity::load_or_create(stored("{}", Some(old)), "h", "p".into());
    assert_eq!(id.client_id.len(), 36);
    assert_eq!(id.device_id, "m");
    assert!(save);
    let (id, save) =
        DeviceIdentity::load_or_create(stored("{}", Some(EfuseData::default())), "h", "p".into());
    assert_eq!(id.device_id.len(), 17);
    assert_eq!(id.serial_number, "");
    assert!(save);
    for file in [None, stored(" \n\t", Some(full())), stored("broken", None)] {
        let (id, save) = DeviceIdentity::load_or_create(file, "h", "p".into());
        assert!(id.serial_number.starts_with("SN-"));
        assert!(save);
    }
}

#[test]
fn activation_is_stored_as_json() {
    let mut id = identity();
    let text = id.set_activated();
    assert!(id.is_activated());
    let v: serde_json::Value = serde_json::from_str(&text).unwrap();
    assert_eq!(v["mac_address"], "12:22:33:44:55:66");
    assert_eq!(v["client_id"], id.client_id);
    assert_eq!(v["serial_number"], id.serial_number);
    assert_eq!(v["hmac_key"], id.hmac_key);
    assert_eq!(v["activation_status"], true);
    assert!(text.starts_with("{\n  \"mac_address\": \"12:22:33:44:55:66\",\n  \"client_id\": "));
    assert!(text.ends_with(",\n  \"activation_status\": true\n}"));
    id.use_test_mac();
    assert_eq!(id.device_id, DeviceIdentity::TEST_MAC);
}

#[test]
fn configuration_directory_per_platform() {
    assert_eq!(app_config_dir(Platform::Windows, true, false, false), ConfigDir::AppData);
    assert_eq!(app_config_dir(Platform::Windows, false, true, true), ConfigDir::Working);
    assert_eq!(app_config_dir(Platform::MacOs, false, true, true), ConfigDir::HomeLibrary);
    assert_eq!(app_config_dir(Platform::Unix, false, true, true), ConfigDir::Xdg);
    assert_eq!(app_config_dir(Platform::Unix, false, true, false), ConfigDir::HomeConfig);
    assert_eq!(app_config_dir(Platform::Unix, true, false, false), ConfigDir::Working);
    assert_eq!(app_config_dir(Platform::Other, true, true, true), ConfigDir::Working);
}

#[test]
fn host_names() {
    assert_eq!(hostname_str(Platform::Unix, Some(" box\n".into())), "box");
    assert_eq!(hostname_str(Platform::Unix, Some("\n".into())), "unknown");
    assert_eq!(hostname_str(Platform::Windows, Some(" pc ".into())), " pc ");
    assert_eq!(hostname_str(Platform::MacOs, None), "unknown");
    assert_eq!(hostname_str(Platform::Other, Some("x".into())), "unknown");
}

#[test]
fn configuration_request_and_answer() {
    let id = identity();
    let r = config_request(&id, "0.1.0");
    assert_eq!(r.url, "https://api.tenclass.net/xiaozhi/ota/");
    assert_eq!(r.headers[2].1, "bread-compact-wifi/xiaozhi-rs-0.1.0");
    assert_eq!(r.headers.len(), 4);
    let v: serde_json::Value = serde_json::from_str(&r.body).unwrap();
    assert_eq!(v["application"]["elf_sha256"], id.hmac_key);
    assert_eq!(v["application"]["version"], "2.1.1");
    assert_eq!(v["board"]["type"], "bread-compact-wifi");
    assert_eq!(v["board"]["name"], "xiaozhi-rs");
    assert_eq!(v["board"]["mac"], id.device_id);
    assert_eq!(serde_json::to_string(&v).unwrap(), r.body);
    assert_eq!(config_answer(200, "200 OK", "b".into()), Ok("b".to_string()));
    assert_eq!(
        config_answer(404, "404 Not Found", "b".into()),
        Err("OTA 请求失败: HTTP 404 Not Found".to_string())
    );
}

#[test]
fn activation_request_is_signed() {
    let id = identity();
    let r = activation_request(&id, "chal");
    assert_eq!(r.url, "https://api.tenclass.net/xiaozhi/ota/activate");
    let v: serde_json::Value = serde_json::from_str(&r.body).unwrap();
    assert_eq!(v["Payload"]["algorithm"], "hmac-sha256");
    assert_eq!(v["Payload"]["challenge"], "chal");
    assert_eq!(v["Payload"]["hmac"], id.generate_hmac_signature("chal"));
    assert_eq!(v["Payload"]["serial_number"], id.serial_number);
    assert_eq!(serde_json::to_string(&v).unwrap(), r.body);
}

fn text(s: &str) -> Json {
    Json::Text(s.into())
}

#[test]
fn redaction_hides_token_and_passwords() {
    let v = Json::Object(vec![
        (
            "websocket".into(),
            Json::Object(vec![("url".into(), text("u")), ("token".into(), text("t"))]),
        ),
        (
            "mqtt".into(),
            Json::Object(vec![
                ("password".into(), text("p")),
                ("token".into(), text("kept")),
                ("pwd".into(), Json::Null),
                ("secret".into(), text("s")),
            ]),
        ),
        ("token".into(), text("outer")),
    ]);
    let shown = format!("{:?}", redact(v));
    for gone in ["\"t\"", "\"p\"", "\"s\""] {
        assert!(!shown.contains(gone), "{}", shown);
    }
    assert_eq!(shown.matches("\"***\"").count(), 4);
    for kept in ["\"u\"", "\"kept\"", "\"outer\""] {
        assert!(shown.contains(kept));
    }
    assert!(matches!(redact(Json::Bool(true)), Json::Bool(true)));
    let odd = Json::Object(vec![("websocket".into(), text("plain"))]);
    assert!(format!("{:?}", redact(odd)).contains("plain"));
}

#[test]
fn activation_polls_twelve_times() {
    let mut p = ActivationPoll::new();
    assert_eq!(p.answered(Some(202)), PollStep::Again { remaining_secs: Some(55) });
    assert_eq!(p.answered(None), PollStep::Again { remaining_secs: Some(50) });
    assert_eq!(p.answered(Some(500)), PollStep::Again { remaining_secs: None });
    for _ in 4..12 {
        assert!(matches!(p.answered(Some(202)), PollStep::Again { .. }));
    }
    assert_eq!(p.answered(Some(202)), PollStep::Expired);
    assert_eq!(ActivationPoll::new().answered(Some(200)), PollStep::Activated);
}

fn asking() -> OtaConfig {
    OtaConfig {
        activation: Some(ActivationData {
            challenge: "ch".into(),
            code: "123456".into(),
            message: None,
            authorization_url: None,
        }),
        ..Default::default()
    }
}

#[test]
fn activation_takes_up_to_five_codes() {
    let mut id = identity();
    let mut a = Activator::new(false);
    for i in 1..=5 {
        let config = match a.fetched(id.is_activated(), asking()) {
            ActivationStep::Poll { config, challenge, code } => {
                assert_eq!((challenge.as_str(), code.as_str()), ("ch", "123456"));
                config
            }
            _ => panic!("poll"),
        };
        match a.polled(&mut id, config, Err("late".into())) {
            ActivationStep::Fetch => assert!(i < 5),
            ActivationStep::Failed(m) => {
                assert_eq!(i, 5);
                assert_eq!(m, "激活失败，已达到最大重试次数: late");
            }
            _ => panic!("step"),
        }
    }
    assert!(!id.is_activated());
}

#[test]
fn activation_succeeds_or_is_not_needed() {
    let mut id = identity();
    let mut a = Activator::new(false);
    let config = match a.fetched(false, asking()) {
        ActivationStep::Poll { config, .. } => config,
        _ => panic!("poll"),
    };
    match a.polled(&mut id, config, Ok(())) {
        ActivationStep::Ready { store: Some(t), .. } => assert_eq!(t, id.save_text()),
        _ => panic!("ready"),
    }
    assert!(id.is_activated());
    assert!(matches!(
        Activator::new(true).fetched(false, asking()),
        ActivationStep::Ready { store: None, .. }
    ));
    assert!(matches!(
        Activator::new(false).fetched(true, asking()),
        ActivationStep::Ready { .. }
    ));
    assert!(matches!(
        Activator::new(false).fetched(false, OtaConfig::default()),
        ActivationStep::Ready { .. }
    ));
}

#[test]
fn civil_dates() {
    assert_eq!(civil_from_days(0), (1970, 1, 1));
    assert_eq!(civil_from_days(-1), (1969, 12, 31));
    assert_eq!(civil_from_days(11016), (2000, 2, 29));
    assert_eq!(civil_from_days(11017), (2000, 3, 1));
    assert_eq!(civil_from_days(20088), (2024, 12, 31));
    assert_eq!(civil_from_days(19782), (2024, 2, 29));
    assert_eq!(civil_from_days(-719_162), (1, 1, 1));
    assert_eq!(civil_from_days(-719_163), (0, 12, 31));
    assert_eq!(civil_from_days(MIN_DAY), (i32::MIN, 1, 1));
    assert_eq!(civil_from_days(MAX_DAY), (i32::MAX, 12, 31));
}

#[test]
fn log_lines_carry_local_time() {
    assert_eq!(log_line(0, "x"), "[1970-01-01 08:00:00] x");
    assert_eq!(log_line(1_700_000_000, "你好"), "[2023-11-15 06:13:20] 你好");
}

#[test]
fn commands_and_exit_reasons() {
    assert!(matches!(parse_command(None), Command::Default));
    assert!(matches!(parse_command(Some("start".into())), Command::Start));
    assert!(matches!(parse_command(Some("skip".into())), Command::Skip));
    assert!(matches!(parse_command(Some("info".into())), Command::Info));
    assert!(matches!(parse_command(Some("reset".into())), Command::Reset));
    assert!(matches!(parse_command(Some("-h".into())), Command::Help));
    assert!(matches!(parse_command(Some("--help".into())), Command::Help));
    assert!(matches!(parse_command(Some("Start".into())), Command::Unknown(s) if s == "Start"));
    assert_eq!(exit_reason(&Ok(())), "normal-return（supervisor 已返回）");
    assert_eq!(exit_reason(&Err("e".into())), "error: e");
}

#[test]
fn crash_lines() {
    let mut c = Crash {
        code: 0xC0000005,
        address: 0x1234,
        module: Some(CrashModule { name: "a.dll".into(), base: 0x1000 }),
        last_call: OpusCall::Ctl,
        last_ctl_request: 4002,
    };
    assert_eq!(
        crash_line(&Some(Crash { module: None, last_ctl_request: 0, last_call: OpusCall::Idle, code: 5, address: 0 })),
        "CRASH ExceptionCode=0x00000005 at 0x0  last_opus_call=none\n"
    );
    assert_eq!(crash_line(&None), "\n");
    c.address = 0xABC;
    assert_eq!(
        crash_line(&Some(c)),
        "CRASH ExceptionCode=0xc0000005 at 0xabc  module=a.dll  base=0x1000  offset=0x0  last_opus_call=opus_ctl  last_ctl_request=4002\n"
    );
}

#[test]
fn identities_survive_a_restart() {
    let mut id = identity();
    id.serial_number = "a \"quoted\" \\ serial\n".into();
    let content = id.set_activated();
    let v: serde_json::Value = serde_json::from_str(&content).unwrap();
    let field = |name: &str| v[name].as_str().unwrap().to_string();
    let data = EfuseData {
        mac_address: field("mac_address"),
        client_id: field("client_id"),
        serial_number: field("serial_number"),
        hmac_key: field("hmac_key"),
        activation_status: v["activation_status"].as_bool().unwrap(),
    };
    let (again, save) =
        DeviceIdentity::load_or_create(stored(&content, Some(data)), "other", "path/efuse.json".into());
    assert!(!save);
    assert_eq!(again.device_id, id.device_id);
    assert_eq!(again.client_id, id.client_id);
    assert_eq!(again.serial_number, id.serial_number);
    assert_eq!(again.hmac_key, id.hmac_key);
    assert!(again.is_activated());
    assert_eq!(again.save_text(), content);
}

#[test]
fn days_in_a_row_have_dates_in_a_row() {
    let mut before = civil_from_days(-1000);
    for day in -999..1000 {
        let date = civil_from_days(day);
        assert!(date > before);
        before = date;
    }
}
