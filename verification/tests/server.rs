use dink::logging::{ApiLogger, ConsoleLogger, DefaultLogger, LogLevel, NoOpLogger};
use dink::server::{
    field_role, read_payload, FieldRole, NotificationUpload, PayloadFields, RequestError,
    RouterOptions,
};

fn upload(payload: Option<&str>, file: Option<Vec<u8>>) -> NotificationUpload {
    let mut u = NotificationUpload::new();
    if let Some(p) = payload {
        assert_eq!(u.accept_payload_json(p.as_bytes().to_vec()), Ok(()));
    }
    if let Some(f) = file {
        u.accept_file(f);
    }
    u
}

#[test]
fn router_options_routes() {
    let o = RouterOptions::default();
    assert_eq!(o.notify_route, "/notify");
    let o = RouterOptions::new(NoOpLogger).with_route("/hook");
    assert_eq!(o.notify_route, "/hook");
    let o = o.with_route("/");
    assert_eq!(o.notify_route, "/");
    let o = RouterOptions::new(ConsoleLogger::new("srv")).with_route("/x");
    assert_eq!(o.logger.prefix, "srv");
    let _d: RouterOptions<DefaultLogger> = RouterOptions::new(DefaultLogger);
}

#[test]
fn field_roles_by_name() {
    assert_eq!(field_role(Some("payload_json")), FieldRole::PayloadJson);
    assert_eq!(field_role(Some("file")), FieldRole::File);
    assert_eq!(field_role(Some("files")), FieldRole::Ignored);
    assert_eq!(field_role(None), FieldRole::Ignored);
}

#[test]
fn accepted_notification_with_screenshot() {
    let u = upload(
        Some(r#"{"type":"LOOT","playerName":"Zezima","content":"got loot","dinkAccountHash":"abc"}"#),
        Some(vec![0u8; 1234]),
    );
    let rc = u.process().unwrap();
    assert_eq!(rc.notification_type, "LOOT");
    assert_eq!(rc.player_name, "Zezima");
    assert!(rc.has_screenshot);
    assert_eq!(
        rc.log_messages,
        vec![
            "📨 NOTIFICATION: LOOT from Zezima - got loot - (dinkAccountHash: abc)".to_string(),
            "Received screenshot attachment (1234 bytes)".to_string(),
        ]
    );
}

#[test]
fn accepted_notification_with_defaults() {
    let u = upload(Some(r#"{"type":"DEATH","playerName":42}"#), None);
    let rc = u.process().unwrap();
    assert_eq!(rc.notification_type, "DEATH");
    assert_eq!(rc.player_name, "Unknown");
    assert!(!rc.has_screenshot);
    assert_eq!(
        rc.log_messages,
        vec!["📨 NOTIFICATION: DEATH from Unknown -  - (dinkAccountHash: )".to_string()]
    );
}

#[test]
fn refused_uploads() {
    assert_eq!(upload(None, None).process().err(), Some(RequestError::BadRequest));
    assert_eq!(upload(None, Some(vec![1])).process().err(), Some(RequestError::BadRequest));
    assert_eq!(upload(Some("not json"), None).process().err(), Some(RequestError::BadRequest));
    assert_eq!(upload(Some(r#"{"playerName":"x"}"#), None).process().err(), Some(RequestError::BadRequest));
    assert_eq!(upload(Some(r#"{"type":7}"#), None).process().err(), Some(RequestError::BadRequest));
    assert_eq!(upload(Some(r#"["type"]"#), None).process().err(), Some(RequestError::BadRequest));
}

#[test]
fn payload_must_be_utf8() {
    let mut u = NotificationUpload::new();
    assert_eq!(u.accept_payload_json(vec![0xff, 0xfe]), Err(RequestError::BadRequest));
    assert!(u.payload_json.is_none());
    assert_eq!(u.accept_payload_json("{\"type\":\"CHAT\"}".as_bytes().to_vec()), Ok(()));
    assert_eq!(u.payload_json.as_deref(), Some("{\"type\":\"CHAT\"}"));
}

#[test]
fn last_payload_part_wins() {
    let u = upload(Some(r#"{"type":"A"}"#), None);
    let mut u = u;
    assert_eq!(u.accept_payload_json(br#"{"type":"B"}"#.to_vec()), Ok(()));
    assert_eq!(u.process().unwrap().notification_type, "B");
}

#[test]
fn read_payload_members() {
    let f = read_payload(r#"{"type":"PET","content":"c","dinkAccountHash":"h","extra":{}}"#).unwrap();
    assert_eq!(f.notification_type.as_deref(), Some("PET"));
    assert_eq!(f.player_name, None);
    assert_eq!(f.content.as_deref(), Some("c"));
    assert_eq!(f.dink_account_hash.as_deref(), Some("h"));
    assert!(read_payload("{").is_none());
}

#[test]
fn receipt_requires_type() {
    let f = PayloadFields {
        notification_type: None,
        player_name: Some("p".to_string()),
        content: None,
        dink_account_hash: None,
    };
    assert_eq!(f.receipt(None).err(), Some(RequestError::BadRequest));
    let f = PayloadFields { notification_type: Some("QUEST".to_string()), ..f };
    let rc = f.receipt(Some(0)).unwrap();
    assert_eq!(rc.player_name, "p");
    assert_eq!(rc.log_messages[1], "Received screenshot attachment (0 bytes)");
}

#[test]
fn console_and_api_lines() {
    let c = ConsoleLogger::new("dink");
    assert_eq!(c.line(LogLevel::Info, "up"), "[INFO] dink: up");
    assert_eq!(c.line(LogLevel::Warn, "w"), "[WARN] dink: w");
    assert_eq!(c.line(LogLevel::Error, "e"), "[ERROR] dink: e");
    assert_eq!(c.line(LogLevel::Debug, "d"), "[DEBUG] dink: d");
    let a = ApiLogger::new("Dink-API".to_string());
    assert_eq!(a.service_name, "Dink-API");
    assert_eq!(a.line(LogLevel::Info, "m"), "🔔 [Dink-API] INFO: m");
    assert_eq!(a.line(LogLevel::Warn, "m"), "⚠️ [Dink-API] WARN: m");
    assert_eq!(a.line(LogLevel::Error, "m"), "❌ [Dink-API] ERROR: m");
    assert_eq!(a.line(LogLevel::Debug, "m"), "🐛 [Dink-API] DEBUG: m");
    assert!(LogLevel::Warn.to_stderr() && LogLevel::Error.to_stderr());
    assert!(!LogLevel::Info.to_stderr() && !LogLevel::Debug.to_stderr());
}
