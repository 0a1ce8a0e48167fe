use minecraft_command_bot::mojang::{
    has_body, history_first_name, mcuuid_query, mcuuid_reply, name_answer, names_url,
    username_response_id, username_url, McuuidQuery, UUIDToNameHistory, UUIDToNameHistoryResponse,
    UsernameToUUID, UsernameToUUIDResponse, MOJANG_API_URL, NO_CONTENT,
};
use minecraft_command_bot::uuid_text::{parse_uuid, uuid_to_hyphenated};

const NAARISAN: u128 = 0x05140bb4_f432_43fe_a5e4_069da2d4fc46;

#[test]
fn uuid_forms_from_readme() {
    assert_eq!(parse_uuid("05140bb4-f432-43fe-a5e4-069da2d4fc46"), Some(NAARISAN));
    assert_eq!(parse_uuid("05140bb4f43243fea5e4069da2d4fc46"), Some(NAARISAN));
}

#[test]
fn uuid_other_forms() {
    assert_eq!(parse_uuid("{05140bb4-f432-43fe-a5e4-069da2d4fc46}"), Some(NAARISAN));
    assert_eq!(parse_uuid("URN:uuid:05140BB4-F432-43FE-A5E4-069DA2D4FC46"), Some(NAARISAN));
    assert_eq!(parse_uuid("naarisan"), None);
    assert_eq!(parse_uuid("05140bb4-f432-43fe-a5e4-069da2d4fc4"), None);
    assert_eq!(parse_uuid("05140bb4f43243fea5e4069da2d4fc4g"), None);
    assert_eq!(parse_uuid("05140bb4-f43243fe-a5e4-069da2d4fc46"), None);
    assert_eq!(parse_uuid(""), None);
}

#[test]
fn uuid_written_hyphenated() {
    assert_eq!(uuid_to_hyphenated(NAARISAN), "05140bb4-f432-43fe-a5e4-069da2d4fc46");
    assert_eq!(uuid_to_hyphenated(0), "00000000-0000-0000-0000-000000000000");
    assert_eq!(parse_uuid(&uuid_to_hyphenated(u128::MAX)), Some(u128::MAX));
}

#[test]
fn mcuuid_reads_uuid_or_name() {
    assert!(matches!(mcuuid_query("05140bb4f43243fea5e4069da2d4fc46"), McuuidQuery::Uuid(NAARISAN)));
    match mcuuid_query("naarisan") {
        McuuidQuery::Name(n) => assert_eq!(n, "naarisan"),
        McuuidQuery::Uuid(_) => panic!("a name read as a UUID"),
    }
}

#[test]
fn mcuuid_replies() {
    assert_eq!(mcuuid_reply(Some("naarisan".to_string())), "=> `naarisan`");
    assert_eq!(mcuuid_reply(None), "not found");
    assert_eq!(
        mcuuid_reply(name_answer(Some(NAARISAN))),
        "=> `05140bb4-f432-43fe-a5e4-069da2d4fc46`"
    );
    assert_eq!(name_answer(None), None);
}

#[test]
fn request_addresses() {
    assert_eq!(MOJANG_API_URL, "https://api.mojang.com/");
    assert_eq!(
        username_url("naarisan").ok(),
        Some("https://api.mojang.com/users/profiles/minecraft/naarisan".to_string())
    );
    assert_eq!(
        names_url(NAARISAN).ok(),
        Some("https://api.mojang.com/user/profiles/05140bb4-f432-43fe-a5e4-069da2d4fc46/names".to_string())
    );
    assert_eq!(
        username_url("a b").ok(),
        Some("https://api.mojang.com/users/profiles/minecraft/a%20b".to_string())
    );
}

#[test]
fn answers() {
    assert_eq!(NO_CONTENT, 204);
    assert!(!has_body(204));
    assert!(has_body(200));
    let found = UsernameToUUIDResponse::Profile(UsernameToUUID { name: "naarisan".into(), id: NAARISAN });
    assert_eq!(username_response_id(&found), Some(NAARISAN));
    assert_eq!(username_response_id(&UsernameToUUIDResponse::Null), None);
    let failure = UsernameToUUIDResponse::Failure { error: "e".into(), error_message: "m".into() };
    assert_eq!(username_response_id(&failure), None);

    let names = UUIDToNameHistoryResponse::Names(vec![
        UUIDToNameHistory { name: "first".into(), changed_to_at: None },
        UUIDToNameHistory { name: "second".into(), changed_to_at: Some(5) },
    ]);
    assert_eq!(history_first_name(&names), Some("first".to_string()));
    assert_eq!(history_first_name(&UUIDToNameHistoryResponse::Names(vec![])), None);
    assert_eq!(history_first_name(&UUIDToNameHistoryResponse::Null), None);
    let failure = UUIDToNameHistoryResponse::Failure { error: "e".into(), error_message: "m".into() };
    assert_eq!(history_first_name(&failure), None);
}
