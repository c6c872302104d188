use seventv_api::error::{ApiErrorCode, StatusCode};
use seventv_api::messages::{
    EmoteModerationRequest, MessageKind, MessagesMutation, MessagesQuery, ModRequestMessage, ModerationRequestKind,
    ModerationRequestStatus,
};
use seventv_api::permissions::{Permission, PermissionKind, Permissions, ROLE_MANAGE, USER_LOGIN};
use seventv_api::roles::{first_free_rank, parse_u64, CreateRoleInput, EditRoleInput, Role, RolesMutation, StoredRole};

#[test]
fn parse_u64_reads_decimal_text() {
    assert_eq!(parse_u64("0"), Some(0));
    assert_eq!(parse_u64("42"), Some(42));
    assert_eq!(parse_u64("+42"), Some(42));
    assert_eq!(parse_u64("007"), Some(7));
    assert_eq!(parse_u64("18446744073709551615"), Some(u64::MAX));
}

#[test]
fn parse_u64_refuses_what_std_refuses() {
    for s in ["", "+", "-1", " 1", "1 ", "1a", "18446744073709551616", "99999999999999999999999", "++1"] {
        assert_eq!(parse_u64(s), s.parse::<u64>().ok(), "{s}");
        assert_eq!(parse_u64(s), None, "{s}");
    }
}

#[test]
fn parse_u64_agrees_with_std() {
    for s in ["1", "+0", "123456789", "4294967296", "18446744073709551614"] {
        assert_eq!(parse_u64(s), s.parse::<u64>().ok(), "{s}");
    }
}

#[test]
fn first_free_rank_is_the_least_unused() {
    assert_eq!(first_free_rank(&vec![]), 0);
    assert_eq!(first_free_rank(&vec![0, 1, 3]), 2);
    assert_eq!(first_free_rank(&vec![1, 2]), 0);
    assert_eq!(first_free_rank(&vec![2, 0, 1, -5, 1]), 3);
}

fn role_input(allowed: &str, denied: &str) -> CreateRoleInput {
    CreateRoleInput { name: "Mods".to_string(), color: 0xff00ff, allowed: allowed.to_string(), denied: denied.to_string() }
}

#[test]
fn create_role_reads_permission_numbers() {
    assert_eq!(RolesMutation::create_role_bits(&role_input("5", "+2")).unwrap(), (5, 2));
    let e = RolesMutation::create_role_bits(&role_input("x", "y")).unwrap_err();
    assert_eq!((e.status, e.message), (StatusCode::BadRequest, "invalid allowed permission"));
    let e = RolesMutation::create_role_bits(&role_input("1", "-1")).unwrap_err();
    assert_eq!((e.status, e.message), (StatusCode::BadRequest, "invalid denied permission"));
}

fn perms(kind: PermissionKind, bits: u64) -> Permissions {
    let mut p = Permissions::new();
    p.allow(Permission { kind, bits });
    p
}

#[test]
fn create_role_takes_the_first_free_rank() {
    let actor = perms(PermissionKind::Role, ROLE_MANAGE);
    let role = RolesMutation::create_role(&actor, &role_input("0", "0"), &Permissions::new(), &vec![0, 2], 11, 12).unwrap();
    assert_eq!(role.rank, 1);
    assert_eq!(role.id, 11);
    assert_eq!(role.created_by, 12);
    assert_eq!(role.color, Some(0xff00ff));
    assert_eq!(role.name, "Mods");
}

#[test]
fn create_role_above_the_actor_is_refused() {
    let actor = perms(PermissionKind::Role, ROLE_MANAGE);
    let role_perms = perms(PermissionKind::User, USER_LOGIN);
    let e = RolesMutation::create_role(&actor, &role_input("0", "0"), &role_perms, &vec![], 1, 2).unwrap_err();
    assert_eq!((e.status, e.code), (StatusCode::Forbidden, ApiErrorCode::LackingPrivileges));
}

#[test]
fn editing_roles_is_not_offered() {
    let data = EditRoleInput { name: None, color: None, allowed: None, denied: None, position: Some(1) };
    assert_eq!(RolesMutation::edit_role(1, &data).unwrap_err().status, StatusCode::NotImplemented);
}

#[test]
fn delete_role_checks() {
    let actor = perms(PermissionKind::Role, ROLE_MANAGE);
    assert_eq!(RolesMutation::delete_role_check(&actor, &None).unwrap_err().message, "role not found");
    let stored = StoredRole { id: 1, name: "x".to_string(), permissions: perms(PermissionKind::User, USER_LOGIN), color: None, rank: 0, created_by: 2 };
    assert_eq!(RolesMutation::delete_role_check(&actor, &Some(stored.clone())).unwrap_err().status, StatusCode::Forbidden);
    let admin = perms(PermissionKind::User, USER_LOGIN);
    assert!(RolesMutation::delete_role_check(&admin, &Some(stored)).is_ok());
    assert_eq!(RolesMutation::delete_role_result(0).unwrap_err().status, StatusCode::NotFound);
    assert_eq!(RolesMutation::delete_role_result(1).unwrap(), "");
}

#[test]
fn role_view() {
    let stored = StoredRole { id: 3, name: "VIP".to_string(), permissions: Permissions::new(), color: None, rank: 4, created_by: 2 };
    let r = Role::from_db(&stored, 1234, 0);
    assert_eq!(r.color, 0);
    assert_eq!(r.position, 4);
    assert!(!r.invisible);
    assert_eq!(r.allowed_text(), "1234");
    assert_eq!(r.denied_text(), "0");
    let r = Role::from_db(&StoredRole { color: Some(-5), ..stored }, u64::MAX, 10);
    assert_eq!(r.color, -5);
    assert_eq!(r.allowed_text(), "18446744073709551615");
    assert_eq!(r.denied_text(), "10");
}

fn request(kind: ModerationRequestKind, status: ModerationRequestStatus, country: Option<&str>) -> EmoteModerationRequest {
    EmoteModerationRequest { id: 1, kind, user_id: 2, emote_id: 3, status, country_code: country.map(|c| c.to_string()) }
}

#[test]
fn mod_request_message_view() {
    let m = ModRequestMessage::from_db(&request(ModerationRequestKind::PersonalUse, ModerationRequestStatus::Denied, Some("DE")));
    assert_eq!(m.kind, MessageKind::ModRequest);
    assert_eq!(m.author_id, Some(2));
    assert!(m.read);
    assert_eq!(m.read_at, None);
    assert_eq!(m.target_kind, 2);
    assert_eq!(m.target_id, 3);
    assert_eq!(m.wish, "personal_use");
    assert_eq!(m.actor_country_name, "DE");
    assert_eq!(m.actor_country_code, "DE");
    let m = ModRequestMessage::from_db(&request(ModerationRequestKind::PublicListing, ModerationRequestStatus::Pending, None));
    assert!(!m.read);
    assert_eq!(m.wish, "list");
    assert_eq!(m.actor_country_code, "");
}

#[test]
fn mod_request_filters() {
    assert_eq!(MessagesQuery::mod_requests_filter(&None, &None).unwrap(), "kind: 0 && status: 0");
    assert_eq!(MessagesQuery::mod_requests_filter(&Some("personal_use".to_string()), &Some(vec![])).unwrap(), "kind: 1 && status: 0");
    assert_eq!(MessagesQuery::mod_requests_filter(&Some("anything".to_string()), &None).unwrap(), "kind: 0 && status: 0");
    let countries = Some(vec!["DE".to_string(), "U`S\\\\".to_string()]);
    assert_eq!(
        MessagesQuery::mod_requests_filter(&None, &countries).unwrap(),
        "kind: 0 && status: 0 && (country_code: DE || country_code: US)"
    );
}

#[test]
fn long_country_codes_are_refused() {
    let long = "ä".repeat(51);
    assert_eq!(long.chars().count(), 51);
    let e = MessagesQuery::mod_requests_filter(&None, &Some(vec!["DE".to_string(), long])).unwrap_err();
    assert_eq!((e.status, e.message), (StatusCode::BadRequest, "country code is too long"));
    assert!(MessagesQuery::mod_requests_filter(&None, &Some(vec!["a".repeat(100)])).is_ok());
}

#[test]
fn reading_messages() {
    assert_eq!(MessagesMutation::read_status(true, true), ModerationRequestStatus::Approved);
    assert_eq!(MessagesMutation::read_status(true, false), ModerationRequestStatus::Denied);
    assert_eq!(MessagesMutation::read_status(false, true), ModerationRequestStatus::Pending);
    assert_eq!(MessagesMutation::read_messages_result(3, 3), Ok(3));
    assert_eq!(MessagesMutation::read_messages_result(2, 3).unwrap_err().message, "at least one message was not found");
    assert_eq!(MessagesMutation::read_messages_result(1 << 32, 1 << 32), Ok(0));
    assert_eq!(MessagesMutation::send_inbox_message(&vec![], &String::new(), &String::new()).unwrap_err().status, StatusCode::NotImplemented);
    assert_eq!(MessagesMutation::dismiss_void_target_mod_requests(1).unwrap_err().status, StatusCode::NotImplemented);
}
