use std::sync::Arc;

use seventv_api::audit::{
    ArbitraryMap, AuditLog, AuditLogChange, AuditLogChangeFormat, AuditLogKind, EditorEvent, EmoteEvent, EmoteSetEvent,
    EmoteVersionStateChange, FieldValue, StoredEvent, StoredEventData, SYSTEM_USER_ID,
};
use seventv_api::bans::{ban_effect_to_permissions, Ban, BanEffect, BansMutation, UserBan};
use seventv_api::config::get_extension_config;
use seventv_api::cookies::{allow_credentials, cookie_domain, CookieMiddleware, CookieMiddlewareService};
use seventv_api::editors::{check_editor, requires_editor, EditorKind, EditorPermission, EDITOR_EMOTE_SET_MANAGE, EditorListing, EditorPermissions, UserEditor, UserEditorState};
use seventv_api::emotes::{EMOTE_FLAG_APPROVED_PERSONAL, EMOTE_FLAG_DENIED_PERSONAL, EMOTE_FLAG_PUBLIC_LISTED};
use seventv_api::entitlements::{
    check_merge, check_merge_target, merge_edges, merge_editing, merge_editors, merge_user_fields, role_change, EdgeKind, EdgeManager, EntitlementEdge,
    MergeUser,
};
use seventv_api::types::ListItemAction;
use seventv_api::emote_sets::EmoteSetKind;
use seventv_api::error::{ApiErrorCode, StatusCode};
use seventv_api::gql::{batch_decision, check_get_request, error_labels, path_segment_display, BatchDecision, GqlValue, PathSegment};
use seventv_api::guards::{PermissionGuard, RateLimitGuard, RateLimitResource, RateLimitResponseStore};
use seventv_api::ids::{format_id, id_with_timestamp_ms};
use seventv_api::ip::{forwarded_pieces, ForwardedHeader, IncomingRequestConfig, IpAddress, IpMiddleware, IpNetwork};
use seventv_api::login::{
    callback_redirect, check_callback_connection, check_callback_params, login_redirect, session_expiry, ConnectionsConfig, Platform,
};
use seventv_api::permissions::{
    Permission, PermissionKind, Permissions, FLAG_HIDDEN, USER_INVITE_EDITORS, USER_LOGIN, USER_MANAGE_ANY, USER_MODERATE, USER_VIEW_HIDDEN,
};
use seventv_api::session::{
    auth_failure_outcome, bearer_token, ignores_auth_failure, parse_session, session_expired, request_is_v3_auth, unquote_token, AuthState, FullUser, Session,
    SessionMiddleware, SessionMiddlewareService, UserSession,
};
use seventv_api::user_ops::{
    check_active_emote_set_kind, check_unlink, cosmetic_selection, editor_change, editor_row, editors_check, unlink_connection, Connection, CosmeticChange, CosmeticKind, EditorChange,
};

fn perms(list: &[(PermissionKind, u64)]) -> Permissions {
    let mut p = Permissions::new();
    for (kind, bits) in list {
        p.allow(Permission { kind: *kind, bits: *bits });
    }
    p
}

#[test]
fn permissions_allow_and_deny() {
    let mut p = Permissions::new();
    let login = Permission { kind: PermissionKind::User, bits: USER_LOGIN };
    assert!(!p.has(login));
    p.allow(login);
    assert!(p.has(login));
    p.deny(login);
    assert!(!p.has(login));
    assert!(p.denied(login));
    let both = vec![login, Permission { kind: PermissionKind::User, bits: USER_MODERATE }];
    let mut q = perms(&[(PermissionKind::User, USER_LOGIN)]);
    assert!(q.has_any(&both));
    assert!(!q.has_all(&both));
    q.allow(both[1]);
    assert!(q.has_all(&both));
    assert!(q.is_superset_of(&perms(&[(PermissionKind::User, USER_LOGIN)])));
    assert!(!perms(&[(PermissionKind::User, USER_LOGIN)]).is_superset_of(&q));
}

#[test]
fn ban_effects_become_permissions() {
    let hole = BanEffect { no_permissions: false, no_auth: false, no_ownership: false, memory_hole: true, blocked_ip: false };
    let p = ban_effect_to_permissions(hole);
    assert!(p.has(Permission { kind: PermissionKind::Flag, bits: FLAG_HIDDEN }));
    let no_auth = BanEffect { no_permissions: false, no_auth: true, no_ownership: false, memory_hole: false, blocked_ip: false };
    assert!(ban_effect_to_permissions(no_auth).denied(Permission { kind: PermissionKind::User, bits: USER_LOGIN }));
}

#[test]
fn memory_hole_ban_reads_back() {
    let hole = BanEffect { no_permissions: false, no_auth: true, no_ownership: false, memory_hole: true, blocked_ip: false };
    let ban = BansMutation::create_ban(1, 2, 10, 5, false, 77, "spam".to_string(), hole, Some(1000)).unwrap();
    assert_eq!((ban.id, ban.user_id, ban.created_by_id, ban.expires_at), (77, 2, 1, Some(1000)));
    let shown = Ban::from_db(2, ban);
    assert!(shown.effects.memory_hole);
    assert_eq!(shown.victim_id, 2);
    assert_eq!(shown.actor_id, 1);
    assert_eq!(shown.reason, "spam");
}

#[test]
fn ban_refusals() {
    let e = BanEffect { no_permissions: false, no_auth: false, no_ownership: false, memory_hole: false, blocked_ip: false };
    assert_eq!(BansMutation::create_ban(1, 1, 10, 5, true, 7, String::new(), e, None).unwrap_err().message, "cannot ban yourself");
    assert_eq!(BansMutation::create_ban(1, 2, 5, 5, false, 7, String::new(), e, None).unwrap_err().status, StatusCode::Forbidden);
    assert!(BansMutation::create_ban(1, 2, 5, 5, true, 7, String::new(), e, None).is_ok());
}

#[test]
fn editor_listings() {
    let perms = EditorPermissions { emote_set: 1, emote: 0, user: 0 };
    let e = UserEditor { user_id: 1, editor_id: 2, state: UserEditorState::Accepted, permissions: perms, added_at: 5, added_by_id: 1 };
    assert_eq!(EditorListing::from_db(e, false).unwrap().id, 2);
    assert_eq!(EditorListing::from_db(e, true).unwrap().id, 1);
    let pending = UserEditor { state: UserEditorState::Pending, ..e };
    assert!(EditorListing::from_db(pending, false).is_none());
}

#[test]
fn user_connection_changes() {
    let c = |id: &str| Connection { platform_id: id.to_string(), platform_username: id.to_string(), allow_login: true };
    let old = vec![c("a"), c("b"), c("a")];
    let left = unlink_connection(&old, &"a".to_string());
    assert_eq!(left.len(), 1);
    assert_eq!(check_unlink(left.len(), &old, &"a".to_string()), Ok(0));
    assert_eq!(check_unlink(0, &old, &"a".to_string()).unwrap_err().message, "cannot remove last connection");
    assert_eq!(check_unlink(3, &old, &"z".to_string()).unwrap_err().message, "connection not found");
}

#[test]
fn user_editor_changes() {
    let inviter = perms(&[(PermissionKind::User, USER_INVITE_EDITORS)]);
    let none = EditorPermissions { emote_set: 0, emote: 0, user: 0 };
    let some = EditorPermissions { emote_set: 1, emote: 0, user: 0 };
    assert_eq!(editors_check(1, &Permissions::new(), 1, 2, &some).unwrap_err().status, StatusCode::Forbidden);
    assert_eq!(editors_check(1, &inviter, 1, 2, &some), Ok(false));
    assert_eq!(editors_check(1, &inviter, 3, 2, &some), Ok(true));
    assert_eq!(editors_check(1, &inviter, 3, 1, &none), Ok(false));
    let admin = perms(&[(PermissionKind::User, USER_INVITE_EDITORS), (PermissionKind::User, USER_MANAGE_ANY)]);
    assert_eq!(editors_check(1, &admin, 3, 2, &some), Ok(false));
    assert_eq!(editor_change(Some(some), none), Ok(EditorChange::Remove));
    assert_eq!(editor_change(None, some), Ok(EditorChange::Add));
    assert_eq!(editor_change(Some(none), some), Ok(EditorChange::Edit));
    assert_eq!(editor_change(Some(some), some).unwrap_err().message, "permissions are the same");
}

#[test]
fn cosmetic_selections() {
    assert_eq!(cosmetic_selection(true, CosmeticKind::Paint, 5, &vec![5], None), Ok(CosmeticChange::Select(Some(5))));
    assert_eq!(cosmetic_selection(true, CosmeticKind::Paint, 5, &vec![5], Some(5)), Ok(CosmeticChange::Unchanged));
    assert_eq!(cosmetic_selection(true, CosmeticKind::Badge, 0, &vec![], Some(5)), Ok(CosmeticChange::Select(None)));
    assert_eq!(cosmetic_selection(true, CosmeticKind::Badge, 6, &vec![5], None).unwrap_err().message, "you do not have permission to use this badge");
    assert_eq!(cosmetic_selection(true, CosmeticKind::Avatar, 6, &vec![6], None).unwrap_err().status, StatusCode::NotImplemented);
    // an update that selects nothing succeeds without looking further
    assert_eq!(cosmetic_selection(false, CosmeticKind::Paint, 6, &vec![], None), Ok(CosmeticChange::Unchanged));
    assert_eq!(cosmetic_selection(false, CosmeticKind::Avatar, 6, &vec![], None), Ok(CosmeticChange::Unchanged));
}

#[test]
fn role_changes() {
    let edges = vec![EntitlementEdge { from: EdgeKind::User(1), to: EdgeKind::Role(9), managed_by: None }];
    assert_eq!(role_change(ListItemAction::Add, &vec![3], &vec![3], &edges, 1, 9), Ok(vec![3, 9]));
    assert_eq!(role_change(ListItemAction::Add, &vec![3], &vec![3, 9], &edges, 1, 9), Ok(vec![3]));
    assert_eq!(role_change(ListItemAction::Remove, &vec![3, 9], &vec![3, 9], &edges, 1, 9), Ok(vec![3]));
    let via_product = vec![EntitlementEdge { from: EdgeKind::Product(4), to: EdgeKind::Role(9), managed_by: None }];
    assert_eq!(role_change(ListItemAction::Remove, &vec![3, 9], &vec![3, 9], &via_product, 1, 9), Ok(vec![3, 9]));
    let managed = vec![EntitlementEdge { from: EdgeKind::User(1), to: EdgeKind::Role(9), managed_by: Some(EdgeManager::Other(2)) }];
    assert_eq!(role_change(ListItemAction::Remove, &vec![9], &vec![9], &managed, 1, 9), Ok(vec![9]));
    assert_eq!(role_change(ListItemAction::Update, &vec![], &vec![], &edges, 1, 9).unwrap_err().status, StatusCode::NotImplemented);
}

#[test]
fn merging_users() {
    assert_eq!(check_merge(1, 1).unwrap_err().message, "cannot merge user with self");
    assert!(check_merge(1, 2).is_ok());
    assert_eq!(check_merge_target(Some(3)).unwrap_err().message, "target user is already merged");
    let c = |id: &str| Connection { platform_id: id.to_string(), platform_username: id.to_string(), allow_login: true };
    let src = MergeUser { connections: vec![c("s")], stripe_customer_id: Some("cus_s".to_string()), has_bans: true, email: Some("s@x".to_string()) };
    let target = MergeUser { connections: vec![c("t")], stripe_customer_id: None, has_bans: false, email: Some("t@x".to_string()) };
    let m = merge_user_fields(&src, &target);
    assert_eq!(m.connections.iter().map(|c| c.platform_id.as_str()).collect::<Vec<_>>(), vec!["t", "s"]);
    assert_eq!(m.stripe_customer_id.as_deref(), Some("cus_s"));
    assert!(m.has_bans);
    assert_eq!(m.email.as_deref(), Some("t@x"));
    let p = EditorPermissions { emote_set: 1, emote: 0, user: 0 };
    let ed = |user_id, editor_id| UserEditor { user_id, editor_id, state: UserEditorState::Accepted, permissions: p, added_at: 0, added_by_id: 0 };
    // editors of the source move to the target, except those the target already has
    let moved = merge_editors(&vec![ed(1, 5), ed(1, 6), ed(1, 2)], &vec![6], 2);
    assert_eq!(moved.iter().map(|e| (e.user_id, e.editor_id)).collect::<Vec<_>>(), vec![(2, 5), (2, 2)]);
    let src_edges = vec![
        EntitlementEdge { from: EdgeKind::User(1), to: EdgeKind::Role(9), managed_by: None },
        EntitlementEdge { from: EdgeKind::User(1), to: EdgeKind::Role(9), managed_by: None },
        EntitlementEdge { from: EdgeKind::User(1), to: EdgeKind::Badge(3), managed_by: Some(EdgeManager::Subscription(4, 1)) },
        EntitlementEdge { from: EdgeKind::User(1), to: EdgeKind::Paint(8), managed_by: None },
    ];
    let target_edges = vec![EntitlementEdge { from: EdgeKind::User(2), to: EdgeKind::Paint(8), managed_by: None }];
    let added = merge_edges(&src_edges, &target_edges, 2);
    assert_eq!(added, vec![EntitlementEdge { from: EdgeKind::User(2), to: EdgeKind::Role(9), managed_by: None }]);
}

#[test]
fn guards() {
    let g = PermissionGuard::one(Permission { kind: PermissionKind::User, bits: USER_LOGIN });
    assert!(g.check(&perms(&[(PermissionKind::User, USER_LOGIN)])).is_ok());
    assert_eq!(g.check(&Permissions::new()).unwrap_err().status, StatusCode::Forbidden);
    let all = PermissionGuard::all(vec![
        Permission { kind: PermissionKind::User, bits: USER_LOGIN },
        Permission { kind: PermissionKind::User, bits: USER_MODERATE },
    ]);
    assert!(all.check(&perms(&[(PermissionKind::User, USER_LOGIN)])).is_err());
    assert_eq!(RateLimitGuard::search(1).resource, RateLimitResource::Search);
    assert_eq!(RateLimitGuard::new(RateLimitResource::EmoteUpload, 3).ticket_count, 3);
    let mut store = RateLimitResponseStore::new();
    assert_eq!(store.incr_used(RateLimitResource::Search, 2), 2);
    assert_eq!(store.incr_used(RateLimitResource::Search, 3), 5);
    assert_eq!(store.incr_used(RateLimitResource::Global, 1), 1);
    assert_eq!(store.used(RateLimitResource::Search), 5);
    assert_eq!(store.used(RateLimitResource::EmoteUpload), 0);
    let mut p = Permissions::new();
    p.graphql_rate_limit = Some(40);
    assert_eq!(RateLimitGuard::user_limit(&p), Some(40));
}

#[test]
fn graphql_endpoint_rules() {
    let path = vec![PathSegment::Field("user".to_string()), PathSegment::Index(3), PathSegment::Field("name".to_string())];
    assert_eq!(path_segment_display(&path), "user[3].name");
    let (p, code, status) = error_labels(&path, &Some(GqlValue::Number("403".to_string())), &None);
    assert_eq!((p.as_str(), code.as_str(), status.as_str()), ("user[3].name", "403", ""));
    let (_, code, status) = error_labels(&vec![], &Some(GqlValue::Boolean(true)), &Some(GqlValue::Other));
    assert_eq!((code.as_str(), status.as_str()), ("true", "unknown"));
    assert!(check_get_request(true, false, false, false).is_ok());
    assert!(check_get_request(false, true, true, true).is_ok());
    assert_eq!(check_get_request(true, false, true, false).unwrap_err().status, StatusCode::BadRequest);
    assert_eq!(batch_decision(Some("forsen"), 1), Ok(BatchDecision::Forsen));
    assert_eq!(batch_decision(None, 30), Ok(BatchDecision::Execute));
    assert!(batch_decision(None, 31).is_err());
}

#[test]
fn extension_configs() {
    assert!(get_extension_config("extension").unwrap().starts_with("{\"version\":\"3.0.9\""));
    assert!(get_extension_config("extension-nightly").unwrap().starts_with("{\"version\":\"3.0.10.1000\""));
    assert_eq!(get_extension_config("other").unwrap_err().status, StatusCode::NotFound);
}

fn config(nets: Vec<IpNetwork>, header: Option<&str>) -> IpMiddleware {
    IpMiddleware::new(IncomingRequestConfig { trusted_proxies: nets, ip_header: header.map(|h| h.to_string()) })
}

#[test]
fn client_addresses_behind_proxies() {
    let proxy = IpNetwork { addr: IpAddress::V4(0x0a00_0000), prefix: 8 };
    let m = config(vec![proxy], Some("x-forwarded-for")).layer(());
    let from_proxy = Some(IpAddress::V4(0x0a01_0203));
    let header = ForwardedHeader::Addresses(vec![IpAddress::V4(0x0102_0304), IpAddress::V4(0x0505_0505), IpAddress::V4(0x0a00_0001)]);
    assert_eq!(m.modify(from_proxy, &header), Ok(Some(IpAddress::V4(0x0505_0505))));
    assert_eq!(m.modify(Some(IpAddress::V4(0x0b00_0001)), &header).unwrap_err().status, StatusCode::Forbidden);
    assert_eq!(m.modify(from_proxy, &ForwardedHeader::Missing).unwrap_err().status, StatusCode::Forbidden);
    assert_eq!(m.modify(from_proxy, &ForwardedHeader::Malformed).unwrap_err().status, StatusCode::BadRequest);
    assert_eq!(m.modify(from_proxy, &ForwardedHeader::Addresses(vec![IpAddress::V4(0x0a00_0009)])), Ok(None));
    assert_eq!(m.modify(None, &header).unwrap_err().status, StatusCode::InternalServerError);
    let open = config(vec![], Some("x-forwarded-for")).layer(());
    assert_eq!(open.modify(Some(IpAddress::V4(1)), &ForwardedHeader::Missing), Ok(None));
    let no_header = config(vec![proxy], None).layer(());
    assert_eq!(no_header.modify(from_proxy, &ForwardedHeader::Missing), Ok(None));
    let v6 = IpNetwork { addr: IpAddress::V6(0xfd00u128 << 112), prefix: 8 };
    assert!(v6.contains(&IpAddress::V6((0xfd12u128 << 112) | 1)));
    assert!(!v6.contains(&IpAddress::V4(1)));
}

#[test]
fn sessions() {
    let user = FullUser { id: 7, permissions: perms(&[(PermissionKind::User, USER_LOGIN)]) };
    let us = UserSession { id: 3, user_id: 7, expires_at: 100, last_used_at: 0 };
    let s = Session::new(AuthState::Authenticated { session: us, user: user.clone() }, IpAddress::V4(1));
    assert_eq!(s.user_id(), Some(7));
    assert_eq!(s.user_session_id(), Some(3));
    assert!(s.has(Permission { kind: PermissionKind::User, bits: USER_LOGIN }));
    assert_eq!(s.ip(), IpAddress::V4(1));
    let anon = Session::new(AuthState::Unauthenticated { default: Permissions::new() }, IpAddress::V4(2));
    assert_eq!(anon.user_id(), None);
    assert_eq!(anon.user().unwrap_err().status, StatusCode::Unauthorized);
    let mw = SessionMiddleware::new(Arc::new(5u8));
    let svc: SessionMiddlewareService<&str, u8> = mw.layer("inner");
    assert_eq!(svc.inner, "inner");
    assert_eq!(
        SessionMiddlewareService::<(), u8>::request_token(None, Some("Bearer Bearer abc")).as_deref(),
        Some("abc")
    );
    assert_eq!(SessionMiddlewareService::<(), u8>::request_token(Some("cookie"), Some("Bearer abc")).as_deref(), Some("cookie"));
    assert_eq!(SessionMiddlewareService::<(), u8>::request_token(None, None), None);
}

#[test]
fn session_token_texts() {
    assert_eq!(bearer_token("Bearer xyz"), "xyz");
    assert_eq!(bearer_token("xyz"), "xyz");
    assert_eq!(unquote_token("\"\"tok\""), "tok");
    assert_eq!(unquote_token("\"\""), "");
    assert!(request_is_v3_auth("/v3/auth", true));
    assert!(request_is_v3_auth("/v3/auth/logout", true));
    assert!(!request_is_v3_auth("/v3/auth", false));
    assert!(!request_is_v3_auth("/v3/authx", true));
    assert!(ignores_auth_failure(Some("true")));
    assert!(!ignores_auth_failure(Some("TRUE")));
    assert!(!ignores_auth_failure(None));
    assert_eq!(auth_failure_outcome(false, false, false, false), Ok(false));
    assert_eq!(auth_failure_outcome(true, true, false, false), Ok(false));
    assert_eq!(auth_failure_outcome(true, false, true, false), Ok(true));
    assert_eq!(auth_failure_outcome(true, false, false, true), Ok(true));
    assert_eq!(auth_failure_outcome(true, false, false, false).unwrap_err().message, "invalid session");
}

fn connections() -> ConnectionsConfig {
    ConnectionsConfig {
        twitch_client_id: "tw".to_string(),
        discord_client_id: "dc".to_string(),
        google_client_id: "gg".to_string(),
    }
}

#[test]
fn login_redirects() {
    let r = login_redirect(&connections(), "https://api.7tv.app", Platform::Twitch, "st").unwrap();
    assert_eq!(
        r,
        "https://id.twitch.tv/oauth2/authorize?client_id=tw&redirect_uri=https%3A%2F%2Fapi.7tv.app%2Fv3%2Fauth%3Fcallback%3Dtrue%26platform%3Dtwitch&response_type=code&scope=&state=st"
    );
    let r = login_redirect(&connections(), "http://x", Platform::Google, "s").unwrap();
    assert!(r.ends_with("&scope=https%3A%2F%2Fwww.googleapis.com%2Fauth%2Fyoutube.readonly&state=s"));
    assert_eq!(login_redirect(&connections(), "http://x", Platform::Kick, "s").unwrap_err().message, "unsupported platform");
}

#[test]
fn login_callbacks() {
    let some = Some("x".to_string());
    assert_eq!(check_callback_params(&None, &some, &some, true).unwrap_err().message, "missing code");
    assert_eq!(check_callback_params(&some, &None, &some, true).unwrap_err().message, "missing state");
    assert_eq!(check_callback_params(&some, &some, &None, true).unwrap_err().message, "missing csrf cookie");
    assert_eq!(check_callback_params(&some, &some, &some, false).unwrap_err().message, "invalid csrf");
    assert!(check_callback_params(&some, &some, &some, true).is_ok());
    assert_eq!(check_callback_connection(1, 2, false, None).unwrap_err().message, "connection already connected to another account");
    assert_eq!(check_callback_connection(1, 1, true, None).unwrap_err().message, "connection has login disabled");
    assert!(check_callback_connection(1, 1, true, Some(1)).is_ok());
    assert_eq!(session_expiry(1000), 1000 + 2_592_000_000);
    assert_eq!(callback_redirect("https://7tv.app/cb", Platform::Discord, &Some("tok".to_string())), "https://7tv.app/cb?platform=discord&token=tok");
    assert_eq!(callback_redirect("https://7tv.app/cb", Platform::Twitch, &None), "https://7tv.app/cb?platform=twitch");
}

#[test]
fn request_cookies() {
    let headers = vec![Some("a=1; b=hello%20world".to_string()), Some(" ; c=3".to_string())];
    let jar = CookieMiddlewareService::<()>::read_cookies(&headers).unwrap();
    assert_eq!(
        jar,
        vec![("a".to_string(), "1".to_string()), ("b".to_string(), "hello world".to_string()), ("c".to_string(), "3".to_string())]
    );
    let e = CookieMiddlewareService::<()>::read_cookies(&vec![Some("a=1".to_string()), None]).unwrap_err();
    assert_eq!((e.code, e.message), (ApiErrorCode::Cookie, "cookie header is not a valid string"));
    let e = CookieMiddlewareService::<()>::read_cookies(&vec![Some("a=1; novalue".to_string())]).unwrap_err();
    assert_eq!(e.message, "invalid cookie header");
    assert!(CookieMiddlewareService::<()>::read_cookies(&vec![]).unwrap().is_empty());
    assert_eq!(CookieMiddleware.layer(4u8).inner, 4);
    assert_eq!(cookie_domain("7tv.app"), ".7tv.app");
}

#[test]
fn credentialed_origins() {
    let allowed = vec!["https://7tv.app".to_string(), "https://old.7tv.app:8443/".to_string(), "not a url".to_string()];
    assert!(allow_credentials(&allowed, Some("https://7tv.app")));
    assert!(allow_credentials(&allowed, Some("https://7tv.app:443")));
    assert!(allow_credentials(&allowed, Some("https://old.7tv.app:8443")));
    assert!(!allow_credentials(&allowed, Some("https://old.7tv.app")));
    assert!(!allow_credentials(&allowed, Some("http://7tv.app")));
    assert!(!allow_credentials(&allowed, Some("null")));
    assert!(!allow_credentials(&allowed, None));
}

#[test]
fn audit_log_entries() {
    let id = id_with_timestamp_ms(0);
    let ev = StoredEvent { id, actor_id: None, data: StoredEventData::Emote { target_id: 9, data: EmoteEvent::Upload } };
    let log = AuditLog::from_db(&ev).unwrap();
    assert_eq!((log.kind, log.kind.code(), log.target_id, log.target_kind), (AuditLogKind::CreateEmote, 1, 9, 2));
    assert_eq!(log.actor_id, SYSTEM_USER_ID);
    assert!(log.changes.is_empty());
    let ev = StoredEvent { id, actor_id: Some(4), data: StoredEventData::EmoteSet { target_id: 8, data: EmoteSetEvent::RemoveEmote { emote_id: 5 } } };
    let log = AuditLog::from_db(&ev).unwrap();
    assert_eq!((log.kind.code(), log.target_kind, log.changes.len()), (71, 3, 1));
    let c = &log.changes[0];
    assert_eq!((c.format.code(), c.key.as_str()), (2, "emotes"));
    assert_eq!(c.array_value.as_ref().unwrap().removed.len(), 1);
    let ev = StoredEvent { id, actor_id: Some(4), data: StoredEventData::UserEditor { user_id: 6, data: EditorEvent::AddEditor { editor_id: 7 } } };
    let log = AuditLog::from_db(&ev).unwrap();
    assert_eq!((log.kind, log.kind.code(), log.target_id, log.target_kind), (AuditLogKind::EditUser, 33, 6, 1));
    let ev = StoredEvent { id, actor_id: None, data: StoredEventData::Emote { target_id: 9, data: EmoteEvent::ProcessOther } };
    assert!(AuditLog::from_db(&ev).is_none());
    let ev = StoredEvent { id, actor_id: None, data: StoredEventData::UserEditor { user_id: 1, data: EditorEvent::Other } };
    assert!(AuditLog::from_db(&ev).is_none());
}

#[test]
fn audit_flag_changes() {
    let listed_change = EmoteEvent::ChangeFlags { old: 0, new: EMOTE_FLAG_PUBLIC_LISTED, old_model: 0, new_model: 0 };
    let c = AuditLogChange::from_db_emote(&listed_change).unwrap();
    assert_eq!(c.format, AuditLogChangeFormat::ArrayValue);
    assert_eq!(c.key, "versions");
    match &c.array_value.as_ref().unwrap().updated[0] {
        ArbitraryMap::EmoteVersionState { n, o, p } => {
            assert_eq!(*n, EmoteVersionStateChange { listed: Some(true), allow_personal: None });
            assert_eq!(*o, EmoteVersionStateChange { listed: Some(false), allow_personal: None });
            assert_eq!(*p, 0);
        },
        other => panic!("unexpected {other:?}"),
    }
    let other_change = EmoteEvent::ChangeFlags { old: 1, new: 3, old_model: 1, new_model: 257 };
    let c = AuditLogChange::from_db_emote(&other_change).unwrap();
    assert_eq!((c.format, c.key.as_str()), (AuditLogChangeFormat::SingleValue, "flags"));
    assert!(matches!(c.value, Some(ArbitraryMap::NumberValue { n: 257, o: 1, p: 0 })));
    assert_eq!(EmoteVersionStateChange::from_flags(EMOTE_FLAG_APPROVED_PERSONAL).allow_personal, Some(true));
    assert_eq!(EmoteVersionStateChange::from_flags(EMOTE_FLAG_DENIED_PERSONAL).allow_personal, Some(false));
    assert_eq!(EmoteVersionStateChange::from_flags(EMOTE_FLAG_APPROVED_PERSONAL | EMOTE_FLAG_DENIED_PERSONAL).allow_personal, None);
    assert!(AuditLogChange::from_db_emote(&EmoteEvent::Other).is_none());
    let owner = AuditLogChange::from_db_emote(&EmoteEvent::ChangeOwner { old: 1, new: 2 }).unwrap();
    match owner.value {
        Some(ArbitraryMap::StringValue { n, o, .. }) => assert_eq!((n, o), (format_id(2), format_id(1))),
        _ => panic!("owner change is a string value"),
    }
}

#[test]
fn audit_values_render() {
    let m = ArbitraryMap::Emote { id: 1, actor_id: 2, flags: 0, name: "pepe".to_string(), timestamp_ms: 1_500 };
    let fields = m.to_value();
    let keys: Vec<&str> = fields.iter().map(|(k, _)| k.as_str()).collect();
    assert_eq!(keys, vec!["id", "actor_id", "flags", "name", "timestamp"]);
    match &fields[4].1 {
        FieldValue::Text(t) => assert_eq!(t, "1970-01-01 00:00:01.500 UTC"),
        other => panic!("unexpected {other:?}"),
    }
    match &fields[0].1 {
        FieldValue::Text(t) => assert_eq!(t, "00000000000000000000000001"),
        other => panic!("unexpected {other:?}"),
    }
    let state = ArbitraryMap::EmoteVersionState {
        n: EmoteVersionStateChange { listed: Some(true), allow_personal: None },
        o: EmoteVersionStateChange { listed: None, allow_personal: Some(false) },
        p: 0,
    };
    let fields = state.to_value();
    match (&fields[0].1, &fields[1].1) {
        (FieldValue::Object(n), FieldValue::Object(o)) => {
            assert_eq!(n.len(), 1);
            assert_eq!(n[0].0, "listed");
            assert_eq!(o[0].0, "allow_personal");
            assert!(matches!(o[0].1, FieldValue::Boolean(false)));
        },
        _ => panic!("states render as objects"),
    }
    let nested = ArbitraryMap::Nested {
        n: Box::new(ArbitraryMap::Editor { id: 3, added_at_ms: 0, permissions: 0, visible: true }),
        o: Box::new(ArbitraryMap::StringVecValue { n: vec!["a".to_string()], o: vec![], p: 0 }),
        p: 0,
    };
    let fields = nested.to_value();
    match &fields[0].1 {
        FieldValue::Object(n) => match &n[1].1 {
            FieldValue::Text(t) => assert_eq!(t, "1970-01-01 00:00:00 UTC"),
            other => panic!("unexpected {other:?}"),
        },
        other => panic!("unexpected {other:?}"),
    }
}

#[test]
fn denials_win_and_covering_is_a_preorder() {
    let login = Permission { kind: PermissionKind::User, bits: USER_LOGIN };
    let mut p = Permissions::new();
    p.deny(login);
    p.allow(login);
    assert!(!p.has(login));
    assert!(p.denied(login));
    let a = perms(&[(PermissionKind::User, USER_LOGIN), (PermissionKind::User, USER_MODERATE)]);
    let b = perms(&[(PermissionKind::User, USER_LOGIN)]);
    let c = Permissions::new();
    assert!(a.is_superset_of(&a));
    assert!(a.is_superset_of(&b) && b.is_superset_of(&c) && a.is_superset_of(&c));
}

#[test]
fn only_auth_bans_take_login() {
    let login = Permission { kind: PermissionKind::User, bits: USER_LOGIN };
    let effect = |no_permissions, no_auth, blocked_ip| BanEffect { no_permissions, no_auth, no_ownership: false, memory_hole: false, blocked_ip };
    assert!(!ban_effect_to_permissions(effect(true, false, false)).denied(login));
    assert!(ban_effect_to_permissions(effect(true, false, false)).denied(Permission { kind: PermissionKind::User, bits: USER_MODERATE }));
    assert!(ban_effect_to_permissions(effect(false, true, false)).denied(login));
    assert!(ban_effect_to_permissions(effect(false, false, true)).denied(login));
}

#[test]
fn editing_a_ban() {
    let e = BanEffect { no_permissions: false, no_auth: false, no_ownership: false, memory_hole: false, blocked_ip: false };
    let ban = BansMutation::create_ban(1, 2, 10, 5, false, 77, "spam".to_string(), e, Some(1000)).unwrap();
    let kept: UserBan = BansMutation::edit_ban(&ban, None, None, Some(2000));
    assert_eq!((kept.id, kept.user_id, kept.created_by_id), (77, 2, 1));
    assert_eq!(kept.reason, "spam");
    assert_eq!(kept.expires_at, Some(2000));
    assert_eq!((kept.permissions.user, kept.permissions.flag), (ban.permissions.user, ban.permissions.flag));
    let no_auth = BanEffect { no_auth: true, ..e };
    let changed = BansMutation::edit_ban(&ban, Some("evasion".to_string()), Some(no_auth), None);
    assert_eq!(changed.reason, "evasion");
    assert_eq!(changed.expires_at, None);
    assert!(changed.permissions.denied(Permission { kind: PermissionKind::User, bits: USER_LOGIN }));
    assert!(!ban.permissions.denied(Permission { kind: PermissionKind::User, bits: USER_LOGIN }));
}

#[test]
fn merged_editors_never_repeat_the_targets() {
    let p = EditorPermissions { emote_set: 1, emote: 0, user: 0 };
    let ed = |user_id, editor_id| UserEditor { user_id, editor_id, state: UserEditorState::Accepted, permissions: p, added_at: 0, added_by_id: 0 };
    let moved = merge_editors(&vec![ed(1, 5), ed(1, 6)], &vec![5, 6], 2);
    assert!(moved.is_empty());
    let moved = merge_editors(&vec![ed(1, 5), ed(1, 7)], &vec![6], 2);
    assert!(moved.iter().all(|e| e.user_id == 2 && e.editor_id != 6));
    assert_eq!(moved.len(), 2);
}

#[test]
fn hidden_users_and_expired_sessions() {
    let hidden = FullUser { id: 9, permissions: perms(&[(PermissionKind::Flag, FLAG_HIDDEN)]) };
    let shown = FullUser { id: 8, permissions: Permissions::new() };
    let viewer = FullUser { id: 7, permissions: Permissions::new() };
    let us = UserSession { id: 3, user_id: 7, expires_at: 100, last_used_at: 0 };
    let s = Session::new(AuthState::Authenticated { session: us, user: viewer }, IpAddress::V4(1));
    assert!(s.can_view(&shown));
    assert!(!s.can_view(&hidden));
    let moderator = FullUser { id: 6, permissions: perms(&[(PermissionKind::User, USER_VIEW_HIDDEN)]) };
    let m = Session::new(AuthState::Authenticated { session: us, user: moderator }, IpAddress::V4(1));
    assert!(m.can_view(&hidden));
    let own = Session::new(AuthState::Authenticated { session: us, user: hidden }, IpAddress::V4(1));
    assert!(own.can_view(&hidden));
    assert!(!session_expired(&us, 100));
    assert!(session_expired(&us, 101));
}

#[test]
fn editor_records() {
    assert!(requires_editor(1, 2, false));
    assert!(!requires_editor(1, 1, false));
    assert!(!requires_editor(1, 2, true));
    let perm = EditorPermission { kind: EditorKind::EmoteSet, bits: EDITOR_EMOTE_SET_MANAGE };
    let missing = seventv_api::error::ApiError::forbidden(ApiErrorCode::LackingPrivileges, "missing");
    let lacking = seventv_api::error::ApiError::forbidden(ApiErrorCode::LackingPrivileges, "lacking");
    assert_eq!(check_editor(&None, perm, missing, lacking), Err(missing));
    let grants = EditorPermissions { emote_set: EDITOR_EMOTE_SET_MANAGE, emote: 0, user: 0 };
    let accepted = UserEditor { user_id: 1, editor_id: 2, state: UserEditorState::Accepted, permissions: grants, added_at: 0, added_by_id: 1 };
    assert_eq!(check_editor(&Some(accepted), perm, missing, lacking), Ok(()));
    let pending = UserEditor { state: UserEditorState::Pending, ..accepted };
    assert_eq!(check_editor(&Some(pending), perm, missing, lacking), Err(lacking));
    let none = UserEditor { permissions: EditorPermissions { emote_set: 0, emote: 0, user: 0 }, ..accepted };
    assert_eq!(check_editor(&Some(none), perm, missing, lacking), Err(lacking));
}

#[test]
fn merged_editing_rights() {
    let p = EditorPermissions { emote_set: 1, emote: 0, user: 0 };
    let ed = |user_id, editor_id| UserEditor { user_id, editor_id, state: UserEditorState::Accepted, permissions: p, added_at: 0, added_by_id: 0 };
    // the source edits users 5 and 6; the target already edits 6
    let moved = merge_editing(&vec![ed(5, 1), ed(6, 1)], &vec![6], 2);
    assert_eq!(moved.iter().map(|e| (e.user_id, e.editor_id)).collect::<Vec<_>>(), vec![(5, 2)]);
}

#[test]
fn only_normal_sets_can_be_active() {
    assert!(check_active_emote_set_kind(EmoteSetKind::Normal).is_ok());
    let e = check_active_emote_set_kind(EmoteSetKind::Personal).unwrap_err();
    assert_eq!((e.status, e.message), (StatusCode::BadRequest, "emote set is not a normal set"));
}

#[test]
fn forwarding_header_pieces() {
    assert_eq!(forwarded_pieces("1.2.3.4, 5.6.7.8"), vec!["1.2.3.4", "5.6.7.8"]);
    assert_eq!(forwarded_pieces(" 10.0.0.1\t,\u{a0}::1 "), vec!["10.0.0.1", "::1"]);
    assert_eq!(forwarded_pieces(""), vec![""]);
    assert_eq!(forwarded_pieces("a,,b,"), vec!["a", "", "b", ""]);
    assert_eq!(forwarded_pieces("  "), vec![""]);
    assert_eq!(forwarded_pieces("x y"), vec!["x y"]);
}

#[test]
fn editor_rows_after_a_change() {
    let p = EditorPermissions { emote_set: 1, emote: 0, user: 0 };
    let q = EditorPermissions { emote_set: 1, emote: 1, user: 0 };
    let added = editor_row(None, 1, 2, p, 9, 500);
    assert_eq!((added.user_id, added.editor_id, added.state, added.added_at, added.added_by_id), (1, 2, UserEditorState::Pending, 500, 9));
    assert_eq!(added.permissions.emote_set, 1);
    let old = UserEditor { user_id: 1, editor_id: 2, state: UserEditorState::Accepted, permissions: p, added_at: 7, added_by_id: 3 };
    let edited = editor_row(Some(old), 1, 2, q, 9, 500);
    assert_eq!((edited.state, edited.added_at, edited.added_by_id), (UserEditorState::Accepted, 7, 3));
    assert_eq!(edited.permissions.emote, 1);
}

#[test]
fn login_redirect_encodes_utf8_bytes() {
    let r = login_redirect(&connections(), "http://é~a_Z.-9", Platform::Twitch, "s").unwrap();
    assert!(r.contains("&redirect_uri=http%3A%2F%2F%C3%A9~a_Z.-9%2Fv3%2Fauth%3Fcallback%3Dtrue%26platform%3Dtwitch&"));
}

#[test]
fn sessions_from_tokens() {
    let us = UserSession { id: 3, user_id: 7, expires_at: 100, last_used_at: 0 };
    let user = FullUser { id: 7, permissions: Permissions::new() };
    let ip = IpAddress::V4(1);
    assert!(parse_session(false, Ok(Some(us)), 50, Ok(Some(user)), ip).unwrap().is_none());
    assert!(parse_session(true, Ok(None), 50, Ok(Some(user)), ip).unwrap().is_none());
    assert!(parse_session(true, Ok(Some(us)), 101, Ok(Some(user)), ip).unwrap().is_none());
    assert!(parse_session(true, Ok(Some(us)), 50, Ok(None), ip).unwrap().is_none());
    let e = parse_session(true, Err(()), 50, Ok(Some(user)), ip).unwrap_err();
    assert_eq!((e.status, e.message), (StatusCode::InternalServerError, "failed to load session"));
    let e = parse_session(true, Ok(Some(us)), 50, Err(()), ip).unwrap_err();
    assert_eq!(e.message, "failed to load user");
    let s = parse_session(true, Ok(Some(us)), 100, Ok(Some(user)), ip).unwrap().unwrap();
    assert_eq!((s.user_id(), s.user_session_id(), s.ip()), (Some(7), Some(3), ip));
}
