use seventv_api::editors::{
    EditorKind, EditorPermission, EditorPermissions, UserEditor, UserEditorState, EDITOR_EMOTE_SET_CREATE, EDITOR_EMOTE_SET_MANAGE,
    EDITOR_USER_MANAGE_PERSONAL_EMOTE_SET,
};
use seventv_api::emote_set_ops::{
    check_emote_set_delete, check_emote_set_management, create_editor_permission, create_emote_set_check, emote_set_access, emote_set_owner_access, emote_set_update_check, AccessStep,
    CreateEmoteSetInput, EmoteSetsMutation, OwnerAccess,
};
use seventv_api::emote_sets::{
    apply_emote_add, apply_emote_remove, apply_emote_rename, check_capacity_after_add, check_moderation_request_limit,
    change_set_emotes, emote_add_check, AddCounts, SetEmotesChange, emote_remove_check, emote_update_check, new_set_emote, EmoteSet, EmoteSetEmote, EmoteSetKind,
};
use seventv_api::emotes::{
    check_emote_update_permission, emote_change, update_flags, EmoteInfo, FlagsInput, EMOTE_FLAG_ANIMATED, EMOTE_FLAG_APPROVED_PERSONAL,
    EMOTE_FLAG_DEFAULT_ZERO_WIDTH, EMOTE_FLAG_DENIED_PERSONAL, EMOTE_FLAG_NSFW, EMOTE_FLAG_PRIVATE, EMOTE_FLAG_PUBLIC_LISTED,
};
use seventv_api::error::{ApiErrorCode, StatusCode};
use seventv_api::types::ListItemAction;
use seventv_api::permissions::{
    Permission, PermissionKind, Permissions, EMOTE_DELETE, EMOTE_EDIT, EMOTE_SET_MANAGE, EMOTE_SET_MANAGE_ANY, USER_USE_PERSONAL_EMOTE_SET,
};

fn info(id: u128, name: &str, flags: u32) -> EmoteInfo {
    EmoteInfo { id, owner_id: 1, default_name: name.to_string(), deleted: false, merged: false, flags }
}

fn entry(id: u128, alias: &str) -> EmoteSetEmote {
    EmoteSetEmote { id, alias: alias.to_string(), added_by_id: Some(1), added_at: 0, zero_width: false, origin_set_id: None }
}

fn set(kind: EmoteSetKind, capacity: Option<i32>, emotes: Vec<EmoteSetEmote>) -> EmoteSet {
    EmoteSet { id: 50, owner_id: Some(1), name: "set".to_string(), capacity, emotes, kind }
}

fn ok_counts() -> AddCounts {
    AddCounts { pending_requests: 0, request_limit: None, live_after_add: 0 }
}

fn aliases_unique(s: &EmoteSet) -> bool {
    let mut seen = std::collections::HashSet::new();
    s.emotes.iter().all(|e| seen.insert(e.alias.clone()))
}

#[test]
fn adding_an_emote() {
    let mut s = set(EmoteSetKind::Normal, Some(3), vec![entry(10, "a")]);
    let e = info(11, "b", EMOTE_FLAG_DEFAULT_ZERO_WIDTH);
    let plan = emote_add_check(&s, &Some(e.clone()), None, &vec![info(10, "a", 0)]).unwrap();
    assert_eq!(plan.alias, "b");
    assert_eq!(plan.replace_index, None);
    assert!(!plan.request_personal_use);
    let new = new_set_emote(&e, 2, plan.alias.clone(), 99);
    assert!(new.zero_width);
    assert_eq!(new.added_by_id, Some(2));
    apply_emote_add(&mut s.emotes, plan.replace_index, new);
    assert_eq!(s.emotes.iter().map(|e| e.alias.as_str()).collect::<Vec<_>>(), vec!["a", "b"]);
    assert!(aliases_unique(&s));
}

#[test]
fn adding_refusals() {
    let full = set(EmoteSetKind::Normal, Some(1), vec![entry(10, "a")]);
    let e = emote_add_check(&full, &Some(info(11, "b", 0)), None, &vec![]).unwrap_err();
    assert_eq!(e.message, "emote set is at capacity");
    let s = set(EmoteSetKind::Normal, None, vec![entry(10, "a")]);
    assert_eq!(emote_add_check(&s, &None, None, &vec![]).unwrap_err().status, StatusCode::NotFound);
    let mut deleted = info(11, "b", 0);
    deleted.deleted = true;
    assert_eq!(emote_add_check(&s, &Some(deleted), None, &vec![]).unwrap_err().message, "emote not found");
    let mut private = info(11, "b", EMOTE_FLAG_PRIVATE);
    private.owner_id = 2;
    assert_eq!(emote_add_check(&s, &Some(private), None, &vec![]).unwrap_err().message, "emote is private");
    // an owner may add their own private emote
    assert!(emote_add_check(&s, &Some(info(11, "b", EMOTE_FLAG_PRIVATE)), None, &vec![]).is_ok());
    let e = emote_add_check(&s, &Some(info(11, "b", 0)), Some("a".to_string()), &vec![info(10, "a", 0)]).unwrap_err();
    assert_eq!((e.status, e.message), (StatusCode::Conflict, "this emote has a conflicting name"));
    let personal = set(EmoteSetKind::Personal, None, vec![]);
    let e = emote_add_check(&personal, &Some(info(11, "b", EMOTE_FLAG_DENIED_PERSONAL)), None, &vec![]).unwrap_err();
    assert_eq!(e.message, "emote is not allowed in personal emote sets");
}

#[test]
fn a_deleted_emote_gives_up_its_alias() {
    let mut s = set(EmoteSetKind::Normal, None, vec![entry(10, "a"), entry(12, "c")]);
    let mut gone = info(10, "a", 0);
    gone.deleted = true;
    let plan = emote_add_check(&s, &Some(info(11, "x", 0)), Some("a".to_string()), &vec![gone]).unwrap();
    assert_eq!(plan.replace_index, Some(0));
    let new = new_set_emote(&info(11, "x", 0), 1, plan.alias.clone(), 5);
    apply_emote_add(&mut s.emotes, plan.replace_index, new);
    assert_eq!(s.emotes.iter().map(|e| e.id).collect::<Vec<_>>(), vec![11, 12]);
    assert!(aliases_unique(&s));
}

#[test]
fn personal_sets_ask_for_review() {
    let personal = set(EmoteSetKind::Personal, None, vec![]);
    let plan = emote_add_check(&personal, &Some(info(11, "b", 0)), None, &vec![]).unwrap();
    assert!(plan.request_personal_use);
    let plan = emote_add_check(&personal, &Some(info(11, "b", EMOTE_FLAG_APPROVED_PERSONAL)), None, &vec![]).unwrap();
    assert!(!plan.request_personal_use);
    assert!(check_moderation_request_limit(3, Some(3)).is_ok());
    assert_eq!(check_moderation_request_limit(4, Some(3)).unwrap_err().message, "too many pending moderation requests");
    assert!(check_moderation_request_limit(1, None).is_err());
    assert!(check_capacity_after_add(5, Some(5)).is_ok());
    assert_eq!(check_capacity_after_add(6, Some(5)).unwrap_err().code, ApiErrorCode::LoadError);
    assert!(check_capacity_after_add(600, None).is_ok());
}

#[test]
fn removing_an_emote_takes_every_entry() {
    let s = set(EmoteSetKind::Normal, None, vec![entry(10, "a"), entry(11, "b"), entry(10, "c")]);
    let removed = emote_remove_check(&s.emotes, 10).unwrap();
    assert_eq!(removed.iter().map(|(i, _)| *i).collect::<Vec<_>>(), vec![0, 2]);
    let left = apply_emote_remove(&s.emotes, 10);
    assert_eq!(left.iter().map(|e| e.alias.as_str()).collect::<Vec<_>>(), vec!["b"]);
    assert_eq!(emote_remove_check(&s.emotes, 99).unwrap_err().message, "emote not found in set");
}

#[test]
fn renaming_an_emote() {
    let mut s = set(EmoteSetKind::Normal, None, vec![entry(10, "a"), entry(11, "b")]);
    let (i, alias) = emote_update_check(&s.emotes, 11, &Some(info(11, "dflt", 0)), Some("z".to_string())).unwrap();
    assert_eq!((i, alias.as_str()), (1, "z"));
    apply_emote_rename(&mut s.emotes, i, alias);
    assert_eq!(s.emotes[1].alias, "z");
    assert!(aliases_unique(&s));
    let e = emote_update_check(&s.emotes, 11, &Some(info(11, "dflt", 0)), Some("a".to_string())).unwrap_err();
    assert_eq!((e.status, e.message), (StatusCode::Conflict, "emote name conflict"));
    assert_eq!(emote_update_check(&s.emotes, 99, &Some(info(99, "x", 0)), None).unwrap_err().message, "emote not found in set");
    // without a name the default name is taken
    let (_, alias) = emote_update_check(&s.emotes, 11, &Some(info(11, "dflt", 0)), None).unwrap();
    assert_eq!(alias, "dflt");
}

fn perms(list: &[(PermissionKind, u64)]) -> Permissions {
    let mut p = Permissions::new();
    for (kind, bits) in list {
        p.allow(Permission { kind: *kind, bits: *bits });
    }
    p
}

#[test]
fn emote_set_access_steps() {
    let any = perms(&[(PermissionKind::EmoteSet, EMOTE_SET_MANAGE_ANY)]);
    let manage = perms(&[(PermissionKind::EmoteSet, EMOTE_SET_MANAGE)]);
    assert_eq!(emote_set_access(EmoteSetKind::Normal, Some(4), &manage).unwrap(), AccessStep::CheckOwner(4));
    assert_eq!(emote_set_access(EmoteSetKind::Normal, None, &any).unwrap_err().message, "owner not found");
    assert_eq!(emote_set_access(EmoteSetKind::Global, Some(4), &any).unwrap_err().status, StatusCode::Forbidden);
    let perm = EditorPermission { kind: EditorKind::EmoteSet, bits: EDITOR_EMOTE_SET_MANAGE };
    assert!(matches!(emote_set_owner_access(EmoteSetKind::Normal, 1, &manage, 1, &manage, perm).unwrap(), OwnerAccess::Granted));
    match emote_set_owner_access(EmoteSetKind::Normal, 1, &manage, 2, &manage, perm).unwrap() {
        OwnerAccess::NeedsEditor(p, _) => assert_eq!(p, perm),
        OwnerAccess::Granted => panic!("an editor grant is needed"),
    }
    assert!(matches!(emote_set_owner_access(EmoteSetKind::Normal, 1, &any, 2, &manage, perm).unwrap(), OwnerAccess::Granted));
    let e = emote_set_owner_access(EmoteSetKind::Personal, 1, &manage, 1, &manage, perm).unwrap_err();
    assert_eq!(e.message, "this user does not have permission to use personal emote sets");
    let personal_user = perms(&[(PermissionKind::EmoteSet, EMOTE_SET_MANAGE), (PermissionKind::User, USER_USE_PERSONAL_EMOTE_SET)]);
    assert!(matches!(emote_set_owner_access(EmoteSetKind::Personal, 1, &personal_user, 1, &personal_user, perm).unwrap(), OwnerAccess::Granted));
}

#[test]
fn creating_emote_sets() {
    let manage = perms(&[(PermissionKind::EmoteSet, EMOTE_SET_MANAGE)]);
    assert_eq!(create_emote_set_check(Some(true), 1, &manage, 1, &manage).unwrap_err().status, StatusCode::NotImplemented);
    assert_eq!(create_emote_set_check(None, 1, &manage, 1, &manage), Ok(false));
    assert_eq!(create_emote_set_check(None, 1, &manage, 2, &manage), Ok(true));
    assert_eq!(create_emote_set_check(None, 1, &manage, 2, &Permissions::new()).unwrap_err().status, StatusCode::Forbidden);
    let data = CreateEmoteSetInput { name: "mine".to_string(), privileged: None };
    let s = EmoteSetsMutation::create_emote_set(&data, 9, 2, Some(600), 0, Some(10)).unwrap();
    assert_eq!((s.id, s.owner_id, s.capacity, s.kind, s.emotes.len()), (9, Some(2), Some(600), EmoteSetKind::Normal, 0));
    assert_eq!(s.name, "mine");
    let e = EmoteSetsMutation::create_emote_set(&data, 9, 2, Some(-1), 0, Some(10)).unwrap_err();
    assert_eq!(e.message, "maximum emote set capacity is 0, cannot create emote set");
    let e = EmoteSetsMutation::create_emote_set(&data, 9, 2, Some(600), 10, Some(10)).unwrap_err();
    assert_eq!(e.message, "maximum emote set limit reached");
}

#[test]
fn updating_and_deleting_emote_sets() {
    let mut owner = Permissions::new();
    owner.emote_set_capacity = Some(1000);
    let u = emote_set_update_check(Some("same".to_string()), Some(500), false, &"same".to_string(), 10, EmoteSetKind::Normal, &owner).unwrap();
    assert!(u.name.is_none());
    assert_eq!(u.capacity, Some(500));
    let e = emote_set_update_check(None, Some(5), false, &"x".to_string(), 10, EmoteSetKind::Normal, &owner).unwrap_err();
    assert_eq!(e.message, "emote set capacity cannot be less than the number of emotes in the set");
    let e = emote_set_update_check(None, Some(2000), false, &"x".to_string(), 10, EmoteSetKind::Normal, &owner).unwrap_err();
    assert_eq!(e.message, "emote set capacity cannot exceed user's capacity");
    let e = emote_set_update_check(Some("n".to_string()), None, true, &"x".to_string(), 10, EmoteSetKind::Normal, &owner).unwrap_err();
    assert_eq!(e.status, StatusCode::NotImplemented);
    assert!(check_emote_set_delete(EmoteSetKind::Normal).is_ok());
    assert!(check_emote_set_delete(EmoteSetKind::Global).is_err());
}

#[test]
fn emote_flag_updates() {
    let old = EMOTE_FLAG_PUBLIC_LISTED | EMOTE_FLAG_ANIMATED | EMOTE_FLAG_NSFW;
    let f = update_flags(old, Some(FlagsInput { private: true, zero_width: true }), false, Some(true), Some(true));
    assert_eq!(f, EMOTE_FLAG_PRIVATE | EMOTE_FLAG_DEFAULT_ZERO_WIDTH | EMOTE_FLAG_ANIMATED | EMOTE_FLAG_NSFW);
    let f = update_flags(old, None, true, Some(false), Some(true));
    assert_eq!(f, EMOTE_FLAG_PRIVATE | EMOTE_FLAG_APPROVED_PERSONAL | EMOTE_FLAG_ANIMATED | EMOTE_FLAG_NSFW);
    let f = update_flags(EMOTE_FLAG_APPROVED_PERSONAL, None, true, None, Some(false));
    assert_eq!(f, EMOTE_FLAG_DENIED_PERSONAL);
    // animated and nsfw are kept by every update
    for input in [None, Some(FlagsInput { private: false, zero_width: false })] {
        let f = update_flags(u32::MAX, input, true, Some(true), Some(false));
        assert_eq!(f & (EMOTE_FLAG_ANIMATED | EMOTE_FLAG_NSFW), EMOTE_FLAG_ANIMATED | EMOTE_FLAG_NSFW);
    }
}

#[test]
fn emote_update_changes() {
    let c = emote_change(0, None, Some("v".to_string()), None, false, Some(true), None, Some(5));
    assert_eq!(c.default_name.as_deref(), Some("v"));
    assert_eq!(c.owner_id, None);
    assert_eq!(c.flags, None);
    let c = emote_change(0, Some("n".to_string()), Some("v".to_string()), None, true, Some(true), None, Some(5));
    assert_eq!(c.default_name.as_deref(), Some("n"));
    assert_eq!(c.owner_id, Some(5));
    assert_eq!(c.flags, Some(EMOTE_FLAG_PUBLIC_LISTED));
    let editor = perms(&[(PermissionKind::Emote, EMOTE_EDIT)]);
    assert!(check_emote_update_permission(None, &editor).is_ok());
    assert_eq!(check_emote_update_permission(Some(true), &editor).unwrap_err().status, StatusCode::Forbidden);
    assert!(check_emote_update_permission(Some(true), &perms(&[(PermissionKind::Emote, EMOTE_DELETE)])).is_ok());
}

#[test]
fn changing_a_sets_emotes_in_one_call() {
    let s = set(EmoteSetKind::Normal, Some(3), vec![entry(10, "a"), entry(12, "c")]);
    let loaded = vec![info(10, "a", 0), info(12, "c", 0)];
    let SetEmotesChange { emotes: v, request_personal_use: request, .. } =
        change_set_emotes(ListItemAction::Add, &s, 11, &Some(info(11, "b", 0)), None, &loaded, 7, 123, ok_counts()).unwrap();
    assert!(!request);
    assert_eq!(v.iter().map(|e| (e.id, e.alias.as_str())).collect::<Vec<_>>(), vec![(10, "a"), (12, "c"), (11, "b")]);
    assert_eq!((v[2].added_by_id, v[2].added_at), (Some(7), 123));
    let e = change_set_emotes(ListItemAction::Add, &s, 11, &Some(info(11, "b", 0)), Some("c".to_string()), &loaded, 7, 123, ok_counts())
        .unwrap_err();
    assert_eq!(e.status, StatusCode::Conflict);
    let SetEmotesChange { emotes: v, request_personal_use: request, .. } = change_set_emotes(ListItemAction::Remove, &s, 10, &None, None, &loaded, 7, 123, ok_counts()).unwrap();
    assert!(!request);
    assert_eq!(v.iter().map(|e| e.id).collect::<Vec<_>>(), vec![12]);
    let e = change_set_emotes(ListItemAction::Remove, &s, 99, &None, None, &loaded, 7, 123, ok_counts()).unwrap_err();
    assert_eq!((e.status, e.message), (StatusCode::NotFound, "emote not found in set"));
    let SetEmotesChange { emotes: v, .. } =
        change_set_emotes(ListItemAction::Update, &s, 12, &Some(info(12, "c", 0)), Some("z".to_string()), &loaded, 7, 123, ok_counts()).unwrap();
    assert_eq!(v.iter().map(|e| e.alias.as_str()).collect::<Vec<_>>(), vec!["a", "z"]);
    let e = change_set_emotes(ListItemAction::Update, &s, 12, &Some(info(12, "c", 0)), Some("a".to_string()), &loaded, 7, 123, ok_counts())
        .unwrap_err();
    assert_eq!(e.status, StatusCode::Conflict);
}

#[test]
fn a_personal_set_asks_for_personal_use() {
    let s = set(EmoteSetKind::Personal, None, vec![]);
    let SetEmotesChange { emotes: v, request_personal_use: request, .. } = change_set_emotes(ListItemAction::Add, &s, 11, &Some(info(11, "b", 0)), None, &vec![], 7, 1, ok_counts()).unwrap();
    assert_eq!(v.len(), 1);
    assert!(request);
    let SetEmotesChange { request_personal_use: request, .. } =
        change_set_emotes(ListItemAction::Add, &s, 11, &Some(info(11, "b", EMOTE_FLAG_APPROVED_PERSONAL)), None, &vec![], 7, 1, ok_counts()).unwrap();
    assert!(!request);
}

#[test]
fn creating_for_someone_else_needs_the_create_grant() {
    let p = create_editor_permission();
    assert_eq!((p.kind, p.bits), (EditorKind::EmoteSet, EDITOR_EMOTE_SET_CREATE));
}

#[test]
fn an_add_replaces_the_entry_of_a_deleted_emote() {
    let s = set(EmoteSetKind::Normal, None, vec![entry(10, "a"), entry(12, "c")]);
    let mut gone = info(10, "a", 0);
    gone.deleted = true;
    let loaded = vec![gone, info(12, "c", 0)];
    let SetEmotesChange { emotes: v, request_personal_use: request, .. } = change_set_emotes(
        ListItemAction::Add, &s, 11, &Some(info(11, "x", EMOTE_FLAG_DEFAULT_ZERO_WIDTH)), Some("a".to_string()), &loaded, 7, 55, ok_counts(),
    )
    .unwrap();
    assert!(!request);
    assert_eq!(v.len(), 2);
    assert_eq!((v[0].id, v[0].alias.as_str(), v[0].added_by_id, v[0].added_at, v[0].zero_width), (11, "a", Some(7), 55, true));
    assert!(v[0].origin_set_id.is_none());
    assert_eq!((v[1].id, v[1].alias.as_str(), v[1].added_by_id), (12, "c", Some(1)));
}

#[test]
fn the_store_counts_can_refuse_an_add() {
    let s = set(EmoteSetKind::Normal, Some(2), vec![entry(10, "a")]);
    let counts = AddCounts { pending_requests: 0, request_limit: None, live_after_add: 3 };
    let e = change_set_emotes(ListItemAction::Add, &s, 11, &Some(info(11, "b", 0)), None, &vec![], 7, 1, counts).unwrap_err();
    assert_eq!((e.status, e.code, e.message), (StatusCode::BadRequest, ApiErrorCode::LoadError, "emote set is at capacity"));
    let counts = AddCounts { pending_requests: 0, request_limit: None, live_after_add: 2 };
    let c = change_set_emotes(ListItemAction::Add, &s, 11, &Some(info(11, "b", 0)), None, &vec![], 7, 1, counts).unwrap();
    assert!(c.changed_since_reindex);
    let personal = set(EmoteSetKind::Personal, None, vec![]);
    let counts = AddCounts { pending_requests: 4, request_limit: Some(3), live_after_add: 1 };
    let e = change_set_emotes(ListItemAction::Add, &personal, 11, &Some(info(11, "b", 0)), None, &vec![], 7, 1, counts).unwrap_err();
    assert_eq!(e.message, "too many pending moderation requests");
    // an approved emote files no request, so the limit is not consulted
    let c = change_set_emotes(
        ListItemAction::Add, &personal, 11, &Some(info(11, "b", EMOTE_FLAG_APPROVED_PERSONAL)), None, &vec![], 7, 1, counts,
    )
    .unwrap();
    assert!(!c.request_personal_use && c.changed_since_reindex);
    let r = change_set_emotes(ListItemAction::Remove, &s, 10, &None, None, &vec![], 7, 1, ok_counts()).unwrap();
    assert!(r.changed_since_reindex);
}

#[test]
fn the_whole_emote_set_permission_check() {
    let manage = perms(&[(PermissionKind::EmoteSet, EMOTE_SET_MANAGE)]);
    let any = perms(&[(PermissionKind::EmoteSet, EMOTE_SET_MANAGE_ANY)]);
    let none = Permissions::new();
    let perm = EditorPermission { kind: EditorKind::EmoteSet, bits: EDITOR_EMOTE_SET_MANAGE };
    let row = |state, emote_set, user| UserEditor {
        user_id: 4,
        editor_id: 1,
        state,
        permissions: EditorPermissions { emote_set, emote: 0, user },
        added_at: 0,
        added_by_id: 4,
    };
    // one's own set
    assert_eq!(check_emote_set_management(EmoteSetKind::Normal, Some(1), 1, &manage, &None, &None, perm), Ok(1));
    // a global set needs the global permission
    assert_eq!(
        check_emote_set_management(EmoteSetKind::Global, None, 1, &manage, &None, &None, perm).unwrap_err().message,
        "this user does not have permission to manage global emote sets"
    );
    // someone else's set: the owner must be found, and the actor an accepted editor
    assert_eq!(
        check_emote_set_management(EmoteSetKind::Normal, Some(4), 1, &manage, &None, &None, perm).unwrap_err().message,
        "owner not found"
    );
    let e = check_emote_set_management(EmoteSetKind::Normal, Some(4), 1, &manage, &Some(manage), &None, perm).unwrap_err();
    assert_eq!((e.status, e.message), (StatusCode::Forbidden, "you are not an editor for this user"));
    let accepted = row(UserEditorState::Accepted, EDITOR_EMOTE_SET_MANAGE, 0);
    assert_eq!(check_emote_set_management(EmoteSetKind::Normal, Some(4), 1, &manage, &Some(manage), &Some(accepted), perm), Ok(4));
    let pending = row(UserEditorState::Pending, EDITOR_EMOTE_SET_MANAGE, 0);
    assert_eq!(
        check_emote_set_management(EmoteSetKind::Normal, Some(4), 1, &manage, &Some(manage), &Some(pending), perm).unwrap_err().message,
        "you do not have permission to manage this user's emote sets"
    );
    // an owner who may not manage sets, unless the actor may manage any
    assert_eq!(
        check_emote_set_management(EmoteSetKind::Normal, Some(4), 1, &manage, &Some(none), &Some(accepted), perm).unwrap_err().status,
        StatusCode::Forbidden
    );
    assert_eq!(check_emote_set_management(EmoteSetKind::Normal, Some(4), 1, &any, &Some(none), &None, perm), Ok(4));
    // a personal set needs the personal-set editor grant
    let personal_owner = perms(&[(PermissionKind::EmoteSet, EMOTE_SET_MANAGE), (PermissionKind::User, USER_USE_PERSONAL_EMOTE_SET)]);
    assert!(check_emote_set_management(EmoteSetKind::Personal, Some(4), 1, &manage, &Some(personal_owner), &Some(accepted), perm).is_err());
    let personal_row = row(UserEditorState::Accepted, 0, EDITOR_USER_MANAGE_PERSONAL_EMOTE_SET);
    assert_eq!(
        check_emote_set_management(EmoteSetKind::Personal, Some(4), 1, &manage, &Some(personal_owner), &Some(personal_row), perm),
        Ok(4)
    );
}
