//! Audit logs: stored events as the v3 API reports them, and how their
//! changes are rendered.
use vstd::prelude::*;
use crate::emotes::{has_flag, contains_flag, EMOTE_FLAG_APPROVED_PERSONAL, EMOTE_FLAG_DENIED_PERSONAL, EMOTE_FLAG_PUBLIC_LISTED};
use crate::ids::{format_id, id_text, id_time_ms, id_timestamp_ms, Id};

verus! {

/// The kinds of audit log entries of the v3 API.
#[derive(Clone, Copy, Debug, PartialEq, Eq, Structural)]
pub enum AuditLogKind {
    CreateEmote,
    DeleteEmote,
    DisableEmote,
    UpdateEmote,
    MergeEmote,
    UndoDeleteEmote,
    EnableEmote,
    ProcessEmote,
    SignUserToken,
    SignCsrfToken,
    RejectedAccess,
    CreateUser,
    DeleteUser,
    BanUser,
    EditUser,
    UnbanUser,
    CreateEmoteSet,
    UpdateEmoteSet,
    DeleteEmoteSet,
    CreateReport,
    UpdateReport,
    ReadMessage,
}

/// The number each kind is sent as.
pub open spec fn kind_code(k: AuditLogKind) -> u32 {
    match k {
        AuditLogKind::CreateEmote => 1,
        AuditLogKind::DeleteEmote => 2,
        AuditLogKind::DisableEmote => 3,
        AuditLogKind::UpdateEmote => 4,
        AuditLogKind::MergeEmote => 5,
        AuditLogKind::UndoDeleteEmote => 6,
        AuditLogKind::EnableEmote => 7,
        AuditLogKind::ProcessEmote => 8,
        AuditLogKind::SignUserToken => 20,
        AuditLogKind::SignCsrfToken => 21,
        AuditLogKind::RejectedAccess => 26,
        AuditLogKind::CreateUser => 30,
        AuditLogKind::DeleteUser => 31,
        AuditLogKind::BanUser => 32,
        AuditLogKind::EditUser => 33,
        AuditLogKind::UnbanUser => 36,
        AuditLogKind::CreateEmoteSet => 70,
        AuditLogKind::UpdateEmoteSet => 71,
        AuditLogKind::DeleteEmoteSet => 72,
        AuditLogKind::CreateReport => 80,
        AuditLogKind::UpdateReport => 81,
        AuditLogKind::ReadMessage => 90,
    }
}

impl AuditLogKind {
    /// The number the kind is sent as.
    pub fn code(self) -> (r: u32)
        ensures
            r == kind_code(self),
    {
        match self {
            AuditLogKind::CreateEmote => 1,
            AuditLogKind::DeleteEmote => 2,
            AuditLogKind::DisableEmote => 3,
            AuditLogKind::UpdateEmote => 4,
            AuditLogKind::MergeEmote => 5,
            AuditLogKind::UndoDeleteEmote => 6,
            AuditLogKind::EnableEmote => 7,
            AuditLogKind::ProcessEmote => 8,
            AuditLogKind::SignUserToken => 20,
            AuditLogKind::SignCsrfToken => 21,
            AuditLogKind::RejectedAccess => 26,
            AuditLogKind::CreateUser => 30,
            AuditLogKind::DeleteUser => 31,
            AuditLogKind::BanUser => 32,
            AuditLogKind::EditUser => 33,
            AuditLogKind::UnbanUser => 36,
            AuditLogKind::CreateEmoteSet => 70,
            AuditLogKind::UpdateEmoteSet => 71,
            AuditLogKind::DeleteEmoteSet => 72,
            AuditLogKind::CreateReport => 80,
            AuditLogKind::UpdateReport => 81,
            AuditLogKind::ReadMessage => 90,
        }
    }
}

/// How a change is given: one value, or added, removed and updated items.
#[derive(Clone, Copy, Debug, PartialEq, Eq, Structural)]
pub enum AuditLogChangeFormat {
    SingleValue,
    ArrayValue,
}

impl AuditLogChangeFormat {
    /// The number the format is sent as.
    pub fn code(self) -> (r: u32)
        ensures
            r == (match self {
                AuditLogChangeFormat::SingleValue => 1u32,
                AuditLogChangeFormat::ArrayValue => 2u32,
            }),
    {
        match self {
            AuditLogChangeFormat::SingleValue => 1,
            AuditLogChangeFormat::ArrayValue => 2,
        }
    }
}

/// The listing state of an emote version, as the old audit log gives it.
#[derive(Clone, Copy, Debug, PartialEq, Eq, Structural)]
pub struct EmoteVersionStateChange {
    pub listed: Option<bool>,
    pub allow_personal: Option<bool>,
}

/// The version state that emote flags show: listed or not, and allowed for
/// personal use when approved and not denied, refused when denied and not
/// approved, unknown otherwise.
pub open spec fn version_state_of(flags: u32) -> EmoteVersionStateChange {
    let approved = has_flag(flags, EMOTE_FLAG_APPROVED_PERSONAL);
    let denied = has_flag(flags, EMOTE_FLAG_DENIED_PERSONAL);
    EmoteVersionStateChange {
        listed: Some(has_flag(flags, EMOTE_FLAG_PUBLIC_LISTED)),
        allow_personal: if approved && !denied {
            Some(true)
        } else if !approved && denied {
            Some(false)
        } else {
            None
        },
    }
}

impl EmoteVersionStateChange {
    /// The version state that emote flags show.
    pub fn from_flags(flags: u32) -> (r: EmoteVersionStateChange)
        ensures
            r == version_state_of(flags),
    {
        let approved = contains_flag(flags, EMOTE_FLAG_APPROVED_PERSONAL);
        let denied = contains_flag(flags, EMOTE_FLAG_DENIED_PERSONAL);
        EmoteVersionStateChange {
            listed: Some(contains_flag(flags, EMOTE_FLAG_PUBLIC_LISTED)),
            allow_personal: if approved && !denied {
                Some(true)
            } else if !approved && denied {
                Some(false)
            } else {
                None
            },
        }
    }
}

/// A value in a change: the shapes the old audit log used.
#[derive(Debug)]
pub enum ArbitraryMap {
    Emote { id: Id, actor_id: Id, flags: u32, name: String, timestamp_ms: u64 },
    EmoteVersionState { n: EmoteVersionStateChange, o: EmoteVersionStateChange, p: u32 },
    Editor { id: Id, added_at_ms: u64, permissions: u32, visible: bool },
    Nested { n: Box<ArbitraryMap>, o: Box<ArbitraryMap>, p: u32 },
    StringVecValue { n: Vec<String>, o: Vec<String>, p: u32 },
    NumberValue { n: u32, o: u32, p: u32 },
    StringValue { n: String, o: String, p: u32 },
}

/// Items added, removed and updated by a change.
#[derive(Debug)]
pub struct AuditLogChangeArray {
    pub added: Vec<ArbitraryMap>,
    pub removed: Vec<ArbitraryMap>,
    pub updated: Vec<ArbitraryMap>,
}

/// One change an audit log entry records.
#[derive(Debug)]
pub struct AuditLogChange {
    pub format: AuditLogChangeFormat,
    pub key: String,
    pub value: Option<ArbitraryMap>,
    pub array_value: Option<AuditLogChangeArray>,
}

/// What happened to an emote.
#[derive(Clone, Debug)]
pub enum EmoteEvent {
    Upload,
    ProcessSuccess,
    ProcessOther,
    Delete,
    ChangeName { old: String, new: String },
    ChangeOwner { old: Id, new: Id },
    ChangeTags { old: Vec<String>, new: Vec<String> },
    /// Flags changed: the flags before and after, and the same in the old
    /// v3 flag model.
    ChangeFlags { old: u32, new: u32, old_model: u32, new_model: u32 },
    Other,
}

/// What happened to an emote set.
#[derive(Clone, Debug)]
pub enum EmoteSetEvent {
    Create,
    Delete,
    ChangeName { old: String, new: String },
    AddEmote { emote_id: Id, alias: String },
    RemoveEmote { emote_id: Id },
    RenameEmote { emote_id: Id, old_alias: String, new_alias: String },
    Other,
}

/// What happened to a user's editors.
#[derive(Clone, Debug)]
pub enum EditorEvent {
    AddEditor { editor_id: Id },
    RemoveEditor { editor_id: Id },
    Other,
}

/// The object a stored event is about, and what happened to it.
#[derive(Clone, Debug)]
pub enum StoredEventData {
    Emote { target_id: Id, data: EmoteEvent },
    EmoteSet { target_id: Id, data: EmoteSetEvent },
    UserEditor { user_id: Id, data: EditorEvent },
    Other,
}

/// A stored event.
#[derive(Clone, Debug)]
pub struct StoredEvent {
    pub id: Id,
    pub actor_id: Option<Id>,
    pub data: StoredEventData,
}

/// An entry of the v3 audit log.
#[derive(Debug)]
pub struct AuditLog {
    pub id: Id,
    pub actor_id: Id,
    pub kind: AuditLogKind,
    pub target_id: Id,
    pub target_kind: u32,
    pub created_at_ms: u64,
    pub changes: Vec<AuditLogChange>,
    pub reason: String,
}

/// The user that system events are attributed to.
pub const SYSTEM_USER_ID: u128 = 1984107685907335491971061534846564264u128;

/// Whether a flag change touches the listing or personal-use state.
pub open spec fn state_changed(old: u32, new: u32) -> bool {
    has_flag(new, EMOTE_FLAG_APPROVED_PERSONAL) != has_flag(old, EMOTE_FLAG_APPROVED_PERSONAL)
        || has_flag(new, EMOTE_FLAG_DENIED_PERSONAL) != has_flag(old, EMOTE_FLAG_DENIED_PERSONAL)
        || has_flag(new, EMOTE_FLAG_PUBLIC_LISTED) != has_flag(old, EMOTE_FLAG_PUBLIC_LISTED)
}

/// Whether `c` is a single-value change of `key` whose value `v` satisfies `p`.
pub open spec fn single_change(c: AuditLogChange, key: Seq<char>) -> bool {
    c.format == AuditLogChangeFormat::SingleValue && c.key@ == key && c.value is Some && c.array_value is None
}

/// Whether `c` is an array change of `key` with the given item counts.
pub open spec fn array_change(c: AuditLogChange, key: Seq<char>, added: nat, removed: nat, updated: nat) -> bool {
    &&& c.format == AuditLogChangeFormat::ArrayValue
    &&& c.key@ == key
    &&& c.value is None
    &&& c.array_value matches Some(a) && a.added@.len() == added && a.removed@.len() == removed && a.updated@.len() == updated
}

/// The change an emote event records, if it records one.
pub open spec fn emote_change_of(data: EmoteEvent, c: AuditLogChange) -> bool {
    match data {
        EmoteEvent::ChangeName { old, new } => {
            &&& single_change(c, "name"@)
            &&& c.value->0 matches ArbitraryMap::StringValue { n, o, p }
            &&& n@ == new@ && o@ == old@ && p == 0
        },
        EmoteEvent::ChangeOwner { old, new } => {
            &&& single_change(c, "owner_id"@)
            &&& c.value->0 matches ArbitraryMap::StringValue { n, o, p }
            &&& n@ == id_text(new) && o@ == id_text(old) && p == 0
        },
        EmoteEvent::ChangeTags { old, new } => {
            &&& single_change(c, "tags"@)
            &&& c.value->0 matches ArbitraryMap::StringVecValue { n, o, p }
            &&& n@ == new@ && o@ == old@ && p == 0
        },
        EmoteEvent::ChangeFlags { old, new, old_model, new_model } => if state_changed(old, new) {
            array_change(c, "versions"@, 0, 0, 1) && c.array_value->0.updated@[0] == ArbitraryMap::EmoteVersionState {
                n: version_state_of(new),
                o: version_state_of(old),
                p: 0,
            }
        } else {
            single_change(c, "flags"@) && c.value == Some(ArbitraryMap::NumberValue { n: new_model, o: old_model, p: 0 })
        },
        _ => false,
    }
}

/// Whether an emote event records a change.
pub open spec fn emote_records_change(data: EmoteEvent) -> bool {
    match data {
        EmoteEvent::ChangeName { .. } | EmoteEvent::ChangeOwner { .. } | EmoteEvent::ChangeTags { .. } | EmoteEvent::ChangeFlags {
            ..
        } => true,
        _ => false,
    }
}

/// A copy of a list of strings.
fn copy_strings(v: &Vec<String>) -> (r: Vec<String>)
    ensures
        r@ == v@,
{
    let mut out: Vec<String> = Vec::new();
    let mut i: usize = 0;
    while i < v.len()
        invariant
            i <= v@.len(),
            out@ == v@.subrange(0, i as int),
        decreases v@.len() - i,
    {
        out.push(v[i].clone());
        i = i + 1;
        assert(out@ =~= v@.subrange(0, i as int));
    }
    assert(v@.subrange(0, v@.len() as int) =~= v@);
    out
}

impl AuditLogChange {
    /// The change an emote event records: a new name, owner or tags, or new
    /// flags, given as a version state change when the listing or personal
    /// use changed and as the old-model numbers otherwise.
    pub fn from_db_emote(data: &EmoteEvent) -> (r: Option<AuditLogChange>)
        ensures
            match r {
                Some(c) => emote_change_of(*data, c),
                None => !emote_records_change(*data),
            },
    {
        match data {
            EmoteEvent::ChangeName { old, new } => Some(AuditLogChange {
                format: AuditLogChangeFormat::SingleValue,
                key: "name".to_owned(),
                value: Some(ArbitraryMap::StringValue { n: new.clone(), o: old.clone(), p: 0 }),
                array_value: None,
            }),
            EmoteEvent::ChangeOwner { old, new } => Some(AuditLogChange {
                format: AuditLogChangeFormat::SingleValue,
                key: "owner_id".to_owned(),
                value: Some(ArbitraryMap::StringValue { n: format_id(*new), o: format_id(*old), p: 0 }),
                array_value: None,
            }),
            EmoteEvent::ChangeTags { old, new } => Some(AuditLogChange {
                format: AuditLogChangeFormat::SingleValue,
                key: "tags".to_owned(),
                value: Some(ArbitraryMap::StringVecValue { n: copy_strings(new), o: copy_strings(old), p: 0 }),
                array_value: None,
            }),
            EmoteEvent::ChangeFlags { old, new, old_model, new_model } => {
                let (old, new) = (*old, *new);
                let changed = contains_flag(new, EMOTE_FLAG_APPROVED_PERSONAL) != contains_flag(old, EMOTE_FLAG_APPROVED_PERSONAL)
                    || contains_flag(new, EMOTE_FLAG_DENIED_PERSONAL) != contains_flag(old, EMOTE_FLAG_DENIED_PERSONAL)
                    || contains_flag(new, EMOTE_FLAG_PUBLIC_LISTED) != contains_flag(old, EMOTE_FLAG_PUBLIC_LISTED);
                if changed {
                    let updated = vec![
                        ArbitraryMap::EmoteVersionState {
                            n: EmoteVersionStateChange::from_flags(new),
                            o: EmoteVersionStateChange::from_flags(old),
                            p: 0,
                        },
                    ];
                    Some(AuditLogChange {
                        format: AuditLogChangeFormat::ArrayValue,
                        key: "versions".to_owned(),
                        value: None,
                        array_value: Some(AuditLogChangeArray { added: Vec::new(), removed: Vec::new(), updated }),
                    })
                } else {
                    Some(AuditLogChange {
                        format: AuditLogChangeFormat::SingleValue,
                        key: "flags".to_owned(),
                        value: Some(ArbitraryMap::NumberValue { n: *new_model, o: *old_model, p: 0 }),
                        array_value: None,
                    })
                }
            },
            _ => None,
        }
    }
}

/// The entry for an emote in a set's change: no flags, the given name.
pub open spec fn emote_entry(m: ArbitraryMap, id: Id, actor_id: Id, name: Seq<char>, timestamp_ms: u64) -> bool {
    m matches ArbitraryMap::Emote { id: i, actor_id: a, flags, name: nm, timestamp_ms: t } && i == id && a == actor_id && flags == 0
        && nm@ == name && t == timestamp_ms
}

/// The change an emote set event records, if it records one.
pub open spec fn emote_set_change_of(data: EmoteSetEvent, actor_id: Id, timestamp_ms: u64, c: AuditLogChange) -> bool {
    match data {
        EmoteSetEvent::ChangeName { old, new } => {
            &&& single_change(c, "name"@)
            &&& c.value->0 matches ArbitraryMap::StringValue { n, o, p }
            &&& n@ == new@ && o@ == old@ && p == 0
        },
        EmoteSetEvent::AddEmote { emote_id, alias } => array_change(c, "emotes"@, 1, 0, 0) && emote_entry(
            c.array_value->0.added@[0],
            emote_id,
            actor_id,
            alias@,
            timestamp_ms,
        ),
        EmoteSetEvent::RemoveEmote { emote_id } => array_change(c, "emotes"@, 0, 1, 0) && emote_entry(
            c.array_value->0.removed@[0],
            emote_id,
            actor_id,
            Seq::empty(),
            timestamp_ms,
        ),
        EmoteSetEvent::RenameEmote { emote_id, old_alias, new_alias } => {
            &&& array_change(c, "emotes"@, 0, 0, 1)
            &&& c.array_value->0.updated@[0] matches ArbitraryMap::Nested { n, o, p }
            &&& emote_entry(*n, emote_id, actor_id, new_alias@, timestamp_ms)
            &&& emote_entry(*o, emote_id, actor_id, old_alias@, timestamp_ms)
            &&& p == 0
        },
        _ => false,
    }
}

/// Whether an emote set event records a change.
pub open spec fn emote_set_records_change(data: EmoteSetEvent) -> bool {
    match data {
        EmoteSetEvent::ChangeName { .. } | EmoteSetEvent::AddEmote { .. } | EmoteSetEvent::RemoveEmote { .. }
        | EmoteSetEvent::RenameEmote { .. } => true,
        _ => false,
    }
}

/// The entry for an editor in a change: no permissions, visible.
pub open spec fn editor_entry(m: ArbitraryMap, id: Id, timestamp_ms: u64) -> bool {
    m == ArbitraryMap::Editor { id, added_at_ms: timestamp_ms, permissions: 0, visible: true }
}

/// The change an editor event records, if it records one.
pub open spec fn editor_change_of(data: EditorEvent, timestamp_ms: u64, c: AuditLogChange) -> bool {
    match data {
        EditorEvent::AddEditor { editor_id } => array_change(c, "editors"@, 1, 0, 0) && editor_entry(
            c.array_value->0.added@[0],
            editor_id,
            timestamp_ms,
        ),
        EditorEvent::RemoveEditor { editor_id } => array_change(c, "editors"@, 0, 1, 0) && editor_entry(
            c.array_value->0.removed@[0],
            editor_id,
            timestamp_ms,
        ),
        EditorEvent::Other => false,
    }
}

fn emote_item(id: Id, actor_id: Id, name: String, timestamp_ms: u64) -> (m: ArbitraryMap)
    ensures
        emote_entry(m, id, actor_id, name@, timestamp_ms),
{
    ArbitraryMap::Emote { id, actor_id, flags: 0, name, timestamp_ms }
}

fn array_of(key: &str, added: Vec<ArbitraryMap>, removed: Vec<ArbitraryMap>, updated: Vec<ArbitraryMap>) -> (c: AuditLogChange)
    ensures
        c.format == AuditLogChangeFormat::ArrayValue,
        c.key@ == key@,
        c.value is None,
        c.array_value matches Some(a) && a.added@ == added@ && a.removed@ == removed@ && a.updated@ == updated@,
{
    AuditLogChange {
        format: AuditLogChangeFormat::ArrayValue,
        key: key.to_owned(),
        value: None,
        array_value: Some(AuditLogChangeArray { added, removed, updated }),
    }
}

impl AuditLogChange {
    /// The change an emote set event records: a new name, or the emote
    /// added, removed (with no name) or renamed, by the actor at the time
    /// of the event.
    pub fn from_db_emote_set(data: &EmoteSetEvent, actor_id: Id, timestamp_ms: u64) -> (r: Option<AuditLogChange>)
        ensures
            match r {
                Some(c) => emote_set_change_of(*data, actor_id, timestamp_ms, c),
                None => !emote_set_records_change(*data),
            },
    {
        match data {
            EmoteSetEvent::ChangeName { old, new } => Some(AuditLogChange {
                format: AuditLogChangeFormat::SingleValue,
                key: "name".to_owned(),
                value: Some(ArbitraryMap::StringValue { n: new.clone(), o: old.clone(), p: 0 }),
                array_value: None,
            }),
            EmoteSetEvent::AddEmote { emote_id, alias } => {
                let added = vec![emote_item(*emote_id, actor_id, alias.clone(), timestamp_ms)];
                Some(array_of("emotes", added, Vec::new(), Vec::new()))
            },
            EmoteSetEvent::RemoveEmote { emote_id } => {
                let removed = vec![emote_item(*emote_id, actor_id, String::new(), timestamp_ms)];
                Some(array_of("emotes", Vec::new(), removed, Vec::new()))
            },
            EmoteSetEvent::RenameEmote { emote_id, old_alias, new_alias } => {
                let o = emote_item(*emote_id, actor_id, old_alias.clone(), timestamp_ms);
                let n = emote_item(*emote_id, actor_id, new_alias.clone(), timestamp_ms);
                let updated = vec![ArbitraryMap::Nested { n: Box::new(n), o: Box::new(o), p: 0 }];
                Some(array_of("emotes", Vec::new(), Vec::new(), updated))
            },
            _ => None,
        }
    }

    /// The change an editor event records: the editor added or removed, at
    /// the time of the event.
    pub fn from_db_user_editor(data: &EditorEvent, timestamp_ms: u64) -> (r: Option<AuditLogChange>)
        ensures
            match r {
                Some(c) => editor_change_of(*data, timestamp_ms, c),
                None => data is Other,
            },
    {
        match data {
            EditorEvent::AddEditor { editor_id } => {
                let added = vec![ArbitraryMap::Editor { id: *editor_id, added_at_ms: timestamp_ms, permissions: 0, visible: true }];
                Some(array_of("editors", added, Vec::new(), Vec::new()))
            },
            EditorEvent::RemoveEditor { editor_id } => {
                let removed = vec![ArbitraryMap::Editor { id: *editor_id, added_at_ms: timestamp_ms, permissions: 0, visible: true }];
                Some(array_of("editors", Vec::new(), removed, Vec::new()))
            },
            EditorEvent::Other => None,
        }
    }
}

/// The kind, target, target kind and whether changes are recorded, for an
/// event's data.
pub open spec fn entry_head(data: StoredEventData) -> Option<(AuditLogKind, Id, u32)> {
    match data {
        StoredEventData::Emote { target_id, data } => Some((
            match data {
                EmoteEvent::Upload => AuditLogKind::CreateEmote,
                EmoteEvent::ProcessSuccess => AuditLogKind::ProcessEmote,
                EmoteEvent::Delete => AuditLogKind::DeleteEmote,
                _ => AuditLogKind::UpdateEmote,
            },
            target_id,
            2,
        )),
        StoredEventData::EmoteSet { target_id, data } => Some((
            match data {
                EmoteSetEvent::Create => AuditLogKind::CreateEmoteSet,
                EmoteSetEvent::Delete => AuditLogKind::DeleteEmoteSet,
                _ => AuditLogKind::UpdateEmoteSet,
            },
            target_id,
            3,
        )),
        StoredEventData::UserEditor { user_id, .. } => Some((AuditLogKind::EditUser, user_id, 1)),
        StoredEventData::Other => None,
    }
}

/// Whether the entry of an event has no changes of its own: creating,
/// processing or deleting an emote, creating or deleting a set.
pub open spec fn without_changes(data: StoredEventData) -> bool {
    match data {
        StoredEventData::Emote { data, .. } => data is Upload || data is ProcessSuccess || data is Delete,
        StoredEventData::EmoteSet { data, .. } => data is Create || data is Delete,
        _ => false,
    }
}

/// Whether an event shows in the audit log at all: it must be about an
/// emote, a set or an editor, and its change must be one the log records.
pub open spec fn shown(data: StoredEventData) -> bool {
    match data {
        StoredEventData::Emote { data, .. } => data is Upload || data is ProcessSuccess || data is Delete || emote_records_change(data),
        StoredEventData::EmoteSet { data, .. } => data is Create || data is Delete || emote_set_records_change(data),
        StoredEventData::UserEditor { data, .. } => !(data is Other),
        StoredEventData::Other => false,
    }
}

/// The actor an entry names: the event's actor, or the system user.
pub open spec fn actor_of(e: StoredEvent) -> Id {
    match e.actor_id {
        Some(a) => a,
        None => SYSTEM_USER_ID,
    }
}

impl AuditLog {
    /// The audit log entry of a stored event, for the events the log shows.
    pub fn from_db(event: &StoredEvent) -> (r: Option<AuditLog>)
        ensures
            match r {
                Some(log) => {
                    &&& shown(event.data)
                    &&& entry_head(event.data) == Some((log.kind, log.target_id, log.target_kind))
                    &&& log.id == event.id
                    &&& log.actor_id == actor_of(*event)
                    &&& log.created_at_ms == id_time_ms(event.id)
                    &&& log.reason@.len() == 0
                    &&& if without_changes(event.data) {
                        log.changes@.len() == 0
                    } else {
                        log.changes@.len() == 1 && match event.data {
                            StoredEventData::Emote { data, .. } => emote_change_of(data, log.changes@[0]),
                            StoredEventData::EmoteSet { data, .. } => emote_set_change_of(
                                data,
                                actor_of(*event),
                                id_time_ms(event.id) as u64,
                                log.changes@[0],
                            ),
                            StoredEventData::UserEditor { data, .. } => editor_change_of(data, id_time_ms(event.id) as u64, log.changes@[0]),
                            StoredEventData::Other => false,
                        }
                    }
                },
                None => !shown(event.data),
            },
    {
        let actor_id: Id = match event.actor_id {
            Some(a) => a,
            None => SYSTEM_USER_ID,
        };
        let ts = id_timestamp_ms(event.id);
        let (kind, target_id, target_kind, changes): (AuditLogKind, Id, u32, Vec<AuditLogChange>) = match &event.data {
            StoredEventData::Emote { target_id, data } => match data {
                EmoteEvent::Upload => (AuditLogKind::CreateEmote, *target_id, 2, Vec::new()),
                EmoteEvent::ProcessSuccess => (AuditLogKind::ProcessEmote, *target_id, 2, Vec::new()),
                EmoteEvent::Delete => (AuditLogKind::DeleteEmote, *target_id, 2, Vec::new()),
                _ => match AuditLogChange::from_db_emote(data) {
                    Some(c) => (AuditLogKind::UpdateEmote, *target_id, 2, vec![c]),
                    None => {
                        return None;
                    },
                },
            },
            StoredEventData::EmoteSet { target_id, data } => match data {
                EmoteSetEvent::Create => (AuditLogKind::CreateEmoteSet, *target_id, 3, Vec::new()),
                EmoteSetEvent::Delete => (AuditLogKind::DeleteEmoteSet, *target_id, 3, Vec::new()),
                _ => match AuditLogChange::from_db_emote_set(data, actor_id, ts) {
                    Some(c) => (AuditLogKind::UpdateEmoteSet, *target_id, 3, vec![c]),
                    None => {
                        return None;
                    },
                },
            },
            StoredEventData::UserEditor { user_id, data } => match AuditLogChange::from_db_user_editor(data, ts) {
                Some(c) => (AuditLogKind::EditUser, *user_id, 1, vec![c]),
                None => {
                    return None;
                },
            },
            StoredEventData::Other => {
                return None;
            },
        };
        Some(AuditLog { id: event.id, actor_id, kind, target_id, target_kind, created_at_ms: ts, changes, reason: String::new() })
    }
}

/// A value in a rendered change.
#[derive(Debug)]
pub enum FieldValue {
    Text(String),
    Number(u64),
    Boolean(bool),
    TextList(Vec<String>),
    Object(Vec<(String, FieldValue)>),
}

/// The text `chrono` writes for a UTC instant given in milliseconds since
/// the epoch, when it can represent the instant.
pub uninterp spec fn spec_utc_text(ms: u64) -> Option<Seq<char>>;

/// Writes an instant as `chrono` writes a `DateTime<Utc>`: builds it with
/// `DateTime::from_timestamp_millis` and formats it with `to_string`. The
/// text is named `spec_utc_text` of the milliseconds. chrono represents
/// every instant from the epoch up to year 262142, so every instant an id
/// can carry (below 2^48 milliseconds) has a text.
#[verifier::external_body]
fn utc_text(ms: u64) -> (r: Option<String>)
    ensures
        match r {
            Some(t) => spec_utc_text(ms) == Some(t@),
            None => spec_utc_text(ms) is None,
        },
        ms < 0x1_0000_0000_0000 ==> r is Some,
{
    match chrono::DateTime::<chrono::Utc>::from_timestamp_millis(ms as i64) {
        Some(t) => Some(t.to_string()),
        None => None,
    }
}

/// Whether every instant a value carries is one an id can carry.
pub open spec fn times_in_range(m: ArbitraryMap) -> bool
    decreases m,
{
    match m {
        ArbitraryMap::Emote { timestamp_ms, .. } => timestamp_ms < 0x1_0000_0000_0000,
        ArbitraryMap::Editor { added_at_ms, .. } => added_at_ms < 0x1_0000_0000_0000,
        ArbitraryMap::Nested { n, o, .. } => times_in_range(*n) && times_in_range(*o),
        _ => true,
    }
}

/// Whether entry `i` of `r` is named `key` and holds the text `t`.
pub open spec fn text_at(r: Seq<(String, FieldValue)>, i: int, key: Seq<char>, t: Seq<char>) -> bool {
    r[i].0@ == key && (r[i].1 matches FieldValue::Text(v) && v@ == t)
}

/// Whether entry `i` of `r` is named `key` and holds the number `n`.
pub open spec fn number_at(r: Seq<(String, FieldValue)>, i: int, key: Seq<char>, n: u64) -> bool {
    r[i].0@ == key && r[i].1 == FieldValue::Number(n)
}

/// Whether entry `i` of `r` is named `key` and holds the flag `b`.
pub open spec fn bool_at(r: Seq<(String, FieldValue)>, i: int, key: Seq<char>, b: bool) -> bool {
    r[i].0@ == key && r[i].1 == FieldValue::Boolean(b)
}

/// Whether `r` renders a version state: its listing, then its personal use,
/// each only when known.
pub open spec fn renders_state(s: EmoteVersionStateChange, r: Seq<(String, FieldValue)>) -> bool {
    let first = match s.listed {
        Some(l) => seq![("listed"@, l)],
        None => Seq::empty(),
    };
    let all = first + match s.allow_personal {
        Some(a) => seq![("allow_personal"@, a)],
        None => Seq::empty(),
    };
    r.len() == all.len() && forall|i: int| 0 <= i < r.len() ==> bool_at(r, i, #[trigger] all[i].0, all[i].1)
}

/// Whether `r` is the rendering of `m`: the fields of each shape, in order,
/// with ids as their text and instants as `chrono` writes them.
pub open spec fn rendered(m: ArbitraryMap, r: Seq<(String, FieldValue)>) -> bool
    decreases m,
{
    match m {
        ArbitraryMap::Emote { id, actor_id, flags, name, timestamp_ms } => {
            &&& r.len() == 5
            &&& text_at(r, 0, "id"@, id_text(id))
            &&& text_at(r, 1, "actor_id"@, id_text(actor_id))
            &&& number_at(r, 2, "flags"@, flags as u64)
            &&& text_at(r, 3, "name"@, name@)
            &&& spec_utc_text(timestamp_ms) matches Some(t) && text_at(r, 4, "timestamp"@, t)
        },
        ArbitraryMap::Editor { id, added_at_ms, permissions, visible } => {
            &&& r.len() == 4
            &&& text_at(r, 0, "id"@, id_text(id))
            &&& spec_utc_text(added_at_ms) matches Some(t) && text_at(r, 1, "added_at"@, t)
            &&& number_at(r, 2, "permissions"@, permissions as u64)
            &&& bool_at(r, 3, "visible"@, visible)
        },
        ArbitraryMap::EmoteVersionState { n, o, p } => {
            &&& r.len() == 3
            &&& r[0].0@ == "n"@ && (r[0].1 matches FieldValue::Object(e) && renders_state(n, e@))
            &&& r[1].0@ == "o"@ && (r[1].1 matches FieldValue::Object(e) && renders_state(o, e@))
            &&& number_at(r, 2, "p"@, p as u64)
        },
        ArbitraryMap::Nested { n, o, p } => {
            &&& r.len() == 3
            &&& r[0].0@ == "n"@ && (r[0].1 matches FieldValue::Object(e) && rendered(*n, e@))
            &&& r[1].0@ == "o"@ && (r[1].1 matches FieldValue::Object(e) && rendered(*o, e@))
            &&& number_at(r, 2, "p"@, p as u64)
        },
        ArbitraryMap::StringVecValue { n, o, p } => {
            &&& r.len() == 3
            &&& r[0].0@ == "n"@ && (r[0].1 matches FieldValue::TextList(l) && l@ == n@)
            &&& r[1].0@ == "o"@ && (r[1].1 matches FieldValue::TextList(l) && l@ == o@)
            &&& number_at(r, 2, "p"@, p as u64)
        },
        ArbitraryMap::NumberValue { n, o, p } => {
            &&& r.len() == 3
            &&& number_at(r, 0, "n"@, n as u64)
            &&& number_at(r, 1, "o"@, o as u64)
            &&& number_at(r, 2, "p"@, p as u64)
        },
        ArbitraryMap::StringValue { n, o, p } => {
            &&& r.len() == 3
            &&& text_at(r, 0, "n"@, n@)
            &&& text_at(r, 1, "o"@, o@)
            &&& number_at(r, 2, "p"@, p as u64)
        },
    }
}

fn entry(key: &str, value: FieldValue) -> (r: (String, FieldValue))
    ensures
        r.0@ == key@,
        r.1 == value,
{
    (key.to_owned(), value)
}

fn instant(ms: u64) -> (r: String)
    requires
        ms < 0x1_0000_0000_0000,
    ensures
        spec_utc_text(ms) == Some(r@),
{
    match utc_text(ms) {
        Some(t) => t,
        None => {
            assert(false);
            String::new()
        },
    }
}

fn state_fields(s: EmoteVersionStateChange) -> (r: Vec<(String, FieldValue)>)
    ensures
        renders_state(s, r@),
{
    let mut out: Vec<(String, FieldValue)> = Vec::new();
    if let Some(l) = s.listed {
        out.push(entry("listed", FieldValue::Boolean(l)));
    }
    if let Some(a) = s.allow_personal {
        out.push(entry("allow_personal", FieldValue::Boolean(a)));
    }
    proof {
        let first = match s.listed {
            Some(l) => seq![("listed"@, l)],
            None => Seq::<(Seq<char>, bool)>::empty(),
        };
        let all = first + match s.allow_personal {
            Some(a) => seq![("allow_personal"@, a)],
            None => Seq::<(Seq<char>, bool)>::empty(),
        };
        assert(out@.len() == all.len());
        assert forall|i: int| 0 <= i < out@.len() implies bool_at(out@, i, #[trigger] all[i].0, all[i].1) by {
        }
    }
    out
}

impl ArbitraryMap {
    /// The fields a value is rendered with.
    pub fn to_value(&self) -> (r: Vec<(String, FieldValue)>)
        requires
            times_in_range(*self),
        ensures
            rendered(*self, r@),
        decreases self,
    {
        match self {
            ArbitraryMap::Emote { id, actor_id, flags, name, timestamp_ms } => vec![
                entry("id", FieldValue::Text(format_id(*id))),
                entry("actor_id", FieldValue::Text(format_id(*actor_id))),
                entry("flags", FieldValue::Number(*flags as u64)),
                entry("name", FieldValue::Text(name.clone())),
                entry("timestamp", FieldValue::Text(instant(*timestamp_ms))),
            ],
            ArbitraryMap::Editor { id, added_at_ms, permissions, visible } => vec![
                entry("id", FieldValue::Text(format_id(*id))),
                entry("added_at", FieldValue::Text(instant(*added_at_ms))),
                entry("permissions", FieldValue::Number(*permissions as u64)),
                entry("visible", FieldValue::Boolean(*visible)),
            ],
            ArbitraryMap::EmoteVersionState { n, o, p } => vec![
                entry("n", FieldValue::Object(state_fields(*n))),
                entry("o", FieldValue::Object(state_fields(*o))),
                entry("p", FieldValue::Number(*p as u64)),
            ],
            ArbitraryMap::Nested { n, o, p } => {
                let nv = n.to_value();
                let ov = o.to_value();
                vec![entry("n", FieldValue::Object(nv)), entry("o", FieldValue::Object(ov)), entry("p", FieldValue::Number(*p as u64))]
            },
            ArbitraryMap::StringVecValue { n, o, p } => vec![
                entry("n", FieldValue::TextList(copy_strings(n))),
                entry("o", FieldValue::TextList(copy_strings(o))),
                entry("p", FieldValue::Number(*p as u64)),
            ],
            ArbitraryMap::NumberValue { n, o, p } => vec![
                entry("n", FieldValue::Number(*n as u64)),
                entry("o", FieldValue::Number(*o as u64)),
                entry("p", FieldValue::Number(*p as u64)),
            ],
            ArbitraryMap::StringValue { n, o, p } => vec![
                entry("n", FieldValue::Text(n.clone())),
                entry("o", FieldValue::Text(o.clone())),
                entry("p", FieldValue::Number(*p as u64)),
            ],
        }
    }
}

/// A rename shows as one updated emote whose new value carries the new
/// alias and whose old value carries the old alias, both for the renamed
/// emote.
pub proof fn rename_shows_new_over_old(emote_id: Id, old_alias: String, new_alias: String, actor_id: Id, timestamp_ms: u64, c: AuditLogChange)
    requires
        emote_set_change_of(EmoteSetEvent::RenameEmote { emote_id, old_alias, new_alias }, actor_id, timestamp_ms, c),
    ensures
        c.array_value matches Some(a) && a.added@.len() == 0 && a.removed@.len() == 0 && a.updated@.len() == 1,
        c.array_value->0.updated@[0] matches ArbitraryMap::Nested { n, o, .. }
            && (*n matches ArbitraryMap::Emote { id: ni, name: nn, .. } && ni == emote_id && nn@ == new_alias@)
            && (*o matches ArbitraryMap::Emote { id: oi, name: on, .. } && oi == emote_id && on@ == old_alias@),
{
}

/// A set's new name shows as the new value and its old name as the old
/// value; an added emote shows among the added items under its alias, and
/// a removed one among the removed items.
pub proof fn set_changes_show_what_changed(old: String, new: String, emote_id: Id, alias: String, actor_id: Id, timestamp_ms: u64, c: AuditLogChange)
    ensures
        emote_set_change_of(EmoteSetEvent::ChangeName { old, new }, actor_id, timestamp_ms, c) ==> (c.value matches Some(
            ArbitraryMap::StringValue { n, o, .. },
        ) && n@ == new@ && o@ == old@),
        emote_set_change_of(EmoteSetEvent::AddEmote { emote_id, alias }, actor_id, timestamp_ms, c) ==> (c.array_value matches Some(
            a,
        ) && a.added@.len() == 1 && a.removed@.len() == 0 && (a.added@[0] matches ArbitraryMap::Emote { id, name, .. } && id
            == emote_id && name@ == alias@)),
        emote_set_change_of(EmoteSetEvent::RemoveEmote { emote_id }, actor_id, timestamp_ms, c) ==> (c.array_value matches Some(
            a,
        ) && a.added@.len() == 0 && a.removed@.len() == 1 && (a.removed@[0] matches ArbitraryMap::Emote { id, .. } && id
            == emote_id)),
{
}

} // verus!
