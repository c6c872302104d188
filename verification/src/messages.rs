//! Messages: emote moderation requests as the v3 inbox shows them, and the
//! mutations that settle them.
use vstd::prelude::*;
use vstd::utf8::encode_utf8;
use crate::error::{api_error, ApiError, ApiErrorCode, StatusCode};
use crate::ids::{id_time_ms, id_timestamp_ms, Id};
use crate::text::{
    chars_of, decimal, join, joined, push_decimal, push_str, remove_char, string_of, trim_end_char,
    texts, trim_end_matches_char, without_char,
};

verus! {

/// What a moderation request asks for.
#[derive(Clone, Copy, Debug, PartialEq, Eq, Structural)]
pub enum ModerationRequestKind {
    PublicListing,
    PersonalUse,
}

/// Where a moderation request stands.
#[derive(Clone, Copy, Debug, PartialEq, Eq, Structural)]
pub enum ModerationRequestStatus {
    Pending,
    Approved,
    Denied,
}

/// The number a request kind is searched by.
pub open spec fn kind_number(k: ModerationRequestKind) -> u64 {
    match k {
        ModerationRequestKind::PublicListing => 0,
        ModerationRequestKind::PersonalUse => 1,
    }
}

/// The number a request status is searched by.
pub open spec fn status_number(s: ModerationRequestStatus) -> u64 {
    match s {
        ModerationRequestStatus::Pending => 0,
        ModerationRequestStatus::Approved => 1,
        ModerationRequestStatus::Denied => 2,
    }
}

/// A request to list an emote publicly or to allow it for personal use.
#[derive(Clone, Debug)]
pub struct EmoteModerationRequest {
    pub id: Id,
    pub kind: ModerationRequestKind,
    pub user_id: Id,
    pub emote_id: Id,
    pub status: ModerationRequestStatus,
    pub country_code: Option<String>,
}

/// The kinds of inbox messages.
#[derive(Clone, Copy, Debug, PartialEq, Eq, Structural)]
pub enum MessageKind {
    EmoteComment,
    ModRequest,
    Inbox,
    News,
}

/// A moderation request as the v3 inbox shows it.
#[derive(Clone, Debug)]
pub struct ModRequestMessage {
    pub id: Id,
    pub kind: MessageKind,
    pub author_id: Option<Id>,
    pub read: bool,
    pub read_at: Option<i64>,
    pub target_kind: u32,
    pub target_id: Id,
    pub wish: String,
    pub actor_country_name: String,
    pub actor_country_code: String,
}

/// The wish a request kind is shown as.
pub open spec fn wish_text(k: ModerationRequestKind) -> Seq<char> {
    match k {
        ModerationRequestKind::PublicListing => "list"@,
        ModerationRequestKind::PersonalUse => "personal_use"@,
    }
}

impl ModRequestMessage {
    /// The message a moderation request shows as: read once approved or
    /// denied, about the emote, with the wish and the requester's country.
    pub fn from_db(req: &EmoteModerationRequest) -> (r: ModRequestMessage)
        ensures
            r.id == req.id,
            r.kind == MessageKind::ModRequest,
            r.author_id == Some(req.user_id),
            r.read == (req.status == ModerationRequestStatus::Approved || req.status == ModerationRequestStatus::Denied),
            r.read_at is None,
            r.target_kind == 2,
            r.target_id == req.emote_id,
            r.wish@ == wish_text(req.kind),
            r.actor_country_name@ == (match req.country_code {
                Some(c) => c@,
                None => Seq::<char>::empty(),
            }),
            r.actor_country_code@ == r.actor_country_name@,
    {
        let country = match &req.country_code {
            Some(c) => c.clone(),
            None => String::new(),
        };
        let wish = match req.kind {
            ModerationRequestKind::PublicListing => "list".to_owned(),
            ModerationRequestKind::PersonalUse => "personal_use".to_owned(),
        };
        ModRequestMessage {
            id: req.id,
            kind: MessageKind::ModRequest,
            author_id: Some(req.user_id),
            read: req.status == ModerationRequestStatus::Approved || req.status == ModerationRequestStatus::Denied,
            read_at: None,
            target_kind: 2,
            target_id: req.emote_id,
            wish,
            actor_country_name: country.clone(),
            actor_country_code: country,
        }
    }

    /// When the request was made, in milliseconds since the epoch.
    pub fn created_at(&self) -> (r: u64)
        ensures
            r == id_time_ms(self.id),
    {
        id_timestamp_ms(self.id)
    }
}

/// The queries on messages.
#[derive(Clone, Copy, Debug, Default)]
pub struct MessagesQuery;

/// The mutations on messages.
#[derive(Clone, Copy, Debug, Default)]
pub struct MessagesMutation;

/// The request kind a wish asks for: personal use when it says so, public
/// listing otherwise.
pub open spec fn wish_kind(wish: Option<Seq<char>>) -> ModerationRequestKind {
    match wish {
        Some(w) => if w == "personal_use"@ {
            ModerationRequestKind::PersonalUse
        } else {
            ModerationRequestKind::PublicListing
        },
        None => ModerationRequestKind::PublicListing,
    }
}

/// A search value with backticks removed and trailing backslashes trimmed,
/// so that it cannot break out of the filter it is placed in.
pub open spec fn sanitized(s: Seq<char>) -> Seq<char> {
    trim_end_char(without_char(s, '`'), '\\')
}

/// Whether a country code is longer than 100 bytes.
pub open spec fn too_long(c: String) -> bool {
    encode_utf8(c@).len() > 100
}

/// The filter on one country.
pub open spec fn country_filter(c: String) -> Seq<char> {
    "country_code: "@ + sanitized(c@)
}

/// The filter that lists pending requests of a kind, from the given
/// countries when there are any.
pub open spec fn mod_request_filter(kind: ModerationRequestKind, countries: Seq<String>) -> Seq<char> {
    let base = "kind: "@ + decimal(kind_number(kind) as nat) + " && "@ + "status: "@ + decimal(
        status_number(ModerationRequestStatus::Pending) as nat,
    );
    if countries.len() == 0 {
        base
    } else {
        base + " && "@ + "("@ + joined(countries.map_values(|c: String| country_filter(c)), " || "@) + ")"@
    }
}

pub open spec fn country_too_long() -> ApiError {
    api_error(StatusCode::BadRequest, ApiErrorCode::BadRequest, "country code is too long")
}

/// The number a request kind is searched by.
fn kind_code(k: ModerationRequestKind) -> (r: u64)
    ensures
        r == kind_number(k),
{
    match k {
        ModerationRequestKind::PublicListing => 0,
        ModerationRequestKind::PersonalUse => 1,
    }
}

/// The filter on one country.
fn country_filter_text(c: &String) -> (r: String)
    ensures
        r@ == country_filter(*c),
{
    let cs = chars_of(c.as_str());
    let no_ticks = remove_char(&cs, '`');
    let trimmed = trim_end_matches_char(&no_ticks, '\\');
    let mut out: Vec<char> = Vec::new();
    push_str(&mut out, "country_code: ");
    out.append(&mut trimmed.clone());
    assert(out@ =~= country_filter(*c));
    string_of(&out)
}

/// The countries given, none when the list is absent.
pub open spec fn country_list(countries: Option<Vec<String>>) -> Seq<String> {
    match countries {
        Some(v) => v@,
        None => Seq::empty(),
    }
}

/// The text of an optional string.
pub open spec fn opt_text(s: Option<String>) -> Option<Seq<char>> {
    match s {
        Some(t) => Some(t@),
        None => None,
    }
}

impl MessagesQuery {
    /// The search filter for pending moderation requests: of the kind the
    /// wish names, and from the given countries when any are given. A
    /// country code longer than 100 bytes is refused.
    pub fn mod_requests_filter(wish: &Option<String>, countries: &Option<Vec<String>>) -> (r: Result<String, ApiError>)
        ensures
            (exists|i: int| 0 <= i < country_list(*countries).len() && too_long(#[trigger] country_list(*countries)[i]))
                ==> r == Err::<String, ApiError>(country_too_long()),
            (forall|i: int| 0 <= i < country_list(*countries).len() ==> !too_long(#[trigger] country_list(*countries)[i]))
                ==> (r matches Ok(s) && s@ == mod_request_filter(wish_kind(opt_text(*wish)), country_list(*countries))),
    {
        let kind = match wish {
            Some(w) => {
                let a = chars_of(w.as_str());
                let b = chars_of("personal_use");
                if crate::text::same_text(&a, &b) {
                    ModerationRequestKind::PersonalUse
                } else {
                    ModerationRequestKind::PublicListing
                }
            },
            None => ModerationRequestKind::PublicListing,
        };
        let empty: Vec<String> = Vec::new();
        let list: &Vec<String> = match countries {
            Some(v) => v,
            None => &empty,
        };
        let mut filters: Vec<String> = Vec::new();
        let mut i: usize = 0;
        while i < list.len()
            invariant
                list@ == country_list(*countries),
                i <= list@.len(),
                forall|j: int| 0 <= j < i ==> !too_long(#[trigger] list@[j]),
                texts(filters@) == list@.subrange(0, i as int).map_values(|c: String| country_filter(c)),
            decreases list@.len() - i,
        {
            let bytes = list[i].as_str().as_bytes();
            if bytes.len() > 100 {
                assert(too_long(list@[i as int]));
                let e = ApiError::bad_request(ApiErrorCode::BadRequest, "country code is too long");
                assert(e == country_too_long());
                return Err(e);
            }
            let f = country_filter_text(&list[i]);
            let ghost old_f = filters@;
            filters.push(f);
            proof {
                let a = texts(filters@);
                let b = list@.subrange(0, i + 1).map_values(|c: String| country_filter(c));
                let b0 = list@.subrange(0, i as int).map_values(|c: String| country_filter(c));
                assert(texts(old_f).len() == old_f.len());
                assert(b0.len() == i);
                assert(a.len() == b.len());
                assert forall|k: int| 0 <= k < a.len() implies a[k] == b[k] by {
                    if k < old_f.len() {
                        assert(filters@[k] == old_f[k]);
                        assert(texts(old_f)[k] == b0[k]);
                    } else {
                        assert(filters@[k] == f);
                    }
                }
                assert(a =~= b);
            }
            i = i + 1;
        }
        assert(list@.subrange(0, list@.len() as int) =~= list@);
        let mut out: Vec<char> = Vec::new();
        push_str(&mut out, "kind: ");
        push_decimal(&mut out, kind_code(kind));
        push_str(&mut out, " && ");
        push_str(&mut out, "status: ");
        push_decimal(&mut out, 0);
        if filters.len() > 0 {
            let joined_text = join(&filters, " || ");
            push_str(&mut out, " && ");
            push_str(&mut out, "(");
            push_str(&mut out, joined_text.as_str());
            push_str(&mut out, ")");
        }
        assert(status_number(ModerationRequestStatus::Pending) == 0);
        assert(out@ =~= mod_request_filter(kind, list@));
        Ok(string_of(&out))
    }
}

pub open spec fn messages_not_found() -> ApiError {
    api_error(StatusCode::NotFound, ApiErrorCode::LoadError, "at least one message was not found")
}

pub open spec fn inbox_not_implemented() -> ApiError {
    api_error(StatusCode::NotImplemented, ApiErrorCode::BadRequest, "not implemented")
}

impl MessagesMutation {
    /// The status that marking messages sets: approved when read and
    /// approved, denied when read only, pending otherwise.
    pub fn read_status(read: bool, approved: bool) -> (r: ModerationRequestStatus)
        ensures
            r == (if read && approved {
                ModerationRequestStatus::Approved
            } else if read {
                ModerationRequestStatus::Denied
            } else {
                ModerationRequestStatus::Pending
            }),
    {
        if read && approved {
            ModerationRequestStatus::Approved
        } else if read {
            ModerationRequestStatus::Denied
        } else {
            ModerationRequestStatus::Pending
        }
    }

    /// The answer once the requests were updated: the number changed, as a
    /// 32-bit count, unless fewer changed than were found. Ids that match no
    /// request are not counted as found, so they are passed over silently.
    pub fn read_messages_result(modified_count: u64, found: usize) -> (r: Result<u32, ApiError>)
        ensures
            modified_count != found ==> r == Err::<u32, ApiError>(messages_not_found()),
            modified_count == found ==> r == Ok::<u32, ApiError>(modified_count as u32),
    {
        if modified_count != found as u64 {
            Err(ApiError::not_found(ApiErrorCode::LoadError, "at least one message was not found"))
        } else {
            Ok(modified_count as u32)
        }
    }

    /// Sending inbox messages is not offered.
    pub fn send_inbox_message(recipients: &Vec<Id>, subject: &String, content: &String) -> (r: Result<Option<ModRequestMessage>, ApiError>)
        ensures
            r == Err::<Option<ModRequestMessage>, ApiError>(inbox_not_implemented()),
    {
        Err(ApiError::not_implemented(ApiErrorCode::BadRequest, "not implemented"))
    }

    /// Dismissing requests whose target is gone is not offered.
    pub fn dismiss_void_target_mod_requests(object: u32) -> (r: Result<u32, ApiError>)
        ensures
            r == Err::<u32, ApiError>(inbox_not_implemented()),
    {
        Err(ApiError::not_implemented(ApiErrorCode::BadRequest, "not implemented"))
    }
}

} // verus!
