//! Abuse reports: tickets about an emote, seen through the v3 report model,
//! and how they are created and edited.
use vstd::prelude::*;
use crate::error::{api_error, ApiError, ApiErrorCode, StatusCode};
use crate::ids::{base32_value, id_time_ms, id_timestamp_ms, is_id_text, parse_id, Id};
use crate::text::{chars_of, string_of};

verus! {

/// How urgent a ticket is.
#[derive(Clone, Copy, Debug, PartialEq, Eq, Structural)]
pub enum TicketPriority {
    Low,
    Medium,
    High,
    Urgent,
}

/// The priority a number stands for.
pub open spec fn priority_of(n: i32) -> Option<TicketPriority> {
    if n == 0 {
        Some(TicketPriority::Low)
    } else if n == 1 {
        Some(TicketPriority::Medium)
    } else if n == 2 {
        Some(TicketPriority::High)
    } else if n == 3 {
        Some(TicketPriority::Urgent)
    } else {
        None
    }
}

/// The number of a priority.
pub open spec fn priority_number(p: TicketPriority) -> i32 {
    match p {
        TicketPriority::Low => 0,
        TicketPriority::Medium => 1,
        TicketPriority::High => 2,
        TicketPriority::Urgent => 3,
    }
}

impl TicketPriority {
    /// The priority a number stands for, if any.
    pub fn try_from_number(n: i32) -> (r: Option<TicketPriority>)
        ensures
            r == priority_of(n),
    {
        if n == 0 {
            Some(TicketPriority::Low)
        } else if n == 1 {
            Some(TicketPriority::Medium)
        } else if n == 2 {
            Some(TicketPriority::High)
        } else if n == 3 {
            Some(TicketPriority::Urgent)
        } else {
            None
        }
    }

    /// The number of the priority.
    pub fn number(self) -> (r: i32)
        ensures
            r == priority_number(self),
    {
        match self {
            TicketPriority::Low => 0,
            TicketPriority::Medium => 1,
            TicketPriority::High => 2,
            TicketPriority::Urgent => 3,
        }
    }
}

/// What a ticket is about.
#[derive(Clone, Copy, Debug, PartialEq, Eq, Structural)]
pub enum TicketKind {
    Abuse,
    Billing,
    Generic,
}

/// The part a member plays in a ticket.
#[derive(Clone, Copy, Debug, PartialEq, Eq, Structural)]
pub enum TicketMemberKind {
    Op,
    Member,
    Assigned,
}

/// A user taking part in a ticket.
#[derive(Clone, Copy, Debug, PartialEq, Eq, Structural)]
pub struct TicketMember {
    pub user_id: Id,
    pub kind: TicketMemberKind,
    pub notifications: bool,
    pub last_read: Option<Id>,
}

/// An object a ticket is about.
#[derive(Clone, Copy, Debug, PartialEq, Eq, Structural)]
pub enum TicketTarget {
    User(Id),
    Emote(Id),
    EmoteSet(Id),
}

/// A support ticket.
#[derive(Clone, Debug)]
pub struct Ticket {
    pub id: Id,
    pub priority: TicketPriority,
    pub members: Vec<TicketMember>,
    pub title: String,
    pub kind: TicketKind,
    pub targets: Vec<TicketTarget>,
    pub author_id: Id,
    pub open: bool,
    pub locked: bool,
}

/// A message written in a ticket.
#[derive(Clone, Debug)]
pub struct TicketMessage {
    pub id: Id,
    pub ticket_id: Id,
    pub user_id: Id,
    pub content: String,
}

/// Where a report stands.
#[derive(Clone, Copy, Debug, PartialEq, Eq, Structural)]
pub enum ReportStatus {
    Open,
    Assigned,
    Closed,
}

/// A report as the v3 API shows it.
#[derive(Clone, Debug)]
pub struct Report {
    pub id: Id,
    pub target_kind: u32,
    pub target_id: Id,
    pub actor_id: Id,
    pub subject: String,
    pub body: String,
    pub priority: i32,
    pub status: ReportStatus,
    pub notes: Vec<String>,
    pub assignee_ids: Vec<Id>,
}

/// Whether the message at `k` is the body of a report: written by the
/// author, with the smallest id among the author's messages, and the first
/// such message where several share that id.
pub open spec fn is_body_pos(msgs: Seq<TicketMessage>, author: Id, k: int) -> bool {
    &&& 0 <= k < msgs.len()
    &&& msgs[k].user_id == author
    &&& forall|j: int| 0 <= j < msgs.len() && #[trigger] msgs[j].user_id == author ==> msgs[k].id <= msgs[j].id
    &&& forall|j: int| 0 <= j < k && #[trigger] msgs[j].user_id == author ==> msgs[k].id < msgs[j].id
}

/// The id of the body message, if the author wrote any message.
pub open spec fn body_id(msgs: Seq<TicketMessage>, author: Id) -> Option<Id> {
    if exists|k: int| is_body_pos(msgs, author, k) {
        Some(msgs[choose|k: int| is_body_pos(msgs, author, k)].id)
    } else {
        None
    }
}

/// The text of the body message, or nothing.
pub open spec fn body_text(msgs: Seq<TicketMessage>, author: Id) -> Seq<char> {
    if exists|k: int| is_body_pos(msgs, author, k) {
        msgs[choose|k: int| is_body_pos(msgs, author, k)].content@
    } else {
        Seq::empty()
    }
}

/// The texts of the messages other than the body, in order.
pub open spec fn notes_of(msgs: Seq<TicketMessage>, body: Option<Id>) -> Seq<String>
    decreases msgs.len(),
{
    if msgs.len() == 0 {
        Seq::empty()
    } else if Some(msgs.last().id) != body {
        notes_of(msgs.drop_last(), body).push(msgs.last().content)
    } else {
        notes_of(msgs.drop_last(), body)
    }
}

/// The users assigned to a ticket, in order.
pub open spec fn assignees_of(members: Seq<TicketMember>) -> Seq<Id>
    decreases members.len(),
{
    if members.len() == 0 {
        Seq::empty()
    } else if members.last().kind == TicketMemberKind::Assigned {
        assignees_of(members.drop_last()).push(members.last().user_id)
    } else {
        assignees_of(members.drop_last())
    }
}

/// Whether someone is assigned to the ticket.
pub open spec fn has_assignee(members: Seq<TicketMember>) -> bool {
    exists|i: int| 0 <= i < members.len() && (#[trigger] members[i]).kind == TicketMemberKind::Assigned
}

/// The status a ticket shows as a report.
pub open spec fn status_of(open: bool, members: Seq<TicketMember>) -> ReportStatus {
    if !open {
        ReportStatus::Closed
    } else if has_assignee(members) {
        ReportStatus::Assigned
    } else {
        ReportStatus::Open
    }
}

/// Whether `r` is the report that `ticket` and `msgs` show: the ticket
/// must name an emote first.
pub open spec fn report_of(ticket: Ticket, msgs: Seq<TicketMessage>, r: Report) -> bool {
    &&& ticket.targets@.len() > 0
    &&& ticket.targets@[0] matches TicketTarget::Emote(emote_id)
    &&& r.id == ticket.id
    &&& r.target_kind == 2
    &&& r.target_id == emote_id
    &&& r.actor_id == ticket.author_id
    &&& r.subject@ == ticket.title@
    &&& r.body@ == body_text(msgs, ticket.author_id)
    &&& r.priority == priority_number(ticket.priority)
    &&& r.status == status_of(ticket.open, ticket.members@)
    &&& r.notes@ == notes_of(msgs, body_id(msgs, ticket.author_id))
    &&& r.assignee_ids@ == assignees_of(ticket.members@)
}

/// At most one position is the body.
proof fn lemma_body_pos_unique(msgs: Seq<TicketMessage>, author: Id, a: int, b: int)
    requires
        is_body_pos(msgs, author, a),
        is_body_pos(msgs, author, b),
    ensures
        a == b,
{
    if a < b {
        assert(msgs[a].user_id == author);
    } else if b < a {
        assert(msgs[b].user_id == author);
    }
}

/// The position of the body message.
fn find_body(msgs: &Vec<TicketMessage>, author: Id) -> (r: Option<usize>)
    ensures
        match r {
            Some(k) => is_body_pos(msgs@, author, k as int),
            None => forall|j: int| 0 <= j < msgs@.len() ==> #[trigger] msgs@[j].user_id != author,
        },
{
    let mut best: Option<usize> = None;
    let mut i: usize = 0;
    while i < msgs.len()
        invariant
            i <= msgs@.len(),
            match best {
                Some(k) => {
                    &&& k < i
                    &&& msgs@[k as int].user_id == author
                    &&& forall|j: int| 0 <= j < i && #[trigger] msgs@[j].user_id == author ==> msgs@[k as int].id <= msgs@[j].id
                    &&& forall|j: int| 0 <= j < k && #[trigger] msgs@[j].user_id == author ==> msgs@[k as int].id < msgs@[j].id
                },
                None => forall|j: int| 0 <= j < i ==> #[trigger] msgs@[j].user_id != author,
            },
        decreases msgs@.len() - i,
    {
        if msgs[i].user_id == author {
            match best {
                None => {
                    best = Some(i);
                },
                Some(k) => {
                    if msgs[i].id < msgs[k].id {
                        best = Some(i);
                    }
                },
            }
        }
        i = i + 1;
    }
    best
}

impl Report {
    /// The report a ticket and its messages show, if the ticket's first
    /// target is an emote. The body is the author's earliest message; every
    /// other message is a note.
    pub fn from_db(ticket: &Ticket, messages: &Vec<TicketMessage>) -> (r: Option<Report>)
        ensures
            match r {
                Some(rep) => report_of(*ticket, messages@, rep),
                None => !(ticket.targets@.len() > 0 && ticket.targets@[0] is Emote),
            },
    {
        if ticket.targets.len() == 0 {
            return None;
        }
        let emote_id = match ticket.targets[0] {
            TicketTarget::Emote(id) => id,
            _ => {
                return None;
            },
        };
        let body_pos = find_body(messages, ticket.author_id);
        let ghost msgs = messages@;
        let ghost author = ticket.author_id;
        let (body, bid) = match body_pos {
            Some(k) => {
                proof {
                    let c = choose|x: int| is_body_pos(msgs, author, x);
                    lemma_body_pos_unique(msgs, author, c, k as int);
                }
                (messages[k].content.clone(), Some(messages[k].id))
            },
            None => {
                proof {
                    assert forall|x: int| !is_body_pos(msgs, author, x) by {
                        if 0 <= x < msgs.len() {
                            assert(msgs[x].user_id != author);
                        }
                    }
                }
                (String::new(), None)
            },
        };
        assert(bid == body_id(msgs, author));
        assert(body@ == body_text(msgs, author));
        let mut notes: Vec<String> = Vec::new();
        let mut i: usize = 0;
        while i < messages.len()
            invariant
                msgs == messages@,
                i <= msgs.len(),
                notes@ == notes_of(msgs.subrange(0, i as int), bid),
            decreases msgs.len() - i,
        {
            assert(msgs.subrange(0, i + 1).drop_last() =~= msgs.subrange(0, i as int));
            if Some(messages[i].id) != bid {
                notes.push(messages[i].content.clone());
            }
            i = i + 1;
        }
        assert(msgs.subrange(0, msgs.len() as int) =~= msgs);
        let mut assignees: Vec<Id> = Vec::new();
        let mut assigned = false;
        let mut j: usize = 0;
        while j < ticket.members.len()
            invariant
                j <= ticket.members@.len(),
                assignees@ == assignees_of(ticket.members@.subrange(0, j as int)),
                assigned == exists|m: int| 0 <= m < j && (#[trigger] ticket.members@[m]).kind == TicketMemberKind::Assigned,
            decreases ticket.members@.len() - j,
        {
            assert(ticket.members@.subrange(0, j + 1).drop_last() =~= ticket.members@.subrange(0, j as int));
            if ticket.members[j].kind == TicketMemberKind::Assigned {
                assignees.push(ticket.members[j].user_id);
                assigned = true;
            }
            j = j + 1;
        }
        assert(ticket.members@.subrange(0, ticket.members@.len() as int) =~= ticket.members@);
        let status = if ticket.open {
            if assigned {
                ReportStatus::Assigned
            } else {
                ReportStatus::Open
            }
        } else {
            ReportStatus::Closed
        };
        Some(Report {
            id: ticket.id,
            target_kind: 2,
            target_id: emote_id,
            actor_id: ticket.author_id,
            subject: ticket.title.clone(),
            body,
            priority: ticket.priority.number(),
            status,
            notes,
            assignee_ids: assignees,
        })
    }

    /// When the report was made, in milliseconds since the epoch.
    pub fn created_at(&self) -> (r: u64)
        ensures
            r == id_time_ms(self.id),
    {
        id_timestamp_ms(self.id)
    }
}

/// What a report is filed with.
#[derive(Clone, Debug)]
pub struct CreateReportInput {
    pub target_kind: u32,
    pub target_id: Id,
    pub subject: String,
    pub body: String,
}

/// A note added while editing a report.
#[derive(Clone, Debug)]
pub struct EditReportNoteInput {
    pub timestamp: Option<String>,
    pub content: Option<String>,
    pub internal: Option<bool>,
    pub reply: Option<String>,
}

/// The changes asked of a report.
#[derive(Clone, Debug)]
pub struct EditReportInput {
    pub priority: Option<i32>,
    pub status: Option<ReportStatus>,
    pub assignee: Option<String>,
    pub note: Option<EditReportNoteInput>,
}

/// A change to who is assigned to a ticket.
#[derive(Clone, Copy, Debug, PartialEq, Eq, Structural)]
pub enum MemberChange {
    Add(Id),
    Remove(Id),
}

/// What an edit does to a ticket: the new priority, the new open state
/// when it changes, the member change, and the text of a note to add.
#[derive(Clone, Debug)]
pub struct ReportEdit {
    pub new_priority: Option<TicketPriority>,
    pub new_open: Option<bool>,
    pub member_change: Option<MemberChange>,
    pub note: Option<String>,
}

/// The mutations on reports.
#[derive(Clone, Copy, Debug, Default)]
pub struct ReportsMutation;

/// The queries on reports.
#[derive(Clone, Copy, Debug, Default)]
pub struct ReportsQuery;

pub open spec fn not_implemented_error() -> ApiError {
    api_error(StatusCode::NotImplemented, ApiErrorCode::Unknown, "not implemented")
}

pub open spec fn bad_request_error() -> ApiError {
    api_error(StatusCode::BadRequest, ApiErrorCode::Unknown, "bad request")
}

pub open spec fn invalid_priority_error() -> ApiError {
    api_error(StatusCode::BadRequest, ApiErrorCode::BadRequest, "invalid ticket priority")
}

/// The member change an assignee text asks for: `+` or `-` followed by the
/// textual form of a user id.
pub open spec fn assignee_change(a: Seq<char>) -> Option<MemberChange> {
    if a.len() >= 1 && is_id_text(a.skip(1)) {
        if a[0] == '+' {
            Some(MemberChange::Add(base32_value(a.skip(1)) as u128))
        } else if a[0] == '-' {
            Some(MemberChange::Remove(base32_value(a.skip(1)) as u128))
        } else {
            None
        }
    } else {
        None
    }
}

/// The open state a status asks for, when it differs from the current one.
pub open spec fn open_change(open: bool, status: Option<ReportStatus>) -> Option<bool> {
    match status {
        Some(s) => {
            let new = s == ReportStatus::Open || s == ReportStatus::Assigned;
            if new != open { Some(new) } else { None }
        },
        None => None,
    }
}

/// The text of the note an edit adds.
pub open spec fn note_text(note: Option<EditReportNoteInput>) -> Option<Seq<char>> {
    match note {
        Some(n) => Some(match n.content {
            Some(c) => c@,
            None => Seq::empty(),
        }),
        None => None,
    }
}

/// What an edit asks of a ticket that is `open` or not, or the error it is
/// refused with: a priority that names none, then an assignee text that is
/// not `+` or `-` with a user id.
pub open spec fn edit_outcome(open: bool, data: EditReportInput, r: Result<ReportEdit, ApiError>) -> bool {
    if data.priority matches Some(p) && priority_of(p) is None {
        r == Err::<ReportEdit, ApiError>(invalid_priority_error())
    } else if data.assignee matches Some(a) && assignee_change(a@) is None {
        r == Err::<ReportEdit, ApiError>(bad_request_error())
    } else {
        &&& r is Ok
        &&& r->Ok_0.new_priority == (match data.priority {
            Some(p) => priority_of(p),
            None => None,
        })
        &&& r->Ok_0.new_open == open_change(open, data.status)
        &&& r->Ok_0.member_change == (match data.assignee {
            Some(a) => assignee_change(a@),
            None => None,
        })
        &&& (match r->Ok_0.note {
            Some(t) => note_text(data.note) == Some(t@),
            None => note_text(data.note) is None,
        })
    }
}

/// The member change an assignee text asks for.
fn parse_assignee(a: &String) -> (r: Option<MemberChange>)
    ensures
        r == assignee_change(a@),
{
    let cs = chars_of(a.as_str());
    if cs.len() < 1 {
        return None;
    }
    let mut rest: Vec<char> = Vec::new();
    let mut i: usize = 1;
    while i < cs.len()
        invariant
            1 <= i <= cs@.len(),
            rest@ == cs@.subrange(1, i as int),
        decreases cs@.len() - i,
    {
        rest.push(cs[i]);
        i = i + 1;
        assert(rest@ =~= cs@.subrange(1, i as int));
    }
    assert(rest@ =~= a@.skip(1));
    let text = string_of(&rest);
    let id = match parse_id(text.as_str()) {
        Some(id) => id,
        None => {
            return None;
        },
    };
    if cs[0] == '+' {
        Some(MemberChange::Add(id))
    } else if cs[0] == '-' {
        Some(MemberChange::Remove(id))
    } else {
        None
    }
}

/// The ticket and first message of a new report.
pub open spec fn new_report(data: CreateReportInput, author: Id, ticket_id: Id, message_id: Id, t: Ticket, m: TicketMessage) -> bool {
    &&& t.id == ticket_id
    &&& t.priority == TicketPriority::Medium
    &&& t.members@ == seq![TicketMember { user_id: author, kind: TicketMemberKind::Member, notifications: true, last_read: Some(message_id) }]
    &&& t.title@ == data.subject@
    &&& t.kind == TicketKind::Abuse
    &&& t.targets@ == seq![TicketTarget::Emote(data.target_id)]
    &&& t.author_id == author
    &&& t.open
    &&& !t.locked
    &&& m.id == message_id
    &&& m.ticket_id == ticket_id
    &&& m.user_id == author
    &&& m.content@ == data.body@
}

impl ReportsMutation {
    /// Checks a new report and builds its ticket and first message. Only
    /// reports on emotes (target kind 2) are taken. The ticket is open, of
    /// medium priority, about the emote, with the author as its only
    /// member, who has read the first message.
    pub fn create_report(data: &CreateReportInput, author: Id, ticket_id: Id, message_id: Id) -> (r: Result<(Ticket, TicketMessage), ApiError>)
        ensures
            data.target_kind != 2 ==> r == Err::<(Ticket, TicketMessage), ApiError>(not_implemented_error()),
            data.target_kind == 2 ==> (r matches Ok((t, m)) && new_report(*data, author, ticket_id, message_id, t, m)),
    {
        if data.target_kind != 2 {
            return Err(ApiError::not_implemented(ApiErrorCode::Unknown, "not implemented"));
        }
        let message = TicketMessage { id: message_id, ticket_id, user_id: author, content: data.body.clone() };
        let member = TicketMember { user_id: author, kind: TicketMemberKind::Member, notifications: true, last_read: Some(message_id) };
        let ticket = Ticket {
            id: ticket_id,
            priority: TicketPriority::Medium,
            members: vec![member],
            title: data.subject.clone(),
            kind: TicketKind::Abuse,
            targets: vec![TicketTarget::Emote(data.target_id)],
            author_id: author,
            open: true,
            locked: false,
        };
        assert(ticket.members@ =~= seq![member]);
        assert(ticket.targets@ =~= seq![TicketTarget::Emote(data.target_id)]);
        Ok((ticket, message))
    }

    /// What an edit asks of a ticket that is `open` or not: a priority by
    /// number, a status (which only changes the open state when it differs),
    /// an assignee change written `+id` or `-id`, and a note.
    pub fn edit_report(open: bool, data: &EditReportInput) -> (r: Result<ReportEdit, ApiError>)
        ensures
            edit_outcome(open, *data, r),
    {
        let new_priority = match data.priority {
            Some(p) => match TicketPriority::try_from_number(p) {
                Some(q) => Some(q),
                None => {
                    return Err(ApiError::bad_request(ApiErrorCode::BadRequest, "invalid ticket priority"));
                },
            },
            None => None,
        };
        let new_open = match data.status {
            Some(s) => {
                let new = s == ReportStatus::Open || s == ReportStatus::Assigned;
                if new != open { Some(new) } else { None }
            },
            None => None,
        };
        let member_change = match &data.assignee {
            Some(a) => match parse_assignee(a) {
                Some(c) => Some(c),
                None => {
                    return Err(ApiError::bad_request(ApiErrorCode::Unknown, "bad request"));
                },
            },
            None => None,
        };
        let note = match &data.note {
            Some(n) => Some(match &n.content {
                Some(c) => c.clone(),
                None => String::new(),
            }),
            None => None,
        };
        Ok(ReportEdit { new_priority, new_open, member_change, note })
    }
}

/// The members after a change: an added user joins as assigned, with
/// notifications on; a removed user leaves, in every role.
pub open spec fn members_after(members: Seq<TicketMember>, change: Option<MemberChange>) -> Seq<TicketMember> {
    match change {
        Some(MemberChange::Add(u)) => members.push(TicketMember { user_id: u, kind: TicketMemberKind::Assigned, notifications: true, last_read: None }),
        Some(MemberChange::Remove(u)) => members.filter(|m: TicketMember| m.user_id != u),
        None => members,
    }
}

/// The ticket after an edit is stored: open state and priority as asked,
/// members changed; the rest as it was.
pub open spec fn edited(t: Ticket, e: ReportEdit, r: Ticket) -> bool {
    &&& r.id == t.id
    &&& r.priority == (match e.new_priority {
        Some(p) => p,
        None => t.priority,
    })
    &&& r.open == (match e.new_open {
        Some(o) => o,
        None => t.open,
    })
    &&& r.members@ == members_after(t.members@, e.member_change)
    &&& r.title@ == t.title@
    &&& r.kind == t.kind
    &&& r.targets@ == t.targets@
    &&& r.author_id == t.author_id
    &&& r.locked == t.locked
}

/// Applies an edit to a ticket, as the stored update does.
pub fn apply_edit(t: &Ticket, e: &ReportEdit) -> (r: Ticket)
    ensures
        edited(*t, *e, r),
{
    let priority = match e.new_priority {
        Some(p) => p,
        None => t.priority,
    };
    let open = match e.new_open {
        Some(o) => o,
        None => t.open,
    };
    let mut members: Vec<TicketMember> = Vec::new();
    match e.member_change {
        Some(MemberChange::Add(u)) => {
            let mut i: usize = 0;
            while i < t.members.len()
                invariant
                    i <= t.members@.len(),
                    members@ == t.members@.subrange(0, i as int),
                decreases t.members@.len() - i,
            {
                members.push(t.members[i]);
                i = i + 1;
                assert(members@ =~= t.members@.subrange(0, i as int));
            }
            assert(t.members@.subrange(0, t.members@.len() as int) =~= t.members@);
            members.push(TicketMember { user_id: u, kind: TicketMemberKind::Assigned, notifications: true, last_read: None });
        },
        Some(MemberChange::Remove(u)) => {
            let mut i: usize = 0;
            while i < t.members.len()
                invariant
                    i <= t.members@.len(),
                    members@ == t.members@.subrange(0, i as int).filter(|m: TicketMember| m.user_id != u),
                decreases t.members@.len() - i,
            {
                let ghost pre = t.members@.subrange(0, i + 1);
                assert(pre.drop_last() =~= t.members@.subrange(0, i as int));
                proof {
                    reveal(Seq::filter);
                }
                if t.members[i].user_id != u {
                    members.push(t.members[i]);
                }
                i = i + 1;
            }
            assert(t.members@.subrange(0, t.members@.len() as int) =~= t.members@);
        },
        None => {
            let mut i: usize = 0;
            while i < t.members.len()
                invariant
                    i <= t.members@.len(),
                    members@ == t.members@.subrange(0, i as int),
                decreases t.members@.len() - i,
            {
                members.push(t.members[i]);
                i = i + 1;
                assert(members@ =~= t.members@.subrange(0, i as int));
            }
            assert(t.members@.subrange(0, t.members@.len() as int) =~= t.members@);
        },
    }
    let mut targets: Vec<TicketTarget> = Vec::new();
    let mut k: usize = 0;
    while k < t.targets.len()
        invariant
            k <= t.targets@.len(),
            targets@ == t.targets@.subrange(0, k as int),
        decreases t.targets@.len() - k,
    {
        targets.push(t.targets[k]);
        k = k + 1;
        assert(targets@ =~= t.targets@.subrange(0, k as int));
    }
    assert(t.targets@.subrange(0, t.targets@.len() as int) =~= t.targets@);
    Ticket {
        id: t.id,
        priority,
        members,
        title: t.title.clone(),
        kind: t.kind,
        targets,
        author_id: t.author_id,
        open,
        locked: t.locked,
    }
}

/// A change that an edit of a report records, in the order it is recorded.
#[derive(Clone, Copy, Debug, PartialEq, Eq, Structural)]
pub enum TicketChange {
    /// The priority changed. Both values are read from the ticket as it is
    /// after the edit, so `old` is the new priority too.
    Priority { old: TicketPriority, new: TicketPriority },
    /// The open state changed. As with the priority, `old` is read from the
    /// ticket after the edit.
    Open { old: bool, new: bool },
    /// A user was assigned.
    AddMember(Id),
    /// A user was unassigned.
    RemoveMember(Id),
    /// A note was written; the message is `note_message`.
    NoteCreated,
}

/// `x` alone when it is there, nothing otherwise.
pub open spec fn opt_change(x: Option<TicketChange>) -> Seq<TicketChange> {
    match x {
        Some(c) => seq![c],
        None => Seq::empty(),
    }
}

/// The changes an edit records, given the ticket after it: the priority,
/// the open state, the member change and the note, each when the edit
/// makes it.
pub open spec fn recorded_changes(after: Ticket, e: ReportEdit) -> Seq<TicketChange> {
    opt_change(
        match e.new_priority {
            Some(p) => Some(TicketChange::Priority { old: after.priority, new: p }),
            None => None,
        },
    ) + opt_change(
        match e.new_open {
            Some(o) => Some(TicketChange::Open { old: after.open, new: o }),
            None => None,
        },
    ) + opt_change(
        match e.member_change {
            Some(MemberChange::Add(u)) => Some(TicketChange::AddMember(u)),
            Some(MemberChange::Remove(u)) => Some(TicketChange::RemoveMember(u)),
            None => None,
        },
    ) + opt_change(
        match e.note {
            Some(_) => Some(TicketChange::NoteCreated),
            None => None,
        },
    )
}

impl ReportsMutation {
    /// The changes an edit records once the ticket is stored as `after`:
    /// the priority change, the open-state change, the member change and
    /// the note, in that order, each only when the edit makes it.
    pub fn edit_changes(after: &Ticket, e: &ReportEdit) -> (r: Vec<TicketChange>)
        ensures
            r@ == recorded_changes(*after, *e),
    {
        let mut r: Vec<TicketChange> = Vec::new();
        let ghost s0 = r@;
        if let Some(p) = e.new_priority {
            r.push(TicketChange::Priority { old: after.priority, new: p });
        }
        let ghost s1 = r@;
        if let Some(o) = e.new_open {
            r.push(TicketChange::Open { old: after.open, new: o });
        }
        let ghost s2 = r@;
        match e.member_change {
            Some(MemberChange::Add(u)) => r.push(TicketChange::AddMember(u)),
            Some(MemberChange::Remove(u)) => r.push(TicketChange::RemoveMember(u)),
            None => {},
        }
        let ghost s3 = r@;
        if e.note.is_some() {
            r.push(TicketChange::NoteCreated);
        }
        proof {
            let a = opt_change(
                match e.new_priority {
                    Some(p) => Some(TicketChange::Priority { old: after.priority, new: p }),
                    None => None,
                },
            );
            assert(s1 =~= a);
            let b = opt_change(
                match e.new_open {
                    Some(o) => Some(TicketChange::Open { old: after.open, new: o }),
                    None => None,
                },
            );
            assert(s2 =~= a + b);
            let c = opt_change(
                match e.member_change {
                    Some(MemberChange::Add(u)) => Some(TicketChange::AddMember(u)),
                    Some(MemberChange::Remove(u)) => Some(TicketChange::RemoveMember(u)),
                    None => None,
                },
            );
            assert(s3 =~= a + b + c);
            let d = opt_change(
                match e.note {
                    Some(_) => Some(TicketChange::NoteCreated),
                    None => None,
                },
            );
            assert(r@ =~= a + b + c + d);
        }
        r
    }

    /// The message a note of an edit writes: in the ticket, by the actor,
    /// with the note's text.
    pub fn note_message(ticket_id: Id, actor: Id, message_id: Id, e: &ReportEdit) -> (r: Option<TicketMessage>)
        ensures
            match e.note {
                Some(text) => r matches Some(m) && m.id == message_id && m.ticket_id == ticket_id && m.user_id == actor
                    && m.content@ == text@,
                None => r is None,
            },
    {
        match &e.note {
            Some(text) => Some(TicketMessage { id: message_id, ticket_id, user_id: actor, content: text.clone() }),
            None => None,
        }
    }
}

impl ReportsQuery {
    /// The listing of reports only knows open reports: any other status
    /// filter is not implemented.
    pub fn check_status_filter(status: Option<ReportStatus>) -> (r: Result<(), ApiError>)
        ensures
            r == (if status is None || status == Some(ReportStatus::Open) {
                Ok::<(), ApiError>(())
            } else {
                Err(not_implemented_error())
            }),
    {
        match status {
            None | Some(ReportStatus::Open) => Ok(()),
            _ => Err(ApiError::not_implemented(ApiErrorCode::Unknown, "not implemented")),
        }
    }

    /// Whether a single report lookup shows the ticket: it does unless the
    /// ticket is neither an abuse ticket nor about an emote first.
    pub fn shows_ticket(ticket: &Ticket) -> (r: bool)
        ensures
            r == !(ticket.kind != TicketKind::Abuse && !(ticket.targets@.len() > 0 && ticket.targets@[0] is Emote)),
    {
        let emote_first = ticket.targets.len() > 0 && match ticket.targets[0] {
            TicketTarget::Emote(_) => true,
            _ => false,
        };
        !(ticket.kind != TicketKind::Abuse && !emote_first)
    }
}

/// A new report reads back as filed: open, of medium priority, about the
/// emote, by its author, with the filed text as body, no notes and no
/// assignees.
pub proof fn created_report_reads_back(data: CreateReportInput, author: Id, ticket_id: Id, message_id: Id, t: Ticket, m: TicketMessage, rep: Report)
    requires
        new_report(data, author, ticket_id, message_id, t, m),
        report_of(t, seq![m], rep),
    ensures
        rep.id == ticket_id,
        rep.target_id == data.target_id,
        rep.actor_id == author,
        rep.subject@ == data.subject@,
        rep.body@ == data.body@,
        rep.status == ReportStatus::Open,
        rep.priority == 1,
        rep.notes@.len() == 0,
        rep.assignee_ids@.len() == 0,
{
    let msgs = seq![m];
    assert(is_body_pos(msgs, author, 0));
    let c = choose|k: int| is_body_pos(msgs, author, k);
    lemma_body_pos_unique(msgs, author, c, 0);
    assert(body_id(msgs, author) == Some(message_id));
    assert(msgs.drop_last() =~= Seq::<TicketMessage>::empty());
    assert(notes_of(Seq::<TicketMessage>::empty(), Some(message_id)) == Seq::<String>::empty());
    assert(msgs.last() == m);
    assert(notes_of(msgs, Some(message_id)) == Seq::<String>::empty());
    let mem = t.members@;
    assert(mem.drop_last() =~= Seq::<TicketMember>::empty());
    assert(assignees_of(Seq::<TicketMember>::empty()) == Seq::<Id>::empty());
    assert(mem.last() == mem[0]);
    assert(assignees_of(mem) == Seq::<Id>::empty());
    assert(!has_assignee(mem)) by {
        assert forall|i: int| 0 <= i < mem.len() implies (#[trigger] mem[i]).kind != TicketMemberKind::Assigned by {
            assert(i == 0);
        }
    }
}

/// Every user that `assignees_of` lists is a member with that id.
proof fn lemma_assignee_is_member(members: Seq<TicketMember>, u: Id)
    requires
        assignees_of(members).contains(u),
    ensures
        exists|i: int| 0 <= i < members.len() && (#[trigger] members[i]).user_id == u,
    decreases members.len(),
{
    let rest = members.drop_last();
    if members.last().kind == TicketMemberKind::Assigned && members.last().user_id == u {
        assert(members[members.len() - 1].user_id == u);
    } else {
        if members.last().kind == TicketMemberKind::Assigned {
            let k = choose|k: int| 0 <= k < assignees_of(members).len() && assignees_of(members)[k] == u;
            assert(assignees_of(members) == assignees_of(rest).push(members.last().user_id));
            assert(k < assignees_of(rest).len());
            assert(assignees_of(rest)[k] == u);
        }
        assert(assignees_of(rest).contains(u));
        lemma_assignee_is_member(rest, u);
        let i = choose|i: int| 0 <= i < rest.len() && (#[trigger] rest[i]).user_id == u;
        assert(members[i] == rest[i]);
    }
}

/// Assigning a user to an open report shows it assigned, with that user
/// last among the assignees.
pub proof fn assigning_shows_assigned(t: Ticket, e: ReportEdit, after: Ticket, msgs: Seq<TicketMessage>, rep: Report, u: Id)
    requires
        e.member_change == Some(MemberChange::Add(u)),
        after.open,
        edited(t, e, after),
        report_of(after, msgs, rep),
    ensures
        rep.status == ReportStatus::Assigned,
        rep.assignee_ids@.len() > 0,
        rep.assignee_ids@.last() == u,
{
    let m = TicketMember { user_id: u, kind: TicketMemberKind::Assigned, notifications: true, last_read: None };
    let mem = after.members@;
    assert(mem == t.members@.push(m));
    assert(mem.drop_last() =~= t.members@);
    assert(mem[mem.len() - 1] == m);
    assert(has_assignee(mem));
}

/// Unassigning a user leaves that user out of the report's assignees.
pub proof fn unassigning_removes_assignee(t: Ticket, e: ReportEdit, after: Ticket, msgs: Seq<TicketMessage>, rep: Report, u: Id)
    requires
        e.member_change == Some(MemberChange::Remove(u)),
        edited(t, e, after),
        report_of(after, msgs, rep),
    ensures
        !rep.assignee_ids@.contains(u),
{
    let mem = after.members@;
    assert(mem == t.members@.filter(|m: TicketMember| m.user_id != u));
    if rep.assignee_ids@.contains(u) {
        lemma_assignee_is_member(mem, u);
        let i = choose|i: int| 0 <= i < mem.len() && (#[trigger] mem[i]).user_id == u;
        t.members@.filter_lemma(|m: TicketMember| m.user_id != u);
        assert(mem.contains(mem[i]));
    }
}

/// Closing a report through an edit shows it closed.
pub proof fn closing_closes(t: Ticket, data: EditReportInput, e: ReportEdit, after: Ticket, msgs: Seq<TicketMessage>, rep: Report)
    requires
        data.status == Some(ReportStatus::Closed),
        edit_outcome(t.open, data, Ok(e)),
        edited(t, e, after),
        report_of(after, msgs, rep),
    ensures
        rep.status == ReportStatus::Closed,
{
}

} // verus!
