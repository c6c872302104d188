use seventv_api::audit::SYSTEM_USER_ID;
use seventv_api::error::{ApiErrorCode, StatusCode};
use seventv_api::ids::{format_id, id_timestamp_ms, id_with_timestamp_ms, parse_id};
use seventv_api::reports::{
    apply_edit, CreateReportInput, EditReportInput, EditReportNoteInput, MemberChange, Report, ReportStatus, ReportsMutation,
    ReportsQuery, Ticket, TicketChange, TicketKind, TicketMember, TicketMemberKind, TicketMessage, TicketPriority, TicketTarget,
};

#[test]
fn id_text_round_trips() {
    for id in [0u128, 1, 31, 32, SYSTEM_USER_ID, u128::MAX, 0x0123_4567_89ab_cdef_0123_4567_89ab_cdef] {
        let text = format_id(id);
        assert_eq!(text.len(), 26);
        assert_eq!(parse_id(&text), Some(id));
    }
}

#[test]
fn system_user_text_parses() {
    assert_eq!(parse_id("01FRG0ZGSR00084PQ73P1BYDX8"), Some(SYSTEM_USER_ID));
    assert_eq!(format_id(SYSTEM_USER_ID), "01FRG0ZGSR00084PQ73P1BYDX8");
    assert_eq!(parse_id("01frg0zgsr00084pq73p1bydx8"), Some(SYSTEM_USER_ID));
}

#[test]
fn id_text_edge_values() {
    assert_eq!(format_id(0), "00000000000000000000000000");
    assert_eq!(format_id(u128::MAX), "7ZZZZZZZZZZZZZZZZZZZZZZZZZ");
    assert_eq!(parse_id("7ZZZZZZZZZZZZZZZZZZZZZZZZZ"), Some(u128::MAX));
}

#[test]
fn bad_id_texts_are_refused() {
    // too long for 128 bits
    assert_eq!(parse_id("80000000000000000000000000"), None);
    // wrong length
    assert_eq!(parse_id("0000000000000000000000000"), None);
    assert_eq!(parse_id(""), None);
    // letters outside the alphabet
    assert_eq!(parse_id("0000000000000000000000000I"), None);
    assert_eq!(parse_id("0000000000000000000000000U"), None);
    assert_eq!(parse_id("000000000000000000000000-1"), None);
}

#[test]
fn id_timestamps() {
    let id = id_with_timestamp_ms(1_700_000_000_000);
    assert_eq!(id_timestamp_ms(id), 1_700_000_000_000);
    assert_eq!(id % (1u128 << 80), 0);
    assert_eq!(id_timestamp_ms(u128::MAX), (1u64 << 48) - 1);
}

fn member(user_id: u128, kind: TicketMemberKind) -> TicketMember {
    TicketMember { user_id, kind, notifications: true, last_read: None }
}

fn ticket(open: bool, members: Vec<TicketMember>, targets: Vec<TicketTarget>) -> Ticket {
    Ticket {
        id: 100,
        priority: TicketPriority::High,
        members,
        title: "spam".to_string(),
        kind: TicketKind::Abuse,
        targets,
        author_id: 7,
        open,
        locked: false,
    }
}

fn message(id: u128, user_id: u128, content: &str) -> TicketMessage {
    TicketMessage { id, ticket_id: 100, user_id, content: content.to_string() }
}

#[test]
fn report_body_is_the_authors_earliest_message() {
    let t = ticket(true, vec![member(7, TicketMemberKind::Member)], vec![TicketTarget::Emote(55)]);
    let msgs = vec![message(30, 7, "later"), message(10, 9, "moderator"), message(20, 7, "first"), message(20, 7, "same id")];
    let r = Report::from_db(&t, &msgs).unwrap();
    assert_eq!(r.body, "first");
    assert_eq!(r.notes, vec!["later".to_string(), "moderator".to_string()]);
    assert_eq!(r.target_id, 55);
    assert_eq!(r.target_kind, 2);
    assert_eq!(r.actor_id, 7);
    assert_eq!(r.subject, "spam");
    assert_eq!(r.priority, 2);
    assert_eq!(r.status, ReportStatus::Open);
    assert!(r.assignee_ids.is_empty());
}

#[test]
fn report_without_author_message_has_empty_body() {
    let t = ticket(true, vec![], vec![TicketTarget::Emote(55)]);
    let msgs = vec![message(3, 9, "a"), message(4, 10, "b")];
    let r = Report::from_db(&t, &msgs).unwrap();
    assert_eq!(r.body, "");
    assert_eq!(r.notes, vec!["a".to_string(), "b".to_string()]);
}

#[test]
fn report_status_and_assignees() {
    let members = vec![member(7, TicketMemberKind::Member), member(8, TicketMemberKind::Assigned), member(9, TicketMemberKind::Assigned)];
    let open = ticket(true, members.clone(), vec![TicketTarget::Emote(1)]);
    let r = Report::from_db(&open, &vec![]).unwrap();
    assert_eq!(r.status, ReportStatus::Assigned);
    assert_eq!(r.assignee_ids, vec![8, 9]);
    let closed = ticket(false, members, vec![TicketTarget::Emote(1)]);
    assert_eq!(Report::from_db(&closed, &vec![]).unwrap().status, ReportStatus::Closed);
}

#[test]
fn report_needs_an_emote_target_first() {
    assert!(Report::from_db(&ticket(true, vec![], vec![]), &vec![]).is_none());
    assert!(Report::from_db(&ticket(true, vec![], vec![TicketTarget::User(1), TicketTarget::Emote(2)]), &vec![]).is_none());
}

#[test]
fn create_report_only_for_emotes() {
    let data = CreateReportInput { target_kind: 1, target_id: 5, subject: "s".to_string(), body: "b".to_string() };
    let err = ReportsMutation::create_report(&data, 7, 100, 200).unwrap_err();
    assert_eq!(err.status, StatusCode::NotImplemented);
}

#[test]
fn created_report_reads_back() {
    let data = CreateReportInput { target_kind: 2, target_id: 5, subject: "bad emote".to_string(), body: "it is bad".to_string() };
    let (t, m) = ReportsMutation::create_report(&data, 7, 100, 200).unwrap();
    assert_eq!(t.priority, TicketPriority::Medium);
    assert!(t.open);
    let r = Report::from_db(&t, &vec![m]).unwrap();
    assert_eq!(r.id, 100);
    assert_eq!(r.target_id, 5);
    assert_eq!(r.subject, "bad emote");
    assert_eq!(r.body, "it is bad");
    assert_eq!(r.status, ReportStatus::Open);
    assert_eq!(r.priority, 1);
    assert!(r.notes.is_empty());
    assert!(r.assignee_ids.is_empty());
}

fn edit(priority: Option<i32>, status: Option<ReportStatus>, assignee: Option<&str>, note: Option<&str>) -> EditReportInput {
    EditReportInput {
        priority,
        status,
        assignee: assignee.map(|a| a.to_string()),
        note: note.map(|n| EditReportNoteInput { timestamp: None, content: Some(n.to_string()), internal: None, reply: None }),
    }
}

#[test]
fn edit_report_refuses_bad_input() {
    let e = ReportsMutation::edit_report(true, &edit(Some(9), None, None, None)).unwrap_err();
    assert_eq!((e.status, e.code, e.message), (StatusCode::BadRequest, ApiErrorCode::BadRequest, "invalid ticket priority"));
    let e = ReportsMutation::edit_report(true, &edit(None, None, Some("*01FRG0ZGSR00084PQ73P1BYDX8"), None)).unwrap_err();
    assert_eq!(e.status, StatusCode::BadRequest);
    let e = ReportsMutation::edit_report(true, &edit(None, None, Some("+notanid"), None)).unwrap_err();
    assert_eq!(e.status, StatusCode::BadRequest);
    assert!(ReportsMutation::edit_report(true, &edit(None, None, Some(""), None)).is_err());
}

#[test]
fn edit_report_plans_changes() {
    let e = ReportsMutation::edit_report(true, &edit(Some(3), Some(ReportStatus::Closed), Some("+01FRG0ZGSR00084PQ73P1BYDX8"), Some("looked at it")))
        .unwrap();
    assert_eq!(e.new_priority, Some(TicketPriority::Urgent));
    assert_eq!(e.new_open, Some(false));
    assert_eq!(e.member_change, Some(MemberChange::Add(SYSTEM_USER_ID)));
    assert_eq!(e.note.as_deref(), Some("looked at it"));
    // a status that keeps the open state changes nothing
    let e = ReportsMutation::edit_report(true, &edit(None, Some(ReportStatus::Assigned), Some("-01FRG0ZGSR00084PQ73P1BYDX8"), None)).unwrap();
    assert_eq!(e.new_open, None);
    assert_eq!(e.member_change, Some(MemberChange::Remove(SYSTEM_USER_ID)));
    assert_eq!(e.note, None);
    // a note without content adds an empty note
    let mut data = edit(None, None, None, None);
    data.note = Some(EditReportNoteInput { timestamp: None, content: None, internal: None, reply: None });
    assert_eq!(ReportsMutation::edit_report(false, &data).unwrap().note.as_deref(), Some(""));
}

#[test]
fn assigning_then_unassigning_a_report() {
    let t = ticket(true, vec![member(7, TicketMemberKind::Member)], vec![TicketTarget::Emote(1)]);
    let e = ReportsMutation::edit_report(true, &edit(None, None, Some("+01FRG0ZGSR00084PQ73P1BYDX8"), None)).unwrap();
    let t2 = apply_edit(&t, &e);
    let r = Report::from_db(&t2, &vec![]).unwrap();
    assert_eq!(r.status, ReportStatus::Assigned);
    assert_eq!(r.assignee_ids, vec![SYSTEM_USER_ID]);
    let e = ReportsMutation::edit_report(true, &edit(None, None, Some("-01FRG0ZGSR00084PQ73P1BYDX8"), None)).unwrap();
    let t3 = apply_edit(&t2, &e);
    let r = Report::from_db(&t3, &vec![]).unwrap();
    assert_eq!(r.status, ReportStatus::Open);
    assert!(r.assignee_ids.is_empty());
    assert_eq!(t3.members.len(), 1);
}

#[test]
fn closing_a_report() {
    let t = ticket(true, vec![member(8, TicketMemberKind::Assigned)], vec![TicketTarget::Emote(1)]);
    let e = ReportsMutation::edit_report(t.open, &edit(Some(0), Some(ReportStatus::Closed), None, None)).unwrap();
    let t2 = apply_edit(&t, &e);
    assert_eq!(t2.priority, TicketPriority::Low);
    assert_eq!(Report::from_db(&t2, &vec![]).unwrap().status, ReportStatus::Closed);
}

#[test]
fn report_queries() {
    assert!(ReportsQuery::check_status_filter(None).is_ok());
    assert!(ReportsQuery::check_status_filter(Some(ReportStatus::Open)).is_ok());
    assert_eq!(ReportsQuery::check_status_filter(Some(ReportStatus::Closed)).unwrap_err().status, StatusCode::NotImplemented);
    let mut t = ticket(true, vec![], vec![TicketTarget::User(1)]);
    assert!(ReportsQuery::shows_ticket(&t));
    t.kind = TicketKind::Billing;
    assert!(!ReportsQuery::shows_ticket(&t));
    t.targets = vec![TicketTarget::Emote(3)];
    assert!(ReportsQuery::shows_ticket(&t));
}

#[test]
fn ticket_priority_numbers() {
    for n in 0..4 {
        assert_eq!(TicketPriority::try_from_number(n).unwrap().number(), n);
    }
    assert_eq!(TicketPriority::try_from_number(-1), None);
    assert_eq!(TicketPriority::try_from_number(4), None);
}

#[test]
fn report_created_at() {
    let mut t = ticket(true, vec![], vec![TicketTarget::Emote(1)]);
    t.id = id_with_timestamp_ms(1234);
    assert_eq!(Report::from_db(&t, &vec![]).unwrap().created_at(), 1234);
}


#[test]
fn the_changes_an_edit_records() {
    let t = ticket(true, vec![member(7, TicketMemberKind::Member)], vec![TicketTarget::Emote(1)]);
    let e = ReportsMutation::edit_report(
        true,
        &edit(Some(3), Some(ReportStatus::Closed), Some("+01FRG0ZGSR00084PQ73P1BYDX8"), Some("looked at it")),
    )
    .unwrap();
    let after = apply_edit(&t, &e);
    assert_eq!(
        ReportsMutation::edit_changes(&after, &e),
        vec![
            TicketChange::Priority { old: TicketPriority::Urgent, new: TicketPriority::Urgent },
            TicketChange::Open { old: false, new: false },
            TicketChange::AddMember(SYSTEM_USER_ID),
            TicketChange::NoteCreated,
        ]
    );
    let m = ReportsMutation::note_message(after.id, 9, 77, &e).unwrap();
    assert_eq!((m.id, m.ticket_id, m.user_id, m.content.as_str()), (77, 100, 9, "looked at it"));
    let quiet = ReportsMutation::edit_report(true, &edit(None, Some(ReportStatus::Open), None, None)).unwrap();
    assert!(ReportsMutation::edit_changes(&t, &quiet).is_empty());
    assert!(ReportsMutation::note_message(t.id, 9, 77, &quiet).is_none());
    let unassign = ReportsMutation::edit_report(true, &edit(None, None, Some("-01FRG0ZGSR00084PQ73P1BYDX8"), None)).unwrap();
    assert_eq!(ReportsMutation::edit_changes(&t, &unassign), vec![TicketChange::RemoveMember(SYSTEM_USER_ID)]);
}
