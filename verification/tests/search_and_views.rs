use seventv_api::emote_sets::{EmoteSet, EmoteSetEmote, EmoteSetKind};
use seventv_api::error::StatusCode;
use seventv_api::ids::format_id;
use seventv_api::search::{EmoteSearchCategory, EmoteSearchFilter, EmoteSearchSort, EmoteSearchSortOrder, EmotesQuery, UsersQuery};
use seventv_api::subscriptions::{
    InvoiceStatus, PayOutcome, ProductVariant, SubscriptionPeriodKind, SubscriptionProductKind, UsersMutation,
};
use seventv_api::user_ops::CosmeticKind;
use seventv_api::views::{sort_ids, EmoteSetName, EmoteSetsQuery, UserCosmetic, UserPartial};

fn filter() -> EmoteSearchFilter {
    EmoteSearchFilter {
        category: None,
        case_sensitive: None,
        exact_match: None,
        ignore_tags: None,
        animated: None,
        zero_width: None,
        authentic: None,
        aspect_ratio: None,
        personal_use: None,
    }
}

#[test]
fn plain_emote_search() {
    let p = EmotesQuery::emotes_search(&"pepe".to_string(), None, None, &None, &None, false).unwrap();
    assert_eq!(p.query, "pepe");
    assert_eq!(p.page, Some(1));
    assert_eq!(p.per_page, Some(30));
    assert_eq!(p.filter_by, "deleted: false && flag_public_listed: true && flag_private: false");
    assert_eq!(p.sort_by, vec!["_text_match(buckets: 10):desc".to_string()]);
    assert_eq!(p.query_by, vec!["default_name".to_string()]);
    assert_eq!(p.prefix, vec!["true".to_string()]);
    assert_eq!(p.query_by_weights, vec![4]);
}

#[test]
fn emote_search_with_filter() {
    let mut f = filter();
    f.category = Some(EmoteSearchCategory::TrendingWeek);
    f.animated = Some(true);
    f.zero_width = Some(false);
    f.personal_use = Some(true);
    f.exact_match = Some(true);
    let sort = EmoteSearchSort { value: "popularity".to_string(), order: EmoteSearchSortOrder::Ascending };
    let p = EmotesQuery::emotes_search(&"pe`pe\\".to_string(), Some(0), Some(10), &Some(f), &Some(sort), true).unwrap();
    assert_eq!(p.page, Some(1));
    assert_eq!(p.per_page, Some(10));
    assert_eq!(
        p.filter_by,
        "deleted: false && flag_animated: true && flag_approved_personal: true && default_name: `pepe` && score_trending_week:>0"
    );
    assert_eq!(p.sort_by, vec!["_text_match(buckets: 10):desc".to_string(), "score_trending_week:asc".to_string()]);
    assert_eq!(p.query_by, vec!["default_name".to_string(), "tags".to_string()]);
    assert_eq!(p.prefix, vec!["true".to_string(), "false".to_string()]);
    assert_eq!(p.query_by_weights, vec![4, 1]);
}

#[test]
fn emote_search_categories() {
    let cases = [
        (None, "score_top_all_time:desc", None),
        (Some(EmoteSearchCategory::Top), "score_top_all_time:desc", None),
        (Some(EmoteSearchCategory::Featured), "score_trending_day:desc", Some("score_trending_day:>0")),
        (Some(EmoteSearchCategory::TrendingDay), "score_trending_day:desc", Some("score_trending_day:>0")),
        (Some(EmoteSearchCategory::TrendingMonth), "score_trending_month:desc", Some("score_trending_month:>0")),
        (Some(EmoteSearchCategory::New), "created_at:desc", None),
    ];
    for (cat, sort, extra) in cases {
        let mut f = filter();
        f.category = cat;
        f.ignore_tags = Some(true);
        let p = EmotesQuery::emotes_search(&String::new(), Some(3), None, &Some(f), &None, true).unwrap();
        assert_eq!(p.page, Some(3));
        assert_eq!(p.sort_by[1], sort);
        let expected = match extra {
            Some(e) => format!("deleted: false && {e}"),
            None => "deleted: false".to_string(),
        };
        assert_eq!(p.filter_by, expected);
        assert_eq!(p.query_by, vec!["default_name".to_string()]);
    }
}

#[test]
fn exact_match_needs_a_query() {
    let mut f = filter();
    f.exact_match = Some(true);
    let p = EmotesQuery::emotes_search(&String::new(), None, None, &Some(f), &None, true).unwrap();
    assert_eq!(p.filter_by, "deleted: false");
}

#[test]
fn global_emote_search_is_not_offered() {
    let mut f = filter();
    f.category = Some(EmoteSearchCategory::Global);
    let e = EmotesQuery::emotes_search(&"x".to_string(), None, None, &Some(f), &None, false).unwrap_err();
    assert_eq!((e.status, e.message), (StatusCode::NotImplemented, "global emote search is not implemented"));
}

#[test]
fn search_result_pages() {
    assert_eq!(EmotesQuery::result_pages(0, 30), (0, 1));
    assert_eq!(EmotesQuery::result_pages(95, 30), (95, 4));
    assert_eq!(EmotesQuery::result_pages(100_000, 10), (100_000, 100));
    assert_eq!(EmotesQuery::result_pages((1u64 << 32) + 5, 1), (5, 6));
}

#[test]
fn trending_rank_counts_from_one() {
    let list = vec![5, 9, 7, 9];
    assert_eq!(EmotesQuery::trending_rank(&list, 5), Some(1));
    assert_eq!(EmotesQuery::trending_rank(&list, 9), Some(2));
    assert_eq!(EmotesQuery::trending_rank(&list, 8), None);
}

#[test]
fn channel_and_user_searches() {
    let p = EmotesQuery::channels_search(1, Some(2), None);
    assert_eq!(p.filter_by, format!("emotes: {}", format_id(1)));
    assert_eq!(p.filter_by, "emotes: 00000000000000000000000001");
    assert_eq!(p.per_page, Some(30));
    assert_eq!(p.sort_by, vec!["role_hoist_rank:desc".to_string()]);
    let u = UsersQuery::users_search(&"forsen".to_string(), None, Some(5));
    assert_eq!(u.query, "forsen");
    assert_eq!(u.query_by_weights, vec![4, 1, 1, 1]);
    assert_eq!(u.sort_by, vec!["_text_match(buckets: 10):desc".to_string(), "role_rank:desc".to_string()]);
    assert_eq!(u.per_page, Some(5));
}

#[test]
fn ids_sort_ascending() {
    assert_eq!(sort_ids(&vec![3, 1, 2, 1]), vec![1, 1, 2, 3]);
    assert_eq!(sort_ids(&vec![]), Vec::<u128>::new());
}

#[test]
fn cosmetics_list_paints_then_badges() {
    let r = UsersQuery::user_cosmetics(&vec![9, 4], &vec![2, 8], Some(9), Some(8));
    assert_eq!(
        r,
        vec![
            UserCosmetic { id: 4, selected: false, kind: CosmeticKind::Paint },
            UserCosmetic { id: 9, selected: true, kind: CosmeticKind::Paint },
            UserCosmetic { id: 2, selected: false, kind: CosmeticKind::Badge },
            UserCosmetic { id: 8, selected: true, kind: CosmeticKind::Badge },
        ]
    );
}

#[test]
fn user_view_helpers() {
    assert_eq!(UsersQuery::user_roles(&vec![1, 2, 3]), vec![3, 2, 1]);
    assert_eq!(UsersQuery::connection_capacity(None), 0);
    assert_eq!(UsersQuery::connection_capacity(Some(-3)), 0);
    assert_eq!(UsersQuery::connection_capacity(Some(600)), 600);
    let d = UserPartial::deleted_user();
    assert_eq!((d.id, d.username.as_str(), d.display_name.as_str()), (0, "*DeletedUser", "*DeletedUser"));
    let u = UserPartial::from_db(5, Some(("name".to_string(), "Name".to_string(), Some("a.png".to_string()))), None);
    assert_eq!((u.username.as_str(), u.display_name.as_str(), u.avatar_url.as_str()), ("name", "Name", "a.png"));
    let u = UserPartial::from_db(5, None, Some("p.webp".to_string()));
    assert_eq!((u.username.as_str(), u.avatar_url.as_str()), ("", "p.webp"));
}

fn set_with(n: usize) -> EmoteSet {
    let emotes = (0..n)
        .map(|i| EmoteSetEmote { id: i as u128, alias: format!("e{i}"), added_by_id: None, added_at: 0, zero_width: false, origin_set_id: None })
        .collect();
    EmoteSet { id: 1, owner_id: None, name: "set".to_string(), capacity: Some(10), emotes, kind: EmoteSetKind::Normal }
}

#[test]
fn emote_set_listing() {
    let s = set_with(3);
    assert_eq!(EmoteSetsQuery::shown_emotes(&s, Some(2)).len(), 2);
    assert_eq!(EmoteSetsQuery::shown_emotes(&s, None).len(), 3);
    assert_eq!(EmoteSetsQuery::shown_emotes(&s, Some(0)).len(), 0);
    assert_eq!(EmoteSetsQuery::emote_count(&s), 3);
    assert_eq!(EmoteSetsQuery::named_set_id(EmoteSetName::Global, 77), 77);
    assert!(EmoteSetsQuery::found_set(Some(set_with(0))).is_ok());
    assert_eq!(EmoteSetsQuery::found_set(None).unwrap_err().message, "emote set not found");
}

fn variant(id: &str, kind: SubscriptionProductKind, active: bool) -> ProductVariant {
    ProductVariant { id: id.to_string(), kind, active }
}

#[test]
fn subscription_period_variant() {
    let vs = vec![
        variant("m-old", SubscriptionProductKind::Monthly, false),
        variant("y", SubscriptionProductKind::Yearly, true),
        variant("m", SubscriptionProductKind::Monthly, true),
    ];
    assert_eq!(UsersMutation::period_variant(&vs, SubscriptionPeriodKind::Monthly), Ok(2));
    assert_eq!(UsersMutation::period_variant(&vs, SubscriptionPeriodKind::Yearly), Ok(1));
    let e = UsersMutation::period_variant(&vs[..1].to_vec(), SubscriptionPeriodKind::Monthly).unwrap_err();
    assert_eq!((e.status, e.message), (StatusCode::NotFound, "product variant not found"));
}

#[test]
fn invoice_payer_choice() {
    let c = Some("cus_1".to_string());
    let m = Some("pm_1".to_string());
    let s = Some("src_1".to_string());
    assert_eq!(UsersMutation::invoice_payer(&c, &m, &s).unwrap(), ("cus_1".to_string(), "pm_1".to_string()));
    assert_eq!(UsersMutation::invoice_payer(&c, &None, &s).unwrap(), ("cus_1".to_string(), "src_1".to_string()));
    assert_eq!(UsersMutation::invoice_payer(&c, &None, &None).unwrap_err().message, "customer does not have a payment method set");
    assert_eq!(UsersMutation::invoice_payer(&None, &m, &s).unwrap_err().status, StatusCode::BadRequest);
}

#[test]
fn invoice_payment_outcomes() {
    assert!(UsersMutation::should_pay(Some(InvoiceStatus::Open)));
    assert!(!UsersMutation::should_pay(Some(InvoiceStatus::Paid)));
    assert!(!UsersMutation::should_pay(None));
    assert_eq!(UsersMutation::status_after_payment(Some(InvoiceStatus::Open), PayOutcome::Paid(Some(InvoiceStatus::Paid))), Ok(Some(InvoiceStatus::Paid)));
    assert_eq!(UsersMutation::status_after_payment(Some(InvoiceStatus::Open), PayOutcome::CardDeclined), Ok(Some(InvoiceStatus::Open)));
    assert_eq!(UsersMutation::status_after_payment(Some(InvoiceStatus::Open), PayOutcome::Failed).unwrap_err().message, "failed to pay invoice");
    let r = UsersMutation::invoiced_response("in_1".to_string(), Some(InvoiceStatus::Open)).unwrap();
    assert!(r.success && r.payment_declined);
    assert_eq!(r.invoice_id.as_deref(), Some("in_1"));
    let r = UsersMutation::invoiced_response("in_1".to_string(), Some(InvoiceStatus::Paid)).unwrap();
    assert!(!r.payment_declined);
    assert_eq!(UsersMutation::invoiced_response("in_1".to_string(), None).unwrap_err().message, "invoice status is missing");
    let g = UsersMutation::granted_response();
    assert!(g.success && !g.payment_declined && g.invoice_id.is_none());
}

#[test]
fn a_period_granted_without_invoice() {
    let v = ProductVariant { id: "price_1".to_string(), kind: SubscriptionProductKind::Monthly, active: true };
    let p = UsersMutation::granted_period(11, &v, 22, 33, 1000, 2000, "gift from staff".to_string());
    assert_eq!((p.id, p.variant_id.as_str(), p.start, p.end), (11, "price_1", 1000, 2000));
    assert!(!p.is_trial && !p.auto_renew && p.gifted_by.is_none());
    assert_eq!(p.reason.as_deref(), Some("gift from staff"));
    assert_eq!((p.product_id, p.user_id), (22, 33));
}
