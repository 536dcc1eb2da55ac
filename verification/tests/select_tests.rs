use emaild::clock::{Date, TimeOfDay};
use emaild::select::{
    get_access_token, get_articles, get_calendar_events, get_refresh_token, get_todays_events,
    select_pending_article, select_todays_events,
};
use emaild::store::{AdminRow, Article, ArticleRow, CalendarRow, Event, Subscriber};

fn day(year: i32, month: u32, day: u32) -> Date {
    Date::new(year, month, day).unwrap()
}

fn admin(email: &str, token: &str) -> AdminRow {
    AdminRow {
        subscriber: Subscriber { email: email.to_string(), subscription_policy: "1".to_string() },
        refresh_token: token.to_string(),
    }
}

fn article(id: i32, title: &str, expiry: Date, send_email: bool) -> ArticleRow {
    ArticleRow { id, title: title.to_string(), expiry, send_email }
}

fn event(id: i32, title: &str, date: Date, practice: bool) -> Event {
    Event {
        id,
        title: title.to_string(),
        date,
        start_time: TimeOfDay::new(18, 0).unwrap(),
        end_time: TimeOfDay::new(19, 30).unwrap(),
        practice,
    }
}

fn row(id: i32, title: &str, date: Date, practice: bool, send_email: bool) -> CalendarRow {
    CalendarRow { event: event(id, title, date, practice), send_email }
}

// 2024-01-01T00:00:00Z
const NEW_YEAR_2024: u64 = 1_704_067_200;

#[test]
fn refresh_token_is_that_of_the_first_row_that_has_one() {
    let rows = vec![admin("a@x.org", ""), admin("b@x.org", "first"), admin("c@x.org", "second")];
    assert_eq!(get_refresh_token(&rows), Some("first".to_string()));
}

#[test]
fn refresh_token_of_the_first_row() {
    let rows = vec![admin("a@x.org", "only"), admin("b@x.org", "")];
    assert_eq!(get_refresh_token(&rows), Some("only".to_string()));
}

#[test]
fn no_refresh_token_where_all_are_empty() {
    let rows = vec![admin("a@x.org", ""), admin("b@x.org", "")];
    assert_eq!(get_refresh_token(&rows), None);
    assert_eq!(get_refresh_token(&Vec::new()), None);
}

#[test]
fn access_token_is_what_the_exchange_gave() {
    let rows = vec![admin("a@x.org", ""), admin("b@x.org", "refresh")];
    assert_eq!(get_access_token(&rows, Some("access".to_string())), Some("access".to_string()));
}

#[test]
fn no_access_token_where_the_exchange_failed() {
    let rows = vec![admin("a@x.org", "refresh")];
    assert_eq!(get_access_token(&rows, None), None);
}

#[test]
fn no_access_token_without_a_refresh_token() {
    let rows = vec![admin("a@x.org", "")];
    assert_eq!(get_access_token(&rows, Some("access".to_string())), None);
}

#[test]
fn article_with_the_latest_future_expiry_is_picked() {
    let mut rows = vec![
        article(1, "Winter", day(2024, 2, 1), true),
        article(2, "Spring", day(2024, 6, 1), true),
        article(3, "Summer", day(2024, 4, 1), true),
    ];
    let picked = select_pending_article(&mut rows, NEW_YEAR_2024);
    assert_eq!(picked, Some(Article { id: 2, title: "Spring".to_string() }));
}

#[test]
fn picking_clears_the_flag_of_the_pick_alone() {
    let mut rows = vec![
        article(1, "Winter", day(2024, 2, 1), true),
        article(2, "Spring", day(2024, 6, 1), true),
        article(3, "Summer", day(2024, 4, 1), true),
        article(4, "Old", day(2023, 4, 1), true),
        article(5, "Sent", day(2024, 9, 1), false),
    ];
    select_pending_article(&mut rows, NEW_YEAR_2024);
    assert_eq!(
        rows,
        vec![
            article(1, "Winter", day(2024, 2, 1), true),
            article(2, "Spring", day(2024, 6, 1), false),
            article(3, "Summer", day(2024, 4, 1), true),
            article(4, "Old", day(2023, 4, 1), true),
            article(5, "Sent", day(2024, 9, 1), false),
        ]
    );
}

#[test]
fn expired_articles_are_never_picked() {
    let mut rows = vec![
        article(1, "Old", day(2023, 12, 31), true),
        article(2, "Older", day(2020, 1, 1), true),
    ];
    assert_eq!(select_pending_article(&mut rows, NEW_YEAR_2024), None);
    assert!(rows[0].send_email && rows[1].send_email);
}

#[test]
fn an_article_that_expires_this_very_second_is_not_picked() {
    let mut rows = vec![article(1, "Now", day(2024, 1, 1), true)];
    assert_eq!(select_pending_article(&mut rows, NEW_YEAR_2024), None);
    assert!(rows[0].send_email);
    let picked = select_pending_article(&mut rows, NEW_YEAR_2024 - 1);
    assert_eq!(picked, Some(Article { id: 1, title: "Now".to_string() }));
    assert!(!rows[0].send_email);
}

#[test]
fn articles_already_announced_are_not_picked() {
    let mut rows = vec![
        article(1, "Sent", day(2024, 9, 1), false),
        article(2, "Waiting", day(2024, 3, 1), true),
    ];
    let picked = select_pending_article(&mut rows, NEW_YEAR_2024);
    assert_eq!(picked, Some(Article { id: 2, title: "Waiting".to_string() }));
}

#[test]
fn of_articles_that_expire_together_the_first_is_picked() {
    let mut rows = vec![
        article(1, "First", day(2024, 6, 1), true),
        article(2, "Second", day(2024, 6, 1), true),
    ];
    let picked = select_pending_article(&mut rows, NEW_YEAR_2024);
    assert_eq!(picked, Some(Article { id: 1, title: "First".to_string() }));
    assert!(!rows[0].send_email);
    assert!(rows[1].send_email);
}

#[test]
fn nothing_is_picked_from_an_empty_table() {
    let mut rows: Vec<ArticleRow> = Vec::new();
    assert_eq!(select_pending_article(&mut rows, 0), None);
}

#[test]
fn get_articles_picks_as_of_now() {
    let mut rows = vec![
        article(1, "Past", day(1999, 1, 1), true),
        article(2, "Far", day(9999, 12, 31), true),
        article(3, "Nearer", day(9998, 12, 31), true),
    ];
    let picked = get_articles(&mut rows);
    assert_eq!(picked, Some(Article { id: 2, title: "Far".to_string() }));
    assert!(rows[0].send_email);
    assert!(!rows[1].send_email);
    assert!(rows[2].send_email);
}

#[test]
fn get_articles_leaves_expired_articles() {
    let mut rows = vec![article(1, "Past", day(1999, 1, 1), true)];
    assert_eq!(get_articles(&mut rows), None);
    assert!(rows[0].send_email);
}

#[test]
fn pending_events_are_handed_over_and_marked() {
    let mut rows = vec![
        row(1, "Practice", day(2024, 3, 3), true, true),
        row(2, "Concert", day(2020, 1, 1), false, true),
        row(3, "Announced", day(2024, 3, 10), true, false),
        row(4, "Picnic", day(2030, 7, 1), false, true),
    ];
    let events = get_calendar_events(&mut rows);
    assert_eq!(
        events,
        vec![
            event(1, "Practice", day(2024, 3, 3), true),
            event(2, "Concert", day(2020, 1, 1), false),
            event(4, "Picnic", day(2030, 7, 1), false),
        ]
    );
    assert_eq!(
        rows,
        vec![
            row(1, "Practice", day(2024, 3, 3), true, false),
            row(2, "Concert", day(2020, 1, 1), false, false),
            row(3, "Announced", day(2024, 3, 10), true, false),
            row(4, "Picnic", day(2030, 7, 1), false, false),
        ]
    );
}

#[test]
fn draining_twice_hands_over_nothing_more() {
    let mut rows = vec![row(1, "Practice", day(2024, 3, 3), true, true)];
    assert_eq!(get_calendar_events(&mut rows).len(), 1);
    assert_eq!(get_calendar_events(&mut rows).len(), 0);
}

#[test]
fn todays_events_are_those_of_the_day() {
    let rows = vec![
        row(1, "Practice", day(2024, 3, 3), true, true),
        row(2, "Concert", day(2024, 3, 4), false, true),
        row(3, "Mass", day(2024, 3, 3), false, false),
    ];
    let events = select_todays_events(&rows, &day(2024, 3, 3));
    assert_eq!(
        events,
        vec![event(1, "Practice", day(2024, 3, 3), true), event(3, "Mass", day(2024, 3, 3), false)]
    );
    assert!(rows[0].send_email);
    assert!(select_todays_events(&rows, &day(2024, 3, 5)).is_empty());
}

#[test]
fn get_todays_events_goes_by_the_local_date() {
    let today = Date::today().unwrap();
    let other = if today.same_day(&day(2001, 1, 1)) { day(2001, 1, 2) } else { day(2001, 1, 1) };
    let rows = vec![row(1, "Today", today, true, false), row(2, "Other", other, true, true)];
    let events = get_todays_events(&rows);
    if Date::today().unwrap().same_day(&today) {
        assert_eq!(events, vec![event(1, "Today", today, true)]);
    }
}
