use emaild::clock::{Date, TimeOfDay};
use emaild::compose::{
    also_text, article_email, article_text, calendar_email, calendar_text, listing_text,
    reminder_email, reminder_line_text, reminder_text, when_text,
};
use emaild::store::{Event, Outbound};

const SIGNATURE: &str = "Thank you and God Bless!\r\n\r\nJustus";

fn strings(list: &[&str]) -> Vec<String> {
    list.iter().map(|s| s.to_string()).collect()
}

fn event(id: i32, title: &str, date: (i32, u32, u32), start: (u32, u32), end: (u32, u32), practice: bool) -> Event {
    Event {
        id,
        title: title.to_string(),
        date: Date::new(date.0, date.1, date.2).unwrap(),
        start_time: TimeOfDay::new(start.0, start.1).unwrap(),
        end_time: TimeOfDay::new(end.0, end.1).unwrap(),
        practice,
    }
}

#[test]
fn listing_of_nothing_is_empty() {
    assert_eq!(listing_text(&Vec::new(), "on"), "");
}

#[test]
fn listing_of_one_item_ends_in_a_full_stop() {
    assert_eq!(listing_text(&strings(&["A"]), "on"), "A.");
}

#[test]
fn listing_of_two_items_joins_with_comma_and() {
    assert_eq!(listing_text(&strings(&["A", "B"]), "on"), "A, and on B.");
}

#[test]
fn listing_of_more_items_joins_with_commas() {
    assert_eq!(listing_text(&strings(&["A", "B", "C"]), "our"), "A, our B, and our C.");
    assert_eq!(
        listing_text(&strings(&["A", "B", "C", "D"]), "on"),
        "A, on B, on C, and on D."
    );
}

#[test]
fn when_text_gives_day_and_hours() {
    assert_eq!(
        when_text("Sunday, March 1", "9:00 AM", "10:30 AM"),
        "Sunday, March 1, from 9:00 AM to 10:30 AM"
    );
}

#[test]
fn also_text_names_the_event() {
    assert_eq!(
        also_text("Spring Concert", "Friday, May 3, from 7:00 PM to 9:00 PM"),
        " Also, the upcoming Spring Concert will be on Friday, May 3, from 7:00 PM to 9:00 PM."
    );
}

#[test]
fn calendar_text_for_one_practice() {
    let body = calendar_text(&strings(&["one"]), "");
    assert_eq!(
        body,
        format!("Hi everybody, \r\nThis month's choir practice will be on one.\r\n{}", SIGNATURE)
    );
}

#[test]
fn calendar_text_for_two_practices() {
    let body = calendar_text(&strings(&["one", "two"]), "");
    assert_eq!(
        body,
        format!(
            "Hi everybody, \r\nThis month's choir practices will be on one, and on two.\r\n{}",
            SIGNATURE
        )
    );
}

#[test]
fn calendar_text_for_practices_and_another_event() {
    let body = calendar_text(&strings(&["one", "two", "three"]), " Also.");
    assert_eq!(
        body,
        format!(
            "Hi everybody, \r\nThis month's choir practices will be on one, on two, and on three. Also.\r\n{}",
            SIGNATURE
        )
    );
}

#[test]
fn calendar_text_without_a_practice() {
    let body = calendar_text(&Vec::new(), " Also.");
    assert_eq!(body, format!("Hi everybody, \r\n Also.\r\n{}", SIGNATURE));
}

#[test]
fn reminder_line_text_gives_title_and_hours() {
    assert_eq!(reminder_line_text("Mass", "9:00 AM", "10:00 AM"), "Mass from 9:00 AM to 10:00 AM");
}

#[test]
fn reminder_text_for_three_events() {
    let body = reminder_text(&strings(&["Mass", "Practice", "Concert"]));
    assert_eq!(
        body,
        format!(
            "Hi,\r\nI just wanted to remind you that today we will be having our Mass, our Practice, and our Concert.\r\n{}",
            SIGNATURE
        )
    );
}

#[test]
fn reminder_text_for_one_event() {
    let body = reminder_text(&strings(&["Mass"]));
    assert_eq!(
        body,
        format!(
            "Hi,\r\nI just wanted to remind you that today we will be having our Mass.\r\n{}",
            SIGNATURE
        )
    );
}

#[test]
fn article_text_announces_the_title() {
    assert_eq!(
        article_text("Spring Concert Program"),
        format!(
            "Hi everyone,\r\nThe Spring Concert Program are available on the Children's Choir website at olmmcc [dot] tk. {}",
            SIGNATURE
        )
    );
}

#[test]
fn article_email_has_the_title_as_subject() {
    let email = article_email(strings(&["a@x.org"]), Some("Spring Concert Program".to_string()));
    assert_eq!(
        email,
        Some(Outbound {
            recipients: strings(&["a@x.org"]),
            subject: "Spring Concert Program".to_string(),
            body: format!(
                "Hi everyone,\r\nThe Spring Concert Program are available on the Children's Choir website at olmmcc [dot] tk. {}",
                SIGNATURE
            ),
        })
    );
}

#[test]
fn no_article_email_without_a_title() {
    assert_eq!(article_email(strings(&["a@x.org"]), None), None);
}

#[test]
fn no_calendar_email_for_an_empty_batch() {
    assert_eq!(calendar_email(strings(&["a@x.org"]), &Vec::new()), None);
}

#[test]
fn calendar_email_for_one_practice() {
    let events = vec![event(1, "Practice", (2020, 3, 1), (9, 0), (10, 30), true)];
    let email = calendar_email(strings(&["a@x.org", "b@x.org"]), &events).unwrap();
    assert_eq!(email.recipients, strings(&["a@x.org", "b@x.org"]));
    assert_eq!(email.subject, "Upcoming Children's Choir Events");
    assert_eq!(
        email.body,
        format!(
            "Hi everybody, \r\nThis month's choir practice will be on Sunday, March 1, from 9:00 AM to 10:30 AM.\r\n{}",
            SIGNATURE
        )
    );
}

#[test]
fn calendar_email_for_two_practices() {
    let events = vec![
        event(1, "Practice", (2020, 3, 1), (9, 0), (10, 30), true),
        event(2, "Practice", (2020, 3, 8), (13, 15), (14, 0), true),
    ];
    let email = calendar_email(strings(&["a@x.org"]), &events).unwrap();
    assert_eq!(
        email.body,
        format!(
            "Hi everybody, \r\nThis month's choir practices will be on Sunday, March 1, from 9:00 AM to 10:30 AM, and on Sunday, March 8, from 1:15 PM to 2:00 PM.\r\n{}",
            SIGNATURE
        )
    );
}

#[test]
fn calendar_email_announces_only_the_first_other_event() {
    let events = vec![
        event(1, "Spring Concert", (2020, 3, 7), (19, 0), (21, 0), false),
        event(2, "Practice", (2020, 3, 1), (9, 0), (10, 30), true),
        event(3, "Picnic", (2020, 3, 14), (12, 0), (15, 0), false),
        event(4, "Practice", (2020, 3, 8), (9, 0), (10, 30), true),
        event(5, "Practice", (2020, 3, 15), (9, 0), (10, 30), true),
    ];
    let email = calendar_email(strings(&["a@x.org"]), &events).unwrap();
    assert_eq!(
        email.body,
        format!(
            "Hi everybody, \r\nThis month's choir practices will be on Sunday, March 1, from 9:00 AM to 10:30 AM, on Sunday, March 8, from 9:00 AM to 10:30 AM, and on Sunday, March 15, from 9:00 AM to 10:30 AM. Also, the upcoming Spring Concert will be on Saturday, March 7, from 7:00 PM to 9:00 PM.\r\n{}",
            SIGNATURE
        )
    );
    assert!(!email.body.contains("Picnic"));
}

#[test]
fn calendar_email_without_a_practice() {
    let events = vec![event(1, "Spring Concert", (2020, 3, 7), (19, 0), (21, 0), false)];
    let email = calendar_email(strings(&["a@x.org"]), &events).unwrap();
    assert_eq!(
        email.body,
        format!(
            "Hi everybody, \r\n Also, the upcoming Spring Concert will be on Saturday, March 7, from 7:00 PM to 9:00 PM.\r\n{}",
            SIGNATURE
        )
    );
}

#[test]
fn no_reminder_email_for_a_day_without_events() {
    assert_eq!(reminder_email(strings(&["a@x.org"]), &Vec::new()), None);
}

#[test]
fn reminder_email_for_three_events() {
    let events = vec![
        event(1, "Mass", (2020, 3, 1), (9, 0), (10, 0), false),
        event(2, "Practice", (2020, 3, 1), (10, 15), (11, 45), true),
        event(3, "Concert", (2020, 3, 1), (19, 0), (21, 30), false),
    ];
    let email = reminder_email(strings(&["r@x.org"]), &events).unwrap();
    assert_eq!(email.recipients, strings(&["r@x.org"]));
    assert_eq!(email.subject, "Today's Children's Choir Events");
    assert_eq!(
        email.body,
        format!(
            "Hi,\r\nI just wanted to remind you that today we will be having our Mass from 9:00 AM to 10:00 AM, our Practice from 10:15 AM to 11:45 AM, and our Concert from 7:00 PM to 9:30 PM.\r\n{}",
            SIGNATURE
        )
    );
}

#[test]
fn reminder_email_for_two_events() {
    let events = vec![
        event(1, "Mass", (2020, 3, 1), (9, 0), (10, 0), false),
        event(2, "Practice", (2020, 3, 1), (12, 0), (0, 5), true),
    ];
    let email = reminder_email(strings(&["r@x.org"]), &events).unwrap();
    assert_eq!(
        email.body,
        format!(
            "Hi,\r\nI just wanted to remind you that today we will be having our Mass from 9:00 AM to 10:00 AM, and our Practice from 12:00 PM to 12:05 AM.\r\n{}",
            SIGNATURE
        )
    );
}

#[test]
fn no_article_email_without_recipients() {
    assert_eq!(article_email(Vec::new(), Some("Spring Concert Program".to_string())), None);
    assert_eq!(article_email(Vec::new(), None), None);
}

#[test]
fn no_calendar_email_without_recipients() {
    let events = vec![event(1, "Practice", (2020, 3, 1), (9, 0), (10, 30), true)];
    assert_eq!(calendar_email(Vec::new(), &events), None);
    assert_eq!(calendar_email(Vec::new(), &Vec::new()), None);
}

#[test]
fn no_reminder_email_without_recipients() {
    let events = vec![event(1, "Mass", (2020, 3, 1), (9, 0), (10, 0), false)];
    assert_eq!(reminder_email(Vec::new(), &events), None);
    assert_eq!(reminder_email(Vec::new(), &Vec::new()), None);
}
