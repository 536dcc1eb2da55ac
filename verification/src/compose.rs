//! The three notices: their wording, and the emails that carry them.

use vstd::prelude::*;
use vstd::string::*;
use crate::store::{Event, Outbound, OutboundView};

verus! {

/// The lines every notice closes with.
pub open spec fn signature() -> Seq<char> {
    "Thank you and God Bless!\r\n\r\nJustus"@
}

/// Item `i` of an English listing of `items`, with what joins it to the items
/// before it: a lone item ends in a full stop; otherwise the first item stands
/// bare, a middle item follows ", `word` " and the last follows ", and `word` "
/// and ends in a full stop.
pub open spec fn listing_entry(items: Seq<Seq<char>>, word: Seq<char>, i: int) -> Seq<char> {
    if items.len() == 1 {
        items[i] + "."@
    } else if i == items.len() - 1 {
        ", and "@ + word + " "@ + items[i] + "."@
    } else if i == 0 {
        items[i]
    } else {
        ", "@ + word + " "@ + items[i]
    }
}

/// The first `count` entries of the English listing of `items`.
pub open spec fn listing_upto(items: Seq<Seq<char>>, word: Seq<char>, count: int) -> Seq<char>
    decreases count,
{
    if count <= 0 {
        Seq::<char>::empty()
    } else {
        listing_upto(items, word, count - 1) + listing_entry(items, word, count - 1)
    }
}

/// The English listing of `items`: "A.", "A, and `word` B.", "A, `word` B, and
/// `word` C.", and so on.
pub open spec fn listing(items: Seq<Seq<char>>, word: Seq<char>) -> Seq<char> {
    listing_upto(items, word, items.len() as int)
}

/// Writes `items` as an English listing.
pub fn listing_text(items: &Vec<String>, word: &str) -> (r: String)
    ensures
        r@ == listing(items.deep_view(), word@),
{
    let mut out = String::new();
    let n = items.len();
    let mut i: usize = 0;
    while i < n
        invariant
            i <= n,
            n == items.len(),
            out@ == listing_upto(items.deep_view(), word@, i as int),
        decreases n - i,
    {
        let ghost before = out@;
        let item = items[i].as_str();
        assert(items.deep_view()[i as int] == item@);
        if n == 1 {
            out.append(item);
            out.append(".");
        } else if i == n - 1 {
            out.append(", and ");
            out.append(word);
            out.append(" ");
            out.append(item);
            out.append(".");
        } else if i == 0 {
            out.append(item);
        } else {
            out.append(", ");
            out.append(word);
            out.append(" ");
            out.append(item);
        }
        assert(out@ =~= before + listing_entry(items.deep_view(), word@, i as int));
        i += 1;
    }
    out
}

/// When an event takes place: its day, then ", from " its start " to " its end.
pub open spec fn when_phrase(date: Seq<char>, start: Seq<char>, end: Seq<char>) -> Seq<char> {
    date + ", from "@ + start + " to "@ + end
}

/// Writes when an event takes place.
pub fn when_text(date: &str, start: &str, end: &str) -> (r: String)
    ensures
        r@ == when_phrase(date@, start@, end@),
{
    let mut out = String::from_str(date);
    out.append(", from ");
    out.append(start);
    out.append(" to ");
    out.append(end);
    assert(out@ =~= when_phrase(date@, start@, end@));
    out
}

/// The sentence that announces the one event that is no practice.
pub open spec fn also_sentence(title: Seq<char>, when: Seq<char>) -> Seq<char> {
    " Also, the upcoming "@ + title + " will be on "@ + when + "."@
}

/// Writes the sentence that announces the one event that is no practice.
pub fn also_text(title: &str, when: &str) -> (r: String)
    ensures
        r@ == also_sentence(title@, when@),
{
    let mut out = String::from_str(" Also, the upcoming ");
    out.append(title);
    out.append(" will be on ");
    out.append(when);
    out.append(".");
    assert(out@ =~= also_sentence(title@, when@));
    out
}

/// The sentence that lists the practices, each given by when it takes place:
/// nothing without a practice, "practice" for one and "practices" for more.
pub open spec fn practice_sentence(practices: Seq<Seq<char>>) -> Seq<char> {
    if practices.len() == 0 {
        Seq::<char>::empty()
    } else {
        "This month's choir practice"@ + (if practices.len() > 1 {
            "s"@
        } else {
            Seq::<char>::empty()
        }) + " will be on "@ + listing(practices, "on"@)
    }
}

/// A single practice is announced as "This month's choir practice will be on
/// <when>.", with nothing joining.
pub proof fn lemma_one_practice(when: Seq<char>)
    ensures
        practice_sentence(seq![when]) == "This month's choir practice will be on "@ + when + "."@,
{
    reveal_with_fuel(listing_upto, 2);
    reveal_strlit("This month's choir practice");
    reveal_strlit(" will be on ");
    reveal_strlit(".");
    reveal_strlit("This month's choir practice will be on ");
    assert(practice_sentence(seq![when]) =~= "This month's choir practice will be on "@ + when
        + "."@);
}

/// Two practices are announced as "This month's choir practices will be on
/// <first>, and on <second>.": a comma and "and" join the last practice, and
/// nothing else joins.
pub proof fn lemma_two_practices(first: Seq<char>, second: Seq<char>)
    ensures
        practice_sentence(seq![first, second]) == "This month's choir practices will be on "@
            + first + ", and on "@ + second + "."@,
{
    reveal_with_fuel(listing_upto, 3);
    reveal_strlit("This month's choir practice");
    reveal_strlit("s");
    reveal_strlit(" will be on ");
    reveal_strlit(", and ");
    reveal_strlit("on");
    reveal_strlit(" ");
    reveal_strlit(".");
    reveal_strlit("This month's choir practices will be on ");
    reveal_strlit(", and on ");
    assert(practice_sentence(seq![first, second])
        =~= "This month's choir practices will be on "@ + first + ", and on "@ + second + "."@);
}

/// The body of the calendar notice: the greeting, the practices, the sentence on
/// the other event (empty where there is none) and the signature.
pub open spec fn calendar_body(practices: Seq<Seq<char>>, also: Seq<char>) -> Seq<char> {
    "Hi everybody, \r\n"@ + practice_sentence(practices) + also + "\r\n"@ + signature()
}

/// Writes the body of the calendar notice from its rendered parts.
pub fn calendar_text(practices: &Vec<String>, also: &str) -> (r: String)
    ensures
        r@ == calendar_body(practices.deep_view(), also@),
{
    let mut out = String::from_str("Hi everybody, \r\n");
    if practices.len() > 0 {
        out.append("This month's choir practice");
        if practices.len() > 1 {
            out.append("s");
        }
        out.append(" will be on ");
        let list = listing_text(practices, "on");
        out.append(list.as_str());
    }
    out.append(also);
    out.append("\r\n");
    out.append("Thank you and God Bless!\r\n\r\nJustus");
    assert(out@ =~= calendar_body(practices.deep_view(), also@));
    out
}

/// One of today's events as the reminder names it.
pub open spec fn reminder_line(title: Seq<char>, start: Seq<char>, end: Seq<char>) -> Seq<char> {
    title + " from "@ + start + " to "@ + end
}

/// Writes one of today's events as the reminder names it.
pub fn reminder_line_text(title: &str, start: &str, end: &str) -> (r: String)
    ensures
        r@ == reminder_line(title@, start@, end@),
{
    let mut out = String::from_str(title);
    out.append(" from ");
    out.append(start);
    out.append(" to ");
    out.append(end);
    assert(out@ =~= reminder_line(title@, start@, end@));
    out
}

/// The body of the reminder: the opening, today's events and the signature.
pub open spec fn reminder_body(lines: Seq<Seq<char>>) -> Seq<char> {
    "Hi,\r\nI just wanted to remind you that today we will be having our "@ + listing(
        lines,
        "our"@,
    ) + "\r\n"@ + signature()
}

/// The reminder of three events of today reads "... having our <first>, our
/// <second>, and our <third>.": commas join, and "and" joins the last.
pub proof fn lemma_three_reminders(first: Seq<char>, second: Seq<char>, third: Seq<char>)
    ensures
        reminder_body(seq![first, second, third])
            == "Hi,\r\nI just wanted to remind you that today we will be having our "@ + first
            + ", our "@ + second + ", and our "@ + third + "."@ + "\r\n"@ + signature(),
{
    reveal_with_fuel(listing_upto, 4);
    reveal_strlit(", ");
    reveal_strlit(", and ");
    reveal_strlit("our");
    reveal_strlit(" ");
    reveal_strlit(".");
    reveal_strlit(", our ");
    reveal_strlit(", and our ");
    assert(listing(seq![first, second, third], "our"@) =~= first + ", our "@ + second
        + ", and our "@ + third + "."@);
    assert(reminder_body(seq![first, second, third])
        =~= "Hi,\r\nI just wanted to remind you that today we will be having our "@ + first
        + ", our "@ + second + ", and our "@ + third + "."@ + "\r\n"@ + signature());
}

/// Writes the body of the reminder from its rendered lines.
pub fn reminder_text(lines: &Vec<String>) -> (r: String)
    ensures
        r@ == reminder_body(lines.deep_view()),
{
    let mut out = String::from_str(
        "Hi,\r\nI just wanted to remind you that today we will be having our ",
    );
    let list = listing_text(lines, "our");
    out.append(list.as_str());
    out.append("\r\n");
    out.append("Thank you and God Bless!\r\n\r\nJustus");
    assert(out@ =~= reminder_body(lines.deep_view()));
    out
}

/// The body of the notice on a new article.
pub open spec fn article_body(title: Seq<char>) -> Seq<char> {
    "Hi everyone,\r\nThe "@ + title
        + " are available on the Children's Choir website at olmmcc [dot] tk. "@ + signature()
}

/// Writes the body of the notice on a new article.
pub fn article_text(title: &str) -> (r: String)
    ensures
        r@ == article_body(title@),
{
    let mut out = String::from_str("Hi everyone,\r\nThe ");
    out.append(title);
    out.append(" are available on the Children's Choir website at olmmcc [dot] tk. ");
    out.append("Thank you and God Bless!\r\n\r\nJustus");
    assert(out@ =~= article_body(title@));
    out
}

/// When `event` takes place, as the calendar notice words it.
pub open spec fn event_when(event: Event) -> Seq<char> {
    when_phrase(
        event.date.spec_long_text(),
        event.start_time.spec_text(),
        event.end_time.spec_text(),
    )
}

/// Writes when `event` takes place, as the calendar notice words it.
pub fn event_when_text(event: &Event) -> (r: String)
    ensures
        r@ == event_when(*event),
{
    let day = event.date.long_text();
    let start = event.start_time.text();
    let end = event.end_time.text();
    when_text(day.as_str(), start.as_str(), end.as_str())
}

/// `event` as the reminder names it.
pub open spec fn event_line(event: Event) -> Seq<char> {
    reminder_line(event.title@, event.start_time.spec_text(), event.end_time.spec_text())
}

/// Writes `event` as the reminder names it.
pub fn event_line_text(event: &Event) -> (r: String)
    ensures
        r@ == event_line(*event),
{
    let start = event.start_time.text();
    let end = event.end_time.text();
    reminder_line_text(event.title.as_str(), start.as_str(), end.as_str())
}

/// The practices among `events`, in order.
pub open spec fn practices(events: Seq<Event>) -> Seq<Event> {
    events.filter(|e: Event| e.practice)
}

/// The events among `events` that are no practice, in order.
pub open spec fn others(events: Seq<Event>) -> Seq<Event> {
    events.filter(|e: Event| !e.practice)
}

/// When each practice among `events` takes place.
pub open spec fn practice_phrases(events: Seq<Event>) -> Seq<Seq<char>> {
    practices(events).map_values(|e: Event| event_when(e))
}

/// The sentence on the first event among `events` that is no practice; empty
/// where every event is a practice.  Later such events are not announced.
pub open spec fn also_of(events: Seq<Event>) -> Seq<char> {
    if others(events).len() > 0 {
        also_sentence(others(events)[0].title@, event_when(others(events)[0]))
    } else {
        Seq::<char>::empty()
    }
}

/// The body of the calendar notice for `events`.
pub open spec fn calendar_notice(events: Seq<Event>) -> Seq<char> {
    calendar_body(practice_phrases(events), also_of(events))
}

/// The calendar notice for `events`, or nothing where there is no event or
/// nobody to send it to.
pub open spec fn calendar_email_of(recipients: Seq<Seq<char>>, events: Seq<Event>) -> Option<
    OutboundView,
> {
    if events.len() == 0 || recipients.len() == 0 {
        None
    } else {
        Some(
            OutboundView {
                recipients,
                subject: "Upcoming Children's Choir Events"@,
                body: calendar_notice(events),
            },
        )
    }
}

/// Composes the notice on the pending calendar events: every practice is
/// listed, and of the other events only the first.  No email comes of an empty
/// batch, nor of an empty recipient list.
pub fn calendar_email(email_list: Vec<String>, events: &Vec<Event>) -> (r: Option<Outbound>)
    ensures
        r is None <==> events@.len() == 0 || email_list@.len() == 0,
        r.deep_view() == calendar_email_of(email_list.deep_view(), events@),
{
    let n = events.len();
    if n == 0 || email_list.len() == 0 {
        return None;
    }
    let mut phrases: Vec<String> = Vec::new();
    let mut also = String::new();
    let mut found = false;
    let mut i: usize = 0;
    assert(events@.take(0) =~= Seq::<Event>::empty());
    assert(phrases.deep_view() =~= practice_phrases(events@.take(0)));
    while i < n
        invariant
            i <= n,
            n == events.len(),
            phrases.deep_view() == practice_phrases(events@.take(i as int)),
            found == (others(events@.take(i as int)).len() > 0),
            also@ == also_of(events@.take(i as int)),
        decreases n - i,
    {
        let event = &events[i];
        let ghost seen = events@.take(i as int);
        let ghost next = events@.take(i + 1);
        proof {
            reveal(Seq::filter);
            assert(next.drop_last() =~= seen);
            assert(next.last() == *event);
        }
        if event.practice {
            let ghost before = phrases.deep_view();
            let when = event_when_text(event);
            phrases.push(when);
            assert(phrases.deep_view() =~= before.push(event_when(*event)));
            assert(practice_phrases(next) =~= practice_phrases(seen).push(event_when(*event)));
        } else if !found {
            let when = event_when_text(event);
            also = also_text(event.title.as_str(), when.as_str());
            found = true;
            assert(others(next) =~= seq![*event]);
        } else {
            assert(others(next)[0] == others(seen)[0]);
        }
        i += 1;
    }
    assert(events@.take(n as int) =~= events@);
    let body = calendar_text(&phrases, also.as_str());
    Some(
        Outbound {
            recipients: email_list,
            subject: String::from_str("Upcoming Children's Choir Events"),
            body,
        },
    )
}

/// Today's events as the reminder names them.
pub open spec fn reminder_lines(events: Seq<Event>) -> Seq<Seq<char>> {
    events.map_values(|e: Event| event_line(e))
}

/// The reminder of today's events, or nothing where today has none or there is
/// nobody to remind.
pub open spec fn reminder_email_of(recipients: Seq<Seq<char>>, events: Seq<Event>) -> Option<
    OutboundView,
> {
    if events.len() == 0 || recipients.len() == 0 {
        None
    } else {
        Some(
            OutboundView {
                recipients,
                subject: "Today's Children's Choir Events"@,
                body: reminder_body(reminder_lines(events)),
            },
        )
    }
}

/// Composes the reminder of today's events.  No email comes of a day without
/// events, nor of an empty recipient list.
pub fn reminder_email(reminder_list: Vec<String>, todays_events: &Vec<Event>) -> (r: Option<
    Outbound,
>)
    ensures
        r is None <==> todays_events@.len() == 0 || reminder_list@.len() == 0,
        r.deep_view() == reminder_email_of(reminder_list.deep_view(), todays_events@),
{
    let n = todays_events.len();
    if n == 0 || reminder_list.len() == 0 {
        return None;
    }
    let mut lines: Vec<String> = Vec::new();
    let mut i: usize = 0;
    assert(lines.deep_view() =~= reminder_lines(todays_events@.take(0)));
    while i < n
        invariant
            i <= n,
            n == todays_events.len(),
            lines.deep_view() == reminder_lines(todays_events@.take(i as int)),
        decreases n - i,
    {
        let event = &todays_events[i];
        let ghost before = lines.deep_view();
        let line = event_line_text(event);
        lines.push(line);
        assert(lines.deep_view() =~= before.push(event_line(*event)));
        assert(reminder_lines(todays_events@.take(i + 1)) =~= reminder_lines(
            todays_events@.take(i as int),
        ).push(event_line(*event)));
        i += 1;
    }
    assert(todays_events@.take(n as int) =~= todays_events@);
    let body = reminder_text(&lines);
    Some(
        Outbound {
            recipients: reminder_list,
            subject: String::from_str("Today's Children's Choir Events"),
            body,
        },
    )
}

/// The notice on the article `title`, or nothing where no article was picked or
/// there is nobody to send it to.
pub open spec fn article_email_of(recipients: Seq<Seq<char>>, title: Option<Seq<char>>) -> Option<
    OutboundView,
> {
    match title {
        Some(title) if recipients.len() > 0 => Some(
            OutboundView { recipients, subject: title, body: article_body(title) },
        ),
        _ => None,
    }
}

/// Composes the notice on a newly available article, with the title as
/// subject.  No email comes of no title, nor of an empty recipient list.
pub fn article_email(email_list: Vec<String>, title: Option<String>) -> (r: Option<Outbound>)
    ensures
        r is None <==> title is None || email_list@.len() == 0,
        r.deep_view() == article_email_of(email_list.deep_view(), title.deep_view()),
{
    if email_list.len() == 0 {
        return None;
    }
    match title {
        None => None,
        Some(title) => {
            let body = article_text(title.as_str());
            Some(Outbound { recipients: email_list, subject: title, body })
        },
    }
}

} // verus!
