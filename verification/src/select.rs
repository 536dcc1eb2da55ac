//! What is due: the refresh token, the article to announce, the pending
//! calendar events and today's events.

use vstd::prelude::*;
use crate::clock::{seconds_since_epoch, Date};
use crate::store::{AdminRow, Article, ArticleRow, CalendarRow, Event};

verus! {

/// Row `i` is the first of `rows` that holds a refresh token.
pub open spec fn is_first_token(rows: Seq<AdminRow>, i: int) -> bool {
    &&& 0 <= i < rows.len()
    &&& rows[i].refresh_token@.len() > 0
    &&& forall|j: int| 0 <= j < i ==> rows[j].refresh_token@.len() == 0
}

/// The refresh token to use: that of the first row, in the order given, whose
/// token is not empty.  There is none where every row's token is empty.
pub fn get_refresh_token(admin: &Vec<AdminRow>) -> (token: Option<String>)
    ensures
        match token {
            Some(t) => exists|i: int| is_first_token(admin@, i) && t@ == admin@[i].refresh_token@,
            None => forall|i: int| 0 <= i < admin@.len() ==> admin@[i].refresh_token@.len() == 0,
        },
{
    let n = admin.len();
    let mut i: usize = 0;
    while i < n
        invariant
            i <= n,
            n == admin.len(),
            forall|j: int| 0 <= j < i ==> admin@[j].refresh_token@.len() == 0,
        decreases n - i,
    {
        if !admin[i].refresh_token.as_str().is_empty() {
            assert(is_first_token(admin@, i as int));
            return Some(admin[i].refresh_token.clone());
        }
        i += 1;
    }
    None
}

/// The access token of a run.  `exchanged` is what the mail provider gave in
/// exchange for the refresh token, `None` where the exchange failed.  Without a
/// refresh token there is nothing to exchange, and no access token.
pub fn get_access_token(admin: &Vec<AdminRow>, exchanged: Option<String>) -> (token: Option<
    String,
>)
    ensures
        token == if exists|i: int| is_first_token(admin@, i) {
            exchanged
        } else {
            None
        },
{
    match get_refresh_token(admin) {
        Some(_) => exchanged,
        None => {
            assert forall|i: int| !is_first_token(admin@, i) by {}
            None
        },
    }
}

/// `row` waits to be announced and expires after `now`, both in seconds since
/// the start of 1970; an article expires at the midnight (UTC) that begins its
/// expiry day.
pub open spec fn eligible(row: ArticleRow, now: int) -> bool {
    row.send_email && row.expiry.spec_midnight() > now
}

/// Row `i` is the article to announce: it is eligible, no eligible row expires
/// later, and every eligible row before it expires earlier.
pub open spec fn is_pick(rows: Seq<ArticleRow>, now: int, i: int) -> bool {
    &&& 0 <= i < rows.len()
    &&& eligible(rows[i], now)
    &&& forall|j: int|
        0 <= j < rows.len() && eligible(rows[j], now) ==> rows[j].expiry.spec_midnight()
            <= rows[i].expiry.spec_midnight()
    &&& forall|j: int|
        0 <= j < i && eligible(rows[j], now) ==> rows[j].expiry.spec_midnight()
            < rows[i].expiry.spec_midnight()
}

/// The article picked has not expired, and, where no other waiting article
/// expires on the same day as the pick, every other article that waits and has
/// not expired expires before it.
pub proof fn lemma_pick_expires_last(rows: Seq<ArticleRow>, now: int, i: int, j: int)
    requires
        is_pick(rows, now, i),
        0 <= j < rows.len(),
        j != i,
        eligible(rows[j], now),
        forall|k: int|
            0 <= k < rows.len() && k != i && eligible(rows[k], now)
                ==> rows[k].expiry.spec_midnight() != rows[i].expiry.spec_midnight(),
    ensures
        rows[i].expiry.spec_midnight() > now,
        rows[j].expiry.spec_midnight() < rows[i].expiry.spec_midnight(),
{
}

/// `row` with its flag cleared: the article counts as announced.
pub open spec fn article_sent(row: ArticleRow) -> ArticleRow {
    ArticleRow { send_email: false, ..row }
}

/// What selecting at time `now` makes of the table `before`: where no row is
/// eligible, nothing is picked and nothing changes; otherwise the pick is
/// handed back and its flag, and no other, is cleared.
pub open spec fn article_selected(
    before: Seq<ArticleRow>,
    now: int,
    picked: Option<Article>,
    after: Seq<ArticleRow>,
) -> bool {
    match picked {
        None => {
            &&& after == before
            &&& forall|j: int| 0 <= j < before.len() ==> !eligible(before[j], now)
        },
        Some(article) => exists|i: int|
            {
                &&& is_pick(before, now, i)
                &&& article.id == before[i].id
                &&& article.title@ == before[i].title@
                &&& after == before.update(i, article_sent(before[i]))
            },
    }
}

/// Picks the article to announce at time `now` (seconds since the start of
/// 1970) and marks it as sent: among the rows that still wait and expire after
/// `now`, the one that expires last, and of several such the first.
pub fn select_pending_article(articles: &mut Vec<ArticleRow>, now: u64) -> (picked: Option<
    Article,
>)
    ensures
        article_selected(old(articles)@, now as int, picked, final(articles)@),
{
    let n = articles.len();
    let mut best: Option<usize> = None;
    let mut expiry: i64 = 0;
    let mut i: usize = 0;
    while i < n
        invariant
            i <= n,
            n == articles.len(),
            expiry >= 0,
            best is None ==> expiry == 0 && forall|j: int|
                0 <= j < i ==> !eligible(articles@[j], now as int),
            best matches Some(b) ==> {
                &&& b < i
                &&& eligible(articles@[b as int], now as int)
                &&& expiry == articles@[b as int].expiry.spec_midnight()
                &&& forall|j: int|
                    0 <= j < i && eligible(articles@[j], now as int)
                        ==> articles@[j].expiry.spec_midnight() <= expiry
                &&& forall|j: int|
                    0 <= j < b && eligible(articles@[j], now as int)
                        ==> articles@[j].expiry.spec_midnight() < expiry
            },
        decreases n - i,
    {
        if articles[i].send_email {
            let this_expiry = articles[i].expiry.midnight();
            if this_expiry > expiry && now < this_expiry as u64 {
                expiry = this_expiry;
                best = Some(i);
            }
        }
        i += 1;
    }
    match best {
        None => None,
        Some(b) => {
            let article = Article { id: articles[b].id, title: articles[b].title.clone() };
            articles[b].send_email = false;
            assert(is_pick(old(articles)@, now as int, b as int));
            Some(article)
        },
    }
}

/// Picks the article to announce now and marks it as sent.  The time is read
/// from the system clock; where it cannot be read, nothing is picked.
pub fn get_articles(articles: &mut Vec<ArticleRow>) -> (picked: Option<Article>)
    ensures
        (picked is None && final(articles)@ == old(articles)@) || exists|now: int|
            0 <= now && article_selected(old(articles)@, now, picked, final(articles)@),
{
    match seconds_since_epoch() {
        Some(now) => select_pending_article(articles, now),
        None => None,
    }
}

/// `row` with its flag cleared: the event counts as announced.
pub open spec fn event_sent(row: CalendarRow) -> CalendarRow {
    CalendarRow { send_email: false, ..row }
}

/// The events of the rows that wait to be announced, in table order.
pub open spec fn pending_events(rows: Seq<CalendarRow>) -> Seq<Event> {
    rows.filter(|row: CalendarRow| row.send_email).map_values(|row: CalendarRow| row.event)
}

/// The table with every flag cleared.
pub open spec fn drained(rows: Seq<CalendarRow>) -> Seq<CalendarRow> {
    rows.map_values(|row: CalendarRow| event_sent(row))
}

/// Hands back every event that waits to be announced, whatever its date, and
/// marks each as sent.
pub fn get_calendar_events(calendar: &mut Vec<CalendarRow>) -> (events: Vec<Event>)
    ensures
        events@ == pending_events(old(calendar)@),
        final(calendar)@ == drained(old(calendar)@),
{
    let n = calendar.len();
    let mut events: Vec<Event> = Vec::new();
    let mut i: usize = 0;
    assert(old(calendar)@.take(0) =~= Seq::<CalendarRow>::empty());
    assert(events@ =~= pending_events(old(calendar)@.take(0)));
    while i < n
        invariant
            i <= n,
            n == calendar.len(),
            n == old(calendar).len(),
            events@ == pending_events(old(calendar)@.take(i as int)),
            forall|j: int| 0 <= j < i ==> calendar@[j] == event_sent(old(calendar)@[j]),
            forall|j: int| i <= j < n ==> calendar@[j] == old(calendar)@[j],
        decreases n - i,
    {
        proof {
            reveal(Seq::filter);
            assert(old(calendar)@.take(i + 1).drop_last() =~= old(calendar)@.take(i as int));
        }
        if calendar[i].send_email {
            events.push(calendar[i].event.clone());
            calendar[i].send_email = false;
        }
        assert(events@ =~= pending_events(old(calendar)@.take(i + 1)));
        i += 1;
    }
    assert(old(calendar)@.take(n as int) =~= old(calendar)@);
    assert(calendar@ =~= drained(old(calendar)@));
    events
}

/// The events of the rows dated `day`, in table order.
pub open spec fn events_on(rows: Seq<CalendarRow>, day: Date) -> Seq<Event> {
    rows.filter(|row: CalendarRow| row.event.date == day).map_values(|row: CalendarRow| row.event)
}

/// Hands back the events that take place on `today`, announced or not.  Nothing
/// is marked.
pub fn select_todays_events(calendar: &Vec<CalendarRow>, today: &Date) -> (events: Vec<Event>)
    ensures
        events@ == events_on(calendar@, *today),
{
    let n = calendar.len();
    let mut events: Vec<Event> = Vec::new();
    let mut i: usize = 0;
    assert(calendar@.take(0) =~= Seq::<CalendarRow>::empty());
    assert(events@ =~= events_on(calendar@.take(0), *today));
    while i < n
        invariant
            i <= n,
            n == calendar.len(),
            events@ == events_on(calendar@.take(i as int), *today),
        decreases n - i,
    {
        proof {
            reveal(Seq::filter);
            assert(calendar@.take(i + 1).drop_last() =~= calendar@.take(i as int));
        }
        if calendar[i].event.date.same_day(today) {
            events.push(calendar[i].event.clone());
        }
        assert(events@ =~= events_on(calendar@.take(i + 1), *today));
        i += 1;
    }
    assert(calendar@.take(n as int) =~= calendar@);
    events
}

/// Hands back the events that take place today, by the local date of the
/// machine.  Where the clock cannot be read, or the date is none a `Date` can
/// hold, there are no events.
pub fn get_todays_events(calendar: &Vec<CalendarRow>) -> (events: Vec<Event>)
    ensures
        events@.len() == 0 || exists|today: Date| events@ == events_on(calendar@, today),
{
    match Date::today() {
        Some(today) => select_todays_events(calendar, &today),
        None => Vec::new(),
    }
}

} // verus!
