//! One run of the notifier: gather what is due, then send or give up.

use vstd::prelude::*;
use vstd::string::*;
use crate::clock::Date;
use crate::compose::{
    article_email,
    article_email_of,
    calendar_email,
    calendar_email_of,
    reminder_email,
    reminder_email_of,
};
use crate::recipients::{
    everyone_codes,
    get_email_list,
    get_reminder_list,
    is_recipient_list,
    reminder_codes,
};
use crate::select::{
    article_selected,
    drained,
    events_on,
    get_access_token,
    get_articles,
    get_calendar_events,
    get_todays_events,
    is_first_token,
    pending_events,
    select_pending_article,
    select_todays_events,
};
use crate::store::{Article, Event, Outbound, OutboundView, Store};

verus! {

/// Where a run stands.
#[derive(Clone, Copy, Debug, PartialEq, Eq, Structural)]
pub enum Phase {
    /// The tables are being read.
    Fetching,
    /// The emails are on their way.
    Sending,
    /// Every email was handed over.
    Done,
    /// There was no access token; nothing is sent.
    Failed,
}

/// What the fetching phase brings together.
#[derive(Debug, PartialEq, Eq)]
pub struct Gathered {
    pub access_token: Option<String>,
    pub article: Option<Article>,
    pub email_list: Vec<String>,
    pub events: Vec<Event>,
    pub todays_events: Vec<Event>,
    pub reminder_list: Vec<String>,
}

/// What the caller reports back to the run.
#[derive(Debug, PartialEq, Eq)]
pub enum Signal {
    /// Every read has completed.
    Fetched(Gathered),
    /// Every send has completed.
    Sent,
}

/// What the run asks of the caller.
#[derive(Debug, PartialEq, Eq)]
pub enum Action {
    /// Hand these emails to the mail provider, under this access token.
    Send { emails: Vec<Outbound>, access_token: String },
    /// Print this line.
    Report { message: String },
    /// Nothing.
    Rest,
}

/// None or one.
pub open spec fn option_seq<T>(value: Option<T>) -> Seq<T> {
    match value {
        Some(v) => seq![v],
        None => Seq::<T>::empty(),
    }
}

/// The title of the picked article, as text.
pub open spec fn title_of(article: Option<Article>) -> Option<Seq<char>> {
    match article {
        Some(a) => Some(a.title@),
        None => None,
    }
}

/// The emails of a run: the article notice and the calendar notice to
/// everyone, the reminder to those who asked for reminders; each only where
/// there is something to say and somebody to say it to, in this order.
pub open spec fn planned_emails(gathered: Gathered) -> Seq<OutboundView> {
    option_seq(article_email_of(gathered.email_list.deep_view(), title_of(gathered.article)))
        + option_seq(calendar_email_of(gathered.email_list.deep_view(), gathered.events@))
        + option_seq(
        reminder_email_of(gathered.reminder_list.deep_view(), gathered.todays_events@),
    )
}

/// The step a run takes from `phase` on `signal`.  Once everything is fetched,
/// a run with an access token goes on to send its emails, and a run without one
/// fails with the line "Error" and sends nothing.  Once everything is sent the
/// run is done.  A signal out of turn changes nothing.
pub open spec fn advanced(phase: Phase, signal: Signal, next: (Phase, Action)) -> bool {
    match (phase, signal) {
        (Phase::Fetching, Signal::Fetched(gathered)) => match gathered.access_token {
            Some(token) => {
                &&& next.0 == Phase::Sending
                &&& next.1 matches Action::Send { emails, access_token }
                &&& access_token == token
                &&& emails.deep_view() == planned_emails(gathered)
            },
            None => {
                &&& next.0 == Phase::Failed
                &&& next.1 matches Action::Report { message }
                &&& message@ == "Error"@
            },
        },
        (Phase::Sending, Signal::Sent) => next.0 == Phase::Done && next.1 is Rest,
        _ => next.0 == phase && next.1 is Rest,
    }
}

/// A copy of `list`.
fn copy_list(list: &Vec<String>) -> (r: Vec<String>)
    ensures
        r.deep_view() == list.deep_view(),
{
    let mut out: Vec<String> = Vec::new();
    let n = list.len();
    let mut i: usize = 0;
    while i < n
        invariant
            i <= n,
            n == list.len(),
            out.len() == i,
            forall|j: int| 0 <= j < i ==> out@[j]@ == list@[j]@,
        decreases n - i,
    {
        out.push(list[i].clone());
        i += 1;
    }
    assert(out.deep_view() =~= list.deep_view());
    out
}

/// Takes the step from `phase` on `signal`.
pub fn advance(phase: Phase, signal: Signal) -> (next: (Phase, Action))
    ensures
        advanced(phase, signal, next),
{
    match phase {
        Phase::Fetching => match signal {
            Signal::Fetched(gathered) => {
                let Gathered {
                    access_token,
                    article,
                    email_list,
                    events,
                    todays_events,
                    reminder_list,
                } = gathered;
                match access_token {
                    None => (Phase::Failed, Action::Report { message: String::from_str("Error") }),
                    Some(token) => {
                        let title = match article {
                            Some(a) => Some(a.title),
                            None => None,
                        };
                        let mut emails: Vec<Outbound> = Vec::new();
                        let everyone = copy_list(&email_list);
                        let ghost first = option_seq(
                            article_email_of(email_list.deep_view(), title.deep_view()),
                        );
                        let ghost second = option_seq(
                            calendar_email_of(email_list.deep_view(), events@),
                        );
                        let ghost third = option_seq(
                            reminder_email_of(reminder_list.deep_view(), todays_events@),
                        );
                        match article_email(everyone, title) {
                            Some(email) => {
                                emails.push(email);
                            },
                            None => {},
                        }
                        assert(emails.deep_view() =~= first);
                        match calendar_email(email_list, &events) {
                            Some(email) => {
                                emails.push(email);
                            },
                            None => {},
                        }
                        assert(emails.deep_view() =~= first + second);
                        match reminder_email(reminder_list, &todays_events) {
                            Some(email) => {
                                emails.push(email);
                            },
                            None => {},
                        }
                        assert(emails.deep_view() =~= first + second + third);
                        (Phase::Sending, Action::Send { emails, access_token: token })
                    },
                }
            },
            Signal::Sent => (phase, Action::Rest),
        },
        Phase::Sending => match signal {
            Signal::Sent => (Phase::Done, Action::Rest),
            Signal::Fetched(_) => (phase, Action::Rest),
        },
        _ => (phase, Action::Rest),
    }
}

/// What gathering leaves of the tables `before` and brings together, apart
/// from the article and today's events: `admin` and `users` stay as they are;
/// the access token is `exchanged` where there is a refresh token, and none
/// otherwise; the two recipient lists are resolved; every pending event is
/// handed over and marked as sent.
pub open spec fn gathered_parts(
    before: Store,
    exchanged: Option<String>,
    after: Store,
    gathered: Gathered,
) -> bool {
    &&& after.admin == before.admin
    &&& after.users == before.users
    &&& gathered.access_token == if exists|i: int| is_first_token(before.admin@, i) {
        exchanged
    } else {
        None
    }
    &&& is_recipient_list(
        gathered.email_list.deep_view(),
        before.users@,
        before.admin@,
        everyone_codes(),
    )
    &&& is_recipient_list(
        gathered.reminder_list.deep_view(),
        before.users@,
        before.admin@,
        reminder_codes(),
    )
    &&& gathered.events@ == pending_events(before.calendar@)
    &&& after.calendar@ == drained(before.calendar@)
}

/// What gathering at time `now`, on the day `today`, leaves of the tables
/// `before` and brings together.
pub open spec fn gathered_at(
    before: Store,
    now: int,
    today: Date,
    exchanged: Option<String>,
    after: Store,
    gathered: Gathered,
) -> bool {
    &&& gathered_parts(before, exchanged, after, gathered)
    &&& article_selected(before.articles@, now, gathered.article, after.articles@)
    &&& gathered.todays_events@ == events_on(before.calendar@, today)
}

/// Reads everything a run needs from the tables, at time `now` (seconds since
/// the start of 1970) on the day `today`, and marks what it picked as sent.
/// `exchanged` is what the mail provider gave in exchange for the refresh
/// token, `None` where the exchange failed.
pub fn gather_at(store: &mut Store, now: u64, today: &Date, exchanged: Option<String>) -> (gathered:
    Gathered)
    ensures
        gathered_at(*old(store), now as int, *today, exchanged, *final(store), gathered),
{
    let access_token = get_access_token(&store.admin, exchanged);
    let article = select_pending_article(&mut store.articles, now);
    let email_list = get_email_list(&store.users, &store.admin);
    let todays_events = select_todays_events(&store.calendar, today);
    let events = get_calendar_events(&mut store.calendar);
    let reminder_list = get_reminder_list(&store.users, &store.admin);
    Gathered { access_token, article, email_list, events, todays_events, reminder_list }
}

/// What gathering now leaves of the tables `before` and brings together.  The
/// article is picked as of some time, or not at all where the clock could not
/// be read; today's events are those of some day, or none.
pub open spec fn gathered_now(
    before: Store,
    exchanged: Option<String>,
    after: Store,
    gathered: Gathered,
) -> bool {
    &&& gathered_parts(before, exchanged, after, gathered)
    &&& (gathered.article is None && after.articles@ == before.articles@) || exists|now: int|
        0 <= now && article_selected(before.articles@, now, gathered.article, after.articles@)
    &&& gathered.todays_events@.len() == 0 || exists|today: Date|
        gathered.todays_events@ == events_on(before.calendar@, today)
}

/// Reads everything a run needs from the tables, as of the system clock and
/// the local date, and marks what it picked as sent.
pub fn gather(store: &mut Store, exchanged: Option<String>) -> (gathered: Gathered)
    ensures
        gathered_now(*old(store), exchanged, *final(store), gathered),
{
    let access_token = get_access_token(&store.admin, exchanged);
    let article = get_articles(&mut store.articles);
    let ghost marked = store.articles@;
    let email_list = get_email_list(&store.users, &store.admin);
    let todays_events = get_todays_events(&store.calendar);
    let events = get_calendar_events(&mut store.calendar);
    let reminder_list = get_reminder_list(&store.users, &store.admin);
    assert(store.articles@ == marked);
    Gathered { access_token, article, email_list, events, todays_events, reminder_list }
}

/// One run.  Everything is gathered and marked first; then the emails go out
/// under the access token, or, where there is none, the run fails: it sends
/// nothing and reports the single line "Error".
pub fn emaild(store: &mut Store, exchanged: Option<String>) -> (next: (Phase, Action))
    ensures
        exists|gathered: Gathered|
            gathered_now(*old(store), exchanged, *final(store), gathered) && advanced(
                Phase::Fetching,
                Signal::Fetched(gathered),
                next,
            ),
        exchanged is None ==> next.0 == Phase::Failed && (next.1 matches Action::Report {
            message,
        } && message@ == "Error"@),
{
    let gathered = gather(store, exchanged);
    advance(Phase::Fetching, Signal::Fetched(gathered))
}

} // verus!
