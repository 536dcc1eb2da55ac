//! The rows the notifier works on, and the emails it hands back.

use vstd::prelude::*;
use crate::clock::{Date, TimeOfDay};

verus! {

/// Someone who can receive notices: a row of `users`, or the subscriber part of
/// a row of `admin`.
#[derive(Debug, PartialEq, Eq)]
pub struct Subscriber {
    pub email: String,
    pub subscription_policy: String,
}

/// A row of `admin`.
#[derive(Debug, PartialEq, Eq)]
pub struct AdminRow {
    pub subscriber: Subscriber,
    pub refresh_token: String,
}

/// A row of `articles`.  `send_email` is set while the article still waits to be
/// announced.
#[derive(Debug, PartialEq, Eq)]
pub struct ArticleRow {
    pub id: i32,
    pub title: String,
    pub expiry: Date,
    pub send_email: bool,
}

/// An article picked for announcement.
#[derive(Debug, PartialEq, Eq)]
pub struct Article {
    pub id: i32,
    pub title: String,
}

/// A calendar entry.
#[derive(Debug, PartialEq, Eq)]
pub struct Event {
    pub id: i32,
    pub title: String,
    pub date: Date,
    pub start_time: TimeOfDay,
    pub end_time: TimeOfDay,
    pub practice: bool,
}

/// A row of `calendar`.  `send_email` is set while the event still waits to be
/// announced.
#[derive(Debug, PartialEq, Eq)]
pub struct CalendarRow {
    pub event: Event,
    pub send_email: bool,
}

/// The four tables.
#[derive(Debug, PartialEq, Eq)]
pub struct Store {
    pub admin: Vec<AdminRow>,
    pub users: Vec<Subscriber>,
    pub articles: Vec<ArticleRow>,
    pub calendar: Vec<CalendarRow>,
}

/// An email ready to be handed to the mail provider.
#[derive(Debug, PartialEq, Eq)]
pub struct Outbound {
    pub recipients: Vec<String>,
    pub subject: String,
    pub body: String,
}

/// What an `Outbound` says: its recipients, subject and body as text.
pub struct OutboundView {
    pub recipients: Seq<Seq<char>>,
    pub subject: Seq<char>,
    pub body: Seq<char>,
}

impl DeepView for Outbound {
    type V = OutboundView;

    open spec fn deep_view(&self) -> OutboundView {
        OutboundView {
            recipients: self.recipients.deep_view(),
            subject: self.subject@,
            body: self.body@,
        }
    }
}

impl Clone for Event {
    fn clone(&self) -> (r: Event)
        ensures
            r == *self,
    {
        Event {
            id: self.id,
            title: self.title.clone(),
            date: self.date,
            start_time: self.start_time,
            end_time: self.end_time,
            practice: self.practice,
        }
    }
}

} // verus!
