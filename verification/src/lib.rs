//! Notification planning for a choir's mailing list.
//!
//! Given the rows of the `admin`, `users`, `articles` and `calendar` tables, the
//! library decides which newsletter article, calendar events and same-day
//! reminders are due, marks what it picked as sent, works out who receives each
//! notice and composes the plain-text emails.  Reading the tables, writing the
//! flags back and talking to the mail provider are left to the caller.

pub mod clock;
pub mod store;
pub mod compose;
pub mod recipients;
pub mod runner;
pub mod select;
pub mod text;
