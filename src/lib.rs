//! Countdown messages for a file of dated entries: each line names a calendar
//! date and a label, and is rendered as the number of days until or since that
//! date, counted from the current day.

pub mod calendar;
pub mod text;
pub mod countdown;
pub mod laws;
