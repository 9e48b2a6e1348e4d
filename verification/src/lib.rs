//! State and request logic of a small desktop dashboard that shows news
//! headlines and a Twitch follow list.

pub mod decimal;
pub mod urls;
pub mod news;
pub mod twitch;
pub mod sysinfo;
pub mod dashboard;
