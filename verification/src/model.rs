//! The records that the service sends and accepts.

pub mod bot;
pub mod command;
pub mod hit;
pub mod results;
pub mod tags;
pub mod user;

pub use bot::{Bot, BotView};
pub use command::{Command, CommandView};
pub use hit::{SearchHit, SearchHitView};
pub use results::{SearchResults, SearchResultsView};
pub use tags::TagDistribution;
pub use user::{User, UserView};
