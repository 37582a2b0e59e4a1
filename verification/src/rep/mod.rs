//! The replying side: one driver per connection and one that multiplexes them.

pub mod driver;
pub mod peer;
pub mod request;
pub mod routing;
