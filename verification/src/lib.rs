//! Request logic of a small messaging service whose users and messages are stored in a
//! search engine: lookups and their replies, registration and login with password hashes,
//! friend lists, and message listings.
pub mod accounts;
pub mod clock;
pub mod friends;
pub mod ids;
pub mod messaging;
pub mod migrations;
pub mod model;
pub mod password;
pub mod reply;
pub mod search;
pub mod status;
pub mod tools;
