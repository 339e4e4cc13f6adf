//! Federation of forum posts over ActivityPub.
//!
//! A post is translated to the object that other servers read and back,
//! announced in activities with ids of their own, and delivered to each
//! recipient inbox on its own account. Storage, actor resolution, the clock
//! and the transport are the caller's: the library says what is to be read,
//! resolved or delivered next, and is handed what came of it.
//!
//! - [`model`]: the records of the application, and what is known of a
//!   record that the caller looks up.
//! - [`object`]: the object of a post and the tombstone of a deleted one, as
//!   they travel.
//! - [`uri`]: what makes a federation identity.
//! - [`to_wire`] and [`from_wire`]: the translation in either direction.
//! - [`activity`]: activities, their ids and their envelopes.
//! - [`post`]: the announcement of each change to a post.
//! - [`dispatch`]: the delivery of an envelope, inbox by inbox.
//! - [`request`]: the answer to a request for the object of a post.
//! - [`error`]: how an operation fails.

pub mod activity;
pub mod dispatch;
pub mod error;
pub mod from_wire;
pub mod model;
pub mod object;
pub mod post;
pub mod request;
pub mod to_wire;
pub mod uri;
