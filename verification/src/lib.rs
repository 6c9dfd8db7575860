//! Federation protocol engine: verification of inbound activities, the follow
//! relationship state machine, the outgoing dispatch router and the translation
//! between domain records and wire objects.

pub mod directory;
pub mod dispatch;
pub mod error;
pub mod follow;
pub mod ident;
pub mod inbox;
pub mod kinds;
pub mod outbox;
pub mod private_message;
pub mod protocol;
pub mod records;
pub mod store;
pub mod targets;
pub mod text;
pub mod uri;
pub mod verification;
