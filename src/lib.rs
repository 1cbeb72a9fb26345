//! Leveled log records routed to a console or file sink, and an
//! enumerate-the-kept-values transform over sequences of text.

pub mod record;
pub mod v1;
pub mod v2;
