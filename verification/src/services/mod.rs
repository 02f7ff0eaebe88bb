//! What the relay asks of the XMPP side.

pub mod xmpp_service;
