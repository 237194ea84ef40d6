//! Resilient remote-actuation core for driving a single browser page:
//! target selection, match-index resolution, bounded polling, event
//! collection, failure classification and recovery planning.

pub mod text;
pub mod correction;
pub mod selection;
pub mod poll;
pub mod events;
pub mod target;
pub mod config;
pub mod security;
pub mod sites;
pub mod workflow;
pub mod captcha;
pub mod recording;
pub mod session;
pub mod interact;
pub mod explanation;
pub mod color;
pub mod scripts;
pub mod masking;
