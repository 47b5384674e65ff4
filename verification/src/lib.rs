//! A small toolkit around a pull-based message broker: a base-62 integer
//! codec, configuration and client-builder helpers, and a verified
//! message-consumption pipeline (processor decorators and a polling runner).

pub mod base62;
pub mod configuration;
pub mod cos;
pub mod datalink;
pub mod decimal;
pub mod kafka;
pub mod messaging;
pub mod nacos;
