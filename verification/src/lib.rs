//! Resolve an arbitrary identifier (a record id, an email address, or a
//! configured attribute value) to a single Salesforce account.
//!
//! The library holds the verified core of the tool: the entity catalog, the
//! "Kind.field" qualified-field parser, the query builder that assembles the
//! composite read and the lookup queries, and the resolution cascade that
//! tries lookup strategies in a fixed priority order. Network access, the
//! terminal, and configuration files are left to the surrounding binary,
//! which talks to the library through plain values and through the
//! [`sf::Client`] trait.

pub mod arg;
pub mod config;
pub mod environ;
pub mod error;
pub mod finder;
pub mod query;
pub mod sf;
pub mod text;
