//! Verified core of an IP geolocation and timezone service.
//!
//! The library holds the transport-independent logic: syntactic validation
//! of IP addresses and coordinates, composition of lookup records into
//! response DTOs, the result cache policy, and the REST / JSON-RPC
//! dispatch rules.  Transports, serialization and the external data
//! backends (geo database, timezone boundary engine, clock) stay outside
//! and reach the library through ports.

pub mod builder;
pub mod cache;
pub mod country_data;
pub mod ip;
pub mod languages;
pub mod mcp_resources;
pub mod mcp_rpc;
pub mod mcp_schemas;
pub mod mcp_tools;
pub mod models;
pub mod ports;
pub mod rest;
pub mod validate;
pub mod strutil;
