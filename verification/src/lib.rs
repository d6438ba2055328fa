//! Verified core of the HyperMesh daemon IPC layer.

pub mod json;
pub mod text;
pub mod protocol;
pub mod capability;
pub mod codecs;
pub mod handler;
pub mod config;
pub mod http;
pub mod validation;
pub mod table;
pub mod integration;
pub mod workflows;
pub mod performance;
pub mod intelligence;
pub mod trust_stub;
pub mod path_policy;
pub mod client;
pub mod asset;
pub mod system;
pub mod gateway;
pub mod catalog;
pub mod x509;
pub mod cert_der;
pub mod server;
pub mod share;
pub mod dashboard;
pub mod cert_request;
pub mod message;
pub mod dns;
pub mod domain;
pub mod topology;
pub mod network;
pub mod shard;
pub mod store;
pub mod chain;
pub mod status;
pub mod caesar;
pub mod methods;
pub mod auth;
pub mod catalog_deps;
pub mod trust;
pub mod share_inbox;
pub mod trust_adapter;
pub mod monitor;
