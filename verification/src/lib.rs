//! Verified core of an article-publishing web service: the slugs, paths and
//! links of articles, the rewriting of relative markdown links, pagination, the access
//! rule of the gateway, and the sequence of steps each request handler takes.

pub mod error;
pub mod settings;
pub mod text;
pub mod markdown;
pub mod model;
pub mod pagination;
pub mod response;
pub mod handler;
pub mod backend;
pub mod proxy;
pub mod consistency;
