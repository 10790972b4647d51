//! A small web-framework core: a bracket-tag template language with a
//! verified parser and renderer, plus the surrounding route table, request
//! method parsing and configuration model.
//!
//! Template sources such as `[template][if flag]hi [[name]][endif][endtemplate]`
//! are parsed into a `TemplateNode` tree and rendered against a `Context`
//! mapping; both steps carry full functional contracts.

pub mod config;
pub mod ctchi;
pub mod html_parser;
pub mod http;
pub mod laws;
pub mod nodes;
pub mod parser;
pub mod routes;
pub mod server;
pub mod text;
pub mod writer;
