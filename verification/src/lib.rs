//! Anthropic Messages API support for Codex: conversion of conversation
//! history into Messages requests, the server-sent-event stream decoder,
//! authentication headers, the entries of the model catalog, the provider's
//! decisions, and the disabled telemetry layer.

pub mod auth;
pub mod catalog;
pub mod headers;
pub mod history_laws;
pub mod json;
pub mod messages;
pub mod otel;
pub mod protocol;
pub mod provider;
pub mod sse;
pub mod sse_laws;
pub mod text;
