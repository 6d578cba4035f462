//! A client library for the Spotify Web API that never touches the network.
//!
//! Every operation of the API is a value that says what request has to be sent
//! ([`http::Request`]) and what the reply ([`http::Reply`]) amounts to. Sending is the
//! caller's business. Runs of several requests, such as queueing tracks and then
//! playing them, are state machines ([`workflow::Workflow`]) that the caller drives one
//! exchange at a time.
//!
//! The library is verified with Verus. Contracts speak of the models of the values
//! involved, reached with `deep_view()`: strings are sequences of characters, vectors are
//! sequences. What is taken on trust is the behaviour of `serde_json`, which parses the
//! bodies of replies and escapes the strings that go into the bodies of requests; see
//! [`json`].

pub mod api;
pub mod config;
pub mod decode;
pub mod display;
pub mod failure;
pub mod http;
pub mod json;
pub mod objects;
pub mod outcome;
pub mod text;
pub mod workflow;
