//! The logic of a set of connectors between a chat bot and the services that
//! it watches, with its contracts proved.
//!
//! The calendar connector fetches the events of the current day from a mail
//! server that asks for NTLM authentication, reads the directives that the
//! bodies of the events embed, and makes a task of each event that carries
//! directives:
//!
//! - [`schedule`] tells the day to ask for and resolves the times of an event;
//! - [`ntlm`] holds the messages of the handshake;
//! - [`fetch`] leads the two requests of a fetch, one step at a time;
//! - [`directives`] reads the directives of a body into the mapping of
//!   [`options`], and [`json`] writes that mapping down;
//! - [`task`] makes the tasks of a feed.
//!
//! The review, build and messenger connectors ask a question, fill a
//! template and send a notification; [`gerrit`], [`teamcity`], [`zulip`],
//! [`template`] and [`http`] hold what they decide.
//!
//! Nothing here reads a clock, a file or a socket but through a few named
//! calls into other crates; each of them says in its comment what is taken
//! on trust.

pub mod directives;
pub mod encoding;
pub mod error;
pub mod fetch;
pub mod gerrit;
pub mod http;
pub mod json;
pub mod ntlm;
pub mod options;
pub mod schedule;
pub mod task;
pub mod teamcity;
pub mod template;
pub mod text;
pub mod zulip;
