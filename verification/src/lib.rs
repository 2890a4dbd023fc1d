//! The verified core of a terminal browser for topic feeds.
//!
//! The browser has three screens: the list of subscribed feeds, the items of one
//! feed, and one item in full with its media and replies. This library is their
//! state machine. It holds the state of every screen, takes terminal input,
//! intents from the bus and the outcomes of background fetches, and answers each
//! with the new state and a list of [`action::Action`]s for the program around it
//! to perform: send an intent, draw, start or cancel a fetch, save the feed list.
//! The library itself reads no terminal, opens no connection and starts no task.
//!
//! Every step is stated over the mathematical value (`@`) of the state, as a
//! function from the state before to the state after, and proved of the code by
//! Verus. What holds of whole runs is proved from those functions: a feed is
//! fetched once, a superseded load cannot write, a closed screen is empty, the
//! highlight stays on the list, and nothing is drawn after the loop has ended.

pub mod action;
pub mod app;
pub mod component;
pub mod config;
pub mod event;
pub mod input;
pub mod model;
pub mod ngored_error;
pub mod reddit_api;
pub mod text;
pub mod widget;
