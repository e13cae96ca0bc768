//! Decisions of the network loader. The loader holds at most one open
//! response; each read first looks whether a new URL was set since the last
//! read, then reads the next chunk of the open response.

use vstd::prelude::*;

verus! {

/// What a read does about the URL before reading.
#[derive(Debug)]
pub enum UrlChange {
    /// Open a response for this URL, replacing the open one once it is
    /// there; reading then starts from the beginning of the new stream.
    Connect(String),
    /// Drop the open response.
    Disconnect,
    /// Keep the open response, if any.
    Keep,
}

/// Decides on the URL given what was set since the last read: nothing
/// (`None`), a URL, or no URL.
pub fn url_change(update: Option<Option<String>>) -> (c: UrlChange)
    ensures
        c == url_change_of(update),
{
    match update {
        None => UrlChange::Keep,
        Some(None) => UrlChange::Disconnect,
        Some(Some(url)) => UrlChange::Connect(url),
    }
}

/// Whether a response is open after the URL step: after a new URL, the
/// open response (of the old URL) is dropped first, so a response is open
/// only if the new one was opened; none after a disconnect; else the one
/// that was open. A failed open ends the read with the error and leaves no
/// response, so no chunk of the old stream is read after the URL changed.
pub fn connected_after_change(change: &UrlChange, was_connected: bool, opened: bool) -> (c: bool)
    ensures
        c == connected_after(*change, was_connected, opened),
{
    match change {
        UrlChange::Connect(_) => opened,
        UrlChange::Disconnect => false,
        UrlChange::Keep => was_connected,
    }
}

/// What a read gives back after the URL step.
#[derive(Debug, Clone, Copy, PartialEq, Eq, Structural)]
pub enum ReadPlan {
    /// Read the next chunk of the open response.
    ReadChunk,
    /// There is no stream: give no chunk.
    NoData,
}

/// A read reads from the open response, or gives no chunk without one.
pub fn read_plan(connected: bool) -> (p: ReadPlan)
    ensures
        p == read_plan_of(connected),
{
    if connected {
        ReadPlan::ReadChunk
    } else {
        ReadPlan::NoData
    }
}

/// Whether the response stays open after reading from it: it is dropped
/// once it has no more chunks (`got_chunk` false), so that later reads give
/// no chunk until a new URL is set.
pub fn connected_after_chunk(got_chunk: bool) -> (c: bool)
    ensures
        c == got_chunk,
{
    got_chunk
}

/// Setting a URL makes the next read open that URL, so that it loads from
/// the beginning of that stream, and never read on from the old stream,
/// even where opening the new URL fails; setting no URL drops the open response, so
/// the next read, and every read after it until a URL is set, gives no
/// chunk.
pub proof fn lemma_set_url_takes_effect_on_next_read(url: Option<String>, was_connected: bool, opened: bool)
    ensures
        match url {
            Some(u) => {
                &&& url_change_of(Some(Some(u))) == UrlChange::Connect(u)
                &&& !connected_after(UrlChange::Connect(u), was_connected, false)
                &&& connected_after(UrlChange::Connect(u), was_connected, true)
            },
            None => {
                &&& url_change_of(Some(None)) == UrlChange::Disconnect
                &&& !connected_after(UrlChange::Disconnect, was_connected, opened)
                &&& !connected_after(url_change_of(None), false, opened)
                &&& read_plan_of(false) == ReadPlan::NoData
            },
        },
{
}

/// The plan of a read, as `read_plan` computes it.
pub open spec fn read_plan_of(connected: bool) -> ReadPlan {
    if connected { ReadPlan::ReadChunk } else { ReadPlan::NoData }
}

/// The URL decision of a read, as `url_change` computes it.
pub open spec fn url_change_of(update: Option<Option<String>>) -> UrlChange {
    match update {
        None => UrlChange::Keep,
        Some(None) => UrlChange::Disconnect,
        Some(Some(url)) => UrlChange::Connect(url),
    }
}

/// Whether a response is open after the URL step, as
/// `connected_after_change` computes it.
pub open spec fn connected_after(change: UrlChange, was_connected: bool, opened: bool) -> bool {
    match change {
        UrlChange::Connect(_) => opened,
        UrlChange::Disconnect => false,
        UrlChange::Keep => was_connected,
    }
}

/// A stream is read chunk after chunk while it gives chunks; once it gives
/// none, it is dropped, and every read after that gives no chunk until a
/// new URL is set.
pub proof fn lemma_stream_read_until_end(got_chunk: bool, opened: bool)
    ensures
        got_chunk ==> read_plan_of(connected_after(url_change_of(None), got_chunk, opened)) == ReadPlan::ReadChunk,
        !got_chunk ==> read_plan_of(connected_after(url_change_of(None), got_chunk, opened)) == ReadPlan::NoData,
{
}

} // verus!
