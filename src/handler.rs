//! The change handler: on each tick it reads the buffer, detects a change
//! since the text last seen or written, and writes back the single-line form.
use vstd::prelude::*;

use crate::clipboard::ClipboardIO;
use crate::normalize::{lemma_normalize_idempotent, normalized, strip_newlines};

verus! {

/// Why a tick could not complete; the text is the buffer's own message.
#[derive(Debug, Clone, PartialEq, Eq)]
pub enum OpError {
    ReadError(String),
    WriteError(String),
}

/// What one tick did.
#[derive(Debug, Clone, PartialEq, Eq)]
pub enum OpResult {
    /// The buffer holds the text last seen or written.
    CacheHit,
    /// The buffer changed, but its text has no line break to remove.
    NoContentChange,
    /// The buffer changed and now holds this single-line text.
    Updated(String),
    /// The buffer could not be read, or the rewrite could not be written.
    Error(OpError),
}

/// What a read of the buffer gave, measured against the cache.
#[derive(Debug, Clone, PartialEq, Eq)]
pub enum ClipboardContentRequest {
    /// The text equals the cached one.
    CacheHit,
    /// The read failed with this message.
    RequestError(String),
    /// New text, now cached.
    Content(String),
}

/// The log line of each outcome.
pub open spec fn message_of(r: OpResult) -> Seq<char> {
    match r {
        OpResult::CacheHit => "Reading clipboard value from cache"@,
        OpResult::NoContentChange => "Skipping update (no newlines found)"@,
        OpResult::Updated(_) => "Updated clipboard"@,
        OpResult::Error(OpError::ReadError(e)) => "Error reading from clipboard: "@ + e@,
        OpResult::Error(OpError::WriteError(e)) => "Error writing to clipboard: "@ + e@,
    }
}

/// Text `s` read from the buffer counts as already seen under `cache`.
pub open spec fn is_cache_hit(cache: Option<Seq<char>>, s: Seq<char>) -> bool {
    cache == Some(s)
}

/// One tick, from the cache `before` it starts with, the outcome of its
/// read (`Ok` with the text read, or `Err` with the failure's message) and
/// the outcome of its write (looked at only where a write is due), to the
/// cache `after` it and the result `r` it returns.
pub open spec fn tick_outcome(
    before: Option<Seq<char>>,
    read: Result<Seq<char>, Seq<char>>,
    write: Result<(), Seq<char>>,
    after: Option<Seq<char>>,
    r: OpResult,
) -> bool {
    match read {
        Err(e) => r matches OpResult::Error(OpError::ReadError(m)) && m@ == e && after == before,
        Ok(s) => if is_cache_hit(before, s) {
            r is CacheHit && after == before
        } else if normalized(s) == s {
            r is NoContentChange && after == Some(s)
        } else {
            match write {
                Ok(_) => r matches OpResult::Updated(n) && n@ == normalized(s) && after == Some(
                    normalized(s),
                ),
                Err(e) => r matches OpResult::Error(OpError::WriteError(m)) && m@ == e && after
                    == Some(s),
            }
        },
    }
}

/// The outcome of a read, with the text or the message as a sequence.
pub open spec fn read_view(read: Result<String, String>) -> Result<Seq<char>, Seq<char>> {
    match read {
        Ok(s) => Ok(s@),
        Err(e) => Err(e@),
    }
}

/// The outcome of a write, with the message as a sequence.
pub open spec fn write_view(write: Result<(), String>) -> Result<(), Seq<char>> {
    match write {
        Ok(_) => Ok(()),
        Err(e) => Err(e@),
    }
}

/// A tick that wrote `n` does not trigger another write: the next tick that
/// reads `n` back returns `CacheHit` and keeps the cache, whatever a write
/// would have done; and `n` is already in normalized form.
pub proof fn lemma_update_not_retriggered(
    before: Option<Seq<char>>,
    read: Result<Seq<char>, Seq<char>>,
    write: Result<(), Seq<char>>,
    after: Option<Seq<char>>,
    n: String,
    next_write: Result<(), Seq<char>>,
    next_after: Option<Seq<char>>,
    next: OpResult,
)
    requires
        tick_outcome(before, read, write, after, OpResult::Updated(n)),
        tick_outcome(after, Ok(n@), next_write, next_after, next),
    ensures
        next is CacheHit,
        next_after == after,
        normalized(n@) == n@,
{
    lemma_normalize_idempotent(read->Ok_0);
}

impl OpResult {
    /// The log line that describes this outcome.
    pub fn message(&self) -> (r: String)
        ensures
            r@ == message_of(*self),
    {
        match self {
            OpResult::CacheHit => String::from_str("Reading clipboard value from cache"),
            OpResult::NoContentChange => String::from_str("Skipping update (no newlines found)"),
            OpResult::Updated(_) => String::from_str("Updated clipboard"),
            OpResult::Error(OpError::ReadError(e)) => {
                let mut m = String::from_str("Error reading from clipboard: ");
                m.append(e.as_str());
                m
            },
            OpResult::Error(OpError::WriteError(e)) => {
                let mut m = String::from_str("Error writing to clipboard: ");
                m.append(e.as_str());
                m
            },
        }
    }
}

/// Where a tick stands once the read is measured: finished with a result,
/// or with this text due to be written.
#[derive(Debug, Clone, PartialEq, Eq)]
pub enum TickStep {
    Done(OpResult),
    Write(String),
}

/// Watches a buffer and rewrites multi-line text in it as one line.
pub struct Handler<'a, T: ClipboardIO + 'a> {
    cached: Option<String>,
    clipboard: &'a mut T,
}

impl<'a, T: ClipboardIO + 'a> Handler<'a, T> {
    /// The text last read from or written to the buffer, if any.
    pub closed spec fn cache(&self) -> Option<Seq<char>> {
        match self.cached {
            Some(s) => Some(s@),
            None => None,
        }
    }

    /// A handler that has seen nothing yet.
    pub fn new(clipboard: &'a mut T) -> (r: Self)
        ensures
            r.cache() is None,
    {
        Handler { cached: None, clipboard }
    }

    /// Measures the outcome of a read against the cache. New text becomes
    /// the cache; text equal to the cache, or a failed read, leaves it alone.
    pub fn observe(&mut self, read: Result<String, String>) -> (r: ClipboardContentRequest)
        ensures
            read matches Err(e) ==> r == ClipboardContentRequest::RequestError(e) && final(self).cache() == old(self).cache(),
            read matches Ok(s) ==> if is_cache_hit(old(self).cache(), s@) {
                r == ClipboardContentRequest::CacheHit && final(self).cache() == old(self).cache()
            } else {
                r == ClipboardContentRequest::Content(s) && final(self).cache() == Some(s@)
            },
    {
        match read {
            Err(e) => ClipboardContentRequest::RequestError(e),
            Ok(content) => {
                let hit = match &self.cached {
                    Some(c) => *c == content,
                    None => false,
                };
                if hit {
                    ClipboardContentRequest::CacheHit
                } else {
                    self.cached = Some(content.clone());
                    ClipboardContentRequest::Content(content)
                }
            },
        }
    }

    /// Settles a tick after `written` was handed to the buffer: on success
    /// the written text becomes the cache, so the next tick sees no change;
    /// on failure the cache stays as it was.
    pub fn record_write(&mut self, written: String, outcome: Result<(), String>) -> (r: OpResult)
        ensures
            outcome is Ok ==> r == OpResult::Updated(written) && final(self).cache() == Some(written@),
            outcome matches Err(e) ==> r == OpResult::Error(OpError::WriteError(e)) && final(self).cache() == old(self).cache(),
    {
        match outcome {
            Ok(()) => {
                self.cached = Some(written.clone());
                OpResult::Updated(written)
            },
            Err(e) => OpResult::Error(OpError::WriteError(e)),
        }
    }

    /// Decides a tick from the outcome of its read: a failed read or text
    /// equal to the cache ends it; new text is cached, and ends it if it is
    /// already single-line, else its normalized form is due to be written.
    pub fn decide(&mut self, read: Result<String, String>) -> (r: TickStep)
        ensures
            read matches Err(e) ==> r == TickStep::Done(OpResult::Error(OpError::ReadError(e)))
                && final(self).cache() == old(self).cache(),
            read matches Ok(s) ==> if is_cache_hit(old(self).cache(), s@) {
                r == TickStep::Done(OpResult::CacheHit) && final(self).cache() == old(self).cache()
            } else {
                final(self).cache() == Some(s@) && if normalized(s@) == s@ {
                    r == TickStep::Done(OpResult::NoContentChange)
                } else {
                    r matches TickStep::Write(n) && n@ == normalized(s@)
                }
            },
    {
        match self.observe(read) {
            ClipboardContentRequest::Content(content) => {
                let formatted = strip_newlines(content.as_str());
                if formatted == content {
                    TickStep::Done(OpResult::NoContentChange)
                } else {
                    TickStep::Write(formatted)
                }
            },
            ClipboardContentRequest::RequestError(e) => TickStep::Done(
                OpResult::Error(OpError::ReadError(e)),
            ),
            ClipboardContentRequest::CacheHit => TickStep::Done(OpResult::CacheHit),
        }
    }

    /// Reads the buffer, a failure giving its message.
    fn get_content(&mut self) -> (r: Result<String, String>)
        ensures
            final(self).cache() == old(self).cache(),
    {
        match self.clipboard.get_text() {
            Ok(s) => Ok(s),
            Err(e) => Err(e.to_string()),
        }
    }

    /// Hands `content` to the buffer, a failure giving its message.
    fn set_content(&mut self, content: &str) -> (r: Result<(), String>)
        ensures
            final(self).cache() == old(self).cache(),
    {
        match self.clipboard.set_text(content) {
            Ok(()) => Ok(()),
            Err(e) => Err(e.to_string()),
        }
    }

    /// One tick: reads the buffer; if its text differs from the cache, caches
    /// it, and if it is not already single-line, writes back its normalized
    /// form and caches that. Failures are reported, never raised. After a
    /// failed write the raw text stays cached, so the rewrite is not retried
    /// until the buffer's text changes again. The result and the new cache
    /// are those `tick_outcome` gives for what the read and the write
    /// returned; the steps are `decide` and `record_write`.
    pub fn handle_change(&mut self) -> (r: OpResult)
        ensures
            exists|read: Result<Seq<char>, Seq<char>>, write: Result<(), Seq<char>>|
                #[trigger] tick_outcome(old(self).cache(), read, write, final(self).cache(), r),
    {
        let ghost before = self.cache();
        let read = self.get_content();
        let ghost read_view = read_view(read);
        match self.decide(read) {
            TickStep::Done(r) => {
                assert(tick_outcome(before, read_view, Ok(()), self.cache(), r));
                r
            },
            TickStep::Write(formatted) => {
                let outcome = self.set_content(formatted.as_str());
                let ghost write_view = write_view(outcome);
                let r = self.record_write(formatted, outcome);
                assert(tick_outcome(before, read_view, write_view, self.cache(), r));
                r
            },
        }
    }

    /// The text last read from or written to the buffer, if any.
    pub fn cached(&self) -> (r: Option<String>)
        ensures
            r matches Some(s) ==> self.cache() == Some(s@),
            r is None ==> self.cache() is None,
    {
        match &self.cached {
            Some(s) => Some(s.clone()),
            None => None,
        }
    }
}

} // verus!
