//! The transient one-line message shown in the message bar.

use vstd::prelude::*;

verus! {

/// How long a status message stays visible after it was set, in
/// milliseconds.
pub const MESSAGE_LIFETIME_MS: u64 = 5000;

/// A message text together with the instant it was set, so that the message
/// bar can stop showing it once it has grown old. Timestamps are
/// milliseconds on whatever clock the caller reads; only differences
/// matter.
pub struct StatusMessage {
    pub text: String,
    pub time: u64,
}

impl StatusMessage {
    /// A message set at the given instant.
    pub fn from(message: &str, now: u64) -> (r: StatusMessage)
        ensures
            r.text@ == message@,
            r.time == now,
    {
        StatusMessage { text: message.to_owned(), time: now }
    }

    /// Replaces the text and restarts the message's lifetime.
    pub fn set_status(&mut self, message: &str, now: u64)
        ensures
            final(self).text@ == message@,
            final(self).time == now,
    {
        self.text = message.to_owned();
        self.time = now;
    }

    /// Whether the message is still young enough to be shown at `now`.
    pub fn is_visible(&self, now: u64) -> (r: bool)
        ensures
            r == (now - self.time < MESSAGE_LIFETIME_MS),
    {
        now.saturating_sub(self.time) < MESSAGE_LIFETIME_MS
    }
}

} // verus!
