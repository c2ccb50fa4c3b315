//! Command Executor core: for each command the executor runs, exactly
//! one reply goes back through the command's reply target. These
//! functions turn every internal outcome — success or any failure of
//! the catalog or the session — into that one user-facing message, so
//! no raw fault ever reaches the chat interface.

use vstd::prelude::*;
use crate::display::display_table;
use crate::error::{BotError, QQMusicError};
use crate::structs::MusicPlayList;

verus! {

/// Why a `Play` command failed: resolving the track against the
/// catalog, or driving the playback session.
#[derive(Debug, Clone, Copy, PartialEq, Eq, Structural)]
pub enum PlayFailure {
    Music(QQMusicError),
    Bot(BotError),
}

impl PlayFailure {
    /// The fixed user-facing text of this failure.
    pub open spec fn spec_message(self) -> Seq<char> {
        match self {
            PlayFailure::Music(e) => e.spec_message(),
            PlayFailure::Bot(e) => e.spec_message(),
        }
    }

    pub fn message(&self) -> (m: &'static str)
        ensures
            m@ == self.spec_message(),
    {
        match self {
            PlayFailure::Music(e) => e.message(),
            PlayFailure::Bot(e) => e.message(),
        }
    }
}

pub open spec fn play_success_text() -> Seq<char> {
    "Got it! I'm playing this music"@
}

pub open spec fn cancel_success_text() -> Seq<char> {
    "Sir, I suceess to cancle this shit music"@
}

/// The reply to a `Cancel` command. Cancelling is idempotent and
/// always succeeds, so the reply is always the success notice.
pub fn reply_for_cancel() -> (r: String)
    ensures
        r@ == cancel_success_text(),
{
    "Sir, I suceess to cancle this shit music".to_owned()
}

/// The reply to a `Search` command: the rendered result table on
/// success, the catalog error's text on failure.
pub fn reply_for_search(outcome: &Result<Vec<MusicPlayList>, QQMusicError>) -> (r: String)
    ensures
        outcome matches Ok(list) ==> r@ == display_table(list@),
        outcome matches Err(e) ==> r@ == e.spec_message(),
{
    match outcome {
        Ok(list) => crate::display::format_display(list),
        Err(e) => e.message().to_owned(),
    }
}

/// The reply to a `Play` command: the success notice once the track
/// streams, the failure's text otherwise.
pub fn reply_for_play(outcome: &Result<(), PlayFailure>) -> (r: String)
    ensures
        outcome is Ok ==> r@ == play_success_text(),
        outcome matches Err(e) ==> r@ == e.spec_message(),
{
    match outcome {
        Ok(_) => "Got it! I'm playing this music".to_owned(),
        Err(e) => e.message().to_owned(),
    }
}

} // verus!
