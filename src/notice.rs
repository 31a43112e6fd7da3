use crate::speech::{PlaybackError, VoiceProfile, markup_document, markup_text};
use vstd::prelude::*;

verus! {

/// A short message for the channel where a command cannot go on.
#[derive(Clone, Copy, Debug, PartialEq, Eq, Structural)]
pub enum Notice {
    NoText,
    CompletionFailed,
    SynthesisFailed,
    NotConnected,
    PlaybackFailed,
}

/// The text posted for a notice.
pub open spec fn notice_text(n: Notice) -> Seq<char> {
    match n {
        Notice::NoText => "No text provided"@,
        Notice::CompletionFailed => "Could not get a reply, try again later"@,
        Notice::SynthesisFailed => "Error synthesizing TTS"@,
        Notice::NotConnected => "The bot is not connected to a voice channel"@,
        Notice::PlaybackFailed => "Error playing audio in the voice channel"@,
    }
}

impl Notice {
    /// The text posted for this notice.
    pub fn message(&self) -> (r: &'static str)
        ensures
            r@ == notice_text(*self),
    {
        match self {
            Notice::NoText => "No text provided",
            Notice::CompletionFailed => "Could not get a reply, try again later",
            Notice::SynthesisFailed => "Error synthesizing TTS",
            Notice::NotConnected => "The bot is not connected to a voice channel",
            Notice::PlaybackFailed => "Error playing audio in the voice channel",
        }
    }
}

/// The notice for a failed playback: "not connected" where the guild has no
/// voice session, a playback failure otherwise.
pub open spec fn playback_notice_of(err: PlaybackError) -> Notice {
    if err == PlaybackError::NoActiveSession {
        Notice::NotConnected
    } else {
        Notice::PlaybackFailed
    }
}

/// The notice for the playback failure `err`.
pub fn playback_notice(err: PlaybackError) -> (r: Notice)
    ensures
        r == playback_notice_of(err),
{
    match err {
        PlaybackError::NoActiveSession => Notice::NotConnected,
        _ => Notice::PlaybackFailed,
    }
}

/// The synthesis request body for a text-to-speech command: `text` in the
/// neutral English voice, or `NoText` where there is nothing to say.
pub fn tts_markup(text: &str) -> (r: Result<String, Notice>)
    ensures
        text@.len() == 0 <==> r is Err,
        r is Err ==> r->Err_0 == Notice::NoText,
        r is Ok ==> r->Ok_0@ == markup_text(VoiceProfile::NeutralEnglish, text@),
{
    if text.is_empty() {
        Err(Notice::NoText)
    } else {
        Ok(markup_document(VoiceProfile::NeutralEnglish, text))
    }
}

} // verus!
