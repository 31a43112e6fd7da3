use vstd::prelude::*;

verus! {

/// The audio encoding asked of the speech service: mono, 16 kHz, mp3.
pub const OUTPUT_FORMAT: &'static str = "audio-16khz-128kbitrate-mono-mp3";

/// The markup content type of a synthesis request body.
pub const MARKUP_CONTENT_TYPE: &'static str = "application/ssml+xml";

/// Where synthesized audio is staged before it is decoded for playback.
pub const STAGING_ARTIFACT: &'static str = "output.mp3";

pub const NEUTRAL_OPEN: &'static str = "<speak version=\"1.0\" xml:lang=\"en-US\"><voice xml:lang=\"en-US\" xml:gender=\"Female\" name=\"en-US-AshleyNeural\"><prosody rate=\"1.00\" pitch=\"+1%\">";

pub const NEUTRAL_CLOSE: &'static str = "</prosody></voice></speak>";

pub const CHEERFUL_OPEN: &'static str = "<speak version=\"1.0\" xmlns:mstts=\"https://www.w3.org/2001/mstts\" xml:lang=\"pt-BR\"><voice xml:lang=\"pt-BR\" xml:gender=\"Female\" name=\"pt-BR-FranciscaNeural\"><mstts:express-as style=\"cheerful\">";

pub const CHEERFUL_CLOSE: &'static str = "</mstts:express-as></voice></speak>";

/// The voice, language and style that a synthesis request asks for.
#[derive(Clone, Copy, Debug, PartialEq, Eq, Structural)]
pub enum VoiceProfile {
    /// A neutral English voice.
    NeutralEnglish,
    /// A cheerful Brazilian-Portuguese voice.
    CheerfulPortuguese,
}

/// The markup that stands before the text under `profile`.
pub open spec fn markup_open(profile: VoiceProfile) -> Seq<char> {
    match profile {
        VoiceProfile::NeutralEnglish => NEUTRAL_OPEN@,
        VoiceProfile::CheerfulPortuguese => CHEERFUL_OPEN@,
    }
}

/// The markup that stands after the text under `profile`.
pub open spec fn markup_close(profile: VoiceProfile) -> Seq<char> {
    match profile {
        VoiceProfile::NeutralEnglish => NEUTRAL_CLOSE@,
        VoiceProfile::CheerfulPortuguese => CHEERFUL_CLOSE@,
    }
}

/// The markup document that asks for `text` to be spoken under `profile`.
pub open spec fn markup_text(profile: VoiceProfile, text: Seq<char>) -> Seq<char> {
    markup_open(profile) + text + markup_close(profile)
}

impl VoiceProfile {
    /// The language tag of the profile's voice.
    pub fn language_tag(&self) -> (r: &'static str)
        ensures
            r@ == (match *self {
                VoiceProfile::NeutralEnglish => "en-US"@,
                VoiceProfile::CheerfulPortuguese => "pt-BR"@,
            }),
    {
        match self {
            VoiceProfile::NeutralEnglish => "en-US",
            VoiceProfile::CheerfulPortuguese => "pt-BR",
        }
    }
}

/// The synthesis request body: `text` wrapped in the markup of `profile`.
pub fn markup_document(profile: VoiceProfile, text: &str) -> (r: String)
    ensures
        r@ == markup_text(profile, text@),
{
    let mut out = match profile {
        VoiceProfile::NeutralEnglish => String::from_str(NEUTRAL_OPEN),
        VoiceProfile::CheerfulPortuguese => String::from_str(CHEERFUL_OPEN),
    };
    out.append(text);
    match profile {
        VoiceProfile::NeutralEnglish => out.append(NEUTRAL_CLOSE),
        VoiceProfile::CheerfulPortuguese => out.append(CHEERFUL_CLOSE),
    }
    out
}

/// The speech service endpoint of `region`.
pub open spec fn endpoint_text(region: Seq<char>) -> Seq<char> {
    "https://"@ + region + ".tts.speech.microsoft.com/cognitiveservices/v1"@
}

/// The speech service endpoint of `region`.
pub fn speech_endpoint(region: &str) -> (r: String)
    ensures
        r@ == endpoint_text(region@),
{
    let mut out = String::from_str("https://");
    out.append(region);
    out.append(".tts.speech.microsoft.com/cognitiveservices/v1");
    out
}

/// Why a synthesis produced no audio.
#[derive(Clone, Copy, Debug, PartialEq, Eq, Structural)]
pub enum SynthesisError {
    Transport,
    BadStatus,
}

/// The audio of a synthesis response with HTTP status `status` and body
/// `body`.
pub fn synthesis_audio(status: u16, body: Vec<u8>) -> (r: Result<Vec<u8>, SynthesisError>)
    ensures
        status == 200 ==> r == Ok::<Vec<u8>, SynthesisError>(body),
        status != 200 ==> r == Err::<Vec<u8>, SynthesisError>(SynthesisError::BadStatus),
{
    if status == 200 {
        Ok(body)
    } else {
        Err(SynthesisError::BadStatus)
    }
}

/// Why audio could not be played.
#[derive(Clone, Copy, Debug, PartialEq, Eq, Structural)]
pub enum PlaybackError {
    NoActiveSession,
    ArtifactWriteFailed,
    DecodeFailed,
}

/// Audio accepted for playback in the voice session of a guild.
pub struct PlaybackRequest {
    pub guild: u64,
    pub audio: Vec<u8>,
    /// Where the audio is staged for the decoder.
    pub artifact: &'static str,
}

/// Accepts `audio` for playback in `guild` where that guild has a voice
/// session; where it has none, nothing is staged and the answer is
/// `NoActiveSession`.
pub fn prepare_playback(has_session: bool, guild: u64, audio: Vec<u8>) -> (r: Result<
    PlaybackRequest,
    PlaybackError,
>)
    ensures
        !has_session <==> r is Err,
        r is Err ==> r->Err_0 == PlaybackError::NoActiveSession,
        r is Ok ==> r->Ok_0.guild == guild && r->Ok_0.audio == audio && r->Ok_0.artifact@
            == STAGING_ARTIFACT@,
{
    if has_session {
        Ok(PlaybackRequest { guild, audio, artifact: STAGING_ARTIFACT })
    } else {
        Err(PlaybackError::NoActiveSession)
    }
}

} // verus!
