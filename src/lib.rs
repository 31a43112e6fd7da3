//! A chat relay core: per-channel conversation history, the wire texts for
//! the completion and speech services, and the state machine that runs one
//! prompt through completion, synthesis and voice playback.

mod completion;
mod conversation;
mod laws;
mod mvp;
mod notice;
mod relay;
mod speech;

pub use conversation::{ConversationStore, Role, Turn, TurnView, history_in, turns_view, with_turn};
pub use completion::{
    CompletionError, MODEL, completion_reply, json_string_text, message_json, messages_json,
    request_body, request_json, role_text,
};
pub use speech::{
    MARKUP_CONTENT_TYPE, OUTPUT_FORMAT, PlaybackError, PlaybackRequest, STAGING_ARTIFACT,
    SynthesisError, VoiceProfile, endpoint_text, markup_close, markup_document, markup_open,
    markup_text, prepare_playback, speech_endpoint, synthesis_audio,
};
pub use relay::{
    AbortReason, Action, ActionView, Event, EventView, PERSONA, Relay, RelayState, Stage,
    actions_view, initial_state, next, persona_prompt, persona_prompt_text,
};
pub use laws::{
    exchange_turns, is_terminal, is_voice_action, law_channel_isolation, law_completion_failure,
    law_history_order, law_no_session_notice, law_run_concat, law_synthesis_failure,
    law_terminal_is_final, replies_sent, run, store_after_successes, success_events,
};
pub use mvp::{
    REPORT_HEADING, Timer, is_first, is_last, mvp_name, mvp_name_of, object_literal, object_text,
    report_lines, respawn_report, swap_quotes,
};
pub use notice::{Notice, notice_text, playback_notice, playback_notice_of, tts_markup};
