use voice_relay::{
    AbortReason, Action, CompletionError, ConversationStore, Event, Notice, PERSONA, PlaybackError,
    Relay, Role, Stage, SynthesisError, VoiceProfile, markup_document, persona_prompt,
};

const CH_A: u64 = 100;
const CH_B: u64 = 200;
const GUILD: u64 = 7;

fn relay(channel: u64, prompt: &str) -> Relay {
    Relay::new(channel, GUILD, PERSONA.to_string(), prompt.to_string(), VoiceProfile::NeutralEnglish)
}

fn turns(store: &ConversationStore, channel: u64) -> Vec<(Role, String)> {
    match store.history(channel) {
        Some(h) => h.iter().map(|t| (t.role, t.content.clone())).collect(),
        None => Vec::new(),
    }
}

fn run_success(store: &mut ConversationStore, channel: u64, prompt: &str, reply: &str) -> Vec<Action> {
    let mut r = relay(channel, prompt);
    let mut all = Vec::new();
    all.extend(r.step(store, Event::Begin));
    all.extend(r.step(store, Event::Completed(Ok(reply.to_string()))));
    all.extend(r.step(store, Event::Synthesized(Ok(vec![1, 2, 3]))));
    all.extend(r.step(store, Event::Played(Ok(()))));
    assert_eq!(r.stage(), Stage::Done);
    all
}

#[test]
fn sky_scenario() {
    let mut store = ConversationStore::new();
    let mut r = relay(CH_A, "what color is the sky");
    let acts = r.step(&mut store, Event::Begin);
    assert_eq!(acts.len(), 1);
    let expected_user = format!("{}\nwhat color is the sky", PERSONA);
    assert_eq!(turns(&store, CH_A), vec![(Role::User, expected_user.clone())]);
    match &acts[0] {
        Action::RequestCompletion { body } => {
            assert!(body.starts_with("{\"model\":\"gpt-4o\",\"messages\":[{\"role\":\"user\",\"content\":\""));
            assert!(body.contains("what color is the sky"));
            assert!(body.ends_with("\"}]}"));
        }
        _ => panic!("expected a completion request"),
    }
    assert_eq!(r.stage(), Stage::AwaitingCompletion);

    let acts = r.step(&mut store, Event::Completed(Ok("Upupupu, blue, obviously!".to_string())));
    assert_eq!(acts.len(), 2);
    match &acts[0] {
        Action::SendReply { channel, text } => {
            assert_eq!(*channel, CH_A);
            assert_eq!(text, "Upupupu, blue, obviously!");
        }
        _ => panic!("expected the text reply first"),
    }
    match &acts[1] {
        Action::Synthesize { markup } => {
            assert_eq!(markup, &markup_document(VoiceProfile::NeutralEnglish, "Upupupu, blue, obviously!"));
            assert!(markup.contains(">Upupupu, blue, obviously!<"));
        }
        _ => panic!("expected a synthesis request"),
    }

    let acts = r.step(&mut store, Event::Synthesized(Ok(vec![9, 8, 7])));
    assert_eq!(acts.len(), 1);
    match &acts[0] {
        Action::Play { guild, audio } => {
            assert_eq!(*guild, GUILD);
            assert_eq!(audio, &vec![9, 8, 7]);
        }
        _ => panic!("expected playback"),
    }

    let acts = r.step(&mut store, Event::Played(Ok(())));
    assert!(acts.is_empty());
    assert_eq!(r.stage(), Stage::Done);
    assert_eq!(store.turn_count(CH_A), 2);
    assert_eq!(
        turns(&store, CH_A),
        vec![(Role::User, expected_user), (Role::Assistant, "Upupupu, blue, obviously!".to_string())]
    );
}

#[test]
fn history_keeps_exchange_order() {
    let mut store = ConversationStore::new();
    let prompts = ["one", "two", "three"];
    let replies = ["uno", "dos", "tres"];
    for i in 0..3 {
        run_success(&mut store, CH_A, prompts[i], replies[i]);
    }
    let mut expected = Vec::new();
    for i in 0..3 {
        expected.push((Role::User, persona_prompt(PERSONA, prompts[i])));
        expected.push((Role::Assistant, replies[i].to_string()));
    }
    assert_eq!(turns(&store, CH_A), expected);
}

#[test]
fn later_request_carries_whole_history() {
    let mut store = ConversationStore::new();
    run_success(&mut store, CH_A, "first question", "first answer");
    let mut r = relay(CH_A, "second question");
    let acts = r.step(&mut store, Event::Begin);
    match &acts[0] {
        Action::RequestCompletion { body } => {
            let first = body.find("first question").unwrap();
            let answer = body.find("{\"role\":\"assistant\",\"content\":\"first answer\"}").unwrap();
            let second = body.find("second question").unwrap();
            assert!(first < answer && answer < second);
        }
        _ => panic!("expected a completion request"),
    }
}

#[test]
fn channels_are_isolated() {
    let mut store = ConversationStore::new();
    let mut a = relay(CH_A, "prompt for a");
    let mut b = relay(CH_B, "prompt for b");
    let acts_a = a.step(&mut store, Event::Begin);
    let acts_b = b.step(&mut store, Event::Begin);
    match &acts_b[0] {
        Action::RequestCompletion { body } => assert!(!body.contains("prompt for a")),
        _ => panic!("expected a completion request"),
    }
    match &acts_a[0] {
        Action::RequestCompletion { body } => assert!(!body.contains("prompt for b")),
        _ => panic!("expected a completion request"),
    }
    a.step(&mut store, Event::Completed(Ok("reply a".to_string())));
    b.step(&mut store, Event::Completed(Ok("reply b".to_string())));
    b.step(&mut store, Event::Synthesized(Ok(vec![1])));
    a.step(&mut store, Event::Synthesized(Ok(vec![2])));
    a.step(&mut store, Event::Played(Ok(())));
    b.step(&mut store, Event::Played(Ok(())));
    assert_eq!(
        turns(&store, CH_A),
        vec![
            (Role::User, persona_prompt(PERSONA, "prompt for a")),
            (Role::Assistant, "reply a".to_string())
        ]
    );
    assert_eq!(
        turns(&store, CH_B),
        vec![
            (Role::User, persona_prompt(PERSONA, "prompt for b")),
            (Role::Assistant, "reply b".to_string())
        ]
    );
}

#[test]
fn completion_failure_keeps_user_turn_only() {
    for err in [
        CompletionError::Transport,
        CompletionError::BadStatus,
        CompletionError::BadBody,
        CompletionError::EmptyChoices,
    ] {
        let mut store = ConversationStore::new();
        let mut r = relay(CH_A, "hello");
        r.step(&mut store, Event::Begin);
        let acts = r.step(&mut store, Event::Completed(Err(err)));
        assert_eq!(acts.len(), 1);
        assert!(matches!(acts[0], Action::Notify { channel: CH_A, notice: Notice::CompletionFailed }));
        assert_eq!(r.stage(), Stage::Aborted(AbortReason::CompletionFailed));
        assert_eq!(turns(&store, CH_A), vec![(Role::User, persona_prompt(PERSONA, "hello"))]);
        let later = r.step(&mut store, Event::Synthesized(Ok(vec![1])));
        assert!(later.is_empty());
        let later = r.step(&mut store, Event::Played(Ok(())));
        assert!(later.is_empty());
        assert_eq!(store.turn_count(CH_A), 1);
    }
}

#[test]
fn synthesis_failure_still_sends_text_once() {
    let mut store = ConversationStore::new();
    let mut r = relay(CH_A, "hello");
    let mut all = Vec::new();
    all.extend(r.step(&mut store, Event::Begin));
    all.extend(r.step(&mut store, Event::Completed(Ok("hi there".to_string()))));
    all.extend(r.step(&mut store, Event::Synthesized(Err(SynthesisError::BadStatus))));
    all.extend(r.step(&mut store, Event::Played(Ok(()))));
    let replies: Vec<&String> = all
        .iter()
        .filter_map(|a| match a {
            Action::SendReply { text, .. } => Some(text),
            _ => None,
        })
        .collect();
    assert_eq!(replies, vec!["hi there"]);
    assert!(!all.iter().any(|a| matches!(a, Action::Play { .. })));
    assert!(matches!(all.last(), Some(Action::Notify { channel: CH_A, notice: Notice::SynthesisFailed })));
    assert_eq!(r.stage(), Stage::Aborted(AbortReason::SynthesisFailed));
    assert_eq!(
        turns(&store, CH_A),
        vec![(Role::User, persona_prompt(PERSONA, "hello")), (Role::Assistant, "hi there".to_string())]
    );
}

#[test]
fn synthesis_transport_failure_aborts() {
    let mut store = ConversationStore::new();
    let mut r = relay(CH_A, "hello");
    r.step(&mut store, Event::Begin);
    r.step(&mut store, Event::Completed(Ok("hi".to_string())));
    let acts = r.step(&mut store, Event::Synthesized(Err(SynthesisError::Transport)));
    assert!(matches!(acts[0], Action::Notify { notice: Notice::SynthesisFailed, .. }));
    assert_eq!(store.turn_count(CH_A), 2);
}

#[test]
fn no_session_gives_not_connected_notice() {
    let mut store = ConversationStore::new();
    let mut r = relay(CH_A, "hello");
    r.step(&mut store, Event::Begin);
    r.step(&mut store, Event::Completed(Ok("hi".to_string())));
    r.step(&mut store, Event::Synthesized(Ok(vec![1, 2])));
    let acts = r.step(&mut store, Event::Played(Err(PlaybackError::NoActiveSession)));
    assert_eq!(acts.len(), 1);
    assert!(matches!(acts[0], Action::Notify { channel: CH_A, notice: Notice::NotConnected }));
    assert_eq!(Notice::NotConnected.message(), "The bot is not connected to a voice channel");
    assert_eq!(r.stage(), Stage::Aborted(AbortReason::PlaybackFailed));
    assert_eq!(store.turn_count(CH_A), 2);
}

#[test]
fn decode_failure_gives_playback_notice() {
    for err in [PlaybackError::ArtifactWriteFailed, PlaybackError::DecodeFailed] {
        let mut store = ConversationStore::new();
        let mut r = relay(CH_A, "hello");
        r.step(&mut store, Event::Begin);
        r.step(&mut store, Event::Completed(Ok("hi".to_string())));
        r.step(&mut store, Event::Synthesized(Ok(vec![1])));
        let acts = r.step(&mut store, Event::Played(Err(err)));
        assert!(matches!(acts[0], Action::Notify { notice: Notice::PlaybackFailed, .. }));
        assert_eq!(turns(&store, CH_A)[1], (Role::Assistant, "hi".to_string()));
    }
}

#[test]
fn unexpected_events_change_nothing() {
    let mut store = ConversationStore::new();
    let mut r = relay(CH_A, "hello");
    assert!(r.step(&mut store, Event::Completed(Ok("early".to_string()))).is_empty());
    assert!(r.step(&mut store, Event::Played(Ok(()))).is_empty());
    assert_eq!(r.stage(), Stage::Building);
    assert_eq!(store.turn_count(CH_A), 0);
    r.step(&mut store, Event::Begin);
    assert!(r.step(&mut store, Event::Begin).is_empty());
    assert_eq!(store.turn_count(CH_A), 1);
    run_success(&mut store, CH_A, "next", "answer");
    assert_eq!(store.turn_count(CH_A), 3);
}

#[test]
fn relay_reports_its_channel_and_guild() {
    let r = relay(CH_B, "x");
    assert_eq!(r.channel(), CH_B);
    assert_eq!(r.guild(), GUILD);
    assert_eq!(r.stage(), Stage::Building);
}
