use crate::completion::CompletionError;
use crate::conversation::{Role, TurnView, history_in, with_turn};
use crate::relay::{
    AbortReason, ActionView, EventView, RelayState, Stage, initial_state, next, persona_prompt_text,
};
use crate::speech::{PlaybackError, SynthesisError, VoiceProfile};
use vstd::prelude::*;

verus! {

/// The state, store and actions after a relay took the events `es` in order,
/// one `next` each; the actions are those of every step, in order.
pub open spec fn run(s: RelayState, m: Map<u64, Seq<TurnView>>, es: Seq<EventView>) -> (
    RelayState,
    Map<u64, Seq<TurnView>>,
    Seq<ActionView>,
)
    decreases es.len(),
{
    if es.len() == 0 {
        (s, m, Seq::empty())
    } else {
        let before = run(s, m, es.drop_last());
        let step = next(before.0, before.1, es.last());
        (step.0, step.1, before.2 + step.2)
    }
}

/// The events of a relay on which every outside call succeeds.
pub open spec fn success_events(reply: Seq<char>, audio: Seq<u8>) -> Seq<EventView> {
    seq![
        EventView::Begin,
        EventView::Completed(Ok(reply)),
        EventView::Synthesized(Ok(audio)),
        EventView::Played(Ok(())),
    ]
}

/// The store after one relay per prompt, in order, all on `channel`, each
/// succeeding with the reply and audio of the same index.
pub open spec fn store_after_successes(
    m: Map<u64, Seq<TurnView>>,
    channel: u64,
    guild: u64,
    persona: Seq<char>,
    profile: VoiceProfile,
    prompts: Seq<Seq<char>>,
    replies: Seq<Seq<char>>,
    audios: Seq<Seq<u8>>,
) -> Map<u64, Seq<TurnView>>
    decreases prompts.len(),
{
    if prompts.len() == 0 || replies.len() == 0 || audios.len() == 0 {
        m
    } else {
        let before = store_after_successes(
            m,
            channel,
            guild,
            persona,
            profile,
            prompts.drop_last(),
            replies.drop_last(),
            audios.drop_last(),
        );
        run(
            initial_state(channel, guild, persona, prompts.last(), profile),
            before,
            success_events(replies.last(), audios.last()),
        ).1
    }
}

/// The turns of the exchanges `prompts[i]`, `replies[i]` in order: user,
/// assistant, user, assistant, ...
pub open spec fn exchange_turns(
    persona: Seq<char>,
    prompts: Seq<Seq<char>>,
    replies: Seq<Seq<char>>,
) -> Seq<TurnView>
    decreases prompts.len(),
{
    if prompts.len() == 0 || replies.len() == 0 {
        Seq::empty()
    } else {
        exchange_turns(persona, prompts.drop_last(), replies.drop_last()).push(
            (Role::User, persona_prompt_text(persona, prompts.last())),
        ).push((Role::Assistant, replies.last()))
    }
}

/// The texts of the replies that the actions `acts` send, in order.
pub open spec fn replies_sent(acts: Seq<ActionView>) -> Seq<Seq<char>>
    decreases acts.len(),
{
    if acts.len() == 0 {
        Seq::empty()
    } else {
        match acts.last() {
            ActionView::SendReply(_, text) => replies_sent(acts.drop_last()).push(text),
            _ => replies_sent(acts.drop_last()),
        }
    }
}

/// Whether `a` calls the speech service or the voice session.
pub open spec fn is_voice_action(a: ActionView) -> bool {
    a is Synthesize || a is Play
}

/// Whether a stage is final.
pub open spec fn is_terminal(stage: Stage) -> bool {
    stage == Stage::Done || stage is Aborted
}

proof fn lemma_run_push(
    s: RelayState,
    m: Map<u64, Seq<TurnView>>,
    es: Seq<EventView>,
    e: EventView,
)
    ensures
        run(s, m, es.push(e)) == ({
            let before = run(s, m, es);
            let step = next(before.0, before.1, e);
            (step.0, step.1, before.2 + step.2)
        }),
{
    assert(es.push(e).drop_last() =~= es);
}

proof fn lemma_replies_sent_concat(a: Seq<ActionView>, b: Seq<ActionView>)
    ensures
        replies_sent(a + b) == replies_sent(a) + replies_sent(b),
    decreases b.len(),
{
    if b.len() == 0 {
        assert(a + b =~= a);
        assert(replies_sent(a) + replies_sent(b) =~= replies_sent(a));
    } else {
        assert((a + b).drop_last() =~= a + b.drop_last());
        assert((a + b).last() == b.last());
        lemma_replies_sent_concat(a, b.drop_last());
        match b.last() {
            ActionView::SendReply(_, text) => {
                assert(replies_sent(a) + replies_sent(b) =~= (replies_sent(a) + replies_sent(
                    b.drop_last(),
                )).push(text));
            },
            _ => {},
        }
    }
}

/// A relay that is done or aborted ignores every later event: its state and
/// the store stay as they are, and it asks for nothing more.
pub proof fn law_terminal_is_final(s: RelayState, m: Map<u64, Seq<TurnView>>, es: Seq<EventView>)
    requires
        is_terminal(s.stage),
    ensures
        run(s, m, es) == (s, m, Seq::<ActionView>::empty()),
    decreases es.len(),
{
    if es.len() > 0 {
        law_terminal_is_final(s, m, es.drop_last());
        assert(Seq::<ActionView>::empty() + Seq::<ActionView>::empty() =~= Seq::<
            ActionView,
        >::empty());
    }
}

/// Taking `a` and then `b` is taking `a + b`.
pub proof fn law_run_concat(
    s: RelayState,
    m: Map<u64, Seq<TurnView>>,
    a: Seq<EventView>,
    b: Seq<EventView>,
)
    ensures
        run(s, m, a + b) == ({
            let first = run(s, m, a);
            let second = run(first.0, first.1, b);
            (second.0, second.1, first.2 + second.2)
        }),
    decreases b.len(),
{
    let first = run(s, m, a);
    if b.len() == 0 {
        assert(a + b =~= a);
        assert(first.2 + Seq::<ActionView>::empty() =~= first.2);
    } else {
        law_run_concat(s, m, a, b.drop_last());
        assert((a + b).drop_last() =~= a + b.drop_last());
        assert((a + b).last() == b.last());
        let mid = run(first.0, first.1, b.drop_last());
        let step = next(mid.0, mid.1, b.last());
        assert(first.2 + (mid.2 + step.2) =~= (first.2 + mid.2) + step.2);
    }
}

proof fn lemma_one_success(
    m: Map<u64, Seq<TurnView>>,
    channel: u64,
    guild: u64,
    persona: Seq<char>,
    prompt: Seq<char>,
    profile: VoiceProfile,
    reply: Seq<char>,
    audio: Seq<u8>,
)
    ensures
        ({
            let r = run(
                initial_state(channel, guild, persona, prompt, profile),
                m,
                success_events(reply, audio),
            );
            &&& r.0.stage == Stage::Done
            &&& r.1 == with_turn(
                with_turn(m, channel, (Role::User, persona_prompt_text(persona, prompt))),
                channel,
                (Role::Assistant, reply),
            )
        }),
{
    let s = initial_state(channel, guild, persona, prompt, profile);
    let e0 = EventView::Begin;
    let e1 = EventView::Completed(Ok(reply));
    let e2 = EventView::Synthesized(Ok(audio));
    let e3 = EventView::Played(Ok(()));
    let es0 = Seq::<EventView>::empty();
    lemma_run_push(s, m, es0, e0);
    lemma_run_push(s, m, es0.push(e0), e1);
    lemma_run_push(s, m, es0.push(e0).push(e1), e2);
    lemma_run_push(s, m, es0.push(e0).push(e1).push(e2), e3);
    assert(success_events(reply, audio) =~= es0.push(e0).push(e1).push(e2).push(e3));
}

/// When every relay on a channel succeeds, the channel's history gains, in
/// order, the user turn and the assistant turn of each exchange: user 1,
/// assistant 1, user 2, assistant 2, and so on.
pub proof fn law_history_order(
    m: Map<u64, Seq<TurnView>>,
    channel: u64,
    guild: u64,
    persona: Seq<char>,
    profile: VoiceProfile,
    prompts: Seq<Seq<char>>,
    replies: Seq<Seq<char>>,
    audios: Seq<Seq<u8>>,
)
    requires
        prompts.len() == replies.len(),
        prompts.len() == audios.len(),
    ensures
        history_in(
            store_after_successes(m, channel, guild, persona, profile, prompts, replies, audios),
            channel,
        ) == history_in(m, channel) + exchange_turns(persona, prompts, replies),
    decreases prompts.len(),
{
    if prompts.len() == 0 {
        assert(history_in(m, channel) + Seq::<TurnView>::empty() =~= history_in(m, channel));
    } else {
        let before = store_after_successes(
            m,
            channel,
            guild,
            persona,
            profile,
            prompts.drop_last(),
            replies.drop_last(),
            audios.drop_last(),
        );
        law_history_order(
            m,
            channel,
            guild,
            persona,
            profile,
            prompts.drop_last(),
            replies.drop_last(),
            audios.drop_last(),
        );
        lemma_one_success(
            before,
            channel,
            guild,
            persona,
            prompts.last(),
            profile,
            replies.last(),
            audios.last(),
        );
        let prev = exchange_turns(persona, prompts.drop_last(), replies.drop_last());
        assert(history_in(m, channel) + exchange_turns(persona, prompts, replies) =~= (
        history_in(m, channel) + prev).push(
            (Role::User, persona_prompt_text(persona, prompts.last())),
        ).push((Role::Assistant, replies.last())));
    }
}

proof fn lemma_step_isolated(
    s: RelayState,
    m: Map<u64, Seq<TurnView>>,
    m2: Map<u64, Seq<TurnView>>,
    e: EventView,
    other: u64,
)
    requires
        other != s.channel,
        history_in(m2, s.channel) == history_in(m, s.channel),
    ensures
        history_in(next(s, m, e).1, other) == history_in(m, other),
        next(s, m2, e).0 == next(s, m, e).0,
        next(s, m2, e).2 == next(s, m, e).2,
        history_in(next(s, m2, e).1, s.channel) == history_in(next(s, m, e).1, s.channel),
{
}

/// A relay on one channel neither changes nor reads the history of any other
/// channel: every other channel keeps its history, and on a store that holds
/// the same history for the relay's own channel, the relay reaches the same
/// state, asks for the same actions, and leaves the same history there.
pub proof fn law_channel_isolation(
    s: RelayState,
    m: Map<u64, Seq<TurnView>>,
    m2: Map<u64, Seq<TurnView>>,
    es: Seq<EventView>,
    other: u64,
)
    requires
        other != s.channel,
        history_in(m2, s.channel) == history_in(m, s.channel),
    ensures
        run(s, m, es).0.channel == s.channel,
        history_in(run(s, m, es).1, other) == history_in(m, other),
        run(s, m2, es).0 == run(s, m, es).0,
        run(s, m2, es).2 == run(s, m, es).2,
        history_in(run(s, m2, es).1, s.channel) == history_in(run(s, m, es).1, s.channel),
    decreases es.len(),
{
    if es.len() > 0 {
        law_channel_isolation(s, m, m2, es.drop_last(), other);
        let r = run(s, m, es.drop_last());
        let r2 = run(s, m2, es.drop_last());
        lemma_step_isolated(r.0, r.1, r2.1, es.last(), other);
    }
}

/// Where the completion fails, the history gains the user turn and no
/// assistant turn, the relay aborts, and no synthesis or playback is asked
/// for, whatever events come later.
pub proof fn law_completion_failure(
    m: Map<u64, Seq<TurnView>>,
    channel: u64,
    guild: u64,
    persona: Seq<char>,
    prompt: Seq<char>,
    profile: VoiceProfile,
    err: CompletionError,
    later: Seq<EventView>,
)
    ensures
        ({
            let r = run(
                initial_state(channel, guild, persona, prompt, profile),
                m,
                seq![EventView::Begin, EventView::Completed(Err(err))] + later,
            );
            &&& r.0.stage == Stage::Aborted(AbortReason::CompletionFailed)
            &&& history_in(r.1, channel) == history_in(m, channel).push(
                (Role::User, persona_prompt_text(persona, prompt)),
            )
            &&& forall|i: int| 0 <= i < r.2.len() ==> !is_voice_action(#[trigger] r.2[i])
        }),
{
    let s = initial_state(channel, guild, persona, prompt, profile);
    let e0 = EventView::Begin;
    let e1 = EventView::Completed(Err(err));
    let es0 = Seq::<EventView>::empty();
    lemma_run_push(s, m, es0, e0);
    lemma_run_push(s, m, es0.push(e0), e1);
    let head = seq![e0, e1];
    assert(head =~= es0.push(e0).push(e1));
    law_run_concat(s, m, head, later);
    let first = run(s, m, head);
    law_terminal_is_final(first.0, first.1, later);
    let r = run(s, m, head + later);
    assert(r.2 =~= first.2);
}

/// Where the synthesis fails, the reply was still sent as text exactly once,
/// the history gains the user turn and the assistant turn, and no playback is
/// asked for, whatever events come later.
pub proof fn law_synthesis_failure(
    m: Map<u64, Seq<TurnView>>,
    channel: u64,
    guild: u64,
    persona: Seq<char>,
    prompt: Seq<char>,
    profile: VoiceProfile,
    reply: Seq<char>,
    err: SynthesisError,
    later: Seq<EventView>,
)
    ensures
        ({
            let r = run(
                initial_state(channel, guild, persona, prompt, profile),
                m,
                seq![
                    EventView::Begin,
                    EventView::Completed(Ok(reply)),
                    EventView::Synthesized(Err(err)),
                ] + later,
            );
            &&& r.0.stage == Stage::Aborted(AbortReason::SynthesisFailed)
            &&& replies_sent(r.2) == seq![reply]
            &&& history_in(r.1, channel) == history_in(m, channel).push(
                (Role::User, persona_prompt_text(persona, prompt)),
            ).push((Role::Assistant, reply))
            &&& forall|i: int| 0 <= i < r.2.len() ==> !(#[trigger] r.2[i] is Play)
        }),
{
    let s = initial_state(channel, guild, persona, prompt, profile);
    let e0 = EventView::Begin;
    let e1 = EventView::Completed(Ok(reply));
    let e2 = EventView::Synthesized(Err(err));
    let es0 = Seq::<EventView>::empty();
    lemma_run_push(s, m, es0, e0);
    lemma_run_push(s, m, es0.push(e0), e1);
    lemma_run_push(s, m, es0.push(e0).push(e1), e2);
    let head = seq![e0, e1, e2];
    assert(head =~= es0.push(e0).push(e1).push(e2));
    law_run_concat(s, m, head, later);
    let first = run(s, m, head);
    law_terminal_is_final(first.0, first.1, later);
    let r = run(s, m, head + later);
    assert(r.2 =~= first.2);
    let a0 = next(s, m, e0).2;
    let s1 = next(s, m, e0);
    let a1 = next(s1.0, s1.1, e1).2;
    let s2 = next(s1.0, s1.1, e1);
    let a2 = next(s2.0, s2.1, e2).2;
    assert(Seq::<ActionView>::empty() + a0 =~= a0);
    lemma_replies_sent_concat(a0, a1);
    lemma_replies_sent_concat(a0 + a1, a2);
    assert(a0.drop_last() =~= Seq::<ActionView>::empty());
    assert(a1.drop_last() =~= seq![a1[0]]);
    assert(seq![a1[0]].drop_last() =~= Seq::<ActionView>::empty());
    assert(a2.drop_last() =~= Seq::<ActionView>::empty());
    assert(replies_sent(a0) == replies_sent(Seq::<ActionView>::empty()));
    assert(replies_sent(a2) == replies_sent(Seq::<ActionView>::empty()));
    assert(replies_sent(a1) == replies_sent(seq![a1[0]]));
    assert(replies_sent(seq![a1[0]]) == replies_sent(Seq::<ActionView>::empty()).push(reply));
    assert(replies_sent(a0 + a1 + a2) =~= seq![reply]);
    assert(Seq::<ActionView>::empty() + a0 + a1 + a2 =~= a0 + a1 + a2);
}

/// Where the guild has no voice session, the playback ends in a "not
/// connected" notice to the channel, and the history still gains both turns.
pub proof fn law_no_session_notice(
    m: Map<u64, Seq<TurnView>>,
    channel: u64,
    guild: u64,
    persona: Seq<char>,
    prompt: Seq<char>,
    profile: VoiceProfile,
    reply: Seq<char>,
    audio: Seq<u8>,
)
    ensures
        ({
            let r = run(
                initial_state(channel, guild, persona, prompt, profile),
                m,
                seq![
                    EventView::Begin,
                    EventView::Completed(Ok(reply)),
                    EventView::Synthesized(Ok(audio)),
                    EventView::Played(Err(PlaybackError::NoActiveSession)),
                ],
            );
            &&& r.0.stage == Stage::Aborted(AbortReason::PlaybackFailed)
            &&& r.2.last() == ActionView::Notify(channel, crate::notice::Notice::NotConnected)
            &&& history_in(r.1, channel) == history_in(m, channel).push(
                (Role::User, persona_prompt_text(persona, prompt)),
            ).push((Role::Assistant, reply))
        }),
{
    let s = initial_state(channel, guild, persona, prompt, profile);
    let e0 = EventView::Begin;
    let e1 = EventView::Completed(Ok(reply));
    let e2 = EventView::Synthesized(Ok(audio));
    let e3 = EventView::Played(Err(PlaybackError::NoActiveSession));
    let es0 = Seq::<EventView>::empty();
    lemma_run_push(s, m, es0, e0);
    lemma_run_push(s, m, es0.push(e0), e1);
    lemma_run_push(s, m, es0.push(e0).push(e1), e2);
    lemma_run_push(s, m, es0.push(e0).push(e1).push(e2), e3);
    assert(seq![e0, e1, e2, e3] =~= es0.push(e0).push(e1).push(e2).push(e3));
}

} // verus!
