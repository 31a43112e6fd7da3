use std::collections::HashMap;
use vstd::prelude::*;

verus! {

broadcast use vstd::std_specs::hash::group_hash_axioms;

/// Who spoke a turn of a conversation.
#[derive(Clone, Copy, Debug, PartialEq, Eq, Structural)]
pub enum Role {
    User,
    Assistant,
}

/// One message of a conversation; never changed once stored.
#[derive(Debug)]
pub struct Turn {
    pub role: Role,
    pub content: String,
}

/// A turn as the contracts see it: its role and its text.
pub type TurnView = (Role, Seq<char>);

impl View for Turn {
    type V = TurnView;

    open spec fn view(&self) -> TurnView {
        (self.role, self.content@)
    }
}

/// The model of a stored history.
pub open spec fn turns_view(h: Seq<Turn>) -> Seq<TurnView> {
    h.map_values(|t: Turn| t@)
}

/// The history of channel `ch` in the store model `m`: empty until the
/// channel's first turn.
pub open spec fn history_in(m: Map<u64, Seq<TurnView>>, ch: u64) -> Seq<TurnView> {
    if m.contains_key(ch) {
        m[ch]
    } else {
        Seq::empty()
    }
}

/// The store model `m` after `t` was added at the end of channel `ch`.
pub open spec fn with_turn(m: Map<u64, Seq<TurnView>>, ch: u64, t: TurnView) -> Map<u64, Seq<TurnView>> {
    m.insert(ch, history_in(m, ch).push(t))
}

/// Per-channel conversation histories, keyed by channel id. Histories are
/// created on first use and only ever grow.
pub struct ConversationStore {
    histories: HashMap<u64, Vec<Turn>>,
}

impl View for ConversationStore {
    type V = Map<u64, Seq<TurnView>>;

    closed spec fn view(&self) -> Map<u64, Seq<TurnView>> {
        self.histories@.map_values(|h: Vec<Turn>| turns_view(h@))
    }
}

impl ConversationStore {
    /// An empty store: no channel has a history yet.
    pub fn new() -> (s: ConversationStore)
        ensures
            s@ == Map::<u64, Seq<TurnView>>::empty(),
    {
        let s = ConversationStore { histories: HashMap::new() };
        assert(s@ =~= Map::<u64, Seq<TurnView>>::empty());
        s
    }

    /// Adds `turn` at the end of the history of `channel`; every other
    /// channel keeps its history.
    pub fn append(&mut self, channel: u64, turn: Turn)
        ensures
            final(self)@ == with_turn(old(self)@, channel, turn@),
    {
        let mut h = match self.histories.remove(&channel) {
            Some(h) => h,
            None => Vec::new(),
        };
        let ghost t = turn@;
        h.push(turn);
        self.histories.insert(channel, h);
        assert(turns_view(h@) =~= history_in(old(self)@, channel).push(t));
        assert(self@ =~= with_turn(old(self)@, channel, turn@));
    }

    /// The number of turns stored for `channel`.
    pub fn turn_count(&self, channel: u64) -> (n: usize)
        ensures
            n == history_in(self@, channel).len(),
    {
        match self.histories.get(&channel) {
            Some(h) => h.len(),
            None => 0,
        }
    }

    /// The history of `channel`, or `None` where it has none yet.
    pub fn history(&self, channel: u64) -> (r: Option<&Vec<Turn>>)
        ensures
            match r {
                Some(h) => self@.contains_key(channel) && turns_view(h@) == history_in(self@, channel),
                None => !self@.contains_key(channel),
            },
    {
        self.histories.get(&channel)
    }
}

} // verus!
