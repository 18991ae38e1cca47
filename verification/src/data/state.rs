//! What a session knows once it is ready: relationships, private channels, users
//! and the messages seen so far.

use crate::data::cache::TextMap;
use crate::data::user::{User, UserView};
use crate::json::text_opt;
use vstd::prelude::*;
use vstd::std_specs::cmp::PartialEqSpecImpl;

verus! {

/// A chat message as the views show it.
#[derive(Debug, Clone)]
pub enum Message {
    Default { user_id: String, content: String },
}

/// How the current user stands to another user.
#[derive(Debug, Clone, Copy, PartialEq, Eq, Structural)]
pub enum RelationshipKind {
    Unrelated,
    Friend,
    Blocked,
    PendingIncoming,
    PendingOutgoing,
    Implicit,
}

/// The relationship that a wire code stands for; unknown codes mean none.
pub open spec fn relationship_kind_of(code: u16) -> RelationshipKind {
    if code == 1 {
        RelationshipKind::Friend
    } else if code == 2 {
        RelationshipKind::Blocked
    } else if code == 3 {
        RelationshipKind::PendingIncoming
    } else if code == 4 {
        RelationshipKind::PendingOutgoing
    } else if code == 5 {
        RelationshipKind::Implicit
    } else {
        RelationshipKind::Unrelated
    }
}

impl RelationshipKind {
    /// Reads a wire code.
    pub fn from_code(code: u16) -> (kind: RelationshipKind)
        ensures
            kind == relationship_kind_of(code),
    {
        match code {
            1 => RelationshipKind::Friend,
            2 => RelationshipKind::Blocked,
            3 => RelationshipKind::PendingIncoming,
            4 => RelationshipKind::PendingOutgoing,
            5 => RelationshipKind::Implicit,
            _ => RelationshipKind::Unrelated,
        }
    }
}

/// A relationship to the user with the given id.
#[derive(Debug, Clone)]
pub struct Relationship {
    pub id: String,
    pub kind: RelationshipKind,
}

/// Mathematical value of a [`Relationship`].
pub ghost struct RelationshipView {
    pub id: Seq<char>,
    pub kind: RelationshipKind,
}

impl View for Relationship {
    type V = RelationshipView;

    open spec fn view(&self) -> RelationshipView {
        RelationshipView { id: self.id@, kind: self.kind }
    }
}

/// Whether a private channel is a conversation of two or a group.
#[derive(Debug, Clone, Copy, PartialEq, Eq, Structural)]
pub enum PrivateChannelKind {
    DirectMessage,
    Group,
}

/// The channel kind that a wire code stands for: 3 is a group, all else a direct
/// conversation.
pub open spec fn channel_kind_of(code: u16) -> PrivateChannelKind {
    if code == 3 {
        PrivateChannelKind::Group
    } else {
        PrivateChannelKind::DirectMessage
    }
}

impl PrivateChannelKind {
    /// Reads a wire code.
    pub fn from_code(code: u16) -> (kind: PrivateChannelKind)
        ensures
            kind == channel_kind_of(code),
    {
        if code == 3 {
            PrivateChannelKind::Group
        } else {
            PrivateChannelKind::DirectMessage
        }
    }
}

/// A private channel, with the ids of the users in it.
#[derive(Debug)]
pub struct PrivateChannel {
    pub id: String,
    pub kind: PrivateChannelKind,
    pub recipients: Vec<String>,
    pub owner_id: Option<String>,
    pub name: Option<String>,
    pub icon: Option<String>,
    pub last_message_timestamp: u64,
}

/// Mathematical value of a [`PrivateChannel`].
pub ghost struct PrivateChannelView {
    pub id: Seq<char>,
    pub kind: PrivateChannelKind,
    pub recipients: Seq<Seq<char>>,
    pub owner_id: Option<Seq<char>>,
    pub name: Option<Seq<char>>,
    pub icon: Option<Seq<char>>,
    pub last_message_timestamp: u64,
}

impl View for PrivateChannel {
    type V = PrivateChannelView;

    open spec fn view(&self) -> PrivateChannelView {
        PrivateChannelView {
            id: self.id@,
            kind: self.kind,
            recipients: self.recipients@.map_values(|id: String| id@),
            owner_id: text_opt(self.owner_id),
            name: text_opt(self.name),
            icon: text_opt(self.icon),
            last_message_timestamp: self.last_message_timestamp,
        }
    }
}

impl Clone for PrivateChannel {
    fn clone(&self) -> (copy: PrivateChannel)
        ensures
            copy@ == self@,
    {
        PrivateChannel {
            id: self.id.clone(),
            kind: self.kind,
            recipients: crate::data::settings::clone_texts(&self.recipients),
            owner_id: match &self.owner_id {
                Some(t) => Some(t.clone()),
                None => None,
            },
            name: match &self.name {
                Some(t) => Some(t.clone()),
                None => None,
            },
            icon: match &self.icon {
                Some(t) => Some(t.clone()),
                None => None,
            },
            last_message_timestamp: self.last_message_timestamp,
        }
    }
}

/// Two channels are the same channel when their ids agree.
impl PartialEq for PrivateChannel {
    fn eq(&self, other: &PrivateChannel) -> (same: bool) {
        self.id == other.id
    }
}

impl PartialEqSpecImpl for PrivateChannel {
    open spec fn obeys_eq_spec() -> bool {
        true
    }

    open spec fn eq_spec(&self, other: &PrivateChannel) -> bool {
        self.id@ == other.id@
    }
}

/// Where `c` goes in a list that is ordered from the latest message to the earliest:
/// behind every channel that is not older than `c`, and so behind its equals.
pub open spec fn insert_latest_first(
    ordered: Seq<PrivateChannelView>,
    c: PrivateChannelView,
) -> Seq<PrivateChannelView>
    decreases ordered.len(),
{
    if ordered.len() == 0 {
        seq![c]
    } else if ordered.last().last_message_timestamp >= c.last_message_timestamp {
        ordered.push(c)
    } else {
        insert_latest_first(ordered.drop_last(), c).push(ordered.last())
    }
}

/// The channels of `channels` from the latest message to the earliest; channels
/// with the same timestamp stay in the order in which they came.
pub open spec fn latest_first(channels: Seq<PrivateChannelView>) -> Seq<PrivateChannelView>
    decreases channels.len(),
{
    if channels.len() == 0 {
        Seq::empty()
    } else {
        insert_latest_first(latest_first(channels.drop_last()), channels.last())
    }
}

/// No channel of `channels` stands before one with a later timestamp.
pub open spec fn is_latest_first(channels: Seq<PrivateChannelView>) -> bool {
    forall|i: int, j: int|
        0 <= i < j < channels.len() ==> (#[trigger] channels[i]).last_message_timestamp >= (
        #[trigger] channels[j]).last_message_timestamp
}

/// Inserting into an ordered list is the same as putting the channel at the first
/// place behind which every channel is older.
proof fn lemma_insert_place(ordered: Seq<PrivateChannelView>, c: PrivateChannelView, p: int)
    requires
        0 <= p <= ordered.len(),
        forall|k: int|
            p <= k < ordered.len() ==> (#[trigger] ordered[k]).last_message_timestamp
                < c.last_message_timestamp,
        p > 0 ==> ordered[p - 1].last_message_timestamp >= c.last_message_timestamp,
    ensures
        insert_latest_first(ordered, c) == ordered.insert(p, c),
    decreases ordered.len(),
{
    if ordered.len() == 0 {
        assert(ordered.insert(p, c) == seq![c]);
    } else if p == ordered.len() {
        assert(ordered.insert(p, c) == ordered.push(c));
    } else {
        let shorter = ordered.drop_last();
        assert(ordered[ordered.len() - 1].last_message_timestamp < c.last_message_timestamp);
        assert forall|k: int| p <= k < shorter.len() implies (
        #[trigger] shorter[k]).last_message_timestamp < c.last_message_timestamp by {
            assert(shorter[k] == ordered[k]);
        }
        lemma_insert_place(shorter, c, p);
        assert(shorter.insert(p, c).push(ordered.last()) == ordered.insert(p, c));
    }
}

/// Inserting keeps an ordered list ordered, adds the channel and loses none.
proof fn lemma_insert_latest_first(ordered: Seq<PrivateChannelView>, c: PrivateChannelView)
    requires
        is_latest_first(ordered),
    ensures
        is_latest_first(insert_latest_first(ordered, c)),
        insert_latest_first(ordered, c).to_multiset() == ordered.to_multiset().insert(c),
        insert_latest_first(ordered, c).len() == ordered.len() + 1,
    decreases ordered.len(),
{
    broadcast use vstd::seq_lib::group_to_multiset_ensures;

    let result = insert_latest_first(ordered, c);
    if ordered.len() == 0 {
        assert(ordered == Seq::<PrivateChannelView>::empty());
        assert(result == Seq::<PrivateChannelView>::empty().push(c));
    } else if ordered.last().last_message_timestamp >= c.last_message_timestamp {
        assert forall|i: int, j: int| 0 <= i < j < result.len() implies (
        #[trigger] result[i]).last_message_timestamp >= (
        #[trigger] result[j]).last_message_timestamp by {
            if j == ordered.len() {
                assert(ordered[i].last_message_timestamp >= ordered[ordered.len()
                    - 1].last_message_timestamp || i == ordered.len() - 1);
            } else {
                assert(result[i] == ordered[i] && result[j] == ordered[j]);
            }
        }
    } else {
        let shorter = ordered.drop_last();
        assert(is_latest_first(shorter)) by {
            assert forall|i: int, j: int| 0 <= i < j < shorter.len() implies (
            #[trigger] shorter[i]).last_message_timestamp >= (
            #[trigger] shorter[j]).last_message_timestamp by {
                assert(shorter[i] == ordered[i] && shorter[j] == ordered[j]);
            }
        }
        lemma_insert_latest_first(shorter, c);
        let inner = insert_latest_first(shorter, c);
        assert(ordered == shorter.push(ordered.last()));
        assert(inner.to_multiset().insert(ordered.last()) == ordered.to_multiset().insert(c));
        assert forall|i: int| 0 <= i < inner.len() implies (
        #[trigger] inner[i]).last_message_timestamp >= ordered.last().last_message_timestamp by {
            assert(inner.to_multiset().count(inner[i]) > 0);
            if inner[i] != c {
                assert(shorter.to_multiset().count(inner[i]) > 0);
                assert(shorter.contains(inner[i]));
                let k = choose|k: int| 0 <= k < shorter.len() && shorter[k] == inner[i];
                assert(ordered[k] == shorter[k]);
                assert(ordered[k].last_message_timestamp >= ordered[ordered.len()
                    - 1].last_message_timestamp);
            }
        }
        assert forall|i: int, j: int| 0 <= i < j < result.len() implies (
        #[trigger] result[i]).last_message_timestamp >= (
        #[trigger] result[j]).last_message_timestamp by {
            if j < inner.len() {
                assert(result[i] == inner[i] && result[j] == inner[j]);
            } else {
                assert(result[i] == inner[i]);
            }
        }
    }
}

/// Ordering a list gives an ordered list of the same channels: none is lost, none
/// is added, and none stands before one with a later timestamp.
pub proof fn law_latest_first_orders(channels: Seq<PrivateChannelView>)
    ensures
        is_latest_first(latest_first(channels)),
        latest_first(channels).to_multiset() == channels.to_multiset(),
        latest_first(channels).len() == channels.len(),
    decreases channels.len(),
{
    broadcast use vstd::seq_lib::group_to_multiset_ensures;

    if channels.len() == 0 {
        assert(channels == Seq::<PrivateChannelView>::empty());
    } else {
        law_latest_first_orders(channels.drop_last());
        lemma_insert_latest_first(latest_first(channels.drop_last()), channels.last());
        assert(channels == channels.drop_last().push(channels.last()));
    }
}

/// The views of a list of relationships.
pub open spec fn relationships_view(items: Seq<Relationship>) -> Seq<RelationshipView> {
    items.map_values(|r: Relationship| r@)
}

/// The views of a list of private channels.
pub open spec fn channels_view(items: Seq<PrivateChannel>) -> Seq<PrivateChannelView> {
    items.map_values(|c: PrivateChannel| c@)
}

/// Puts `c` into a list that runs from the latest message to the earliest, behind
/// every channel that is not older.
pub fn place_latest_first(list: &mut Vec<PrivateChannel>, c: PrivateChannel)
    ensures
        channels_view(final(list)@) == insert_latest_first(channels_view(old(list)@), c@),
{
    let ghost before = channels_view(list@);
    let mut p: usize = list.len();
    while p > 0 && list[p - 1].last_message_timestamp < c.last_message_timestamp
        invariant
            p <= list.len(),
            list@ == old(list)@,
            before == channels_view(list@),
            forall|k: int|
                p <= k < before.len() ==> (#[trigger] before[k]).last_message_timestamp
                    < c.last_message_timestamp,
        decreases p,
    {
        p -= 1;
    }
    proof {
        lemma_insert_place(before, c@, p as int);
    }
    list.insert(p, c);
    assert(channels_view(list@) == before.insert(p as int, c@));
}

/// The state of a ready session.
#[derive(Debug, Clone)]
pub struct State {
    pub user_id: String,
    pub relationships: Vec<Relationship>,
    pub private_channels: Vec<PrivateChannel>,
    pub user_cache: TextMap<User>,
    pub message_cache: TextMap<Vec<Message>>,
}

/// Mathematical value of a [`State`].
pub ghost struct StateView {
    pub user_id: Seq<char>,
    pub relationships: Seq<RelationshipView>,
    pub private_channels: Seq<PrivateChannelView>,
    pub users: Map<Seq<char>, UserView>,
    pub messages: Map<Seq<char>, Seq<Message>>,
}

impl View for State {
    type V = StateView;

    open spec fn view(&self) -> StateView {
        StateView {
            user_id: self.user_id@,
            relationships: relationships_view(self.relationships@),
            private_channels: channels_view(self.private_channels@),
            users: self.user_cache@,
            messages: self.message_cache@,
        }
    }
}

/// Whether the application is connected, and with what state.
#[derive(Debug, Clone)]
pub enum ConnectionState {
    Disconnected,
    Connecting,
    Connecetd(State),
}

/// Mathematical value of a [`ConnectionState`].
pub ghost enum ConnectionView {
    Disconnected,
    Connecting,
    Connecetd(StateView),
}

impl View for ConnectionState {
    type V = ConnectionView;

    open spec fn view(&self) -> ConnectionView {
        match self {
            ConnectionState::Disconnected => ConnectionView::Disconnected,
            ConnectionState::Connecting => ConnectionView::Connecting,
            ConnectionState::Connecetd(state) => ConnectionView::Connecetd(state@),
        }
    }
}

impl ConnectionState {
    /// The invariant of the type: the state of a connected application is well
    /// formed.
    pub open spec fn well_formed(&self) -> bool {
        match self {
            ConnectionState::Connecetd(state) => state.well_formed(),
            _ => true,
        }
    }

    /// Whether the application is connected.
    pub fn is_connected(&self) -> (connected: bool)
        ensures
            connected == (self@ is Connecetd),
    {
        match self {
            ConnectionState::Connecetd(_) => true,
            _ => false,
        }
    }
}

impl State {
    /// The invariant of the type: both caches are well formed.
    pub open spec fn well_formed(&self) -> bool {
        self.user_cache.well_formed() && self.message_cache.well_formed()
    }

    /// A state with the given user, relationships, channels and known users, and no
    /// message yet.
    pub fn new(
        user_id: String,
        relationships: Vec<Relationship>,
        private_channels: Vec<PrivateChannel>,
        user_cache: TextMap<User>,
    ) -> (state: State)
        requires
            user_cache.well_formed(),
        ensures
            state.well_formed(),
            state@ == (StateView {
                user_id: user_id@,
                relationships: relationships_view(relationships@),
                private_channels: channels_view(private_channels@),
                users: user_cache@,
                messages: Map::empty(),
            }),
            state.user_cache.keys() == user_cache.keys(),
    {
        State {
            user_id,
            relationships,
            private_channels,
            user_cache,
            message_cache: TextMap::new(),
        }
    }

    /// Appends a message to those of a channel; the first message of a channel
    /// starts its list.
    pub fn insert_message(&mut self, channel_id: String, msg: Message)
        requires
            old(self).well_formed(),
        ensures
            final(self).well_formed(),
            final(self)@ == (StateView {
                messages: old(self)@.messages.insert(
                    channel_id@,
                    if old(self)@.messages.dom().contains(channel_id@) {
                        old(self)@.messages[channel_id@].push(msg)
                    } else {
                        seq![msg]
                    },
                ),
                ..old(self)@
            }),
    {
        self.message_cache.push_to(channel_id, msg);
    }
}

} // verus!
