//! The tab of the settings in which accounts are added, picked and removed.

use crate::data::user::{User, UserView};
use vstd::prelude::*;
use vstd::string::StringSliceAdditionalSpecFns;

verus! {

/// What the tab tells the view: an account was added by its token, or one was
/// picked or removed by its id.
#[derive(Debug, Clone)]
pub enum AccountsMessage {
    AccountAdded(String),
    AccountSelected(String),
    AccountRemoved(String),
}

/// Mathematical value of an [`AccountsMessage`].
pub ghost enum AccountsMessageView {
    AccountAdded(Seq<char>),
    AccountSelected(Seq<char>),
    AccountRemoved(Seq<char>),
}

impl View for AccountsMessage {
    type V = AccountsMessageView;

    open spec fn view(&self) -> AccountsMessageView {
        match self {
            AccountsMessage::AccountAdded(token) => AccountsMessageView::AccountAdded(token@),
            AccountsMessage::AccountSelected(id) => AccountsMessageView::AccountSelected(id@),
            AccountsMessage::AccountRemoved(id) => AccountsMessageView::AccountRemoved(id@),
        }
    }
}

/// What the tab remembers: the token that is being typed.
#[derive(Debug, Clone)]
pub struct State {
    pub token: String,
}

impl Default for State {
    fn default() -> (state: State)
        ensures
            state.token@ == Seq::<char>::empty(),
    {
        State { token: String::new() }
    }
}

/// What the user did in the tab.
#[derive(Debug, Clone)]
pub enum Event {
    AccountSelected(String),
    AccountRemoved(String),
    TokenChanged(String),
    AddPrssed,
}

/// The token in the field after an event, and what the view is told: picking and
/// removing are passed on; typing changes the token; adding passes the token on and
/// empties the field.
pub open spec fn after_event(token: Seq<char>, event: Event) -> (
    Seq<char>,
    Option<AccountsMessageView>,
) {
    match event {
        Event::AccountSelected(id) => (token, Some(AccountsMessageView::AccountSelected(id@))),
        Event::AccountRemoved(id) => (token, Some(AccountsMessageView::AccountRemoved(id@))),
        Event::TokenChanged(typed) => (typed@, None),
        Event::AddPrssed => (Seq::empty(), Some(AccountsMessageView::AccountAdded(token))),
    }
}

/// Takes an event of the tab.
pub fn update(state: &mut State, event: Event) -> (message: Option<AccountsMessage>)
    ensures
        (
            final(state).token@,
            match message {
                Some(m) => Some(m@),
                None => None,
            },
        ) == after_event(old(state).token@, event),
{
    match event {
        Event::AccountSelected(id) => Some(AccountsMessage::AccountSelected(id)),
        Event::AccountRemoved(id) => Some(AccountsMessage::AccountRemoved(id)),
        Event::TokenChanged(token) => {
            state.token = token;
            None
        },
        Event::AddPrssed => {
            let token = state.token.clone();
            state.token = String::new();
            Some(AccountsMessage::AccountAdded(token))
        },
    }
}

/// The accounts that are not the one with the id `id`, in their order.
pub open spec fn other_accounts(accounts: Seq<UserView>, id: Seq<char>) -> Seq<UserView>
    decreases accounts.len(),
{
    if accounts.len() == 0 {
        Seq::empty()
    } else if accounts.last().id == id {
        other_accounts(accounts.drop_last(), id)
    } else {
        other_accounts(accounts.drop_last(), id).push(accounts.last())
    }
}

/// The accounts that are not the one with the id `id`: those that the tab lists
/// below the current one.
pub fn remove_account(accounts: &Vec<User>, id: &str) -> (rest: Vec<User>)
    ensures
        rest@.map_values(|u: User| u@) == other_accounts(accounts@.map_values(|u: User| u@), id@),
{
    let mut rest: Vec<User> = Vec::new();
    let ghost all = accounts@.map_values(|u: User| u@);
    assert(all.take(0) == Seq::<UserView>::empty());
    assert(rest@.map_values(|u: User| u@) =~= Seq::<UserView>::empty());
    let mut i: usize = 0;
    while i < accounts.len()
        invariant
            i <= accounts.len(),
            all == accounts@.map_values(|u: User| u@),
            rest@.map_values(|u: User| u@) == other_accounts(all.take(i as int), id@),
        decreases accounts.len() - i,
    {
        assert(all.take(i + 1).drop_last() == all.take(i as int));
        assert(all.take(i + 1).last() == accounts@[i as int]@);
        let ghost before = rest@.map_values(|u: User| u@);
        if !crate::json::text_eq(accounts[i].id.as_str(), id) {
            rest.push(accounts[i].clone());
            assert(rest@.map_values(|u: User| u@) =~= before.push(accounts@[i as int]@));
        }
        i += 1;
    }
    assert(all.take(i as int) == all);
    rest
}

/// Finds the account that is shown as the current one: the first with the id of the
/// active account.
pub fn current_account(accounts: &Vec<User>, active: &str) -> (place: Option<usize>)
    ensures
        match place {
            Some(i) => i < accounts@.len() && accounts@[i as int].id@ == active@ && forall|k: int|
                0 <= k < i ==> (#[trigger] accounts@[k]).id@ != active@,
            None => forall|k: int| 0 <= k < accounts@.len() ==> (#[trigger] accounts@[k]).id@ != active@,
        },
{
    let mut i: usize = 0;
    while i < accounts.len()
        invariant
            i <= accounts.len(),
            forall|k: int| 0 <= k < i ==> (#[trigger] accounts@[k]).id@ != active@,
        decreases accounts.len() - i,
    {
        if crate::json::text_eq(accounts[i].id.as_str(), active) {
            return Some(i);
        }
        i += 1;
    }
    None
}

/// The length of a token as the tab measures it: in bytes.
pub open spec fn token_length(token: &str) -> usize {
    token.spec_bytes().len() as usize
}

/// Whether a token may be added: it is longer than 60 bytes and has three parts
/// with full stops between them.
pub open spec fn may_add(token: &str) -> bool {
    token_length(token) > 60 && full_stops(token@) == 2
}

/// How many of the characters are full stops.
pub open spec fn full_stops(s: Seq<char>) -> nat
    decreases s.len(),
{
    if s.len() == 0 {
        0
    } else {
        full_stops(s.drop_last()) + if s.last() == '.' {
            1nat
        } else {
            0nat
        }
    }
}

/// Counts the full stops of a text, up to `limit`.
fn count_full_stops(text: &str, limit: usize) -> (count: usize)
    ensures
        count <= limit,
        count < limit ==> count == full_stops(text@),
        count == limit ==> full_stops(text@) >= limit,
{
    let mut count: usize = 0;
    for c in it: text.chars()
        invariant
            it.seq() == text@,
            count <= limit,
            count < limit ==> count == full_stops(text@.take(it.index() as int)),
            count == limit ==> full_stops(text@.take(it.index() as int)) >= limit,
    {
        let ghost i = it.index() as int;
        assert(text@.take(i + 1).drop_last() == text@.take(i));
        assert(text@.take(i + 1).last() == c);
        if c == '.' && count < limit {
            count += 1;
        }
    }
    assert(text@.take(text@.len() as int) == text@);
    count
}

/// Decides whether the button that adds the typed token can be pressed.
pub fn can_add(token: &str) -> (enabled: bool)
    ensures
        enabled == may_add(token),
{
    token.len() > 60 && count_full_stops(token, 3) == 2
}

} // verus!
