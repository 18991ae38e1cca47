//! What the user has chosen: the theme and the accounts.

use crate::gui::theme::data::{dark_id, DefaultThemes, ThemeData};
use vstd::prelude::*;

verus! {

/// The settings of the application.
#[derive(Debug)]
pub struct Settings {
    pub theme: String,
    pub active_account: String,
    pub accounts: Vec<String>,
}

/// Mathematical value of a [`Settings`].
pub ghost struct SettingsView {
    pub theme: Seq<char>,
    pub active_account: Seq<char>,
    pub accounts: Seq<Seq<char>>,
}

impl View for Settings {
    type V = SettingsView;

    open spec fn view(&self) -> SettingsView {
        SettingsView {
            theme: self.theme@,
            active_account: self.active_account@,
            accounts: texts_view(self.accounts@),
        }
    }
}

/// The views of a list of texts.
pub open spec fn texts_view(texts: Seq<String>) -> Seq<Seq<char>> {
    texts.map_values(|t: String| t@)
}

/// Copies a list of texts.
pub fn clone_texts(texts: &Vec<String>) -> (copy: Vec<String>)
    ensures
        copy@ == texts@,
{
    let mut copy: Vec<String> = Vec::new();
    let mut i: usize = 0;
    while i < texts.len()
        invariant
            i <= texts.len(),
            copy.len() == i,
            forall|k: int| 0 <= k < i ==> copy@[k] == texts@[k],
        decreases texts.len() - i,
    {
        copy.push(texts[i].clone());
        i += 1;
    }
    assert(copy@ =~= texts@);
    copy
}

/// Whether `id` is one of `texts`.
pub fn contains_text(texts: &Vec<String>, id: &str) -> (found: bool)
    ensures
        found == texts_view(texts@).contains(id@),
{
    let mut i: usize = 0;
    while i < texts.len()
        invariant
            i <= texts.len(),
            forall|k: int| 0 <= k < i ==> texts@[k]@ != id@,
        decreases texts.len() - i,
    {
        if crate::json::text_eq(texts[i].as_str(), id) {
            assert(texts_view(texts@)[i as int] == id@);
            return true;
        }
        i += 1;
    }
    assert forall|k: int| 0 <= k < texts_view(texts@).len() implies texts_view(texts@)[k] != id@ by {
        assert(texts_view(texts@)[k] == texts@[k]@);
    }
    false
}

/// The texts of `texts` that are not `id`, in their order.
pub open spec fn without(texts: Seq<Seq<char>>, id: Seq<char>) -> Seq<Seq<char>>
    decreases texts.len(),
{
    if texts.len() == 0 {
        Seq::empty()
    } else if texts.last() == id {
        without(texts.drop_last(), id)
    } else {
        without(texts.drop_last(), id).push(texts.last())
    }
}

/// Takes every text that is `id` out of `texts`.
pub fn remove_text(texts: &Vec<String>, id: &str) -> (rest: Vec<String>)
    ensures
        texts_view(rest@) == without(texts_view(texts@), id@),
{
    let mut rest: Vec<String> = Vec::new();
    let ghost all = texts_view(texts@);
    assert(all.take(0) == Seq::<Seq<char>>::empty());
    assert(texts_view(rest@) =~= Seq::<Seq<char>>::empty());
    let mut i: usize = 0;
    while i < texts.len()
        invariant
            i <= texts.len(),
            all == texts_view(texts@),
            texts_view(rest@) == without(all.take(i as int), id@),
        decreases texts.len() - i,
    {
        assert(all.take(i + 1).drop_last() == all.take(i as int));
        assert(all.take(i + 1).last() == texts@[i as int]@);
        let ghost before = texts_view(rest@);
        if !crate::json::text_eq(texts[i].as_str(), id) {
            rest.push(texts[i].clone());
            assert(texts_view(rest@) =~= before.push(texts@[i as int]@));
        }
        i += 1;
    }
    assert(all.take(i as int) == all);
    rest
}

impl Clone for Settings {
    fn clone(&self) -> (copy: Settings)
        ensures
            copy@ == self@,
    {
        Settings {
            theme: self.theme.clone(),
            active_account: self.active_account.clone(),
            accounts: clone_texts(&self.accounts),
        }
    }
}

/// The settings of a first start: the dark theme and no account.
impl Default for Settings {
    fn default() -> (settings: Settings)
        ensures
            settings@ == (SettingsView {
                theme: dark_id(),
                active_account: Seq::empty(),
                accounts: Seq::empty(),
            }),
    {
        let settings = Settings {
            theme: ThemeData::dark().id,
            active_account: String::new(),
            accounts: Vec::new(),
        };
        assert(settings@.accounts =~= Seq::empty());
        settings
    }
}

} // verus!
