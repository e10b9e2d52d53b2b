use vstd::prelude::*;
use crate::content::{
    FeedEntryView, entry_of, lemma_blank_value_decodes_nothing, lemma_unknown_prefix_decodes_nothing,
    schema_of, unwrap_entry,
};
use crate::json::{Json, JsonValue, json_of, lemma_view_parts, parse_json};
use crate::ledger::{Ledger, lemma_push_keeps_distinct};
use crate::store::FeedStore;
use crate::theme::{ThemeId, alias_theme, is_ascii_lower, lower_of, theme_for_alias};

verus! {

/// Where the theme-sync channel is reached.
pub struct ThemeSync {
    pub enabled: bool,
    pub host: String,
    pub username: Option<String>,
    pub password: Option<String>,
    pub topic: String,
}

/// Values given at startup that take the place of the persisted ones.
pub struct SyncOverrides {
    pub host: Option<String>,
    pub username: Option<String>,
    pub password: Option<String>,
    pub topic: Option<String>,
}

impl ThemeSync {
    /// Each field for which an override is given takes its value; the
    /// others stay.
    pub fn apply_overrides(&mut self, o: SyncOverrides)
        ensures
            final(self).enabled == old(self).enabled,
            final(self).host@ == (match o.host {
                Some(h) => h@,
                None => old(self).host@,
            }),
            final(self).username.deep_view() == (match o.username {
                Some(u) => Some(u@),
                None => old(self).username.deep_view(),
            }),
            final(self).password.deep_view() == (match o.password {
                Some(p) => Some(p@),
                None => old(self).password.deep_view(),
            }),
            final(self).topic@ == (match o.topic {
                Some(t) => t@,
                None => old(self).topic@,
            }),
    {
        if let Some(h) = o.host {
            self.host = h;
        }
        if let Some(u) = o.username {
            self.username = Some(u);
        }
        if let Some(p) = o.password {
            self.password = Some(p);
        }
        if let Some(t) = o.topic {
            self.topic = t;
        }
    }
}

/// Everything that is persisted: the panel layout, the current theme and
/// the theme-sync settings.
pub struct KioskConfig {
    pub ledger: Ledger,
    pub current_theme: ThemeId,
    pub theme_sync: ThemeSync,
}

/// The state of the dashboard: the latest entry of each feed, and the
/// persisted configuration.
pub struct Kiosk {
    pub store: FeedStore,
    pub config: KioskConfig,
}

/// The model of the dashboard's state: the feed entries, and the four
/// lists of the layout (the three panels, then the unassigned keys).
pub struct KioskView {
    pub feeds: Map<Seq<char>, FeedEntryView>,
    pub lists: Seq<Seq<Seq<char>>>,
}

/// The keys of the four lists one after another.
pub open spec fn placed_keys(lists: Seq<Seq<Seq<char>>>) -> Seq<Seq<char>> {
    lists[0] + lists[1] + lists[2] + lists[3]
}

/// What one published key and value do to the dashboard, and whether the
/// key was registered (which asks for the configuration to be persisted).
/// A value that does not decode changes nothing. One that does replaces the
/// key's entry; a key without an entry that no list holds yet is appended to
/// the unassigned list first.
pub open spec fn ingest_step(m: KioskView, key: Seq<char>, j: Json) -> (KioskView, bool) {
    match entry_of(key, j) {
        None => (m, false),
        Some(e) => {
            let registered = !m.feeds.contains_key(key) && !placed_keys(m.lists).contains(key);
            let lists = if registered {
                m.lists.update(3, m.lists[3].push(key))
            } else {
                m.lists
            };
            (KioskView { feeds: m.feeds.insert(key, e), lists }, registered)
        },
    }
}

/// The members of a message taken in order: the final state, and the keys
/// registered, in the order they were.
pub open spec fn ingest_members(m: KioskView, members: Seq<(Seq<char>, Json)>) -> (
    KioskView,
    Seq<Seq<char>>,
)
    decreases members.len(),
{
    if members.len() == 0 {
        (m, Seq::empty())
    } else {
        let (m1, keys) = ingest_members(m, members.drop_last());
        let (m2, registered) = ingest_step(m1, members.last().0, members.last().1);
        (m2, if registered { keys.push(members.last().0) } else { keys })
    }
}

/// A message that is a JSON object has its members taken in order; any
/// other message is dropped whole.
pub open spec fn ingest_document(m: KioskView, j: Json) -> (KioskView, Seq<Seq<char>>) {
    match j {
        Json::Object(members) => ingest_members(m, members),
        _ => (m, Seq::empty()),
    }
}

/// A message text that is not JSON is dropped whole.
pub open spec fn ingest_text(m: KioskView, text: Seq<char>) -> (KioskView, Seq<Seq<char>>) {
    match json_of(text) {
        Some(j) => ingest_document(m, j),
        None => (m, Seq::empty()),
    }
}

/// The result of a theme name reaching the dashboard.
#[derive(PartialEq, Eq, Structural, Clone, Copy, Debug)]
pub enum ThemeUpdate {
    /// The name stands for no theme; nothing changed.
    Unknown,
    /// The name stands for the current theme; nothing changed.
    Unchanged,
    /// The current theme changed: the colours are to be resolved anew and
    /// the configuration persisted.
    Changed,
}

/// What a lower-case theme alias does to the current theme.
pub open spec fn theme_step(current: ThemeId, lowered: Seq<char>) -> (ThemeId, ThemeUpdate) {
    match alias_theme(lowered) {
        None => (current, ThemeUpdate::Unknown),
        Some(t) => if t == current {
            (current, ThemeUpdate::Unchanged)
        } else {
            (t, ThemeUpdate::Changed)
        },
    }
}

impl Kiosk {
    pub open spec fn view(&self) -> KioskView {
        KioskView {
            feeds: self.store@,
            lists: seq![
                self.config.ledger.panel(0),
                self.config.ledger.panel(1),
                self.config.ledger.panel(2),
                self.config.ledger.unassigned(),
            ],
        }
    }

    pub open spec fn wf(&self) -> bool {
        self.store.wf() && self.config.ledger.wf()
    }

    /// A dashboard with no feed data yet.
    pub fn new(config: KioskConfig) -> (r: Kiosk)
        requires
            config.ledger.wf(),
        ensures
            r.wf(),
            r.config == config,
            r@.feeds == Map::<Seq<char>, FeedEntryView>::empty(),
    {
        Kiosk { store: FeedStore::new(), config }
    }

    /// Takes one published key and value. Returns whether the key was
    /// registered in the layout, in which case the configuration is to be
    /// persisted.
    pub fn ingest_entry(&mut self, key: &String, value: &JsonValue) -> (registered: bool)
        requires
            old(self).wf(),
        ensures
            final(self).wf(),
            (final(self)@, registered) == ingest_step(old(self)@, key@, value@),
            final(self).config.current_theme == old(self).config.current_theme,
            final(self).config.theme_sync == old(self).config.theme_sync,
    {
        match unwrap_entry(key.as_str(), value) {
            None => false,
            Some(entry) => {
                let mut registered = false;
                if !self.store.contains_key(key) {
                    registered = self.config.ledger.register(key);
                }
                self.store.insert(key.clone(), entry);
                proof {
                    let (m, r) = ingest_step(old(self)@, key@, value@);
                    assert(placed_keys(old(self)@.lists) =~= old(self).config.ledger.all_keys());
                    assert(self@.lists =~= m.lists);
                }
                registered
            },
        }
    }

    /// Takes one message: the members of a JSON object, in order. Returns
    /// the keys that were registered, each of which asks for the
    /// configuration to be persisted.
    #[verifier::loop_isolation(false)]
    pub fn ingest_document(&mut self, doc: &JsonValue) -> (registered: Vec<String>)
        requires
            old(self).wf(),
        ensures
            final(self).wf(),
            (final(self)@, registered.deep_view()) == ingest_document(old(self)@, doc@),
            final(self).config.current_theme == old(self).config.current_theme,
            final(self).config.theme_sync == old(self).config.theme_sync,
    {
        let mut registered: Vec<String> = Vec::new();
        match doc {
            JsonValue::Object(members) => {
                let ghost ms = doc@.object_members();
                proof {
                    lemma_view_parts(doc);
                    assert(doc@ == Json::Object(ms));
                }
                let mut i: usize = 0;
                while i < members.len()
                    invariant
                        i <= members@.len(),
                        self.wf(),
                        (self@, registered.deep_view()) == ingest_members(old(self)@, ms.take(i as int)),
                        self.config.current_theme == old(self).config.current_theme,
                        self.config.theme_sync == old(self).config.theme_sync,
                    decreases members@.len() - i,
                {
                    let member = &members[i];
                    let added = self.ingest_entry(&member.key, &member.value);
                    let ghost before = registered.deep_view();
                    if added {
                        registered.push(member.key.clone());
                    }
                    proof {
                        assert(ms.take(i + 1).drop_last() =~= ms.take(i as int));
                        assert(ms.take(i + 1).last() == ms[i as int]);
                        if added {
                            assert(registered.deep_view() =~= before.push(member.key@));
                        } else {
                            assert(registered.deep_view() =~= before);
                        }
                    }
                    i = i + 1;
                }
                assert(ms.take(members@.len() as int) =~= ms);
            },
            _ => {
                assert(registered.deep_view() =~= Seq::<Seq<char>>::empty());
            },
        }
        registered
    }

    /// Takes one message as published: its text is read as JSON first.
    pub fn ingest_payload(&mut self, text: &str) -> (registered: Vec<String>)
        requires
            old(self).wf(),
        ensures
            final(self).wf(),
            (final(self)@, registered.deep_view()) == ingest_text(old(self)@, text@),
            final(self).config.current_theme == old(self).config.current_theme,
            final(self).config.theme_sync == old(self).config.theme_sync,
    {
        match parse_json(text) {
            Some(doc) => self.ingest_document(&doc),
            None => {
                let registered: Vec<String> = Vec::new();
                assert(registered.deep_view() =~= Seq::<Seq<char>>::empty());
                registered
            },
        }
    }

    /// Applies a lower-case theme alias to the current theme.
    pub fn apply_theme_alias(&mut self, lowered: &str) -> (u: ThemeUpdate)
        ensures
            (final(self).config.current_theme, u) == theme_step(old(self).config.current_theme, lowered@),
            final(self).store == old(self).store,
            final(self).config.ledger == old(self).config.ledger,
            final(self).config.theme_sync == old(self).config.theme_sync,
    {
        match theme_for_alias(lowered) {
            None => ThemeUpdate::Unknown,
            Some(t) => {
                if t == self.config.current_theme {
                    ThemeUpdate::Unchanged
                } else {
                    self.config.current_theme = t;
                    ThemeUpdate::Changed
                }
            },
        }
    }

    /// Applies a theme name, in any case, to the current theme.
    pub fn apply_theme_name(&mut self, raw: &str) -> (u: ThemeUpdate)
        ensures
            (final(self).config.current_theme, u) == theme_step(
                old(self).config.current_theme,
                lower_of(raw@),
            ),
            is_ascii_lower(raw@) ==> (final(self).config.current_theme, u) == theme_step(
                old(self).config.current_theme,
                raw@,
            ),
            final(self).store == old(self).store,
            final(self).config.ledger == old(self).config.ledger,
            final(self).config.theme_sync == old(self).config.theme_sync,
    {
        let lower = crate::theme::lowercase(raw);
        self.apply_theme_alias(lower.as_str())
    }
}

/// A value that is null, an empty object or an empty array, or a key of no
/// known schema, leaves the dashboard as it was and registers nothing.
pub proof fn lemma_undecodable_changes_nothing(m: KioskView, key: Seq<char>, j: Json)
    requires
        j.is_blank() || schema_of(key) is None,
    ensures
        ingest_step(m, key, j) == (m, false),
{
    if j.is_blank() {
        lemma_blank_value_decodes_nothing(key, j);
    } else {
        lemma_unknown_prefix_decodes_nothing(key, j);
    }
}

/// Taking a published key keeps the layout's keys distinct: the four lists
/// never come to hold a key twice.
pub proof fn lemma_ingest_keeps_keys_distinct(m: KioskView, key: Seq<char>, j: Json)
    requires
        m.lists.len() == 4,
        placed_keys(m.lists).no_duplicates(),
    ensures
        ingest_step(m, key, j).0.lists.len() == 4,
        placed_keys(ingest_step(m, key, j).0.lists).no_duplicates(),
{
    let (m1, registered) = ingest_step(m, key, j);
    if registered {
        assert(placed_keys(m1.lists) =~= placed_keys(m.lists).push(key));
        lemma_push_keeps_distinct(placed_keys(m.lists), key);
    }
}

/// A new key that is published twice, with values that decode, is
/// registered by the first publication only, and then stands exactly once in
/// the unassigned list.
pub proof fn lemma_register_once(m: KioskView, key: Seq<char>, first: Json, second: Json)
    requires
        m.lists.len() == 4,
        !m.feeds.contains_key(key),
        !placed_keys(m.lists).contains(key),
        entry_of(key, first) is Some,
        entry_of(key, second) is Some,
    ensures
        ingest_step(m, key, first).1,
        !ingest_step(ingest_step(m, key, first).0, key, second).1,
        ingest_step(ingest_step(m, key, first).0, key, second).0.lists[3].to_multiset().count(key) == 1,
{
    broadcast use vstd::seq_lib::group_to_multiset_ensures;
    let m1 = ingest_step(m, key, first).0;
    let m2 = ingest_step(m1, key, second).0;
    assert(!m.lists[3].contains(key)) by {
        broadcast use vstd::seq_lib::group_seq_properties;
    }
    assert(m1.feeds.contains_key(key));
    assert(m2.lists == m1.lists);
    assert(m1.lists[3] == m.lists[3].push(key));
    assert(m.lists[3].to_multiset().count(key) == 0);
}

/// Once a theme name has taken effect, a second name for the same theme
/// changes nothing and asks for no persisting.
pub proof fn lemma_theme_repeat_unchanged(current: ThemeId, first: Seq<char>, second: Seq<char>)
    requires
        alias_theme(first) is Some,
        alias_theme(second) == alias_theme(first),
    ensures
        theme_step(theme_step(current, first).0, second) == (theme_step(current, first).0, ThemeUpdate::Unchanged),
{
}

/// `dark-dimmed` makes the theme `Dark`; `dark` after it changes nothing.
pub proof fn lemma_dark_aliases(current: ThemeId)
    ensures
        theme_step(current, "dark-dimmed"@).0 == ThemeId::Dark,
        theme_step(ThemeId::Dark, "dark"@) == (ThemeId::Dark, ThemeUpdate::Unchanged),
{
    reveal_strlit("dark-dimmed");
    reveal_strlit("dark");
    reveal_strlit("dark-soft");
    reveal_strlit("light");
    reveal_strlit("light-soft");
    assert("dark-dimmed"@.len() == 11 && "dark"@.len() == 4);
    assert("light"@.len() == 5 && "light-soft"@.len() == 10);
    assert("dark-dimmed"@ != "light"@ && "dark-dimmed"@ != "light-soft"@);
    assert("dark"@ != "light"@ && "dark"@ != "light-soft"@);
    assert(alias_theme("dark-dimmed"@) == Some(ThemeId::Dark));
    assert(alias_theme("dark"@) == Some(ThemeId::Dark));
}

} // verus!
