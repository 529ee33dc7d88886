//! The store of prior conversations: for every user, the queries asked so
//! far and the responses given, oldest first.

use vstd::prelude::*;

verus! {

/// `dashmap::DashMap`, a hash map that may be shared between threads.
/// Nothing inside it is visible here: what it holds is known through
/// [`conversations_of`] alone.
#[verifier::external_type_specification]
#[verifier::external_body]
#[verifier::reject_recursive_types(K)]
#[verifier::reject_recursive_types(V)]
#[verifier::reject_recursive_types(S)]
pub struct ExShardedMap<K, V, S>(dashmap::DashMap<K, V, S>);

/// One exchange of a conversation.
#[derive(Debug, PartialEq, Eq)]
pub struct PriorConversationEntry {
    query: String,
    response: String,
}

/// The content of an entry.
pub struct EntryView {
    pub query: Seq<char>,
    pub response: Seq<char>,
}

impl View for PriorConversationEntry {
    type V = EntryView;

    closed spec fn view(&self) -> EntryView {
        EntryView { query: self.query@, response: self.response@ }
    }
}

impl Clone for PriorConversationEntry {
    fn clone(&self) -> (copy: Self)
        ensures
            copy@ == self@,
    {
        PriorConversationEntry { query: self.query.clone(), response: self.response.clone() }
    }
}

impl PriorConversationEntry {
    /// An entry with this query and this response.
    pub fn new(query: String, response: String) -> (entry: PriorConversationEntry)
        ensures
            entry@ == (EntryView { query: query@, response: response@ }),
    {
        PriorConversationEntry { query, response }
    }

    /// The query.
    pub fn query(&self) -> (query: &str)
        ensures
            query@ == self@.query,
    {
        self.query.as_str()
    }

    /// The response.
    pub fn response(&self) -> (response: &str)
        ensures
            response@ == self@.response,
    {
        self.response.as_str()
    }

    /// The entry as it appears in a conversation's history: its query.
    pub fn to_text(&self) -> (text: String)
        ensures
            text@ == self@.query,
    {
        self.query.clone()
    }
}

/// The contents of a run of entries.
pub open spec fn contents(entries: Seq<PriorConversationEntry>) -> Seq<EntryView> {
    entries.map_values(|entry: PriorConversationEntry| entry@)
}

/// The conversations that a sharded map holds: the users it has an entry
/// for, and under each the contents of that user's history.
pub uninterp spec fn conversations_of(
    map: dashmap::DashMap<String, Vec<PriorConversationEntry>>,
) -> Map<Seq<char>, Seq<EntryView>>;

/// `dashmap::DashMap::new`, which creates an empty map.
#[verifier::external_body]
fn shards_new() -> (created: dashmap::DashMap<String, Vec<PriorConversationEntry>>)
    ensures
        conversations_of(created) =~= Map::empty(),
{
    dashmap::DashMap::new()
}

/// `dashmap::DashMap::get`, which returns a reference to the key's entry if
/// the map holds one, and `None` if not. The result is a copy of the value
/// behind that reference.
#[verifier::external_body]
fn shards_get(map: &dashmap::DashMap<String, Vec<PriorConversationEntry>>, key: &str) -> (found:
    Option<Vec<PriorConversationEntry>>)
    ensures
        found is Some == conversations_of(*map).contains_key(key@),
        found is Some ==> contents(found->0@) == conversations_of(*map)[key@],
{
    map.get(key).map(|entry| entry.value().clone())
}

/// `dashmap::DashMap::insert`, which puts the value under the key, in place
/// of the value that was there if there was one.
#[verifier::external_body]
fn shards_insert(
    map: &mut dashmap::DashMap<String, Vec<PriorConversationEntry>>,
    key: String,
    history: Vec<PriorConversationEntry>,
)
    ensures
        conversations_of(*final(map)) == conversations_of(*old(map)).insert(key@, contents(history@)),
{
    map.insert(key, history);
}

/// `dashmap::DashMap::remove`, which takes the key's entry out of the map if
/// there is one.
#[verifier::external_body]
fn shards_remove(map: &mut dashmap::DashMap<String, Vec<PriorConversationEntry>>, key: &str)
    ensures
        conversations_of(*final(map)) == conversations_of(*old(map)).remove(key@),
{
    map.remove(key);
}

/// No conversations at all.
pub open spec fn no_conversations() -> Map<Seq<char>, Seq<EntryView>> {
    Map::empty()
}

/// The history that a set of conversations holds for a user: empty for a
/// user it does not know.
pub open spec fn history_of(conversations: Map<Seq<char>, Seq<EntryView>>, user_id: Seq<char>) -> Seq<
    EntryView,
> {
    if conversations.contains_key(user_id) {
        conversations[user_id]
    } else {
        Seq::empty()
    }
}

/// The store of prior conversations.
pub struct PriorConversationStore {
    conversations: dashmap::DashMap<String, Vec<PriorConversationEntry>>,
}

impl View for PriorConversationStore {
    type V = Map<Seq<char>, Seq<EntryView>>;

    closed spec fn view(&self) -> Map<Seq<char>, Seq<EntryView>> {
        conversations_of(self.conversations)
    }
}

impl Default for PriorConversationStore {
    fn default() -> (store: Self)
        ensures
            store@ == no_conversations(),
    {
        PriorConversationStore { conversations: shards_new() }
    }
}

impl PriorConversationStore {
    /// A store without conversations.
    pub fn new() -> (store: PriorConversationStore)
        ensures
            store@ == no_conversations(),
    {
        PriorConversationStore { conversations: shards_new() }
    }

    /// The user's conversation so far, oldest entry first; empty for a user
    /// the store does not know.
    pub fn fetch_prior_conversation(&self, user_id: &str) -> (history: Vec<PriorConversationEntry>)
        ensures
            contents(history@) == history_of(self@, user_id@),
    {
        match shards_get(&self.conversations, user_id) {
            Some(history) => history,
            None => Vec::new(),
        }
    }

    /// Appends an entry to the user's conversation, which starts with it if
    /// the store did not know the user.
    pub fn add_conversation_entry(&mut self, user_id: String, query: String, response: String)
        ensures
            final(self)@ == old(self)@.insert(
                user_id@,
                history_of(old(self)@, user_id@).push(
                    EntryView { query: query@, response: response@ },
                ),
            ),
    {
        let entry = PriorConversationEntry { query, response };
        let mut history = self.fetch_prior_conversation(user_id.as_str());
        let ghost before = history@;
        history.push(entry);
        assert(contents(history@) =~= contents(before).push(entry@));
        shards_insert(&mut self.conversations, user_id, history);
    }

    /// Forgets the user's conversation.
    pub fn purge_prior_conversation(&mut self, user_id: &str)
        ensures
            final(self)@ == old(self)@.remove(user_id@),
    {
        shards_remove(&mut self.conversations, user_id);
    }
}

/// After an entry is added, the user's conversation is the one from before
/// with the entry at its end, and every other user's conversation is as it
/// was.
pub proof fn lemma_add_appends(
    conversations: Map<Seq<char>, Seq<EntryView>>,
    user_id: Seq<char>,
    entry: EntryView,
    other: Seq<char>,
)
    requires
        other != user_id,
    ensures
        ({
            let after = conversations.insert(user_id, history_of(conversations, user_id).push(entry));
            &&& history_of(after, user_id) == history_of(conversations, user_id).push(entry)
            &&& history_of(after, user_id).last() == entry
            &&& history_of(after, other) == history_of(conversations, other)
        }),
{
}

/// After a purge the user's conversation is empty, and every other user's
/// conversation is as it was.
pub proof fn lemma_purge_forgets(
    conversations: Map<Seq<char>, Seq<EntryView>>,
    user_id: Seq<char>,
    other: Seq<char>,
)
    requires
        other != user_id,
    ensures
        history_of(conversations.remove(user_id), user_id).len() == 0,
        history_of(conversations.remove(user_id), other) == history_of(conversations, other),
{
}

} // verus!
