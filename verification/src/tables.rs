//! Name-keyed collections of the tunnel engine.
//!
//! Both collections are `hashbrown` tables with `String` keys. Verus does not
//! look inside them: each is described by what it holds, and every method the
//! engine uses is stated over that description and believed without proof.

use vstd::prelude::*;
use crate::text::text_views;

verus! {

/// Topic names with the message type pinned to each (a `hashbrown::HashMap`).
#[verifier::external_body]
pub struct TopicTable {
    inner: hashbrown::HashMap<String, String>,
}

/// What a `TopicTable` holds: every name in it, mapped to its type.
pub uninterp spec fn topic_table_entries(table: TopicTable) -> Map<Seq<char>, Seq<char>>;

impl View for TopicTable {
    type V = Map<Seq<char>, Seq<char>>;

    open spec fn view(&self) -> Map<Seq<char>, Seq<char>> {
        topic_table_entries(*self)
    }
}

impl TopicTable {
    /// `hashbrown::HashMap::new`: a map that holds no entry.
    #[verifier::external_body]
    pub(crate) fn new() -> (table: TopicTable)
        ensures
            topic_table_entries(table).dom().is_empty(),
    {
        TopicTable { inner: hashbrown::HashMap::new() }
    }

    /// `hashbrown::HashMap::get`, with the value cloned: the type stored under
    /// `name`, or `None` when the map has no such key.
    #[verifier::external_body]
    pub(crate) fn get(&self, name: &str) -> (found: Option<String>)
        ensures
            found is Some <==> topic_table_entries(*self).contains_key(name@),
            found matches Some(message_type) ==> message_type@ == topic_table_entries(*self)[name@],
    {
        self.inner.get(name).cloned()
    }

    /// `hashbrown::HashMap::insert`: the map afterwards holds `message_type`
    /// under `name` and is otherwise unchanged; the value that was stored
    /// under `name` before, if any, is returned.
    #[verifier::external_body]
    pub(crate) fn insert(&mut self, name: String, message_type: String) -> (previous: Option<String>)
        ensures
            topic_table_entries(*final(self)) == topic_table_entries(*old(self)).insert(name@, message_type@),
            previous is Some <==> topic_table_entries(*old(self)).contains_key(name@),
            previous matches Some(p) ==> p@ == topic_table_entries(*old(self))[name@],
    {
        self.inner.insert(name, message_type)
    }

    /// `hashbrown::HashMap::remove`: the map afterwards has no entry under
    /// `name` and is otherwise unchanged; the removed value is returned.
    #[verifier::external_body]
    pub(crate) fn remove(&mut self, name: &str) -> (removed: Option<String>)
        ensures
            topic_table_entries(*final(self)) == topic_table_entries(*old(self)).remove(name@),
            removed is Some <==> topic_table_entries(*old(self)).contains_key(name@),
            removed matches Some(r) ==> r@ == topic_table_entries(*old(self))[name@],
    {
        self.inner.remove(name)
    }

    /// `hashbrown::HashMap::keys`, cloned into a vector: every key exactly
    /// once, in an order that is not specified.
    #[verifier::external_body]
    pub(crate) fn names(&self) -> (names: Vec<String>)
        ensures
            text_views(names@).no_duplicates(),
            text_views(names@).to_set() == topic_table_entries(*self).dom(),
    {
        self.inner.keys().cloned().collect()
    }
}

/// A set of topic names (a `hashbrown::HashSet`).
#[verifier::external_body]
pub struct NameSet {
    inner: hashbrown::HashSet<String>,
}

/// What a `NameSet` holds.
pub uninterp spec fn name_set_members(set: NameSet) -> Set<Seq<char>>;

impl View for NameSet {
    type V = Set<Seq<char>>;

    open spec fn view(&self) -> Set<Seq<char>> {
        name_set_members(*self)
    }
}

impl NameSet {
    /// `hashbrown::HashSet::new`: a set without members.
    #[verifier::external_body]
    pub(crate) fn new() -> (set: NameSet)
        ensures
            name_set_members(set).is_empty(),
    {
        NameSet { inner: hashbrown::HashSet::new() }
    }

    /// `hashbrown::HashSet::contains`.
    #[verifier::external_body]
    pub(crate) fn contains(&self, name: &str) -> (present: bool)
        ensures
            present == name_set_members(*self).contains(name@),
    {
        self.inner.contains(name)
    }

    /// `hashbrown::HashSet::insert`: `name` is a member afterwards; the result
    /// tells whether it was newly added.
    #[verifier::external_body]
    pub(crate) fn insert(&mut self, name: String) -> (added: bool)
        ensures
            name_set_members(*final(self)) == name_set_members(*old(self)).insert(name@),
            added == !name_set_members(*old(self)).contains(name@),
    {
        self.inner.insert(name)
    }

    /// `hashbrown::HashSet::remove`: `name` is no member afterwards; the
    /// result tells whether it was one before.
    #[verifier::external_body]
    pub(crate) fn remove(&mut self, name: &str) -> (removed: bool)
        ensures
            name_set_members(*final(self)) == name_set_members(*old(self)).remove(name@),
            removed == name_set_members(*old(self)).contains(name@),
    {
        self.inner.remove(name)
    }

    /// `hashbrown::HashSet::iter`, cloned into a vector: every member exactly
    /// once, in an order that is not specified.
    #[verifier::external_body]
    pub(crate) fn names(&self) -> (names: Vec<String>)
        ensures
            text_views(names@).no_duplicates(),
            text_views(names@).to_set() == name_set_members(*self),
    {
        self.inner.iter().cloned().collect()
    }
}

} // verus!
