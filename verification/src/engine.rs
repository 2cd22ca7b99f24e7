//! The topic-mirroring state of one peer, and what each inbound message does
//! to it.
//!
//! The engine never touches the local bus itself. A command is answered with
//! the one piece of bus work it calls for (an [`Effect`]); the event loop
//! carries that out and reports back where the state depends on the outcome.
//! The engine keeps the names of the topics that have a mirror publisher or
//! a forwarder; the handles behind those names belong to the event loop.

use vstd::prelude::*;
use crate::message::{message_views, Message, MessageView};
use crate::tables::{NameSet, TopicTable};
use crate::text::text_views;

verus! {

/// What the event loop does after a command.
#[derive(Debug, Clone, Copy, PartialEq, Eq)]
pub enum ControlFlow {
    Continue,
    Exit,
}

/// A remark for the log: an inbound message that asked for nothing that
/// could be done. None of them stops the peer.
#[derive(Debug, Clone, Copy, PartialEq, Eq)]
pub enum Notice {
    /// Nothing to remark.
    Nothing,
    /// The remote announced a topic that the local bus itself exposes; it is
    /// not mirrored back.
    LoopedTopic,
    /// The remote announced a topic twice.
    DuplicateTopic,
    /// The remote subscribed to a topic it is already subscribed to; the
    /// forwarder is replaced.
    Resubscribed,
    /// The remote asked to subscribe to a topic the local bus does not expose.
    UnknownSubscribe,
    /// The remote asked to unsubscribe from a topic it never subscribed to.
    UnknownUnsubscribe,
    /// The remote removed a topic it never announced.
    UnknownDelete,
    /// The remote published to a topic it never announced.
    UnknownPublish,
}

/// How loud a notice is in the log.
#[derive(Debug, Clone, Copy, PartialEq, Eq)]
pub enum Severity {
    Silent,
    Warning,
    Error,
}

/// The bus work that a command calls for.
#[derive(Debug, Clone, PartialEq, Eq)]
pub enum Effect {
    /// No bus work.
    Nothing,
    /// Create a mirror publisher for `name` with type `message_type`, and
    /// report it with [`Engine::publisher_created`] if that succeeds.
    CreatePublisher { name: String, message_type: String },
    /// Drop the mirror publisher of `name`.
    DropPublisher { name: String },
    /// Publish `payload` through the mirror publisher of `name`.
    Publish { name: String, payload: Vec<u8> },
    /// Open a raw subscription to `name` with type `message_type`, start a
    /// forwarder on it, and report it with [`Engine::subscription_opened`]
    /// if that succeeds.
    Subscribe { name: String, message_type: String },
    /// Cancel the forwarder of `name`.
    CancelForwarder { name: String },
}

/// An effect as a mathematical value.
pub enum EffectView {
    Nothing,
    CreatePublisher { name: Seq<char>, message_type: Seq<char> },
    DropPublisher { name: Seq<char> },
    Publish { name: Seq<char>, payload: Seq<u8> },
    Subscribe { name: Seq<char>, message_type: Seq<char> },
    CancelForwarder { name: Seq<char> },
}

impl View for Effect {
    type V = EffectView;

    open spec fn view(&self) -> EffectView {
        match self {
            Effect::Nothing => EffectView::Nothing,
            Effect::CreatePublisher { name, message_type } => EffectView::CreatePublisher {
                name: name@,
                message_type: message_type@,
            },
            Effect::DropPublisher { name } => EffectView::DropPublisher { name: name@ },
            Effect::Publish { name, payload } => EffectView::Publish {
                name: name@,
                payload: payload@,
            },
            Effect::Subscribe { name, message_type } => EffectView::Subscribe {
                name: name@,
                message_type: message_type@,
            },
            Effect::CancelForwarder { name } => EffectView::CancelForwarder { name: name@ },
        }
    }
}

/// The answer to a command that does not end the peer in failure.
#[derive(Debug, Clone, PartialEq, Eq)]
pub struct Reaction {
    pub flow: ControlFlow,
    pub effect: Effect,
    pub notice: Notice,
}

/// A reaction as a mathematical value.
pub struct ReactionView {
    pub flow: ControlFlow,
    pub effect: EffectView,
    pub notice: Notice,
}

impl View for Reaction {
    type V = ReactionView;

    open spec fn view(&self) -> ReactionView {
        ReactionView { flow: self.flow, effect: self.effect@, notice: self.notice }
    }
}

/// The remote reported an error it cannot recover from; this peer ends too.
#[derive(Debug, Clone, PartialEq, Eq)]
pub struct RemoteFatal {
    pub message: String,
}

/// The state of the engine as a mathematical value.
pub struct EngineView {
    /// The topics of the local bus, each with the type pinned to it.
    pub known_topics: Map<Seq<char>, Seq<char>>,
    /// The remote's topics that have a mirror publisher on the local bus.
    pub publishers: Set<Seq<char>>,
    /// The local topics that a forwarder relays to the remote.
    pub subscribers: Set<Seq<char>>,
    /// The mirrored topics for which the remote was asked to forward.
    pub currently_subscribed: Set<Seq<char>>,
}

impl EngineView {
    /// What holds of the engine in every state: only local topics are
    /// forwarded, no topic is both local and mirrored, and forwarding was
    /// asked for mirrored topics only.
    pub open spec fn wf(self) -> bool {
        &&& self.subscribers.subset_of(self.known_topics.dom())
        &&& self.publishers.disjoint(self.known_topics.dom())
        &&& self.currently_subscribed.subset_of(self.publishers)
    }

    /// The state of a peer that has just started.
    pub open spec fn empty() -> EngineView {
        EngineView {
            known_topics: Map::empty(),
            publishers: Set::empty(),
            subscribers: Set::empty(),
            currently_subscribed: Set::empty(),
        }
    }
}

/// A reaction that asks for no bus work and leaves a remark.
pub open spec fn remark(notice: Notice) -> ReactionView {
    ReactionView { flow: ControlFlow::Continue, effect: EffectView::Nothing, notice }
}

/// A reaction that asks for bus work.
pub open spec fn perform(effect: EffectView) -> ReactionView {
    ReactionView { flow: ControlFlow::Continue, effect, notice: Notice::Nothing }
}

/// The answer to `message` in `state`: the reaction, or the text of the
/// remote's fatal error.
pub open spec fn command_reaction(state: EngineView, message: MessageView) -> Result<
    ReactionView,
    Seq<char>,
> {
    match message {
        MessageView::FatalError { message } => Err(message),
        MessageView::Hangup => Ok(
            ReactionView {
                flow: ControlFlow::Exit,
                effect: EffectView::Nothing,
                notice: Notice::Nothing,
            },
        ),
        MessageView::NewTopic { name, message_type } => Ok(
            if state.known_topics.contains_key(name) {
                remark(Notice::LoopedTopic)
            } else if state.publishers.contains(name) {
                remark(Notice::DuplicateTopic)
            } else {
                perform(EffectView::CreatePublisher { name, message_type })
            },
        ),
        MessageView::SetTopicSubscribed { name, subscribed } => Ok(
            if subscribed {
                if state.known_topics.contains_key(name) {
                    ReactionView {
                        flow: ControlFlow::Continue,
                        effect: EffectView::Subscribe {
                            name,
                            message_type: state.known_topics[name],
                        },
                        notice: if state.subscribers.contains(name) {
                            Notice::Resubscribed
                        } else {
                            Notice::Nothing
                        },
                    }
                } else {
                    remark(Notice::UnknownSubscribe)
                }
            } else if state.subscribers.contains(name) {
                perform(EffectView::CancelForwarder { name })
            } else {
                remark(Notice::UnknownUnsubscribe)
            },
        ),
        MessageView::DeletedTopic { name } => Ok(
            if state.publishers.contains(name) {
                perform(EffectView::DropPublisher { name })
            } else {
                remark(Notice::UnknownDelete)
            },
        ),
        MessageView::PublishToTopic { name, payload } => Ok(
            if state.publishers.contains(name) {
                perform(EffectView::Publish { name, payload })
            } else {
                remark(Notice::UnknownPublish)
            },
        ),
    }
}

/// The state that `message` leaves behind: an unsubscribe forgets the
/// forwarder, a deletion forgets the mirror publisher and that forwarding was
/// asked for it, and nothing else changes anything.
pub open spec fn after_command(state: EngineView, message: MessageView) -> EngineView {
    match message {
        MessageView::SetTopicSubscribed { name, subscribed } => if subscribed {
            state
        } else {
            EngineView { subscribers: state.subscribers.remove(name), ..state }
        },
        MessageView::DeletedTopic { name } => EngineView {
            publishers: state.publishers.remove(name),
            currently_subscribed: state.currently_subscribed.remove(name),
            ..state
        },
        _ => state,
    }
}

/// The state after a mirror publisher for `name` was created: it is
/// registered unless the local bus itself exposes `name`.
pub open spec fn after_publisher_created(state: EngineView, name: Seq<char>) -> EngineView {
    if state.known_topics.contains_key(name) {
        state
    } else {
        EngineView { publishers: state.publishers.insert(name), ..state }
    }
}

/// The state after a forwarder for `name` was started: it is registered if
/// the local bus still exposes `name`.
pub open spec fn after_subscription_opened(state: EngineView, name: Seq<char>) -> EngineView {
    if state.known_topics.contains_key(name) {
        EngineView { subscribers: state.subscribers.insert(name), ..state }
    } else {
        state
    }
}

/// One line of what the local bus lists: a topic and the types it is
/// offered with.
#[derive(Debug, Clone, PartialEq, Eq)]
pub struct TopicListing {
    pub name: String,
    pub types: Vec<String>,
}

/// A line of a listing as a mathematical value.
pub struct ListingView {
    pub name: Seq<char>,
    pub types: Seq<Seq<char>>,
}

impl View for TopicListing {
    type V = ListingView;

    open spec fn view(&self) -> ListingView {
        ListingView { name: self.name@, types: text_views(self.types@) }
    }
}

/// The views of the lines of a listing, in the same order.
pub open spec fn listing_views(listing: Seq<TopicListing>) -> Seq<ListingView> {
    listing.map_values(|line: TopicListing| line@)
}

/// Whether the bus lists `name`.
pub open spec fn is_listed(listing: Seq<ListingView>, name: Seq<char>) -> bool {
    exists|i: int| 0 <= i < listing.len() && #[trigger] listing[i].name == name
}

/// The names that the bus lists.
pub open spec fn listed_names(listing: Seq<ListingView>) -> Set<Seq<char>> {
    Set::new(|name: Seq<char>| is_listed(listing, name))
}

/// The known local topics that the bus no longer lists.
pub open spec fn vanished_topics(state: EngineView, listing: Seq<ListingView>) -> Set<Seq<char>> {
    Set::new(
        |name: Seq<char>| state.known_topics.contains_key(name) && !is_listed(listing, name),
    )
}

/// The forwarded topics that the bus no longer lists.
pub open spec fn orphaned_forwarders(state: EngineView, listing: Seq<ListingView>) -> Set<
    Seq<char>,
> {
    Set::new(|name: Seq<char>| state.subscribers.contains(name) && !is_listed(listing, name))
}

/// The state once every local topic that the bus no longer lists is
/// forgotten, together with its forwarder.
pub open spec fn after_forgetting(state: EngineView, listing: Seq<ListingView>) -> EngineView {
    EngineView {
        known_topics: state.known_topics.restrict(listed_names(listing)),
        subscribers: state.subscribers.intersect(listed_names(listing)),
        ..state
    }
}

/// Whether the topic of `line` is new to `state`: neither a known local topic
/// nor the echo of a mirror publisher.
pub open spec fn is_new_topic(state: EngineView, line: ListingView) -> bool {
    !state.known_topics.contains_key(line.name) && !state.publishers.contains(line.name)
}

/// The state once the lines of `listing` were taken in, first to last: a new
/// topic is pinned to the first type it is listed with; one listed without a
/// type is passed over.
pub open spec fn after_adopting(state: EngineView, listing: Seq<ListingView>) -> EngineView
    decreases listing.len(),
{
    if listing.len() == 0 {
        state
    } else {
        let before = after_adopting(state, listing.drop_last());
        let line = listing.last();
        if is_new_topic(before, line) && line.types.len() > 0 {
            EngineView {
                known_topics: before.known_topics.insert(line.name, line.types[0]),
                ..before
            }
        } else {
            before
        }
    }
}

/// The `NewTopic` messages for the topics that [`after_adopting`] pins, in
/// the order of the listing.
pub open spec fn announcements(state: EngineView, listing: Seq<ListingView>) -> Seq<MessageView>
    decreases listing.len(),
{
    if listing.len() == 0 {
        Seq::empty()
    } else {
        let before = after_adopting(state, listing.drop_last());
        let line = listing.last();
        if is_new_topic(before, line) && line.types.len() > 0 {
            announcements(state, listing.drop_last()).push(
                MessageView::NewTopic { name: line.name, message_type: line.types[0] },
            )
        } else {
            announcements(state, listing.drop_last())
        }
    }
}

/// The new topics that are listed without any type, in the order of the
/// listing.
pub open spec fn untyped_topics(state: EngineView, listing: Seq<ListingView>) -> Seq<Seq<char>>
    decreases listing.len(),
{
    if listing.len() == 0 {
        Seq::empty()
    } else {
        let before = after_adopting(state, listing.drop_last());
        let line = listing.last();
        if is_new_topic(before, line) && line.types.len() == 0 {
            untyped_topics(state, listing.drop_last()).push(line.name)
        } else {
            untyped_topics(state, listing.drop_last())
        }
    }
}

/// The state after a scan of the local topics.
pub open spec fn after_topic_scan(state: EngineView, listing: Seq<ListingView>) -> EngineView {
    after_adopting(after_forgetting(state, listing), listing)
}

/// The `DeletedTopic` messages for `names`, in the same order.
pub open spec fn deletions(names: Seq<Seq<char>>) -> Seq<MessageView> {
    names.map_values(|name: Seq<char>| MessageView::DeletedTopic { name })
}

/// What a scan of the local topics found.
#[derive(Debug, Clone, PartialEq, Eq)]
pub struct TopicScan {
    /// The frames to send: a `DeletedTopic` for each name in `deleted`, then
    /// a `NewTopic` for each topic that is new.
    pub messages: Vec<Message>,
    /// The local topics that vanished from the bus.
    pub deleted: Vec<String>,
    /// The vanished topics that had a forwarder, which is to be cancelled.
    pub cancelled: Vec<String>,
    /// The new topics that the bus lists without a type.
    pub untyped: Vec<String>,
}

/// Whether `scan` is what a scan of the local topics finds in `state` for
/// `listing`. The order of `deleted` and of `cancelled` is left open.
pub open spec fn topic_scan_matches(
    scan: TopicScan,
    state: EngineView,
    listing: Seq<ListingView>,
) -> bool {
    &&& text_views(scan.deleted@).no_duplicates()
    &&& text_views(scan.deleted@).to_set() == vanished_topics(state, listing)
    &&& text_views(scan.cancelled@).no_duplicates()
    &&& text_views(scan.cancelled@).to_set() == orphaned_forwarders(state, listing)
    &&& message_views(scan.messages@) == deletions(text_views(scan.deleted@)) + announcements(
        after_forgetting(state, listing),
        listing,
    )
    &&& text_views(scan.untyped@) == untyped_topics(after_forgetting(state, listing), listing)
}

/// How many consumers the local bus counts on the mirror publisher of a
/// topic.
#[derive(Debug, Clone, PartialEq, Eq)]
pub struct ConsumerCount {
    pub name: String,
    pub consumers: usize,
}

/// A consumer count as a mathematical value.
pub struct CountView {
    pub name: Seq<char>,
    pub consumers: nat,
}

impl View for ConsumerCount {
    type V = CountView;

    open spec fn view(&self) -> CountView {
        CountView { name: self.name@, consumers: self.consumers as nat }
    }
}

/// The views of a sequence of consumer counts, in the same order.
pub open spec fn count_views(counts: Seq<ConsumerCount>) -> Seq<CountView> {
    counts.map_values(|count: ConsumerCount| count@)
}

/// Whether `count` starts demand for a mirrored topic: it has consumers now
/// and the remote was not asked to forward it.
pub open spec fn demand_starts(state: EngineView, count: CountView) -> bool {
    state.publishers.contains(count.name) && count.consumers > 0
        && !state.currently_subscribed.contains(count.name)
}

/// Whether `count` ends demand for a mirrored topic: it has no consumer left
/// and the remote was asked to forward it.
pub open spec fn demand_ends(state: EngineView, count: CountView) -> bool {
    state.publishers.contains(count.name) && count.consumers == 0
        && state.currently_subscribed.contains(count.name)
}

/// The state once the counts were taken in, first to last.
pub open spec fn after_subscription_scan(state: EngineView, counts: Seq<CountView>) -> EngineView
    decreases counts.len(),
{
    if counts.len() == 0 {
        state
    } else {
        let before = after_subscription_scan(state, counts.drop_last());
        let count = counts.last();
        if demand_starts(before, count) {
            EngineView {
                currently_subscribed: before.currently_subscribed.insert(count.name),
                ..before
            }
        } else if demand_ends(before, count) {
            EngineView {
                currently_subscribed: before.currently_subscribed.remove(count.name),
                ..before
            }
        } else {
            before
        }
    }
}

/// The `SetTopicSubscribed` messages for the edges among `counts`, in order:
/// one where demand starts, one where it ends, and none otherwise.
pub open spec fn subscription_requests(state: EngineView, counts: Seq<CountView>) -> Seq<
    MessageView,
>
    decreases counts.len(),
{
    if counts.len() == 0 {
        Seq::empty()
    } else {
        let before = after_subscription_scan(state, counts.drop_last());
        let count = counts.last();
        if demand_starts(before, count) {
            subscription_requests(state, counts.drop_last()).push(
                MessageView::SetTopicSubscribed { name: count.name, subscribed: true },
            )
        } else if demand_ends(before, count) {
            subscription_requests(state, counts.drop_last()).push(
                MessageView::SetTopicSubscribed { name: count.name, subscribed: false },
            )
        } else {
            subscription_requests(state, counts.drop_last())
        }
    }
}

/// Whether `name` is one of the first `count` of `names`.
pub open spec fn among_first(names: Seq<Seq<char>>, count: int, name: Seq<char>) -> bool {
    exists|j: int| 0 <= j < count && j < names.len() && #[trigger] names[j] == name
}

/// Those of the first `count` of `names` that the bus does not list.
pub open spec fn unlisted_among(names: Seq<Seq<char>>, count: int, listing: Seq<ListingView>) -> Set<
    Seq<char>,
> {
    Set::new(|name: Seq<char>| among_first(names, count, name) && !is_listed(listing, name))
}

/// One name more is among the first: the one at `count`.
proof fn lemma_among_next(names: Seq<Seq<char>>, count: int, name: Seq<char>)
    requires
        0 <= count < names.len(),
    ensures
        among_first(names, count + 1, name) <==> among_first(names, count, name) || names[count]
            == name,
{
    if among_first(names, count + 1, name) {
        let j = choose|j: int| 0 <= j < count + 1 && j < names.len() && names[j] == name;
        if j < count {
            assert(names[j] == name);
        }
    }
    if names[count] == name {
        assert(among_first(names, count + 1, name));
    }
    if among_first(names, count, name) {
        let j = choose|j: int| 0 <= j < count && j < names.len() && names[j] == name;
        assert(names[j] == name);
    }
}

/// What one step adds to the unlisted names.
proof fn lemma_unlisted_next(names: Seq<Seq<char>>, count: int, listing: Seq<ListingView>)
    requires
        0 <= count < names.len(),
        names.no_duplicates(),
    ensures
        unlisted_among(names, count + 1, listing) == (if is_listed(listing, names[count]) {
            unlisted_among(names, count, listing)
        } else {
            unlisted_among(names, count, listing).insert(names[count])
        }),
        !unlisted_among(names, count, listing).contains(names[count]),
        unlisted_among(names, 0, listing) == Set::<Seq<char>>::empty(),
{
    assert forall|name: Seq<char>| #![trigger among_first(names, count + 1, name)]
        among_first(names, count + 1, name) <==> among_first(names, count, name) || names[count]
            == name by {
        lemma_among_next(names, count, name);
    }
    assert forall|name: Seq<char>| #![trigger among_first(names, count, name)]
        among_first(names, count, name) ==> among_first(names, count + 1, name) by {
        lemma_among_next(names, count, name);
    }
    if among_first(names, count, names[count]) {
        let j = choose|j: int| 0 <= j < count && j < names.len() && names[j] == names[count];
        assert(names[j] == names[count]);
    }
    if is_listed(listing, names[count]) {
        assert(unlisted_among(names, count + 1, listing) =~= unlisted_among(
            names,
            count,
            listing,
        ));
    } else {
        assert(unlisted_among(names, count + 1, listing) =~= unlisted_among(
            names,
            count,
            listing,
        ).insert(names[count]));
    }
    assert(unlisted_among(names, 0, listing) =~= Set::<Seq<char>>::empty());
}

/// Once all names were looked at, the unlisted among them are the unlisted
/// of the whole set.
proof fn lemma_unlisted_all(names: Seq<Seq<char>>, listing: Seq<ListingView>, name: Seq<char>)
    ensures
        unlisted_among(names, names.len() as int, listing).contains(name) <==> names.contains(name)
            && !is_listed(listing, name),
{
    if names.contains(name) {
        let j = choose|j: int| 0 <= j < names.len() && names[j] == name;
        assert(names[j] == name);
    }
}

/// Whether `listing` has a line for `name`.
fn listing_holds(listing: &Vec<TopicListing>, name: &String) -> (listed: bool)
    ensures
        listed == is_listed(listing_views(listing@), name@),
{
    let mut i: usize = 0;
    while i < listing.len()
        invariant
            i <= listing.len(),
            forall|j: int| 0 <= j < i ==> (#[trigger] listing_views(listing@)[j]).name != name@,
        decreases listing.len() - i,
    {
        if listing[i].name == *name {
            assert(listing_views(listing@)[i as int].name == name@);
            return true;
        }
        i = i + 1;
    }
    false
}

/// At which level `notice` is logged: requests that name an unknown
/// subscription are errors, the other remarks are warnings.
pub open spec fn severity_of(notice: Notice) -> Severity {
    match notice {
        Notice::Nothing => Severity::Silent,
        Notice::UnknownSubscribe | Notice::UnknownUnsubscribe => Severity::Error,
        _ => Severity::Warning,
    }
}

impl Notice {
    /// At which level the notice is logged.
    pub fn severity(&self) -> (severity: Severity)
        ensures
            severity == severity_of(*self),
    {
        match self {
            Notice::Nothing => Severity::Silent,
            Notice::UnknownSubscribe | Notice::UnknownUnsubscribe => Severity::Error,
            _ => Severity::Warning,
        }
    }
}

/// The mirroring state of one peer.
pub struct Engine {
    known_topics: TopicTable,
    publishers: NameSet,
    subscribers: NameSet,
    currently_subscribed: NameSet,
}

impl View for Engine {
    type V = EngineView;

    closed spec fn view(&self) -> EngineView {
        EngineView {
            known_topics: self.known_topics@,
            publishers: self.publishers@,
            subscribers: self.subscribers@,
            currently_subscribed: self.currently_subscribed@,
        }
    }
}

impl Engine {
    /// The engine of a peer that has just started: it knows no topic.
    pub fn new() -> (engine: Engine)
        ensures
            engine@ == EngineView::empty(),
            engine@.wf(),
    {
        let engine = Engine {
            known_topics: TopicTable::new(),
            publishers: NameSet::new(),
            subscribers: NameSet::new(),
            currently_subscribed: NameSet::new(),
        };
        assert(engine@.known_topics =~= Map::empty());
        assert(engine@.publishers =~= Set::empty());
        assert(engine@.subscribers =~= Set::empty());
        assert(engine@.currently_subscribed =~= Set::empty());
        engine
    }

    /// Applies one inbound message. The state changes as [`after_command`]
    /// says, and the answer is the one [`command_reaction`] gives; a
    /// `FatalError` from the remote is handed back as the error.
    pub fn process_command(&mut self, message: Message) -> (result: Result<Reaction, RemoteFatal>)
        ensures
            final(self)@ == after_command(old(self)@, message@),
            old(self)@.wf() ==> final(self)@.wf(),
            match command_reaction(old(self)@, message@) {
                Ok(reaction) => result matches Ok(got) && got@ == reaction,
                Err(text) => result matches Err(fatal) && fatal.message@ == text,
            },
    {
        match message {
            Message::FatalError { message } => Err(RemoteFatal { message }),
            Message::Hangup => Ok(
                Reaction { flow: ControlFlow::Exit, effect: Effect::Nothing, notice: Notice::Nothing },
            ),
            Message::NewTopic { name, message_type } => {
                let notice = if self.known_topics.get(name.as_str()).is_some() {
                    Notice::LoopedTopic
                } else if self.publishers.contains(name.as_str()) {
                    Notice::DuplicateTopic
                } else {
                    Notice::Nothing
                };
                let effect = match notice {
                    Notice::Nothing => Effect::CreatePublisher { name, message_type },
                    _ => Effect::Nothing,
                };
                Ok(Reaction { flow: ControlFlow::Continue, effect, notice })
            },
            Message::SetTopicSubscribed { name, subscribed } => {
                if subscribed {
                    match self.known_topics.get(name.as_str()) {
                        Some(message_type) => {
                            let notice = if self.subscribers.contains(name.as_str()) {
                                Notice::Resubscribed
                            } else {
                                Notice::Nothing
                            };
                            Ok(
                                Reaction {
                                    flow: ControlFlow::Continue,
                                    effect: Effect::Subscribe { name, message_type },
                                    notice,
                                },
                            )
                        },
                        None => Ok(
                            Reaction {
                                flow: ControlFlow::Continue,
                                effect: Effect::Nothing,
                                notice: Notice::UnknownSubscribe,
                            },
                        ),
                    }
                } else if self.subscribers.remove(name.as_str()) {
                    Ok(
                        Reaction {
                            flow: ControlFlow::Continue,
                            effect: Effect::CancelForwarder { name },
                            notice: Notice::Nothing,
                        },
                    )
                } else {
                    assert(self.subscribers@ =~= old(self).subscribers@);
                    Ok(
                        Reaction {
                            flow: ControlFlow::Continue,
                            effect: Effect::Nothing,
                            notice: Notice::UnknownUnsubscribe,
                        },
                    )
                }
            },
            Message::DeletedTopic { name } => {
                let asked = self.currently_subscribed.remove(name.as_str());
                if self.publishers.remove(name.as_str()) {
                    Ok(
                        Reaction {
                            flow: ControlFlow::Continue,
                            effect: Effect::DropPublisher { name },
                            notice: Notice::Nothing,
                        },
                    )
                } else {
                    Ok(
                        Reaction {
                            flow: ControlFlow::Continue,
                            effect: Effect::Nothing,
                            notice: Notice::UnknownDelete,
                        },
                    )
                }
            },
            Message::PublishToTopic { name, payload } => {
                if self.publishers.contains(name.as_str()) {
                    Ok(
                        Reaction {
                            flow: ControlFlow::Continue,
                            effect: Effect::Publish { name, payload },
                            notice: Notice::Nothing,
                        },
                    )
                } else {
                    Ok(
                        Reaction {
                            flow: ControlFlow::Continue,
                            effect: Effect::Nothing,
                            notice: Notice::UnknownPublish,
                        },
                    )
                }
            },
        }
    }

    /// Records that the bus created the mirror publisher that
    /// [`Effect::CreatePublisher`] asked for. The result tells whether the
    /// publisher was registered; where it was not, the caller drops it.
    pub fn publisher_created(&mut self, name: String) -> (registered: bool)
        ensures
            final(self)@ == after_publisher_created(old(self)@, name@),
            old(self)@.wf() ==> final(self)@.wf(),
            registered == !old(self)@.known_topics.contains_key(name@),
    {
        if self.known_topics.get(name.as_str()).is_some() {
            false
        } else {
            let added = self.publishers.insert(name);
            true
        }
    }

    /// Records that the bus opened the subscription that
    /// [`Effect::Subscribe`] asked for and that its forwarder runs. The
    /// result tells whether the forwarder was registered; where it was not,
    /// the caller cancels it.
    pub fn subscription_opened(&mut self, name: String) -> (registered: bool)
        ensures
            final(self)@ == after_subscription_opened(old(self)@, name@),
            old(self)@.wf() ==> final(self)@.wf(),
            registered == old(self)@.known_topics.contains_key(name@),
    {
        if self.known_topics.get(name.as_str()).is_some() {
            let added = self.subscribers.insert(name);
            true
        } else {
            false
        }
    }
    /// The mirrored topics, each once, in no particular order: the topics
    /// whose consumers are to be counted before
    /// [`Engine::scan_for_subscriptions`].
    pub fn publisher_names(&self) -> (names: Vec<String>)
        ensures
            text_views(names@).no_duplicates(),
            text_views(names@).to_set() == self@.publishers,
    {
        self.publishers.names()
    }

    /// Forgets every known topic that `listing` lacks, and names them.
    fn forget_vanished(&mut self, listing: &Vec<TopicListing>) -> (deleted: Vec<String>)
        ensures
            final(self)@ == (EngineView {
                known_topics: old(self)@.known_topics.restrict(
                    listed_names(listing_views(listing@)),
                ),
                ..old(self)@
            }),
            text_views(deleted@).no_duplicates(),
            text_views(deleted@).to_set() == vanished_topics(old(self)@, listing_views(listing@)),
    {
        let names = self.known_topics.names();
        let mut deleted: Vec<String> = Vec::new();
        let ghost lines = listing_views(listing@);
        let ghost all = text_views(names@);
        let ghost before = self@;
        let mut i: usize = 0;
        proof {
            if names.len() > 0 {
                lemma_unlisted_next(all, 0, lines);
            }
            assert(unlisted_among(all, 0, lines) =~= Set::<Seq<char>>::empty());
            assert(self.known_topics@ =~= before.known_topics.remove_keys(
                unlisted_among(all, 0, lines),
            ));
            assert(text_views(deleted@).to_set() =~= unlisted_among(all, 0, lines));
        }
        while i < names.len()
            invariant
                i <= names.len(),
                lines == listing_views(listing@),
                all == text_views(names@),
                all.no_duplicates(),
                self.publishers == old(self).publishers,
                self.subscribers == old(self).subscribers,
                self.currently_subscribed == old(self).currently_subscribed,
                before == old(self)@,
                self.known_topics@ == before.known_topics.remove_keys(
                    unlisted_among(all, i as int, lines),
                ),
                text_views(deleted@).no_duplicates(),
                text_views(deleted@).to_set() == unlisted_among(all, i as int, lines),
            decreases names.len() - i,
        {
            let ghost deleted_before = text_views(deleted@);
            let ghost name = all[i as int];
            proof {
                assert(name == names[i as int]@);
                lemma_unlisted_next(all, i as int, lines);
            }
            if !listing_holds(listing, &names[i]) {
                let removed = self.known_topics.remove(names[i].as_str());
                deleted.push(names[i].clone());
                proof {
                    assert(text_views(deleted@) =~= deleted_before.push(name));
                    assert(!deleted_before.contains(name));
                    assert(deleted_before.push(name).to_set() =~= deleted_before.to_set().insert(
                        name,
                    )) by {
                        assert forall|other: Seq<char>|
                            deleted_before.push(name).contains(other) <==> deleted_before.contains(
                                other,
                            ) || other == name by {
                            if deleted_before.contains(other) {
                                let j = choose|j: int|
                                    0 <= j < deleted_before.len() && deleted_before[j] == other;
                                assert(deleted_before.push(name)[j] == other);
                            }
                            if other == name {
                                assert(deleted_before.push(name)[deleted_before.len() as int]
                                    == other);
                            }
                        }
                    }
                    assert(self.known_topics@ =~= before.known_topics.remove_keys(
                        unlisted_among(all, i + 1, lines),
                    ));
                }
            }
            i = i + 1;
        }
        proof {
            assert forall|name: Seq<char>|
                unlisted_among(all, i as int, lines).contains(name) <==> vanished_topics(
                    before,
                    lines,
                ).contains(name) by {
                lemma_unlisted_all(all, lines, name);
                assert(all.to_set().contains(name) <==> all.contains(name));
            }
            assert(unlisted_among(all, i as int, lines) =~= vanished_topics(before, lines));
            assert(self.known_topics@ =~= before.known_topics.restrict(listed_names(lines)));
        }
        deleted
    }

    /// Forgets the forwarder of every topic that `listing` lacks, and names
    /// those topics.
    fn cancel_unlisted(&mut self, listing: &Vec<TopicListing>) -> (cancelled: Vec<String>)
        ensures
            final(self)@ == (EngineView {
                subscribers: old(self)@.subscribers.intersect(
                    listed_names(listing_views(listing@)),
                ),
                ..old(self)@
            }),
            text_views(cancelled@).no_duplicates(),
            text_views(cancelled@).to_set() == orphaned_forwarders(
                old(self)@,
                listing_views(listing@),
            ),
    {
        let names = self.subscribers.names();
        let mut cancelled: Vec<String> = Vec::new();
        let ghost lines = listing_views(listing@);
        let ghost all = text_views(names@);
        let ghost before = self@;
        let mut i: usize = 0;
        proof {
            if names.len() > 0 {
                lemma_unlisted_next(all, 0, lines);
            }
            assert(unlisted_among(all, 0, lines) =~= Set::<Seq<char>>::empty());
            assert(self.subscribers@ =~= before.subscribers.difference(
                unlisted_among(all, 0, lines),
            ));
            assert(text_views(cancelled@).to_set() =~= unlisted_among(all, 0, lines));
        }
        while i < names.len()
            invariant
                i <= names.len(),
                lines == listing_views(listing@),
                all == text_views(names@),
                all.no_duplicates(),
                self.publishers == old(self).publishers,
                self.known_topics == old(self).known_topics,
                self.currently_subscribed == old(self).currently_subscribed,
                before == old(self)@,
                self.subscribers@ == before.subscribers.difference(
                    unlisted_among(all, i as int, lines),
                ),
                text_views(cancelled@).no_duplicates(),
                text_views(cancelled@).to_set() == unlisted_among(all, i as int, lines),
            decreases names.len() - i,
        {
            let ghost cancelled_before = text_views(cancelled@);
            let ghost name = all[i as int];
            proof {
                assert(name == names[i as int]@);
                lemma_unlisted_next(all, i as int, lines);
            }
            if !listing_holds(listing, &names[i]) {
                let removed = self.subscribers.remove(names[i].as_str());
                cancelled.push(names[i].clone());
                proof {
                    assert(text_views(cancelled@) =~= cancelled_before.push(name));
                    assert(!cancelled_before.contains(name));
                    assert(cancelled_before.push(name).to_set()
                        =~= cancelled_before.to_set().insert(name)) by {
                        assert forall|other: Seq<char>|
                            cancelled_before.push(name).contains(other)
                                <==> cancelled_before.contains(other) || other == name by {
                            if cancelled_before.contains(other) {
                                let j = choose|j: int|
                                    0 <= j < cancelled_before.len() && cancelled_before[j]
                                        == other;
                                assert(cancelled_before.push(name)[j] == other);
                            }
                            if other == name {
                                assert(cancelled_before.push(name)[cancelled_before.len() as int]
                                    == other);
                            }
                        }
                    }
                    assert(self.subscribers@ =~= before.subscribers.difference(
                        unlisted_among(all, i + 1, lines),
                    ));
                }
            }
            i = i + 1;
        }
        proof {
            assert forall|name: Seq<char>|
                unlisted_among(all, i as int, lines).contains(name) <==> orphaned_forwarders(
                    before,
                    lines,
                ).contains(name) by {
                lemma_unlisted_all(all, lines, name);
                assert(all.to_set().contains(name) <==> all.contains(name));
            }
            assert(unlisted_among(all, i as int, lines) =~= orphaned_forwarders(before, lines));
            assert(self.subscribers@ =~= before.subscribers.intersect(listed_names(lines)));
        }
        cancelled
    }

    /// Takes in the lines of `listing`, first to last: pins each new topic to
    /// its first type and appends its `NewTopic` to `messages`; names the new
    /// topics that have no type.
    fn adopt_listed(&mut self, listing: &Vec<TopicListing>, messages: &mut Vec<Message>) -> (untyped:
        Vec<String>)
        ensures
            final(self)@ == after_adopting(old(self)@, listing_views(listing@)),
            message_views(final(messages)@) == message_views(old(messages)@) + announcements(
                old(self)@,
                listing_views(listing@),
            ),
            text_views(untyped@) == untyped_topics(old(self)@, listing_views(listing@)),
    {
        let mut untyped: Vec<String> = Vec::new();
        let ghost lines = listing_views(listing@);
        let ghost before = self@;
        let ghost sent = message_views(messages@);
        let mut i: usize = 0;
        assert(lines.take(0) =~= Seq::<ListingView>::empty());
        assert(sent + announcements(before, lines.take(0)) =~= sent);
        while i < listing.len()
            invariant
                i <= listing.len(),
                lines == listing_views(listing@),
                before == old(self)@,
                sent == message_views(old(messages)@),
                self@ == after_adopting(before, lines.take(i as int)),
                message_views(messages@) == sent + announcements(before, lines.take(i as int)),
                text_views(untyped@) == untyped_topics(before, lines.take(i as int)),
            decreases listing.len() - i,
        {
            let line = &listing[i];
            let ghost state = self@;
            let ghost messages_before = message_views(messages@);
            let ghost untyped_before = text_views(untyped@);
            proof {
                assert(lines.take(i + 1).drop_last() =~= lines.take(i as int));
                assert(lines.take(i + 1).last() == line@);
                assert(line@.types.len() == line.types.len());
            }
            if self.known_topics.get(line.name.as_str()).is_none() && !self.publishers.contains(
                line.name.as_str(),
            ) {
                if line.types.len() > 0 {
                    let message_type = line.types[0].clone();
                    assert(message_type@ == line@.types[0]);
                    let previous = self.known_topics.insert(line.name.clone(), message_type.clone());
                    messages.push(Message::NewTopic { name: line.name.clone(), message_type });
                    assert(message_views(messages@) =~= messages_before.push(
                        MessageView::NewTopic { name: line@.name, message_type: line@.types[0] },
                    ));
                } else {
                    untyped.push(line.name.clone());
                    assert(text_views(untyped@) =~= untyped_before.push(line@.name));
                }
            }
            i = i + 1;
            assert(message_views(messages@) =~= sent + announcements(before, lines.take(i as int)));
        }
        assert(lines.take(i as int) =~= lines);
        untyped
    }

    /// Holds the engine's view of the local bus against what the bus lists
    /// now. Every known topic that is no longer listed is forgotten, with a
    /// `DeletedTopic` to send and, where it had one, a forwarder to cancel.
    /// Every listed topic that is new is pinned to the first type it is
    /// listed with, with a `NewTopic` to send; a topic that echoes a mirror
    /// publisher is not new, and a new topic without a type is passed over.
    pub fn scan_for_topics(&mut self, listing: &Vec<TopicListing>) -> (scan: TopicScan)
        ensures
            final(self)@ == after_topic_scan(old(self)@, listing_views(listing@)),
            old(self)@.wf() ==> final(self)@.wf(),
            topic_scan_matches(scan, old(self)@, listing_views(listing@)),
    {
        let deleted = self.forget_vanished(listing);
        let cancelled = self.cancel_unlisted(listing);
        let mut messages: Vec<Message> = Vec::new();
        let mut i: usize = 0;
        while i < deleted.len()
            invariant
                i <= deleted.len(),
                message_views(messages@) == deletions(text_views(deleted@).take(i as int)),
            decreases deleted.len() - i,
        {
            let ghost sent = message_views(messages@);
            messages.push(Message::DeletedTopic { name: deleted[i].clone() });
            i = i + 1;
            assert(message_views(messages@) =~= sent.push(
                MessageView::DeletedTopic { name: deleted[i - 1]@ },
            ));
            assert(message_views(messages@) =~= deletions(text_views(deleted@).take(i as int)));
        }
        assert(text_views(deleted@).take(i as int) =~= text_views(deleted@));
        proof {
            assert(self@ == after_forgetting(old(self)@, listing_views(listing@)));
            if old(self)@.wf() {
                lemma_adopting_preserves_wf(self@, listing_views(listing@));
            }
        }
        let untyped = self.adopt_listed(listing, &mut messages);
        TopicScan { messages, deleted, cancelled, untyped }
    }

    /// Holds the consumer counts of the mirror publishers against the topics
    /// for which the remote was asked to forward. Where a count became
    /// positive, the remote is asked to start; where it fell to zero, to
    /// stop; counts for topics that are not mirrored are passed over. The
    /// result is the frames to send, in the order of `counts`.
    pub fn scan_for_subscriptions(&mut self, counts: &Vec<ConsumerCount>) -> (messages: Vec<
        Message,
    >)
        ensures
            final(self)@ == after_subscription_scan(old(self)@, count_views(counts@)),
            old(self)@.wf() ==> final(self)@.wf(),
            message_views(messages@) == subscription_requests(old(self)@, count_views(counts@)),
    {
        let mut messages: Vec<Message> = Vec::new();
        let ghost observed = count_views(counts@);
        let ghost before = self@;
        let mut i: usize = 0;
        assert(observed.take(0) =~= Seq::<CountView>::empty());
        while i < counts.len()
            invariant
                i <= counts.len(),
                observed == count_views(counts@),
                before == old(self)@,
                self@ == after_subscription_scan(before, observed.take(i as int)),
                before.wf() ==> self@.wf(),
                message_views(messages@) == subscription_requests(before, observed.take(i as int)),
            decreases counts.len() - i,
        {
            let count = &counts[i];
            let ghost sent = message_views(messages@);
            proof {
                assert(observed.take(i + 1).drop_last() =~= observed.take(i as int));
                assert(observed.take(i + 1).last() == count@);
            }
            if self.publishers.contains(count.name.as_str()) {
                let asked = self.currently_subscribed.contains(count.name.as_str());
                if count.consumers > 0 && !asked {
                    let added = self.currently_subscribed.insert(count.name.clone());
                    messages.push(
                        Message::SetTopicSubscribed { name: count.name.clone(), subscribed: true },
                    );
                    assert(message_views(messages@) =~= sent.push(
                        MessageView::SetTopicSubscribed { name: count@.name, subscribed: true },
                    ));
                } else if count.consumers == 0 && asked {
                    let removed = self.currently_subscribed.remove(count.name.as_str());
                    messages.push(
                        Message::SetTopicSubscribed { name: count.name.clone(), subscribed: false },
                    );
                    assert(message_views(messages@) =~= sent.push(
                        MessageView::SetTopicSubscribed { name: count@.name, subscribed: false },
                    ));
                }
            }
            i = i + 1;
        }
        assert(observed.take(i as int) =~= observed);
        messages
    }

    /// Forgets every forwarder and names their topics, each once: the
    /// forwarders to cancel when the peer shuts down.
    pub fn cancel_all(&mut self) -> (cancelled: Vec<String>)
        ensures
            final(self)@ == (EngineView { subscribers: Set::empty(), ..old(self)@ }),
            old(self)@.wf() ==> final(self)@.wf(),
            text_views(cancelled@).no_duplicates(),
            text_views(cancelled@).to_set() == old(self)@.subscribers,
    {
        let cancelled = self.subscribers.names();
        self.subscribers = NameSet::new();
        assert(self.subscribers@ =~= Set::empty());
        cancelled
    }
}

/// Taking in a listing keeps the engine's invariant.
pub proof fn lemma_adopting_preserves_wf(state: EngineView, listing: Seq<ListingView>)
    requires
        state.wf(),
    ensures
        after_adopting(state, listing).wf(),
    decreases listing.len(),
{
    if listing.len() > 0 {
        lemma_adopting_preserves_wf(state, listing.drop_last());
    }
}

/// Forgetting the topics that a listing lacks keeps the engine's invariant.
pub proof fn lemma_forgetting_preserves_wf(state: EngineView, listing: Seq<ListingView>)
    requires
        state.wf(),
    ensures
        after_forgetting(state, listing).wf(),
{
}

/// Counting consumers keeps the engine's invariant.
pub proof fn lemma_subscription_scan_preserves_wf(state: EngineView, counts: Seq<CountView>)
    requires
        state.wf(),
    ensures
        after_subscription_scan(state, counts).wf(),
    decreases counts.len(),
{
    if counts.len() > 0 {
        lemma_subscription_scan_preserves_wf(state, counts.drop_last());
    }
}

/// Every step of the engine keeps its invariant: a command, a reported
/// publisher, a reported forwarder, and both scans.
pub proof fn lemma_steps_preserve_wf(
    state: EngineView,
    message: MessageView,
    name: Seq<char>,
    listing: Seq<ListingView>,
    counts: Seq<CountView>,
)
    requires
        state.wf(),
    ensures
        after_command(state, message).wf(),
        after_publisher_created(state, name).wf(),
        after_subscription_opened(state, name).wf(),
        after_topic_scan(state, listing).wf(),
        after_subscription_scan(state, counts).wf(),
{
    lemma_forgetting_preserves_wf(state, listing);
    lemma_adopting_preserves_wf(after_forgetting(state, listing), listing);
    lemma_subscription_scan_preserves_wf(state, counts);
}

/// No topic is looped back: in a well-formed state no name has both a
/// mirror publisher and a forwarder.
pub proof fn lemma_no_loop_back(state: EngineView)
    requires
        state.wf(),
    ensures
        state.publishers.disjoint(state.subscribers),
{
}

/// A listing can only pin names that it lists.
pub proof fn lemma_adopting_pins_listed(state: EngineView, listing: Seq<ListingView>, name: Seq<char>)
    requires
        !is_listed(listing, name),
    ensures
        after_adopting(state, listing).known_topics.contains_key(name)
            == state.known_topics.contains_key(name),
        after_adopting(state, listing).publishers == state.publishers,
    decreases listing.len(),
{
    if listing.len() > 0 {
        assert forall|i: int| 0 <= i < listing.drop_last().len() implies (
        #[trigger] listing.drop_last()[i]).name != name by {
            assert(listing[i].name != name);
        }
        lemma_adopting_pins_listed(state, listing.drop_last(), name);
        assert(listing[listing.len() - 1].name != name);
    } else {
    }
}

/// Taking in a listing never changes a pinned type.
pub proof fn lemma_adopting_keeps_pinned(state: EngineView, listing: Seq<ListingView>, name: Seq<char>)
    requires
        state.known_topics.contains_key(name),
    ensures
        after_adopting(state, listing).known_topics.contains_pair(name, state.known_topics[name]),
    decreases listing.len(),
{
    if listing.len() > 0 {
        lemma_adopting_keeps_pinned(state, listing.drop_last(), name);
    }
}

/// The first pinning wins: as long as the bus lists a known topic, a scan
/// leaves the type pinned to it as it is, whatever types the bus lists for
/// it now.
pub proof fn lemma_first_pinning_wins(state: EngineView, listing: Seq<ListingView>, name: Seq<char>)
    requires
        state.known_topics.contains_key(name),
        is_listed(listing, name),
    ensures
        after_topic_scan(state, listing).known_topics.contains_pair(name, state.known_topics[name]),
{
    lemma_adopting_keeps_pinned(after_forgetting(state, listing), listing, name);
}

/// Whether the bus lists `name` with at least one type.
pub open spec fn is_listed_with_type(listing: Seq<ListingView>, name: Seq<char>) -> bool {
    exists|i: int|
        0 <= i < listing.len() && (#[trigger] listing[i]).name == name && listing[i].types.len() > 0
}

/// Which topics are known once a listing was taken in: those known before,
/// and those listed with a type that have no mirror publisher.
pub proof fn lemma_adopting_knows(state: EngineView, listing: Seq<ListingView>, name: Seq<char>)
    ensures
        after_adopting(state, listing).known_topics.contains_key(name)
            <==> state.known_topics.contains_key(name) || (!state.publishers.contains(name)
            && is_listed_with_type(listing, name)),
        after_adopting(state, listing).publishers == state.publishers,
    decreases listing.len(),
{
    if listing.len() > 0 {
        let shorter = listing.drop_last();
        let line = listing.last();
        lemma_adopting_knows(state, shorter, name);
        if is_listed_with_type(shorter, name) {
            let i = choose|i: int|
                0 <= i < shorter.len() && (#[trigger] shorter[i]).name == name
                    && shorter[i].types.len() > 0;
            assert(listing[i].name == name && listing[i].types.len() > 0);
        }
        if line.name == name && line.types.len() > 0 {
            assert(listing[listing.len() - 1].name == name);
        }
        if is_listed_with_type(listing, name) {
            let i = choose|i: int|
                0 <= i < listing.len() && (#[trigger] listing[i]).name == name
                    && listing[i].types.len() > 0;
            if i < shorter.len() {
                assert(shorter[i].name == name && shorter[i].types.len() > 0);
            }
        }
    }
}

/// Which topics are known after a scan of the local topics: those known
/// before that the bus still lists, and those that the bus lists with a type
/// and that have no mirror publisher.
pub proof fn lemma_scan_knows(state: EngineView, listing: Seq<ListingView>, name: Seq<char>)
    ensures
        after_topic_scan(state, listing).known_topics.contains_key(name) <==> (
        state.known_topics.contains_key(name) && is_listed(listing, name)) || (
        !state.publishers.contains(name) && is_listed_with_type(listing, name)),
{
    lemma_adopting_knows(after_forgetting(state, listing), listing, name);
    if is_listed_with_type(listing, name) {
        let i = choose|i: int|
            0 <= i < listing.len() && (#[trigger] listing[i]).name == name && listing[i].types.len()
                > 0;
        assert(listing[i].name == name);
    }
}

/// The listing that holds one topic with its types.
pub open spec fn one_line(name: Seq<char>, types: Seq<Seq<char>>) -> Seq<ListingView> {
    seq![ListingView { name, types }]
}

/// The counts that hold one count.
pub open spec fn one_count(name: Seq<char>, consumers: nat) -> Seq<CountView> {
    seq![CountView { name, consumers }]
}

/// A topic that appears on one peer's bus is mirrored on the other: the scan
/// of the first peer pins it to its first type and announces it with one
/// `NewTopic`; the second peer answers that message by asking for a mirror
/// publisher of that name and type, and holds the publisher once it is
/// reported.
pub proof fn lemma_topic_is_mirrored(
    local: EngineView,
    remote: EngineView,
    name: Seq<char>,
    types: Seq<Seq<char>>,
)
    requires
        types.len() > 0,
        !local.known_topics.contains_key(name),
        !local.publishers.contains(name),
        !remote.known_topics.contains_key(name),
        !remote.publishers.contains(name),
    ensures
        announcements(after_forgetting(local, one_line(name, types)), one_line(name, types))
            == seq![MessageView::NewTopic { name, message_type: types[0] }],
        after_topic_scan(local, one_line(name, types)).known_topics.contains_pair(name, types[0]),
        command_reaction(remote, MessageView::NewTopic { name, message_type: types[0] }) == Ok::<
            ReactionView,
            Seq<char>,
        >(perform(EffectView::CreatePublisher { name, message_type: types[0] })),
        after_publisher_created(
            after_command(remote, MessageView::NewTopic { name, message_type: types[0] }),
            name,
        ).publishers.contains(name),
{
    let listing = one_line(name, types);
    let swept = after_forgetting(local, listing);
    assert(listing.drop_last() =~= Seq::<ListingView>::empty());
    assert(after_adopting(swept, listing.drop_last()) == swept);
    assert(announcements(swept, listing.drop_last()) =~= Seq::<MessageView>::empty());
    assert(listing.last() == ListingView { name, types });
    assert(is_new_topic(swept, listing.last()));
    assert(announcements(swept, listing) =~= seq![
        MessageView::NewTopic { name, message_type: types[0] },
    ]);
}

/// A topic that vanishes from one peer's bus vanishes from the other: the
/// scan of the first peer forgets it and names it among the deleted, and the
/// second peer answers its `DeletedTopic` by dropping the mirror publisher,
/// which it then no longer holds.
pub proof fn lemma_topic_is_deleted(
    local: EngineView,
    remote: EngineView,
    name: Seq<char>,
    listing: Seq<ListingView>,
)
    requires
        local.known_topics.contains_key(name),
        !is_listed(listing, name),
        remote.publishers.contains(name),
    ensures
        vanished_topics(local, listing).contains(name),
        !after_topic_scan(local, listing).known_topics.contains_key(name),
        command_reaction(remote, MessageView::DeletedTopic { name }) == Ok::<
            ReactionView,
            Seq<char>,
        >(perform(EffectView::DropPublisher { name })),
        !after_command(remote, MessageView::DeletedTopic { name }).publishers.contains(name),
        !after_command(remote, MessageView::DeletedTopic { name }).currently_subscribed.contains(
            name,
        ),
{
    lemma_adopting_pins_listed(after_forgetting(local, listing), listing, name);
}

/// Announcing a topic twice creates one mirror publisher: the first
/// `NewTopic` asks for it, and once it is reported, a second `NewTopic` for
/// that name, of whatever type, asks for nothing, changes nothing and leaves
/// a warning.
pub proof fn lemma_new_topic_is_idempotent(
    state: EngineView,
    name: Seq<char>,
    first_type: Seq<char>,
    second_type: Seq<char>,
)
    requires
        !state.known_topics.contains_key(name),
        !state.publishers.contains(name),
    ensures
        command_reaction(state, MessageView::NewTopic { name, message_type: first_type }) == Ok::<
            ReactionView,
            Seq<char>,
        >(perform(EffectView::CreatePublisher { name, message_type: first_type })),
        ({
            let created = after_publisher_created(
                after_command(state, MessageView::NewTopic { name, message_type: first_type }),
                name,
            );
            &&& created.publishers == state.publishers.insert(name)
            &&& command_reaction(created, MessageView::NewTopic { name, message_type: second_type })
                == Ok::<ReactionView, Seq<char>>(remark(Notice::DuplicateTopic))
            &&& after_command(created, MessageView::NewTopic { name, message_type: second_type })
                == created
        }),
        severity_of(Notice::DuplicateTopic) == Severity::Warning,
{
}

/// A payload for a topic that was never announced is dropped: it asks for no
/// bus work, changes nothing and leaves a warning.
pub proof fn lemma_unknown_publish_is_dropped(
    state: EngineView,
    name: Seq<char>,
    payload: Seq<u8>,
)
    requires
        !state.publishers.contains(name),
    ensures
        command_reaction(state, MessageView::PublishToTopic { name, payload }) == Ok::<
            ReactionView,
            Seq<char>,
        >(remark(Notice::UnknownPublish)),
        after_command(state, MessageView::PublishToTopic { name, payload }) == state,
        severity_of(Notice::UnknownPublish) == Severity::Warning,
{
}

/// While a mirrored topic has no consumer and none was reported before, a
/// scan sends nothing for it and changes nothing.
pub proof fn lemma_no_demand_no_request(state: EngineView, name: Seq<char>)
    requires
        !state.currently_subscribed.contains(name),
    ensures
        subscription_requests(state, one_count(name, 0)) == Seq::<MessageView>::empty(),
        after_subscription_scan(state, one_count(name, 0)) == state,
{
    let counts = one_count(name, 0);
    assert(counts.drop_last() =~= Seq::<CountView>::empty());
    assert(after_subscription_scan(state, counts.drop_last()) == state);
    assert(subscription_requests(state, counts.drop_last()) =~= Seq::<MessageView>::empty());
}

/// When a mirrored topic gains its first consumer, the next scan asks the
/// remote once to forward it; a further scan with consumers still there
/// sends nothing.
pub proof fn lemma_demand_is_requested_once(
    state: EngineView,
    name: Seq<char>,
    consumers: nat,
    later: nat,
)
    requires
        state.publishers.contains(name),
        !state.currently_subscribed.contains(name),
        consumers > 0,
        later > 0,
    ensures
        subscription_requests(state, one_count(name, consumers)) == seq![
            MessageView::SetTopicSubscribed { name, subscribed: true },
        ],
        after_subscription_scan(state, one_count(name, consumers)).currently_subscribed
            == state.currently_subscribed.insert(name),
        subscription_requests(
            after_subscription_scan(state, one_count(name, consumers)),
            one_count(name, later),
        ) == Seq::<MessageView>::empty(),
{
    let counts = one_count(name, consumers);
    assert(counts.drop_last() =~= Seq::<CountView>::empty());
    assert(after_subscription_scan(state, counts.drop_last()) == state);
    assert(subscription_requests(state, counts.drop_last()) =~= Seq::<MessageView>::empty());
    assert(subscription_requests(state, counts) =~= seq![
        MessageView::SetTopicSubscribed { name, subscribed: true },
    ]);
    let next = after_subscription_scan(state, counts);
    let again = one_count(name, later);
    assert(again.drop_last() =~= Seq::<CountView>::empty());
    assert(after_subscription_scan(next, again.drop_last()) == next);
    assert(subscription_requests(next, again.drop_last()) =~= Seq::<MessageView>::empty());
}

/// When a mirrored topic loses its last consumer, the next scan asks the
/// remote once to stop forwarding it; a further scan without consumers sends
/// nothing.
pub proof fn lemma_demand_is_withdrawn_once(state: EngineView, name: Seq<char>)
    requires
        state.publishers.contains(name),
        state.currently_subscribed.contains(name),
    ensures
        subscription_requests(state, one_count(name, 0)) == seq![
            MessageView::SetTopicSubscribed { name, subscribed: false },
        ],
        after_subscription_scan(state, one_count(name, 0)).currently_subscribed
            == state.currently_subscribed.remove(name),
        subscription_requests(
            after_subscription_scan(state, one_count(name, 0)),
            one_count(name, 0),
        ) == Seq::<MessageView>::empty(),
{
    let counts = one_count(name, 0);
    assert(counts.drop_last() =~= Seq::<CountView>::empty());
    assert(after_subscription_scan(state, counts.drop_last()) == state);
    assert(subscription_requests(state, counts.drop_last()) =~= Seq::<MessageView>::empty());
    assert(subscription_requests(state, counts) =~= seq![
        MessageView::SetTopicSubscribed { name, subscribed: false },
    ]);
    let next = after_subscription_scan(state, counts);
    lemma_no_demand_no_request(next, name);
}

/// A scan of the consumers never sends a payload: each of its frames is a
/// `SetTopicSubscribed` for a mirrored topic.
pub proof fn lemma_scan_sends_requests_only(state: EngineView, counts: Seq<CountView>, i: int)
    requires
        0 <= i < subscription_requests(state, counts).len(),
    ensures
        subscription_requests(state, counts)[i] matches MessageView::SetTopicSubscribed {
            name,
            ..
        } && state.publishers.contains(name),
    decreases counts.len(),
{
    if counts.len() > 0 {
        lemma_scan_keeps_publishers(state, counts.drop_last());
        if i < subscription_requests(state, counts.drop_last()).len() {
            lemma_scan_sends_requests_only(state, counts.drop_last(), i);
        }
    }
}

/// A scan of the consumers leaves everything but the record of what was
/// asked of the remote as it was.
pub proof fn lemma_scan_keeps_publishers(state: EngineView, counts: Seq<CountView>)
    ensures
        after_subscription_scan(state, counts).publishers == state.publishers,
        after_subscription_scan(state, counts).known_topics == state.known_topics,
        after_subscription_scan(state, counts).subscribers == state.subscribers,
    decreases counts.len(),
{
    if counts.len() > 0 {
        lemma_scan_keeps_publishers(state, counts.drop_last());
    }
}

} // verus!
