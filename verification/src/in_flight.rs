//! Fetches in flight: who fetches an artifact when several ask for it at
//! once, and how the others learn that the fetch has ended.

use dashmap::DashMap;
use tokio::sync::broadcast::{Receiver, Sender};
use vstd::prelude::*;
use vstd::string::*;

verus! {

/// `dashmap::DashMap`, of which nothing is seen but what the functions
/// below say.
#[verifier::external_type_specification]
#[verifier::external_body]
#[verifier::reject_recursive_types(K)]
#[verifier::reject_recursive_types(V)]
#[verifier::reject_recursive_types(S)]
pub struct ExDashMap<K, V, S>(DashMap<K, V, S>);

/// `tokio::sync::broadcast::Sender`, carried as it is.
#[verifier::external_type_specification]
#[verifier::external_body]
#[verifier::reject_recursive_types(T)]
pub struct ExSender<T>(Sender<T>);

/// `tokio::sync::broadcast::Receiver`, carried as it is.
#[verifier::external_type_specification]
#[verifier::external_body]
#[verifier::reject_recursive_types(T)]
pub struct ExReceiver<T>(Receiver<T>);

/// The keys that a map of fetches in flight holds.
pub uninterp spec fn in_flight_keys(map: DashMap<String, Sender<()>>) -> Set<Seq<char>>;

/// How many messages a notifier keeps for a receiver that lags: one is
/// all that is ever sent.
pub const NOTIFIER_CAPACITY: usize = 1;

/// `DashMap::new`: a map that holds no key.
#[verifier::external_body]
fn new_map() -> (map: DashMap<String, Sender<()>>)
    ensures
        in_flight_keys(map) == Set::<Seq<char>>::empty(),
{
    DashMap::new()
}

/// `DashMap::get`, and a clone of the value that it found: there is one
/// exactly if the map holds the key.
#[verifier::external_body]
fn notifier_of(map: &DashMap<String, Sender<()>>, key: &str) -> (sender: Option<Sender<()>>)
    ensures
        sender is Some <==> in_flight_keys(*map).contains(key@),
{
    match map.get(key) {
        Some(entry) => Some(entry.value().clone()),
        None => None,
    }
}

/// `DashMap::insert`: the map then holds the key besides what it held.
#[verifier::external_body]
fn insert_notifier(map: &mut DashMap<String, Sender<()>>, key: String, sender: Sender<()>)
    ensures
        in_flight_keys(*final(map)) == in_flight_keys(*old(map)).insert(key@),
{
    map.insert(key, sender);
}

/// `DashMap::remove`: the map then holds what it held but the key.
#[verifier::external_body]
fn remove_notifier(map: &mut DashMap<String, Sender<()>>, key: &str)
    ensures
        in_flight_keys(*final(map)) == in_flight_keys(*old(map)).remove(key@),
{
    map.remove(key);
}

/// The sending half of a new `tokio::sync::broadcast::channel`. The
/// channel refuses a capacity of zero and one above half of `usize::MAX`.
#[verifier::external_body]
fn new_notifier(capacity: usize) -> (sender: Sender<()>)
    requires
        0 < capacity <= usize::MAX / 2,
{
    tokio::sync::broadcast::channel(capacity).0
}

/// `Sender::subscribe`: a receiver for what is sent from now on.
#[verifier::external_body]
fn subscribe(sender: &Sender<()>) -> (receiver: Receiver<()>) {
    sender.subscribe()
}

/// `Sender::send` of the one message; that nobody listens is no error.
#[verifier::external_body]
fn send_done(sender: &Sender<()>) {
    sender.send(()).ok();
}

/// The fetches in flight, each under the path that it fills. The map is
/// changed through `&mut self` alone, so that what was asked of it still
/// holds when it is asked again.
pub struct InFlight {
    map: DashMap<String, Sender<()>>,
}

/// The leader's hold on its entry among the fetches in flight.
pub struct SenderGuard {
    path: String,
}

impl SenderGuard {
    /// The path that the leader fills.
    pub closed spec fn path_spec(&self) -> Seq<char> {
        self.path@
    }

    /// The path that the leader fills.
    pub fn path(&self) -> (path: &str)
        ensures
            path@ == self.path_spec(),
    {
        self.path.as_str()
    }
}

/// The part that a caller plays in a fetch.
pub enum Flight {
    /// Another caller fetches: wait for its message, then look again.
    Follower(Receiver<()>),
    /// This caller fetches, and tells the others when it is done.
    Leader(SenderGuard),
}

/// The paths that are being fetched after one more caller has asked for
/// `path`, and whether that caller leads.
pub open spec fn ask(paths: Set<Seq<char>>, path: Seq<char>) -> (Set<Seq<char>>, bool) {
    if paths.contains(path) {
        (paths, false)
    } else {
        (paths.insert(path), true)
    }
}

/// How many of `callers` callers that ask for `path` in a row, with no
/// fetch ending in between, lead.
pub open spec fn leaders(paths: Set<Seq<char>>, path: Seq<char>, callers: nat) -> nat
    decreases callers,
{
    if callers == 0 {
        0
    } else {
        let (after, leads) = ask(paths, path);
        (if leads {
            1nat
        } else {
            0nat
        }) + leaders(after, path, (callers - 1) as nat)
    }
}

/// While a path is being fetched, nobody who asks for it leads.
pub proof fn lemma_no_second_leader(paths: Set<Seq<char>>, path: Seq<char>, callers: nat)
    requires
        paths.contains(path),
    ensures
        leaders(paths, path, callers) == 0,
    decreases callers,
{
    if callers > 0 {
        lemma_no_second_leader(paths, path, (callers - 1) as nat);
    }
}

/// Of any number of callers that ask for a path that is not being fetched,
/// exactly one leads: the first. All the others wait for it.
pub proof fn lemma_single_flight(paths: Set<Seq<char>>, path: Seq<char>, callers: nat)
    requires
        !paths.contains(path),
        callers >= 1,
    ensures
        ask(paths, path).1,
        leaders(paths, path, callers) == 1,
{
    lemma_no_second_leader(paths.insert(path), path, (callers - 1) as nat);
}

/// The end of a fetch frees the path, so that the next caller leads again.
pub proof fn lemma_release_frees_the_path(paths: Set<Seq<char>>, path: Seq<char>)
    ensures
        ask(paths.remove(path), path).1,
{
}

/// What happens to the fetches in flight: a caller asks for a path, or a
/// leader ends its fetch of a path.
pub enum Event {
    Ask(Seq<char>),
    Release(Seq<char>),
}

/// The fetches in flight together with the leaders that have not ended
/// their fetch yet, counted by path.
pub struct Flights {
    pub paths: Set<Seq<char>>,
    pub leaders: Map<Seq<char>, nat>,
}

/// How many leaders fetch `path`.
pub open spec fn leaders_of(flights: Flights, path: Seq<char>) -> nat {
    if flights.leaders.contains_key(path) {
        flights.leaders[path]
    } else {
        0
    }
}

/// The fetches in flight after an event. Only a leader can end a fetch: a
/// release of a path that nobody leads changes nothing.
pub open spec fn after_event(flights: Flights, event: Event) -> Flights {
    match event {
        Event::Ask(path) => if ask(flights.paths, path).1 {
            Flights {
                paths: ask(flights.paths, path).0,
                leaders: flights.leaders.insert(path, leaders_of(flights, path) + 1),
            }
        } else {
            flights
        },
        Event::Release(path) => if leaders_of(flights, path) > 0 {
            Flights {
                paths: flights.paths.remove(path),
                leaders: flights.leaders.insert(path, (leaders_of(flights, path) - 1) as nat),
            }
        } else {
            flights
        },
    }
}

/// The fetches in flight after the events, first to last.
pub open spec fn after_events(flights: Flights, events: Seq<Event>) -> Flights
    decreases events.len(),
{
    if events.len() == 0 {
        flights
    } else {
        after_event(after_events(flights, events.drop_last()), events.last())
    }
}

/// Each path that is being fetched has one leader, and no other path has any.
pub open spec fn one_leader_each(flights: Flights) -> bool {
    forall|path: Seq<char>|
        #[trigger] leaders_of(flights, path) == if flights.paths.contains(path) {
            1nat
        } else {
            0nat
        }
}

/// Whatever the callers do, and in whatever order, no path is ever fetched
/// by two leaders at once: from a start with nothing in flight, every path
/// that is being fetched has exactly one leader.
pub proof fn lemma_one_leader_at_a_time(events: Seq<Event>)
    ensures
        one_leader_each(
            after_events(Flights { paths: Set::empty(), leaders: Map::empty() }, events),
        ),
    decreases events.len(),
{
    let start = Flights { paths: Set::empty(), leaders: Map::empty() };
    if events.len() == 0 {
        assert forall|path: Seq<char>| #[trigger] leaders_of(start, path) == 0 by {}
    } else {
        lemma_one_leader_at_a_time(events.drop_last());
        let before = after_events(start, events.drop_last());
        let after = after_event(before, events.last());
        assert forall|path: Seq<char>|
            #[trigger] leaders_of(after, path) == if after.paths.contains(path) {
                1nat
            } else {
                0nat
            } by {
            assert(leaders_of(before, path) == if before.paths.contains(path) {
                1nat
            } else {
                0nat
            });
            match events.last() {
                Event::Ask(asked) => {
                    assert(leaders_of(before, asked) == if before.paths.contains(asked) {
                        1nat
                    } else {
                        0nat
                    });
                },
                Event::Release(released) => {
                    assert(leaders_of(before, released) == if before.paths.contains(released) {
                        1nat
                    } else {
                        0nat
                    });
                },
            }
        }
    }
}

impl InFlight {
    /// The paths that are being fetched.
    pub closed spec fn paths(&self) -> Set<Seq<char>> {
        in_flight_keys(self.map)
    }

    /// No fetch in flight.
    pub fn new() -> (flights: Self)
        ensures
            flights.paths() == Set::<Seq<char>>::empty(),
    {
        InFlight { map: new_map() }
    }

    /// Whether `path` is being fetched.
    pub fn is_in_flight(&self, path: &str) -> (found: bool)
        ensures
            found == self.paths().contains(path@),
    {
        notifier_of(&self.map, path).is_some()
    }

    /// Asks who fetches `path`. If it is being fetched, the caller follows:
    /// it gets a receiver for the leader's message. If not, the caller
    /// leads, and the path counts as being fetched until the guard is
    /// released.
    pub fn check_inflight(&mut self, path: &str) -> (flight: Flight)
        ensures
            final(self).paths() == ask(old(self).paths(), path@).0,
            flight is Leader == ask(old(self).paths(), path@).1,
            flight matches Flight::Leader(guard) ==> guard.path_spec() == path@,
    {
        match notifier_of(&self.map, path) {
            Some(sender) => Flight::Follower(subscribe(&sender)),
            None => {
                insert_notifier(
                    &mut self.map,
                    String::from_str(path),
                    new_notifier(NOTIFIER_CAPACITY),
                );
                Flight::Leader(SenderGuard { path: String::from_str(path) })
            },
        }
    }

    /// Ends the leader's fetch: the followers are told if it succeeded,
    /// and the path is no longer being fetched either way.
    pub fn release(&mut self, guard: SenderGuard, succeeded: bool)
        ensures
            final(self).paths() == old(self).paths().remove(guard.path_spec()),
    {
        if succeeded {
            match notifier_of(&self.map, guard.path.as_str()) {
                Some(sender) => send_done(&sender),
                None => {},
            }
        }
        remove_notifier(&mut self.map, guard.path.as_str());
    }
}

} // verus!
