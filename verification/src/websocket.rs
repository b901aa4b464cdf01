//! The subscription broadcaster: the observers that are connected, what each
//! has subscribed to, the messages that are pushed to them, and the plan of
//! one monitoring tick. The sockets themselves stand outside.

use vstd::prelude::*;
use crate::time::Timestamp;
use crate::models::{Milli, GeoPoint, views, clone_texts, contains_text, distinct_texts};
use crate::models::train::{Train, TrainView, TrainStatus};
use crate::models::events::{DisruptionEvent, DisruptionType};
use crate::runtime::{current_time, new_identifier};
use crate::services::train_service::{TrainAlert, TrainAlertView, TrainConflict,
    TrainConflictView};

verus! {

/// A message of the real-time protocol. The first two travel from observer
/// to server, the others from server to observer.
#[derive(Debug)]
pub enum WsMessage {
    Subscribe { train_ids: Vec<String> },
    SubscribeSection { section_ids: Vec<String> },
    TrainUpdate {
        train_id: String,
        position: GeoPoint,
        speed_kmh: Milli,
        delay_minutes: i32,
        status: TrainStatus,
        timestamp: Timestamp,
    },
    SectionUpdate { section_id: String, occupancy: u32, conflicts: Vec<String>, timestamp: Timestamp },
    DisruptionAlert {
        disruption_id: String,
        disruption_type: DisruptionType,
        affected_sections: Vec<String>,
        impact_level: u8,
        description: String,
        timestamp: Timestamp,
    },
    SystemAlert { alert_type: String, message: String, severity: String, timestamp: Timestamp },
    Connected { client_id: String, timestamp: Timestamp },
    Error { message: String, timestamp: Timestamp },
}

pub enum WsMessageView {
    Subscribe { train_ids: Seq<Seq<char>> },
    SubscribeSection { section_ids: Seq<Seq<char>> },
    TrainUpdate {
        train_id: Seq<char>,
        position: GeoPoint,
        speed_kmh: Milli,
        delay_minutes: i32,
        status: TrainStatus,
        timestamp: Timestamp,
    },
    SectionUpdate {
        section_id: Seq<char>,
        occupancy: u32,
        conflicts: Seq<Seq<char>>,
        timestamp: Timestamp,
    },
    DisruptionAlert {
        disruption_id: Seq<char>,
        disruption_type: DisruptionType,
        affected_sections: Seq<Seq<char>>,
        impact_level: u8,
        description: Seq<char>,
        timestamp: Timestamp,
    },
    SystemAlert {
        alert_type: Seq<char>,
        message: Seq<char>,
        severity: Seq<char>,
        timestamp: Timestamp,
    },
    Connected { client_id: Seq<char>, timestamp: Timestamp },
    Error { message: Seq<char>, timestamp: Timestamp },
}

impl View for WsMessage {
    type V = WsMessageView;

    open spec fn view(&self) -> WsMessageView {
        match self {
            WsMessage::Subscribe { train_ids } => WsMessageView::Subscribe {
                train_ids: views(train_ids@),
            },
            WsMessage::SubscribeSection { section_ids } => WsMessageView::SubscribeSection {
                section_ids: views(section_ids@),
            },
            WsMessage::TrainUpdate {
                train_id,
                position,
                speed_kmh,
                delay_minutes,
                status,
                timestamp,
            } => WsMessageView::TrainUpdate {
                train_id: train_id@,
                position: *position,
                speed_kmh: *speed_kmh,
                delay_minutes: *delay_minutes,
                status: *status,
                timestamp: *timestamp,
            },
            WsMessage::SectionUpdate {
                section_id,
                occupancy,
                conflicts,
                timestamp,
            } => WsMessageView::SectionUpdate {
                section_id: section_id@,
                occupancy: *occupancy,
                conflicts: views(conflicts@),
                timestamp: *timestamp,
            },
            WsMessage::DisruptionAlert {
                disruption_id,
                disruption_type,
                affected_sections,
                impact_level,
                description,
                timestamp,
            } => WsMessageView::DisruptionAlert {
                disruption_id: disruption_id@,
                disruption_type: *disruption_type,
                affected_sections: views(affected_sections@),
                impact_level: *impact_level,
                description: description@,
                timestamp: *timestamp,
            },
            WsMessage::SystemAlert {
                alert_type,
                message,
                severity,
                timestamp,
            } => WsMessageView::SystemAlert {
                alert_type: alert_type@,
                message: message@,
                severity: severity@,
                timestamp: *timestamp,
            },
            WsMessage::Connected { client_id, timestamp } => WsMessageView::Connected {
                client_id: client_id@,
                timestamp: *timestamp,
            },
            WsMessage::Error { message, timestamp } => WsMessageView::Error {
                message: message@,
                timestamp: *timestamp,
            },
        }
    }
}

impl Clone for WsMessage {
    fn clone(&self) -> (copy: Self)
        ensures
            copy@ == self@,
    {
        match self {
            WsMessage::Subscribe { train_ids } => WsMessage::Subscribe {
                train_ids: clone_texts(train_ids),
            },
            WsMessage::SubscribeSection { section_ids } => WsMessage::SubscribeSection {
                section_ids: clone_texts(section_ids),
            },
            WsMessage::TrainUpdate {
                train_id,
                position,
                speed_kmh,
                delay_minutes,
                status,
                timestamp,
            } => WsMessage::TrainUpdate {
                train_id: train_id.clone(),
                position: *position,
                speed_kmh: *speed_kmh,
                delay_minutes: *delay_minutes,
                status: *status,
                timestamp: *timestamp,
            },
            WsMessage::SectionUpdate {
                section_id,
                occupancy,
                conflicts,
                timestamp,
            } => WsMessage::SectionUpdate {
                section_id: section_id.clone(),
                occupancy: *occupancy,
                conflicts: clone_texts(conflicts),
                timestamp: *timestamp,
            },
            WsMessage::DisruptionAlert {
                disruption_id,
                disruption_type,
                affected_sections,
                impact_level,
                description,
                timestamp,
            } => WsMessage::DisruptionAlert {
                disruption_id: disruption_id.clone(),
                disruption_type: *disruption_type,
                affected_sections: clone_texts(affected_sections),
                impact_level: *impact_level,
                description: description.clone(),
                timestamp: *timestamp,
            },
            WsMessage::SystemAlert {
                alert_type,
                message,
                severity,
                timestamp,
            } => WsMessage::SystemAlert {
                alert_type: alert_type.clone(),
                message: message.clone(),
                severity: severity.clone(),
                timestamp: *timestamp,
            },
            WsMessage::Connected { client_id, timestamp } => WsMessage::Connected {
                client_id: client_id.clone(),
                timestamp: *timestamp,
            },
            WsMessage::Error { message, timestamp } => WsMessage::Error {
                message: message.clone(),
                timestamp: *timestamp,
            },
        }
    }
}

/// One connected observer and what it has subscribed to.
#[derive(Debug)]
pub struct ClientInfo {
    pub client_id: String,
    pub subscribed_trains: Vec<String>,
    pub subscribed_sections: Vec<String>,
    pub connected_at: Timestamp,
    pub last_activity: Timestamp,
}

/// An observer with its subscriptions as sets: neither order nor repetition
/// in the lists counts.
pub struct ClientInfoView {
    pub client_id: Seq<char>,
    pub subscribed_trains: Set<Seq<char>>,
    pub subscribed_sections: Set<Seq<char>>,
    pub connected_at: Timestamp,
    pub last_activity: Timestamp,
}

impl View for ClientInfo {
    type V = ClientInfoView;

    open spec fn view(&self) -> ClientInfoView {
        ClientInfoView {
            client_id: self.client_id@,
            subscribed_trains: views(self.subscribed_trains@).to_set(),
            subscribed_sections: views(self.subscribed_sections@).to_set(),
            connected_at: self.connected_at,
            last_activity: self.last_activity,
        }
    }
}

impl Clone for ClientInfo {
    fn clone(&self) -> (copy: Self)
        ensures
            copy@ == self@,
    {
        ClientInfo {
            client_id: self.client_id.clone(),
            subscribed_trains: clone_texts(&self.subscribed_trains),
            subscribed_sections: clone_texts(&self.subscribed_sections),
            connected_at: self.connected_at,
            last_activity: self.last_activity,
        }
    }
}

impl ClientInfoView {
    /// An observer as it stands right after it connected: no subscription.
    pub open spec fn connected(client_id: Seq<char>, now: Timestamp) -> ClientInfoView {
        ClientInfoView {
            client_id,
            subscribed_trains: Set::empty(),
            subscribed_sections: Set::empty(),
            connected_at: now,
            last_activity: now,
        }
    }

    /// The observer after it named, at `now`, the trains it wants to follow:
    /// the new set takes the place of the old one.
    pub open spec fn following_trains(self, train_ids: Seq<Seq<char>>, now: Timestamp)
        -> ClientInfoView {
        ClientInfoView { subscribed_trains: train_ids.to_set(), last_activity: now, ..self }
    }

    /// The observer after it named, at `now`, the sections it wants to follow.
    pub open spec fn following_sections(self, section_ids: Seq<Seq<char>>, now: Timestamp)
        -> ClientInfoView {
        ClientInfoView { subscribed_sections: section_ids.to_set(), last_activity: now, ..self }
    }

    /// The observer after some activity at `now`.
    pub open spec fn active_at(self, now: Timestamp) -> ClientInfoView {
        ClientInfoView { last_activity: now, ..self }
    }

    /// Whether a message is meant for this observer: an update on a train or
    /// a section only if the observer follows it, any other message always.
    pub open spec fn wants(self, message: WsMessageView) -> bool {
        match message {
            WsMessageView::TrainUpdate { train_id, .. } => self.subscribed_trains.contains(
                train_id,
            ),
            WsMessageView::SectionUpdate { section_id, .. } => self.subscribed_sections.contains(
                section_id,
            ),
            _ => true,
        }
    }
}

impl ClientInfo {
    /// An observer that has just connected and follows nothing yet.
    pub fn connected(client_id: String, now: Timestamp) -> (client: ClientInfo)
        ensures
            client@ == ClientInfoView::connected(client_id@, now),
    {
        let client = ClientInfo {
            client_id,
            subscribed_trains: Vec::new(),
            subscribed_sections: Vec::new(),
            connected_at: now,
            last_activity: now,
        };
        assert(views(client.subscribed_trains@).to_set() =~= Set::<Seq<char>>::empty());
        assert(views(client.subscribed_sections@).to_set() =~= Set::<Seq<char>>::empty());
        client
    }

    /// Whether `message` is meant for this observer.
    pub fn wants(&self, message: &WsMessage) -> (wanted: bool)
        ensures
            wanted == self@.wants(message@),
    {
        match message {
            WsMessage::TrainUpdate { train_id, .. } => contains_text(
                &self.subscribed_trains,
                train_id.as_str(),
            ),
            WsMessage::SectionUpdate { section_id, .. } => contains_text(
                &self.subscribed_sections,
                section_id.as_str(),
            ),
            _ => true,
        }
    }

    /// Replaces the set of trains that the observer follows.
    pub fn follow_trains(&mut self, train_ids: &Vec<String>, now: Timestamp)
        ensures
            final(self)@ == old(self)@.following_trains(views(train_ids@), now),
    {
        self.subscribed_trains = distinct_texts(train_ids);
        self.last_activity = now;
    }

    /// Replaces the set of sections that the observer follows.
    pub fn follow_sections(&mut self, section_ids: &Vec<String>, now: Timestamp)
        ensures
            final(self)@ == old(self)@.following_sections(views(section_ids@), now),
    {
        self.subscribed_sections = distinct_texts(section_ids);
        self.last_activity = now;
    }
}

/// An observer under the key by which the registry knows it.
#[derive(Debug)]
pub struct Registration {
    pub key: String,
    pub info: ClientInfo,
}

/// The registry of connected observers: at most one under each key.
#[derive(Debug)]
pub struct WebSocketManager {
    clients: Vec<Registration>,
}

impl View for WebSocketManager {
    type V = Map<Seq<char>, ClientInfoView>;

    /// The observers by key.
    closed spec fn view(&self) -> Map<Seq<char>, ClientInfoView> {
        Map::new(
            |key: Seq<char>| self.keys().contains(key),
            |key: Seq<char>| self.clients@[self.keys().index_of(key)].info@,
        )
    }
}

impl WebSocketManager {
    /// The keys in the order in which the registry holds them.
    pub closed spec fn keys(&self) -> Seq<Seq<char>> {
        self.clients@.map_values(|r: Registration| r.key@)
    }

    /// The registry is well formed: no key occurs twice. Every constructor
    /// establishes this and every method keeps it.
    pub closed spec fn wf(&self) -> bool {
        self.keys().no_duplicates()
    }

    /// The observer at place `i` is the one that the registry shows under
    /// its key.
    proof fn lemma_entry(&self, i: int)
        requires
            self.keys().no_duplicates(),
            0 <= i < self.clients@.len(),
        ensures
            self@.contains_key(self.clients@[i].key@),
            self@[self.clients@[i].key@] == self.clients@[i].info@,
    {
        let key = self.clients@[i].key@;
        assert(self.keys()[i] == key);
        assert(self.keys().contains(key));
        let j = self.keys().index_of(key);
        assert(self.keys()[j] == key);
    }

    /// The registry holds as many observers as it holds keys.
    proof fn lemma_count(&self)
        requires
            self.keys().no_duplicates(),
        ensures
            self@.dom().finite(),
            self@.dom().len() == self.clients@.len(),
    {
        assert(self@.dom() =~= self.keys().to_set());
        self.keys().unique_seq_to_set();
    }

    pub fn new() -> (manager: WebSocketManager)
        ensures
            manager.wf(),
            manager@ == Map::<Seq<char>, ClientInfoView>::empty(),
    {
        let manager = WebSocketManager { clients: Vec::new() };
        assert(manager@ =~= Map::<Seq<char>, ClientInfoView>::empty());
        manager
    }

    fn find(&self, key: &str) -> (place: Option<usize>)
        ensures
            match place {
                Some(i) => i < self.clients@.len() && self.keys()[i as int] == key@,
                None => !self.keys().contains(key@),
            },
    {
        let mut i: usize = 0;
        while i < self.clients.len()
            invariant
                0 <= i <= self.clients.len(),
                forall|k: int| 0 <= k < i ==> self.keys()[k] != key@,
            decreases self.clients.len() - i,
        {
            if crate::text::is_text(&self.clients[i].key, key) {
                return Some(i);
            }
            i += 1;
        }
        None
    }

    /// Registers an observer under `client_id`. An observer that was known
    /// under that key gives way to the new one.
    pub fn add_client(&mut self, client_id: String, client_info: ClientInfo)
        requires
            old(self).wf(),
        ensures
            final(self).wf(),
            final(self)@ == old(self)@.insert(client_id@, client_info@),
    {
        let ghost before = *self;
        let ghost key = client_id@;
        let ghost info = client_info@;
        match self.find(client_id.as_str()) {
            Some(i) => {
                self.clients.set(i, Registration { key: client_id, info: client_info });
                proof {
                    assert(self.keys() =~= before.keys());
                    assert forall|k: Seq<char>| #[trigger]
                        self@.contains_key(k) == before@.insert(key, info).contains_key(k) by {}
                    assert forall|k: Seq<char>| #[trigger] self@.contains_key(k) implies self@[k]
                        == before@.insert(key, info)[k] by {
                        let j = self.keys().index_of(k);
                        assert(self.keys()[j] == k);
                        if k == key {
                            assert(j == i);
                        } else {
                            assert(j != i);
                        }
                    }
                    assert(self@ =~= before@.insert(key, info));
                }
            },
            None => {
                self.clients.push(Registration { key: client_id, info: client_info });
                proof {
                    assert(self.keys() =~= before.keys().push(key));
                    assert forall|k: Seq<char>| #[trigger]
                        self@.contains_key(k) == before@.insert(key, info).contains_key(k) by {
                        if before.keys().contains(k) {
                            let j = before.keys().index_of(k);
                            assert(self.keys()[j] == k);
                        }
                        if k == key {
                            assert(self.keys()[before.keys().len() as int] == k);
                        }
                    }
                    assert forall|k: Seq<char>| #[trigger] self@.contains_key(k) implies self@[k]
                        == before@.insert(key, info)[k] by {
                        let j = self.keys().index_of(k);
                        assert(self.keys()[j] == k);
                        if k == key {
                            assert(j == before.keys().len());
                        } else {
                            assert(before.keys()[j] == k);
                            let m = before.keys().index_of(k);
                            assert(before.keys()[m] == k);
                            assert(m == j);
                        }
                    }
                    assert(self@ =~= before@.insert(key, info));
                }
            },
        }
    }

    /// Forgets the observer under `client_id`, if there is one.
    pub fn remove_client(&mut self, client_id: &str)
        requires
            old(self).wf(),
        ensures
            final(self).wf(),
            final(self)@ == old(self)@.remove(client_id@),
    {
        let ghost before = *self;
        match self.find(client_id) {
            Some(i) => {
                self.clients.remove(i);
                proof {
                    assert(self.keys() =~= before.keys().remove(i as int));
                    assert forall|k: Seq<char>| #[trigger]
                        self@.contains_key(k) == before@.remove(client_id@).contains_key(k) by {
                        if self.keys().contains(k) {
                            let j = self.keys().index_of(k);
                            assert(self.keys()[j] == k);
                            if j < i {
                                assert(before.keys()[j] == k);
                            } else {
                                assert(before.keys()[j + 1] == k);
                            }
                        }
                        if before.keys().contains(k) && k != client_id@ {
                            let m = before.keys().index_of(k);
                            assert(before.keys()[m] == k);
                            if m < i {
                                assert(self.keys()[m] == k);
                            } else {
                                assert(self.keys()[m - 1] == k);
                            }
                        }
                    }
                    assert forall|k: Seq<char>| #[trigger] self@.contains_key(k) implies self@[k]
                        == before@.remove(client_id@)[k] by {
                        let j = self.keys().index_of(k);
                        assert(self.keys()[j] == k);
                        let m = before.keys().index_of(k);
                        assert(before.keys()[m] == k);
                        if j < i {
                            assert(before.keys()[j] == k);
                            assert(m == j);
                        } else {
                            assert(before.keys()[j + 1] == k);
                            assert(m == j + 1);
                        }
                    }
                    assert(self@ =~= before@.remove(client_id@));
                }
            },
            None => {
                assert(self@ =~= before@.remove(client_id@));
            },
        }
    }

    /// How many observers are connected.
    pub fn client_count(&self) -> (count: usize)
        requires
            self.wf(),
        ensures
            self@.dom().finite(),
            count == self@.dom().len(),
    {
        proof {
            self.lemma_count();
        }
        self.clients.len()
    }
}

/// What an observer sent, as far as it could be read.
#[derive(Debug)]
pub enum Inbound {
    /// A message of the protocol.
    Message(WsMessage),
    /// Text that is no message of the protocol.
    Malformed,
}

/// The trains that at least one observer of the registry follows.
pub open spec fn followed_trains(clients: Map<Seq<char>, ClientInfoView>) -> Set<Seq<char>> {
    Set::new(
        |train: Seq<char>|
            exists|key: Seq<char>|
                clients.contains_key(key) && (#[trigger] clients[key]).subscribed_trains.contains(
                    train,
                ),
    )
}

/// The registry after the observer under `key` was active at `now`;
/// unchanged where no observer stands under that key.
pub open spec fn with_activity(
    clients: Map<Seq<char>, ClientInfoView>,
    key: Seq<char>,
    now: Timestamp,
) -> Map<Seq<char>, ClientInfoView> {
    if clients.contains_key(key) {
        clients.insert(key, clients[key].active_at(now))
    } else {
        clients
    }
}

/// The registry after the observer under `key` named the trains it follows;
/// unchanged where no observer stands under that key.
pub open spec fn with_train_subscription(
    clients: Map<Seq<char>, ClientInfoView>,
    key: Seq<char>,
    train_ids: Seq<Seq<char>>,
    now: Timestamp,
) -> Map<Seq<char>, ClientInfoView> {
    if clients.contains_key(key) {
        clients.insert(key, clients[key].following_trains(train_ids, now))
    } else {
        clients
    }
}

/// The registry after the observer under `key` named the sections it
/// follows; unchanged where no observer stands under that key.
pub open spec fn with_section_subscription(
    clients: Map<Seq<char>, ClientInfoView>,
    key: Seq<char>,
    section_ids: Seq<Seq<char>>,
    now: Timestamp,
) -> Map<Seq<char>, ClientInfoView> {
    if clients.contains_key(key) {
        clients.insert(key, clients[key].following_sections(section_ids, now))
    } else {
        clients
    }
}

/// The registry after the observer under `key` sent `inbound` at `now`. A
/// subscription replaces the set it names; anything else changes nothing.
pub open spec fn after_inbound(
    clients: Map<Seq<char>, ClientInfoView>,
    key: Seq<char>,
    inbound: Option<WsMessageView>,
    now: Timestamp,
) -> Map<Seq<char>, ClientInfoView> {
    match inbound {
        Some(WsMessageView::Subscribe { train_ids }) => with_train_subscription(
            clients,
            key,
            train_ids,
            now,
        ),
        Some(WsMessageView::SubscribeSection { section_ids }) => with_section_subscription(
            clients,
            key,
            section_ids,
            now,
        ),
        _ => clients,
    }
}

/// What a message that came in means, if it is a message at all.
pub open spec fn inbound_view(inbound: Inbound) -> Option<WsMessageView> {
    match inbound {
        Inbound::Message(message) => Some(message@),
        Inbound::Malformed => None,
    }
}

impl WebSocketManager {
    /// A copy of the observer under `client_id`, if there is one.
    pub fn client(&self, client_id: &str) -> (found: Option<ClientInfo>)
        requires
            self.wf(),
        ensures
            match found {
                Some(info) => self@.contains_key(client_id@) && self@[client_id@] == info@,
                None => !self@.contains_key(client_id@),
            },
    {
        match self.find(client_id) {
            Some(i) => {
                proof {
                    self.lemma_entry(i as int);
                }
                Some(self.clients[i].info.clone())
            },
            None => None,
        }
    }

    /// Notes that the observer under `client_id` was active at `now`.
    pub fn activity_at(&mut self, client_id: &str, now: Timestamp)
        requires
            old(self).wf(),
        ensures
            final(self).wf(),
            final(self)@ == with_activity(old(self)@, client_id@, now),
    {
        match self.client(client_id) {
            Some(info) => {
                let mut info = info;
                info.last_activity = now;
                self.add_client(client_id.to_owned(), info);
            },
            None => {},
        }
    }

    /// Notes that the observer under `client_id` is active right now.
    pub fn update_client_activity(&mut self, client_id: &str)
        requires
            old(self).wf(),
        ensures
            final(self).wf(),
            exists|now: Timestamp| final(self)@ == #[trigger] with_activity(old(self)@, client_id@, now),
    {
        let now = current_time();
        self.activity_at(client_id, now);
    }

    /// Replaces the set of trains that the observer under `client_id` follows.
    pub fn subscribe(&mut self, client_id: &str, train_ids: &Vec<String>, now: Timestamp)
        requires
            old(self).wf(),
        ensures
            final(self).wf(),
            final(self)@ == with_train_subscription(
                old(self)@,
                client_id@,
                views(train_ids@),
                now,
            ),
    {
        match self.client(client_id) {
            Some(info) => {
                let mut info = info;
                info.follow_trains(train_ids, now);
                self.add_client(client_id.to_owned(), info);
            },
            None => {},
        }
    }

    /// Replaces the set of sections that the observer under `client_id`
    /// follows.
    pub fn subscribe_sections(&mut self, client_id: &str, section_ids: &Vec<String>, now: Timestamp)
        requires
            old(self).wf(),
        ensures
            final(self).wf(),
            final(self)@ == with_section_subscription(
                old(self)@,
                client_id@,
                views(section_ids@),
                now,
            ),
    {
        match self.client(client_id) {
            Some(info) => {
                let mut info = info;
                info.follow_sections(section_ids, now);
                self.add_client(client_id.to_owned(), info);
            },
            None => {},
        }
    }

    /// Acts on what the observer under `client_id` sent at `now`. Only the
    /// two subscription messages change anything; a malformed text or any
    /// other message is passed over and the observer stays connected.
    /// Returns whether the registry took the message as a subscription.
    pub fn handle_client_message(&mut self, client_id: &str, inbound: &Inbound, now: Timestamp) -> (taken:
        bool)
        requires
            old(self).wf(),
        ensures
            final(self).wf(),
            final(self)@ == after_inbound(old(self)@, client_id@, inbound_view(*inbound), now),
            final(self)@.dom() == old(self)@.dom(),
            taken == (inbound_view(*inbound) matches Some(m) && (m is Subscribe || m
                is SubscribeSection)),
    {
        match inbound {
            Inbound::Message(WsMessage::Subscribe { train_ids }) => {
                self.subscribe(client_id, train_ids, now);
                assert(self@.dom() =~= old(self)@.dom());
                true
            },
            Inbound::Message(WsMessage::SubscribeSection { section_ids }) => {
                self.subscribe_sections(client_id, section_ids, now);
                assert(self@.dom() =~= old(self)@.dom());
                true
            },
            _ => false,
        }
    }

    /// Every train that at least one observer follows, each once.
    pub fn get_all_subscribed_trains(&self) -> (trains: Vec<String>)
        requires
            self.wf(),
        ensures
            views(trains@).no_duplicates(),
            views(trains@).to_set() == followed_trains(self@),
    {
        let mut all: Vec<String> = Vec::new();
        let mut i: usize = 0;
        while i < self.clients.len()
            invariant
                0 <= i <= self.clients.len(),
                self.wf(),
                forall|t: Seq<char>|
                    views(all@).contains(t) <==> exists|k: int|
                        0 <= k < i && (#[trigger] self.clients@[k]).info@.subscribed_trains.contains(
                            t,
                        ),
            decreases self.clients.len() - i,
        {
            let subs = &self.clients[i].info.subscribed_trains;
            let ghost start = views(all@);
            let mut j: usize = 0;
            while j < subs.len()
                invariant
                    0 <= j <= subs.len(),
                    i < self.clients.len(),
                    subs == &self.clients@[i as int].info.subscribed_trains,
                    views(all@) == start + views(subs@).take(j as int),
                decreases subs.len() - j,
            {
                let ghost listed = views(all@);
                all.push(subs[j].clone());
                assert(views(all@) =~= listed.push(subs@[j as int]@));
                assert(views(subs@).take(j as int + 1) =~= views(subs@).take(j as int).push(
                    subs@[j as int]@,
                ));
                j += 1;
            }
            proof {
                assert(views(subs@).take(subs.len() as int) =~= views(subs@));
                let added = views(subs@);
                assert forall|t: Seq<char>| views(all@).contains(t) <==> exists|k: int|
                    0 <= k < i + 1 && (#[trigger] self.clients@[k]).info@.subscribed_trains.contains(
                        t,
                    ) by {
                    assert(start.contains(t) <==> exists|k: int|
                        0 <= k < i && (#[trigger] self.clients@[k]).info@.subscribed_trains.contains(
                            t,
                        ));
                    if views(all@).contains(t) {
                        let m = choose|m: int| 0 <= m < views(all@).len() && views(all@)[m] == t;
                        if m < start.len() {
                            assert(start[m] == t);
                            assert(start.contains(t));
                        } else {
                            assert(added[m - start.len()] == t);
                            assert(added.contains(t));
                            assert(self.clients@[i as int].info@.subscribed_trains.contains(t));
                        }
                    }
                    if exists|k: int|
                        0 <= k < i + 1 && (#[trigger] self.clients@[k]).info@.subscribed_trains.contains(
                            t,
                        ) {
                        let k = choose|k: int|
                            0 <= k < i + 1 && (
                            #[trigger] self.clients@[k]).info@.subscribed_trains.contains(t);
                        if k < i {
                            assert(start.contains(t));
                            let m = choose|m: int| 0 <= m < start.len() && start[m] == t;
                            assert(views(all@)[m] == t);
                        } else {
                            assert(added.contains(t));
                            let m = choose|m: int| 0 <= m < added.len() && added[m] == t;
                            assert(views(all@)[start.len() + m] == t);
                        }
                    }
                }
            }
            i += 1;
        }
        let trains = distinct_texts(&all);
        proof {
            assert forall|t: Seq<char>| views(trains@).to_set().contains(t) <==> followed_trains(
                self@,
            ).contains(t) by {
                assert(views(trains@).to_set().contains(t) <==> views(all@).to_set().contains(t));
                assert(views(all@).to_set().contains(t) <==> views(all@).contains(t));
                if views(all@).contains(t) {
                    let k = choose|k: int|
                        0 <= k < self.clients@.len() && (
                        #[trigger] self.clients@[k]).info@.subscribed_trains.contains(t);
                    self.lemma_entry(k);
                    assert(self@[self.clients@[k].key@].subscribed_trains.contains(t));
                }
                if followed_trains(self@).contains(t) {
                    let key = choose|key: Seq<char>|
                        self@.contains_key(key) && (#[trigger] self@[key]).subscribed_trains.contains(
                            t,
                        );
                    let k = self.keys().index_of(key);
                    assert(self.keys()[k] == key);
                    assert(self.clients@[k].info@.subscribed_trains.contains(t));
                }
            }
            assert(views(trains@).to_set() =~= followed_trains(self@));
        }
        trains
    }

    /// The keys of the observers that `message` is meant for, each once and
    /// in the order in which the observers connected.
    pub fn recipients(&self, message: &WsMessage) -> (keys: Vec<String>)
        requires
            self.wf(),
        ensures
            views(keys@).no_duplicates(),
            forall|key: Seq<char>|
                views(keys@).contains(key) <==> self@.contains_key(key) && (
                #[trigger] self@[key]).wants(message@),
    {
        let mut keys: Vec<String> = Vec::new();
        let mut i: usize = 0;
        while i < self.clients.len()
            invariant
                0 <= i <= self.clients.len(),
                self.wf(),
                views(keys@).no_duplicates(),
                forall|key: Seq<char>|
                    views(keys@).contains(key) <==> exists|k: int|
                        0 <= k < i && #[trigger] self.keys()[k] == key
                            && self.clients@[k].info@.wants(message@),
            decreases self.clients.len() - i,
        {
            let ghost listed = views(keys@);
            if self.clients[i].info.wants(message) {
                keys.push(self.clients[i].key.clone());
                proof {
                    let key_i = self.keys()[i as int];
                    assert(views(keys@) =~= listed.push(key_i));
                    assert(!listed.contains(key_i)) by {
                        if listed.contains(key_i) {
                            let k = choose|k: int|
                                0 <= k < i && #[trigger] self.keys()[k] == key_i
                                    && self.clients@[k].info@.wants(message@);
                            assert(self.keys()[k] == self.keys()[i as int]);
                        }
                    }
                    assert forall|key: Seq<char>| views(keys@).contains(key) <==> exists|k: int|
                        0 <= k < i + 1 && #[trigger] self.keys()[k] == key
                            && self.clients@[k].info@.wants(message@) by {
                        assert(listed.contains(key) <==> exists|k: int|
                            0 <= k < i && #[trigger] self.keys()[k] == key
                                && self.clients@[k].info@.wants(message@));
                        if views(keys@).contains(key) {
                            let m = choose|m: int|
                                0 <= m < views(keys@).len() && views(keys@)[m] == key;
                            if m < listed.len() {
                                assert(listed[m] == key);
                                assert(listed.contains(key));
                            } else {
                                assert(self.keys()[i as int] == key);
                            }
                        }
                        if exists|k: int|
                            0 <= k < i + 1 && #[trigger] self.keys()[k] == key
                                && self.clients@[k].info@.wants(message@) {
                            let k = choose|k: int|
                                0 <= k < i + 1 && #[trigger] self.keys()[k] == key
                                    && self.clients@[k].info@.wants(message@);
                            if k < i {
                                assert(listed.contains(key));
                                let m = choose|m: int| 0 <= m < listed.len() && listed[m] == key;
                                assert(views(keys@)[m] == key);
                            } else {
                                assert(views(keys@)[listed.len() as int] == key);
                            }
                        }
                    }
                }
            } else {
                proof {
                    assert forall|key: Seq<char>| views(keys@).contains(key) <==> exists|k: int|
                        0 <= k < i + 1 && #[trigger] self.keys()[k] == key
                            && self.clients@[k].info@.wants(message@) by {
                        assert(listed.contains(key) <==> exists|k: int|
                            0 <= k < i && #[trigger] self.keys()[k] == key
                                && self.clients@[k].info@.wants(message@));
                    }
                }
            }
            i += 1;
        }
        proof {
            assert forall|key: Seq<char>| views(keys@).contains(key) <==> self@.contains_key(key)
                && (#[trigger] self@[key]).wants(message@) by {
                if views(keys@).contains(key) {
                    let k = choose|k: int|
                        0 <= k < self.clients@.len() && #[trigger] self.keys()[k] == key
                            && self.clients@[k].info@.wants(message@);
                    self.lemma_entry(k);
                }
                if self@.contains_key(key) && self@[key].wants(message@) {
                    let k = self.keys().index_of(key);
                    assert(self.keys()[k] == key);
                    self.lemma_entry(k);
                }
            }
        }
        keys
    }
}

/// An observer that subscribed to a list of trains is sent the update of a
/// train exactly when that train is in the list.
pub proof fn lemma_subscription_filters_updates(
    client: ClientInfoView,
    train_ids: Seq<Seq<char>>,
    now: Timestamp,
    update: WsMessageView,
)
    requires
        update is TrainUpdate,
    ensures
        client.following_trains(train_ids, now).wants(update) <==> train_ids.contains(
            update->TrainUpdate_train_id,
        ),
{
}

/// A second subscription takes the place of the first: afterwards the
/// observer follows the trains of the second list and no others.
pub proof fn lemma_subscription_replaces(
    client: ClientInfoView,
    first: Seq<Seq<char>>,
    second: Seq<Seq<char>>,
    earlier: Timestamp,
    later: Timestamp,
)
    ensures
        client.following_trains(first, earlier).following_trains(second, later)
            == client.following_trains(second, later),
        forall|train: Seq<char>|
            client.following_trains(first, earlier).following_trains(
                second,
                later,
            ).subscribed_trains.contains(train) <==> second.contains(train),
{
}

/// The same of the registry: two subscriptions in a row leave it as the
/// second alone would.
pub proof fn lemma_registry_subscription_replaces(
    clients: Map<Seq<char>, ClientInfoView>,
    key: Seq<char>,
    first: Seq<Seq<char>>,
    second: Seq<Seq<char>>,
    earlier: Timestamp,
    later: Timestamp,
)
    ensures
        after_inbound(
            after_inbound(
                clients,
                key,
                Some(WsMessageView::Subscribe { train_ids: first }),
                earlier,
            ),
            key,
            Some(WsMessageView::Subscribe { train_ids: second }),
            later,
        ) == after_inbound(
            clients,
            key,
            Some(WsMessageView::Subscribe { train_ids: second }),
            later,
        ),
{
    let once = after_inbound(
        clients,
        key,
        Some(WsMessageView::Subscribe { train_ids: first }),
        earlier,
    );
    let twice = after_inbound(
        once,
        key,
        Some(WsMessageView::Subscribe { train_ids: second }),
        later,
    );
    let direct = after_inbound(
        clients,
        key,
        Some(WsMessageView::Subscribe { train_ids: second }),
        later,
    );
    assert(twice =~= direct);
}

/// The update that tells observers where a train stands at `now`.
pub open spec fn train_update_view(train: TrainView, now: Timestamp) -> WsMessageView {
    WsMessageView::TrainUpdate {
        train_id: train.id,
        position: train.position,
        speed_kmh: train.speed_kmh,
        delay_minutes: train.delay_minutes,
        status: train.status,
        timestamp: now,
    }
}

/// The system alert that carries a train alert to observers.
pub open spec fn train_alert_view(alert: TrainAlertView) -> WsMessageView {
    WsMessageView::SystemAlert {
        alert_type: alert.alert_type.spec_name(),
        message: alert.message,
        severity: alert.severity.spec_name(),
        timestamp: alert.created_at,
    }
}

/// The system alert that tells observers of a conflict.
pub open spec fn conflict_alert_view(conflict: TrainConflictView) -> WsMessageView {
    WsMessageView::SystemAlert {
        alert_type: "ConflictDetected"@,
        message: "Conflict detected in section "@ + conflict.section_id + " between trains"@,
        severity: conflict.severity.spec_name(),
        timestamp: conflict.detected_at,
    }
}

/// The updates of one tick: one for each train that could be fetched, in the
/// order in which the trains were asked for.
pub open spec fn train_updates_view(fetched: Seq<Option<Train>>, now: Timestamp) -> Seq<
    WsMessageView,
>
    decreases fetched.len(),
{
    if fetched.len() == 0 {
        Seq::empty()
    } else {
        let earlier = train_updates_view(fetched.drop_last(), now);
        match fetched.last() {
            Some(train) => earlier.push(train_update_view(train@, now)),
            None => earlier,
        }
    }
}

/// Everything that one tick pushes: the train updates, then one system
/// alert for each train alert, then one for each conflict.
pub open spec fn tick_messages_view(
    fetched: Seq<Option<Train>>,
    alerts: Seq<TrainAlertView>,
    conflicts: Seq<TrainConflictView>,
    now: Timestamp,
) -> Seq<WsMessageView> {
    train_updates_view(fetched, now) + alerts.map_values(|a: TrainAlertView| train_alert_view(a))
        + conflicts.map_values(|c: TrainConflictView| conflict_alert_view(c))
}

/// How a monitoring tick starts.
#[derive(Debug)]
pub enum TickPlan {
    /// No observer follows any train: the tick does nothing.
    Idle,
    /// These trains are to be fetched and reported.
    Fetch { train_ids: Vec<String> },
}

/// What happened on the socket of one observer.
#[derive(Debug)]
pub enum SocketEvent {
    /// The observer sent text.
    Text(Inbound),
    /// The observer asked to close.
    CloseRequested,
    /// Reading from the socket failed.
    ReadFailed,
    /// Writing to the socket failed.
    WriteFailed,
    /// Any other frame.
    Other,
}

/// What to do with the socket after an event.
#[derive(Clone, Copy, Debug, PartialEq, Eq, Structural)]
pub enum SocketAction {
    KeepOpen,
    Disconnect,
}

/// The registry after an event on the socket of the observer under `key`.
pub open spec fn after_socket_event(
    clients: Map<Seq<char>, ClientInfoView>,
    key: Seq<char>,
    event: SocketEvent,
    now: Timestamp,
) -> Map<Seq<char>, ClientInfoView> {
    match event {
        SocketEvent::Text(inbound) => after_inbound(clients, key, inbound_view(inbound), now),
        SocketEvent::Other => clients,
        _ => clients.remove(key),
    }
}

/// Whether an event ends the connection.
pub open spec fn ends_connection(event: SocketEvent) -> bool {
    event is CloseRequested || event is ReadFailed || event is WriteFailed
}

impl WebSocketManager {
    /// Registers a new observer under `client_id` and gives the message
    /// that confirms the connection.
    pub fn connect_as(&mut self, client_id: String, now: Timestamp) -> (confirmation: WsMessage)
        requires
            old(self).wf(),
        ensures
            final(self).wf(),
            final(self)@ == old(self)@.insert(
                client_id@,
                ClientInfoView::connected(client_id@, now),
            ),
            confirmation@ == (WsMessageView::Connected { client_id: client_id@, timestamp: now }),
    {
        let info = ClientInfo::connected(client_id.clone(), now);
        let confirmation = WsMessage::Connected { client_id: client_id.clone(), timestamp: now };
        self.add_client(client_id, info);
        confirmation
    }

    /// Registers a new observer under a fresh key at the current instant.
    /// Returns the key and the message that confirms the connection.
    pub fn connect(&mut self) -> (opened: (String, WsMessage))
        requires
            old(self).wf(),
        ensures
            final(self).wf(),
            opened.0@.len() == 36,
            opened.1@ matches WsMessageView::Connected { client_id, timestamp } && client_id
                == opened.0@ && final(self)@ == old(self)@.insert(
                opened.0@,
                ClientInfoView::connected(opened.0@, timestamp),
            ),
    {
        let now = current_time();
        let client_id = new_identifier();
        let confirmation = self.connect_as(client_id.clone(), now);
        (client_id, confirmation)
    }

    /// Forgets the observer under `client_id`.
    pub fn disconnect(&mut self, client_id: &str)
        requires
            old(self).wf(),
        ensures
            final(self).wf(),
            final(self)@ == old(self)@.remove(client_id@),
    {
        self.remove_client(client_id);
    }

    /// Acts on an event on the socket of the observer under `client_id`:
    /// text is handled as a message and never closes the connection, a close
    /// request or a failure removes the observer and ends it.
    pub fn on_socket_event(&mut self, client_id: &str, event: &SocketEvent, now: Timestamp) -> (action:
        SocketAction)
        requires
            old(self).wf(),
        ensures
            final(self).wf(),
            final(self)@ == after_socket_event(old(self)@, client_id@, *event, now),
            action == if ends_connection(*event) {
                SocketAction::Disconnect
            } else {
                SocketAction::KeepOpen
            },
    {
        match event {
            SocketEvent::Text(inbound) => {
                self.handle_client_message(client_id, inbound, now);
                SocketAction::KeepOpen
            },
            SocketEvent::Other => SocketAction::KeepOpen,
            _ => {
                self.remove_client(client_id);
                SocketAction::Disconnect
            },
        }
    }

    /// The keys of all connected observers, each once: the targets of a
    /// message that goes to everyone.
    pub fn broadcast(&self, message: &WsMessage) -> (keys: Vec<String>)
        requires
            self.wf(),
        ensures
            views(keys@) == self.keys(),
            views(keys@).no_duplicates(),
            forall|key: Seq<char>| views(keys@).contains(key) <==> self@.contains_key(key),
    {
        let mut keys: Vec<String> = Vec::new();
        let mut i: usize = 0;
        while i < self.clients.len()
            invariant
                0 <= i <= self.clients.len(),
                views(keys@) == self.keys().take(i as int),
            decreases self.clients.len() - i,
        {
            let ghost listed = views(keys@);
            keys.push(self.clients[i].key.clone());
            assert(views(keys@) =~= listed.push(self.keys()[i as int]));
            assert(self.keys().take(i as int + 1) =~= listed.push(self.keys()[i as int]));
            i += 1;
        }
        assert(self.keys().take(self.clients.len() as int) =~= self.keys());
        keys
    }

    /// The update that reports `train` at `now`.
    pub fn train_update(train: &Train, now: Timestamp) -> (message: WsMessage)
        ensures
            message@ == train_update_view(train@, now),
    {
        WsMessage::TrainUpdate {
            train_id: train.id.clone(),
            position: train.position,
            speed_kmh: train.speed_kmh,
            delay_minutes: train.delay_minutes,
            status: train.status,
            timestamp: now,
        }
    }

    /// The update that reports `train` at the current instant.
    pub fn send_train_update(&self, train: &Train) -> (message: WsMessage)
        ensures
            exists|now: Timestamp| message@ == #[trigger] train_update_view(train@, now),
    {
        let now = current_time();
        let message = WebSocketManager::train_update(train, now);
        assert(message@ == train_update_view(train@, now));
        message
    }

    /// The alert that tells observers of a disruption, stamped `now`.
    pub fn disruption_alert(disruption: &DisruptionEvent, now: Timestamp) -> (message: WsMessage)
        ensures
            message@ == (WsMessageView::DisruptionAlert {
                disruption_id: disruption.id@,
                disruption_type: disruption.disruption_type,
                affected_sections: views(disruption.affected_sections@),
                impact_level: disruption.impact_level,
                description: disruption.description@,
                timestamp: now,
            }),
    {
        WsMessage::DisruptionAlert {
            disruption_id: disruption.id.clone(),
            disruption_type: disruption.disruption_type,
            affected_sections: clone_texts(&disruption.affected_sections),
            impact_level: disruption.impact_level,
            description: disruption.description.clone(),
            timestamp: now,
        }
    }

    /// The alert that tells observers of a disruption, stamped with the
    /// current instant.
    pub fn send_disruption_alert(&self, disruption: &DisruptionEvent) -> (message: WsMessage)
        ensures
            message@ matches WsMessageView::DisruptionAlert {
                disruption_id,
                disruption_type,
                affected_sections,
                impact_level,
                description,
                ..
            } && disruption_id == disruption.id@ && disruption_type == disruption.disruption_type
                && affected_sections == views(disruption.affected_sections@) && impact_level
                == disruption.impact_level && description == disruption.description@,
    {
        let now = current_time();
        WebSocketManager::disruption_alert(disruption, now)
    }

    /// The system alert that carries a train alert, stamped as the alert is.
    pub fn send_train_alert(&self, alert: &TrainAlert) -> (message: WsMessage)
        ensures
            message@ == train_alert_view(alert@),
    {
        WsMessage::SystemAlert {
            alert_type: alert.alert_type.name(),
            message: alert.message.clone(),
            severity: alert.severity.name(),
            timestamp: alert.created_at,
        }
    }

    /// The system alert that tells observers of a conflict, stamped with the
    /// instant of detection.
    pub fn conflict_alert(conflict: &TrainConflict) -> (message: WsMessage)
        ensures
            message@ == conflict_alert_view(conflict@),
    {
        let mut text = "Conflict detected in section ".to_owned();
        text.append(conflict.section_id.as_str());
        text.append(" between trains");
        WsMessage::SystemAlert {
            alert_type: "ConflictDetected".to_owned(),
            message: text,
            severity: conflict.severity.name(),
            timestamp: conflict.detected_at,
        }
    }

    /// The update on a section, stamped `now`.
    pub fn section_update(section_id: &str, occupancy: u32, conflicts: Vec<String>, now: Timestamp) -> (message:
        WsMessage)
        ensures
            message@ == (WsMessageView::SectionUpdate {
                section_id: section_id@,
                occupancy,
                conflicts: views(conflicts@),
                timestamp: now,
            }),
    {
        WsMessage::SectionUpdate {
            section_id: section_id.to_owned(),
            occupancy,
            conflicts,
            timestamp: now,
        }
    }

    /// The update on a section, stamped with the current instant.
    pub fn send_section_update(&self, section_id: &str, occupancy: u32, conflicts: Vec<String>) -> (message:
        WsMessage)
        ensures
            message@ matches WsMessageView::SectionUpdate {
                section_id: section,
                occupancy: count,
                conflicts: listed,
                ..
            } && section == section_id@ && count == occupancy && listed == views(conflicts@),
    {
        let now = current_time();
        WebSocketManager::section_update(section_id, occupancy, conflicts, now)
    }

    /// How the next monitoring tick starts: idle while no observer follows
    /// any train, else with the trains to fetch.
    pub fn begin_tick(&self) -> (plan: TickPlan)
        requires
            self.wf(),
        ensures
            match plan {
                TickPlan::Idle => followed_trains(self@) =~= Set::<Seq<char>>::empty(),
                TickPlan::Fetch { train_ids } => train_ids@.len() > 0 && views(
                    train_ids@,
                ).no_duplicates() && views(train_ids@).to_set() == followed_trains(self@),
            },
    {
        let train_ids = self.get_all_subscribed_trains();
        if train_ids.len() == 0 {
            assert(views(train_ids@).to_set() =~= Set::<Seq<char>>::empty());
            TickPlan::Idle
        } else {
            TickPlan::Fetch { train_ids }
        }
    }

    /// Everything that one tick pushes, in order: an update for each train
    /// that could be fetched, a system alert for each train alert, a system
    /// alert for each conflict. A train that could not be fetched is passed
    /// over and the rest of the tick goes on.
    pub fn tick_messages(
        fetched: &Vec<Option<Train>>,
        alerts: &Vec<TrainAlert>,
        conflicts: &Vec<TrainConflict>,
        now: Timestamp,
    ) -> (messages: Vec<WsMessage>)
        ensures
            views(messages@) == tick_messages_view(
                fetched@,
                views(alerts@),
                views(conflicts@),
                now,
            ),
    {
        let mut messages: Vec<WsMessage> = Vec::new();
        let mut i: usize = 0;
        assert(fetched@.take(0) =~= Seq::<Option<Train>>::empty());
        assert(views(messages@) =~= Seq::<WsMessageView>::empty());
        while i < fetched.len()
            invariant
                0 <= i <= fetched.len(),
                views(messages@) == train_updates_view(fetched@.take(i as int), now),
            decreases fetched.len() - i,
        {
            let ghost listed = views(messages@);
            assert(fetched@.take(i as int + 1).drop_last() =~= fetched@.take(i as int));
            match &fetched[i] {
                Some(train) => {
                    let message = WebSocketManager::train_update(train, now);
                    messages.push(message);
                    assert(views(messages@) =~= listed.push(train_update_view(train@, now)));
                },
                None => {},
            }
            i += 1;
        }
        assert(fetched@.take(fetched.len() as int) =~= fetched@);
        let ghost updates = views(messages@);
        let ghost alert_views = views(alerts@).map_values(|a: TrainAlertView| train_alert_view(a));
        let mut j: usize = 0;
        while j < alerts.len()
            invariant
                0 <= j <= alerts.len(),
                alert_views == views(alerts@).map_values(|a: TrainAlertView| train_alert_view(a)),
                views(messages@) == updates + alert_views.take(j as int),
            decreases alerts.len() - j,
        {
            let ghost listed = views(messages@);
            let message = WsMessage::SystemAlert {
                alert_type: alerts[j].alert_type.name(),
                message: alerts[j].message.clone(),
                severity: alerts[j].severity.name(),
                timestamp: alerts[j].created_at,
            };
            messages.push(message);
            assert(message@ == alert_views[j as int]);
            assert(views(messages@) =~= listed.push(message@));
            assert(alert_views.take(j as int + 1) =~= alert_views.take(j as int).push(
                alert_views[j as int],
            ));
            j += 1;
        }
        assert(alert_views.take(alerts.len() as int) =~= alert_views);
        let ghost with_alerts = views(messages@);
        let ghost conflict_views = views(conflicts@).map_values(
            |c: TrainConflictView| conflict_alert_view(c),
        );
        let mut k: usize = 0;
        while k < conflicts.len()
            invariant
                0 <= k <= conflicts.len(),
                conflict_views == views(conflicts@).map_values(
                    |c: TrainConflictView| conflict_alert_view(c),
                ),
                views(messages@) == with_alerts + conflict_views.take(k as int),
            decreases conflicts.len() - k,
        {
            let ghost listed = views(messages@);
            let message = WebSocketManager::conflict_alert(&conflicts[k]);
            messages.push(message);
            assert(message@ == conflict_views[k as int]);
            assert(views(messages@) =~= listed.push(message@));
            assert(conflict_views.take(k as int + 1) =~= conflict_views.take(k as int).push(
                conflict_views[k as int],
            ));
            k += 1;
        }
        assert(conflict_views.take(conflicts.len() as int) =~= conflict_views);
        messages
    }
}

/// Text never ends a connection, whatever it holds: after it the same
/// observers are connected as before.
pub proof fn lemma_text_keeps_connection(
    clients: Map<Seq<char>, ClientInfoView>,
    key: Seq<char>,
    inbound: Inbound,
    now: Timestamp,
)
    ensures
        !ends_connection(SocketEvent::Text(inbound)),
        after_socket_event(clients, key, SocketEvent::Text(inbound), now).dom() == clients.dom(),
{
    assert(after_socket_event(clients, key, SocketEvent::Text(inbound), now).dom()
        =~= clients.dom());
}

/// A tick pushes one message for each train fetched, each alert and each
/// conflict, and none besides.
pub proof fn lemma_tick_message_count(
    fetched: Seq<Option<Train>>,
    alerts: Seq<TrainAlertView>,
    conflicts: Seq<TrainConflictView>,
    now: Timestamp,
)
    ensures
        tick_messages_view(fetched, alerts, conflicts, now).len() == train_updates_view(
            fetched,
            now,
        ).len() + alerts.len() + conflicts.len(),
        train_updates_view(fetched, now).len() <= fetched.len(),
    decreases fetched.len(),
{
    if fetched.len() > 0 {
        lemma_tick_message_count(fetched.drop_last(), alerts, conflicts, now);
    }
}

} // verus!
