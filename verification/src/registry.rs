//! The session registry: one session for each identifier that was ever
//! named, made at the first mention and kept for good.

use vstd::prelude::*;
use crate::dnp3_service::{Dnp3Service, ServiceView};
use crate::text::{chars_equal, chars_of};

verus! {

/// The sessions of a process, by identifier.
#[derive(Debug)]
pub struct SessionRegistry {
    ids: Vec<String>,
    services: Vec<Dnp3Service>,
}

/// Whether no identifier stands twice in `ids`.
pub open spec fn distinct(ids: Seq<Seq<char>>) -> bool {
    forall|i: int, j: int| 0 <= i < j < ids.len() ==> #[trigger] ids[i] != #[trigger] ids[j]
}

/// The mapping that identifiers and sessions at the same places make.
pub open spec fn as_map(ids: Seq<Seq<char>>, sessions: Seq<ServiceView>) -> Map<
    Seq<char>,
    ServiceView,
> {
    Map::new(|id: Seq<char>| ids.contains(id), |id: Seq<char>| sessions[ids.index_of(id)])
}

/// Among distinct identifiers, each is found at its own place.
pub proof fn lemma_index_of_distinct(ids: Seq<Seq<char>>, at: int)
    requires
        distinct(ids),
        0 <= at < ids.len(),
    ensures
        ids.contains(ids[at]),
        ids.index_of(ids[at]) == at,
{
    let found = ids.index_of(ids[at]);
    assert(0 <= found < ids.len() && ids[found] == ids[at]);
}

/// Naming a new session adds one entry to the mapping and changes no other.
pub proof fn lemma_push_inserts(
    ids: Seq<Seq<char>>,
    sessions: Seq<ServiceView>,
    id: Seq<char>,
    session: ServiceView,
)
    requires
        distinct(ids),
        ids.len() == sessions.len(),
        !ids.contains(id),
    ensures
        distinct(ids.push(id)),
        as_map(ids.push(id), sessions.push(session)) == as_map(ids, sessions).insert(id, session),
{
    let more_ids = ids.push(id);
    let more = sessions.push(session);
    assert forall|i: int, j: int| 0 <= i < j < more_ids.len() implies #[trigger] more_ids[i]
        != #[trigger] more_ids[j] by {
        if j == ids.len() {
            assert(ids.contains(ids[i]));
        }
    }
    assert forall|x: Seq<char>| more_ids.contains(x) <==> ids.contains(x) || x == id by {
        if ids.contains(x) {
            let i = ids.index_of(x);
            assert(more_ids[i] == x);
        }
        if x == id {
            assert(more_ids[ids.len() as int] == x);
        }
        if more_ids.contains(x) {
            let i = more_ids.index_of(x);
            if i < ids.len() {
                assert(ids[i] == x);
            }
        }
    }
    assert forall|x: Seq<char>| more_ids.contains(x) implies #[trigger] as_map(more_ids, more)[x]
        == as_map(ids, sessions).insert(id, session)[x] by {
        let i = more_ids.index_of(x);
        lemma_index_of_distinct(more_ids, i);
        if x != id {
            let k = ids.index_of(x);
            assert(more_ids[k] == x);
            lemma_index_of_distinct(more_ids, k);
        } else {
            lemma_index_of_distinct(more_ids, ids.len() as int);
        }
    }
    assert(as_map(more_ids, more) =~= as_map(ids, sessions).insert(id, session));
}

/// Working on one session changes its entry of the mapping and no other.
pub proof fn lemma_update_inserts(
    ids: Seq<Seq<char>>,
    sessions: Seq<ServiceView>,
    at: int,
    session: ServiceView,
)
    requires
        distinct(ids),
        ids.len() == sessions.len(),
        0 <= at < ids.len(),
    ensures
        as_map(ids, sessions.update(at, session)) == as_map(ids, sessions).insert(ids[at], session),
{
    lemma_index_of_distinct(ids, at);
    assert forall|x: Seq<char>| ids.contains(x) implies #[trigger] as_map(
        ids,
        sessions.update(at, session),
    )[x] == as_map(ids, sessions).insert(ids[at], session)[x] by {
        let k = ids.index_of(x);
        lemma_index_of_distinct(ids, k);
    }
    assert(as_map(ids, sessions.update(at, session)) =~= as_map(ids, sessions).insert(
        ids[at],
        session,
    ));
}

impl View for SessionRegistry {
    type V = Map<Seq<char>, ServiceView>;

    /// The registry as a mapping from identifier to session.
    open spec fn view(&self) -> Map<Seq<char>, ServiceView> {
        as_map(self.ids(), self.sessions())
    }
}

impl SessionRegistry {
    /// The identifiers, in the order in which they were first named.
    pub closed spec fn ids(&self) -> Seq<Seq<char>> {
        self.ids@.map_values(|id: String| id@)
    }

    /// The sessions, each at the place of its identifier.
    pub closed spec fn sessions(&self) -> Seq<ServiceView> {
        self.services@.map_values(|service: Dnp3Service| service@)
    }

    /// Every identifier has one session, and no identifier stands twice.
    pub open spec fn wf(&self) -> bool {
        self.ids().len() == self.sessions().len() && distinct(self.ids())
    }

    /// A registry without sessions.
    pub fn new() -> (registry: Self)
        ensures
            registry.wf(),
            registry.ids() == Seq::<Seq<char>>::empty(),
            registry.sessions() == Seq::<ServiceView>::empty(),
            registry@ == Map::<Seq<char>, ServiceView>::empty(),
    {
        let registry = SessionRegistry { ids: Vec::new(), services: Vec::new() };
        assert(registry.ids() =~= Seq::<Seq<char>>::empty());
        assert(registry.sessions() =~= Seq::<ServiceView>::empty());
        assert(registry@ =~= Map::<Seq<char>, ServiceView>::empty());
        registry
    }

    /// Number of sessions.
    pub fn len(&self) -> (n: usize)
        requires
            self.wf(),
        ensures
            n == self.ids().len(),
    {
        self.ids.len()
    }

    /// The place of the session with this identifier. A session that does not
    /// exist yet is made, fresh, behind the others; no other session changes.
    pub fn get_service(&mut self, session_id: &str) -> (slot: usize)
        requires
            old(self).wf(),
        ensures
            final(self).wf(),
            slot < final(self).ids().len(),
            final(self).ids()[slot as int] == session_id@,
            old(self).ids().contains(session_id@) ==> final(self).ids() == old(self).ids()
                && final(self).sessions() == old(self).sessions(),
            !old(self).ids().contains(session_id@) ==> final(self).ids() == old(self).ids().push(
                session_id@,
            ) && final(self).sessions() == old(self).sessions().push(ServiceView::fresh()),
            final(self)@ == if old(self)@.contains_key(session_id@) {
                old(self)@
            } else {
                old(self)@.insert(session_id@, ServiceView::fresh())
            },
            final(self)@.contains_key(session_id@),
    {
        let wanted = chars_of(session_id);
        let n = self.ids.len();
        let mut i: usize = 0;
        while i < n
            invariant
                i <= n,
                n == self.ids.len(),
                *self == *old(self),
                self.wf(),
                wanted@ == session_id@,
                forall|k: int| 0 <= k < i ==> (#[trigger] self.ids()[k]) != session_id@,
            decreases n - i,
        {
            let held = chars_of(self.ids[i].as_str());
            if chars_equal(&held, &wanted) {
                proof {
                    assert(self.ids()[i as int] == session_id@);
                    lemma_index_of_distinct(self.ids(), i as int);
                }
                return i;
            }
            i += 1;
        }
        assert(!self.ids().contains(session_id@));
        self.ids.push(session_id.to_owned());
        self.services.push(Dnp3Service::new());
        assert(self.ids() =~= old(self).ids().push(session_id@));
        assert(self.sessions() =~= old(self).sessions().push(ServiceView::fresh()));
        proof {
            lemma_push_inserts(
                old(self).ids(),
                old(self).sessions(),
                session_id@,
                ServiceView::fresh(),
            );
            lemma_index_of_distinct(self.ids(), n as int);
        }
        n
    }

    /// The identifier at `slot`.
    pub fn id_at(&self, slot: usize) -> (id: &str)
        requires
            self.wf(),
            slot < self.ids().len(),
        ensures
            id@ == self.ids()[slot as int],
    {
        self.ids[slot].as_str()
    }

    /// The session at `slot`.
    pub fn service(&self, slot: usize) -> (service: &Dnp3Service)
        requires
            self.wf(),
            slot < self.ids().len(),
        ensures
            service@ == self.sessions()[slot as int],
            self@.contains_key(self.ids()[slot as int]),
            service@ == self@[self.ids()[slot as int]],
    {
        proof {
            lemma_index_of_distinct(self.ids(), slot as int);
        }
        &self.services[slot]
    }

    /// The session at `slot`, to work on. Whatever is done to it, every other
    /// session and every identifier stay as they are.
    pub fn service_mut(&mut self, slot: usize) -> (service: &mut Dnp3Service)
        requires
            old(self).wf(),
            slot < old(self).ids().len(),
        ensures
            service@ == old(self).sessions()[slot as int],
            final(self).ids() == old(self).ids(),
            final(self).sessions() == old(self).sessions().update(slot as int, final(service)@),
            final(self).wf(),
            final(self)@ == old(self)@.insert(old(self).ids()[slot as int], final(service)@),
    {
        proof {
            let ids = self.ids();
            let sessions = self.sessions();
            assert forall|session: ServiceView|
                #[trigger] as_map(ids, sessions.update(slot as int, session)) == as_map(
                    ids,
                    sessions,
                ).insert(ids[slot as int], session) by {
                lemma_update_inserts(ids, sessions, slot as int, session);
            }
        }
        &mut self.services[slot]
    }
}

} // verus!
