use vstd::prelude::*;

use super::ControlPlaneRepo;
use crate::error::{control_plane_exists_message, is_already_exists, DbError, DbResult};
use crate::model::control_plane::{ControlPlane, ControlPlaneView};

verus! {

/// The unit of work of the in-memory repositories; it carries nothing.
pub struct MemoryTransaction;

/// Control planes held in memory, at most one per id.
pub struct MemoryControlPlaneRepo {
    entries: Vec<ControlPlane>,
}

/// No two control planes of `s` share an id.
pub open spec fn ids_unique(s: Seq<ControlPlane>) -> bool {
    forall|i: int, j: int| 0 <= i < j < s.len() ==> #[trigger] s[i].id@ != #[trigger] s[j].id@
}

/// The control planes of `s`, each under its id; a later one wins over an earlier one.
pub open spec fn entries_map(s: Seq<ControlPlane>) -> Map<Seq<char>, ControlPlaneView>
    decreases s.len(),
{
    if s.len() == 0 {
        Map::empty()
    } else {
        entries_map(s.drop_last()).insert(s.last().id@, s.last()@)
    }
}

/// The control plane that `store` holds under `id`, if any.
pub open spec fn lookup(store: Map<Seq<char>, ControlPlaneView>, id: Seq<char>) -> Option<
    ControlPlaneView,
> {
    if store.contains_key(id) {
        Some(store[id])
    } else {
        None
    }
}

/// The view of an optional control plane.
pub open spec fn opt_view(o: Option<ControlPlane>) -> Option<ControlPlaneView> {
    match o {
        Some(cp) => Some(cp@),
        None => None,
    }
}

/// With distinct ids, the map of `s` holds exactly the ids of `s`, each with its control plane.
proof fn lemma_entries_map(s: Seq<ControlPlane>)
    requires
        ids_unique(s),
    ensures
        forall|k: Seq<char>|
            entries_map(s).contains_key(k) <==> exists|i: int|
                0 <= i < s.len() && #[trigger] s[i].id@ == k,
        forall|i: int| 0 <= i < s.len() ==> entries_map(s)[#[trigger] s[i].id@] == s[i]@,
    decreases s.len(),
{
    if s.len() > 0 {
        let t = s.drop_last();
        assert(ids_unique(t)) by {
            assert forall|i: int, j: int| 0 <= i < j < t.len() implies #[trigger] t[i].id@
                != #[trigger] t[j].id@ by {
                assert(t[i] == s[i] && t[j] == s[j]);
            }
        }
        lemma_entries_map(t);
        assert forall|k: Seq<char>|
            entries_map(s).contains_key(k) implies exists|i: int|
                0 <= i < s.len() && #[trigger] s[i].id@ == k by {
            if k == s.last().id@ {
                assert(s[s.len() - 1].id@ == k);
            } else {
                assert(entries_map(t).contains_key(k));
                let i = choose|i: int| 0 <= i < t.len() && #[trigger] t[i].id@ == k;
                assert(t[i] == s[i]);
                assert(s[i].id@ == k);
            }
        }
        assert forall|k: Seq<char>|
            (exists|i: int| 0 <= i < s.len() && #[trigger] s[i].id@ == k) implies entries_map(
            s,
        ).contains_key(k) by {
            let i = choose|i: int| 0 <= i < s.len() && #[trigger] s[i].id@ == k;
            if i < s.len() - 1 {
                assert(t[i] == s[i]);
                assert(t[i].id@ == k);
            }
        }
        assert forall|i: int| 0 <= i < s.len() implies entries_map(s)[#[trigger] s[i].id@]
            == s[i]@ by {
            if i < s.len() - 1 {
                assert(s[i].id@ != s[s.len() - 1].id@);
                assert(t[i] == s[i]);
            }
        }
    }
}

/// The store after a create of `cp` on `store`: unchanged if its id is held already,
/// else with `cp` added under its id.
pub open spec fn created(store: Map<Seq<char>, ControlPlaneView>, cp: ControlPlaneView) -> Map<
    Seq<char>,
    ControlPlaneView,
> {
    if store.contains_key(cp.id) {
        store
    } else {
        store.insert(cp.id, cp)
    }
}

/// The store that the creates of `cps`, in order, build from an empty store.
pub open spec fn replay(cps: Seq<ControlPlaneView>) -> Map<Seq<char>, ControlPlaneView>
    decreases cps.len(),
{
    if cps.len() == 0 {
        Map::empty()
    } else {
        created(replay(cps.drop_last()), cps.last())
    }
}

/// Reading after a successful create gives back what was created.
pub proof fn lemma_fetch_after_create(store: Map<Seq<char>, ControlPlaneView>, cp: ControlPlaneView)
    requires
        !store.contains_key(cp.id),
    ensures
        lookup(created(store, cp), cp.id) == Some(cp),
{
}

/// A create leaves what is read under every other id unchanged.
pub proof fn lemma_create_keeps_other_ids(
    store: Map<Seq<char>, ControlPlaneView>,
    cp: ControlPlaneView,
    id: Seq<char>,
)
    requires
        id != cp.id,
    ensures
        lookup(created(store, cp), id) == lookup(store, id),
{
}

/// A second create with an id that is held already changes nothing: what was stored first stays.
pub proof fn lemma_duplicate_create_keeps_first(
    store: Map<Seq<char>, ControlPlaneView>,
    first: ControlPlaneView,
    second: ControlPlaneView,
)
    requires
        !store.contains_key(first.id),
        second.id == first.id,
    ensures
        created(created(store, first), second) == created(store, first),
        lookup(created(created(store, first), second), first.id) == Some(first),
{
}

/// After any series of creates from an empty store, reading an id gives the first control
/// plane created with that id, and nothing if none was.
pub proof fn lemma_first_create_wins(cps: Seq<ControlPlaneView>, id: Seq<char>)
    ensures
        (exists|i: int| 0 <= i < cps.len() && #[trigger] cps[i].id == id) ==> exists|i: int|
            0 <= i < cps.len() && #[trigger] cps[i].id == id && (forall|j: int|
                0 <= j < i ==> #[trigger] cps[j].id != id) && lookup(replay(cps), id) == Some(
                cps[i],
            ),
        (forall|i: int| 0 <= i < cps.len() ==> #[trigger] cps[i].id != id) ==> lookup(
            replay(cps),
            id,
        ) is None,
    decreases cps.len(),
{
    if cps.len() > 0 {
        let t = cps.drop_last();
        let last = cps.last();
        lemma_first_create_wins(t, id);
        if exists|i: int| 0 <= i < t.len() && #[trigger] t[i].id == id {
            let i = choose|i: int|
                0 <= i < t.len() && #[trigger] t[i].id == id && (forall|j: int|
                    0 <= j < i ==> #[trigger] t[j].id != id) && lookup(replay(t), id) == Some(t[i]);
            assert(cps[i] == t[i]);
            assert forall|j: int| 0 <= j < i implies #[trigger] cps[j].id != id by {
                assert(cps[j] == t[j]);
            }
        } else {
            assert forall|j: int| 0 <= j < t.len() implies #[trigger] cps[j].id != id by {
                assert(cps[j] == t[j]);
                assert(t[j].id != id);
            }
            if last.id == id {
                assert(cps[cps.len() - 1].id == id);
            }
        }
    }
}

impl View for MemoryControlPlaneRepo {
    type V = Map<Seq<char>, ControlPlaneView>;

    closed spec fn view(&self) -> Map<Seq<char>, ControlPlaneView> {
        entries_map(self.entries@)
    }
}

impl MemoryControlPlaneRepo {
    #[verifier::type_invariant]
    spec fn inv(self) -> bool {
        ids_unique(self.entries@)
    }

    /// An empty repository.
    pub fn new() -> (res: MemoryControlPlaneRepo)
        ensures
            res@ == Map::<Seq<char>, ControlPlaneView>::empty(),
    {
        MemoryControlPlaneRepo { entries: Vec::new() }
    }

    /// The position of the control plane whose id is `id`, if one is held.
    fn position(&self, id: &String) -> (res: Option<usize>)
        ensures
            res matches Some(i) ==> i < self.entries@.len() && self.entries@[i as int].id@ == id@,
            res is None ==> forall|i: int|
                0 <= i < self.entries@.len() ==> #[trigger] self.entries@[i].id@ != id@,
    {
        let n = self.entries.len();
        let mut i: usize = 0;
        while i < n
            invariant
                n == self.entries@.len(),
                0 <= i <= n,
                forall|j: int| 0 <= j < i ==> #[trigger] self.entries@[j].id@ != id@,
            decreases n - i,
        {
            if self.entries[i].id == *id {
                return Some(i);
            }
            i = i + 1;
        }
        None
    }
}

impl Default for MemoryControlPlaneRepo {
    fn default() -> (res: MemoryControlPlaneRepo)
        ensures
            res@ == Map::<Seq<char>, ControlPlaneView>::empty(),
    {
        MemoryControlPlaneRepo::new()
    }
}

impl ControlPlaneRepo for MemoryControlPlaneRepo {
    type Transaction = MemoryTransaction;

    fn create(&mut self, tx: &mut MemoryTransaction, control_plane: &ControlPlane) -> (res:
        DbResult<()>)
        ensures
            final(self)@ == created(old(self)@, control_plane@),
            res is Ok <==> !old(self)@.contains_key(control_plane.id@),
            res is Err ==> is_already_exists(res, control_plane.id@),
    {
        proof {
            use_type_invariant(&*self);
            lemma_entries_map(self.entries@);
        }
        match self.position(&control_plane.id) {
            Some(i) => {
                assert(self.entries@[i as int].id@ == control_plane.id@);
                Err(DbError::AlreadyExists(control_plane_exists_message(control_plane.id.as_str())))
            },
            None => {
                let mut entries: Vec<ControlPlane> = Vec::new();
                std::mem::swap(&mut entries, &mut self.entries);
                let ghost before = entries@;
                entries.push(control_plane.clone());
                assert(entries@.drop_last() == before);
                self.entries = entries;
                Ok(())
            },
        }
    }

    fn fetch_by_id(&self, tx: &mut MemoryTransaction, control_plane_id: &str) -> (res: DbResult<
        Option<ControlPlane>,
    >)
        ensures
            res matches Ok(found) && opt_view(found) == lookup(self@, control_plane_id@),
    {
        proof {
            use_type_invariant(self);
            lemma_entries_map(self.entries@);
        }
        let wanted = String::from_str(control_plane_id);
        match self.position(&wanted) {
            Some(i) => Ok(Some(self.entries[i].clone())),
            None => Ok(None),
        }
    }
}

} // verus!
