//! The storage engine: objects keyed by id, with optimistic-concurrency updates
//! and filtered listing.
use vstd::prelude::*;
use crate::error::YangtzeError;
use crate::ids::{new_uuid, parse_uuid, parsed_uuid};
use crate::meta::{Metadata, MetadataView, Object, ObjectView};

verus! {

pub open spec fn views(v: Seq<Object>) -> Seq<ObjectView> {
    v.map_values(|o: Object| o@)
}

/// Some stored object has this id.
pub open spec fn contains_id(s: Seq<ObjectView>, id: u128) -> bool {
    exists|i: int| 0 <= i < s.len() && s[i].metadata.uuid == Some(id)
}

/// The position of the object with this id.
pub open spec fn index_of(s: Seq<ObjectView>, id: u128) -> int {
    choose|i: int| 0 <= i < s.len() && s[i].metadata.uuid == Some(id)
}

/// Every stored object has an id, and no two share one.
pub open spec fn well_formed(s: Seq<ObjectView>) -> bool {
    &&& forall|i: int| 0 <= i < s.len() ==> (#[trigger] s[i]).metadata.uuid is Some
    &&& forall|i: int, j: int|
        0 <= i < s.len() && 0 <= j < s.len() && (#[trigger] s[i]).metadata.uuid == (#[trigger] s[j]).metadata.uuid
            ==> i == j
}

/// An object matches a query on each of id, kind, namespace and name that the
/// query sets (a present id, a non-empty text); the others impose nothing.
pub open spec fn matches(q: MetadataView, o: ObjectView) -> bool {
    &&& (q.uuid is Some ==> o.metadata.uuid == q.uuid)
    &&& (q.kind.len() > 0 ==> o.metadata.kind == q.kind)
    &&& (q.namespace.len() > 0 ==> o.metadata.namespace == q.namespace)
    &&& (q.name.len() > 0 ==> o.metadata.name == q.name)
}

/// What `list` returns for a query: the stored objects that match it, in store order.
pub open spec fn listed(s: Seq<ObjectView>, q: MetadataView) -> Seq<ObjectView> {
    s.filter(|o: ObjectView| matches(q, o))
}

/// The object that creation stores: the request under the given id, at version 0.
pub open spec fn created(o: ObjectView, id: u128) -> ObjectView {
    ObjectView { metadata: MetadataView { uuid: Some(id), version: 0, ..o.metadata }, ..o }
}

/// The id that creation uses: the request's own, else the generated one.
pub open spec fn creation_id(o: ObjectView, generated: u128) -> u128 {
    match o.metadata.uuid {
        Some(id) => id,
        None => generated,
    }
}

/// An update succeeds when the object exists, its stored version is at most the
/// version that the caller observed, and the stored version can still grow.
pub open spec fn update_succeeds(s: Seq<ObjectView>, o: ObjectView) -> bool {
    match o.metadata.uuid {
        Some(id) => contains_id(s, id) && s[index_of(s, id)].metadata.version <= o.metadata.version
            && s[index_of(s, id)].metadata.version < u64::MAX,
        None => false,
    }
}

/// A stored object after a successful update: the new payloads, the version one higher,
/// the rest of its metadata kept.
pub open spec fn bumped(cur: ObjectView, o: ObjectView) -> ObjectView {
    ObjectView {
        metadata: MetadataView { version: (cur.metadata.version + 1) as u64, ..cur.metadata },
        spec: o.spec,
        status: o.status,
    }
}

/// The store after a successful update.
pub open spec fn updated(s: Seq<ObjectView>, o: ObjectView) -> Seq<ObjectView> {
    let i = index_of(s, o.metadata.uuid->Some_0);
    s.update(i, bumped(s[i], o))
}

/// The version stored for an id.
pub open spec fn version_of(s: Seq<ObjectView>, id: u128) -> u64 {
    s[index_of(s, id)].metadata.version
}

/// An in-memory storage engine.
#[derive(Debug)]
pub struct Storage {
    objects: Vec<Object>,
}

impl View for Storage {
    type V = Seq<ObjectView>;

    closed spec fn view(&self) -> Seq<ObjectView> {
        views(self.objects@)
    }
}

proof fn lemma_index_of(s: Seq<ObjectView>, i: int)
    requires
        well_formed(s),
        0 <= i < s.len(),
    ensures
        contains_id(s, s[i].metadata.uuid->Some_0),
        index_of(s, s[i].metadata.uuid->Some_0) == i,
{
    let id = s[i].metadata.uuid->Some_0;
    assert(s[i].metadata.uuid == Some(id));
    let k = index_of(s, id);
    assert(s[k].metadata.uuid == s[i].metadata.uuid);
}

fn matches_query(q: &Metadata, o: &Object) -> (r: bool)
    ensures
        r == matches(q@, o@),
{
    if q.uuid.is_some() && o.metadata.uuid != q.uuid {
        return false;
    }
    if !q.kind.as_str().is_empty() && o.metadata.kind != q.kind {
        return false;
    }
    if !q.namespace.as_str().is_empty() && o.metadata.namespace != q.namespace {
        return false;
    }
    if !q.name.as_str().is_empty() && o.metadata.name != q.name {
        return false;
    }
    true
}

impl Storage {
    pub open spec fn well_formed(&self) -> bool {
        well_formed(self@)
    }

    /// An empty store.
    pub fn new() -> (r: Storage)
        ensures
            r.well_formed(),
            r@ == Seq::<ObjectView>::empty(),
    {
        let r = Storage { objects: Vec::new() };
        assert(r@ =~= Seq::<ObjectView>::empty());
        r
    }

    fn find(&self, id: u128) -> (r: Option<usize>)
        requires
            self.well_formed(),
        ensures
            r is Some <==> contains_id(self@, id),
            r is Some ==> r->Some_0 == index_of(self@, id) && r->Some_0 < self@.len(),
    {
        let mut i: usize = 0;
        while i < self.objects.len()
            invariant
                i <= self.objects@.len(),
                self.well_formed(),
                self@.len() == self.objects@.len(),
                forall|j: int| 0 <= j < i ==> self@[j].metadata.uuid != Some(id),
            decreases self.objects.len() - i,
        {
            if self.objects[i].metadata.uuid == Some(id) {
                proof {
                    lemma_index_of(self@, i as int);
                }
                return Some(i);
            }
            i += 1;
        }
        None
    }

    /// The object with the given id.
    pub fn get_by_id(&self, id: u128) -> (r: Result<Object, YangtzeError>)
        requires
            self.well_formed(),
        ensures
            r is Ok <==> contains_id(self@, id),
            r is Ok ==> r->Ok_0@ == self@[index_of(self@, id)],
            r is Err ==> r->Err_0 is NotFound,
    {
        match self.find(id) {
            Some(i) => Ok(self.objects[i].clone()),
            None => Err(YangtzeError::NotFound("no object has this id".to_string())),
        }
    }

    /// The object whose id the text spells; `NotFound` when the text spells no id
    /// or no object has it.
    pub fn get(&self, id: String) -> (r: Result<Object, YangtzeError>)
        requires
            self.well_formed(),
        ensures
            r is Ok <==> (parsed_uuid(id@) is Some && contains_id(self@, parsed_uuid(id@)->Some_0)),
            r is Ok ==> r->Ok_0@ == self@[index_of(self@, parsed_uuid(id@)->Some_0)],
            r is Err ==> r->Err_0 is NotFound,
    {
        match parse_uuid(id.as_str()) {
            Some(u) => self.get_by_id(u),
            None => Err(YangtzeError::NotFound("not an object id".to_string())),
        }
    }

    /// Every stored object that matches the query; an empty result when none does.
    pub fn list(&self, query: &Metadata) -> (r: Vec<Object>)
        requires
            self.well_formed(),
        ensures
            views(r@) == listed(self@, query@),
    {
        let mut r: Vec<Object> = Vec::new();
        let mut i: usize = 0;
        while i < self.objects.len()
            invariant
                i <= self.objects@.len(),
                self@.len() == self.objects@.len(),
                views(r@) == listed(self@.subrange(0, i as int), query@),
            decreases self.objects.len() - i,
        {
            let o = &self.objects[i];
            proof {
                reveal(Seq::filter);
                assert(self@.subrange(0, i + 1).drop_last() =~= self@.subrange(0, i as int));
                assert(self@.subrange(0, i + 1).last() == o@);
            }
            if matches_query(query, o) {
                let c = o.clone();
                r.push(c);
                assert(views(r@) =~= listed(self@.subrange(0, i as int), query@).push(o@));
            }
            i += 1;
        }
        assert(self@.subrange(0, self@.len() as int) =~= self@);
        r
    }

    /// Removes the object with the given id and returns it.
    pub fn delete_by_id(&mut self, id: u128) -> (r: Result<Object, YangtzeError>)
        requires
            old(self).well_formed(),
        ensures
            final(self).well_formed(),
            r is Ok <==> contains_id(old(self)@, id),
            r is Ok ==> r->Ok_0@ == old(self)@[index_of(old(self)@, id)]
                && final(self)@ == old(self)@.remove(index_of(old(self)@, id)),
            r is Err ==> r->Err_0 is NotFound && final(self)@ == old(self)@,
    {
        match self.find(id) {
            Some(i) => {
                let o = self.objects.remove(i);
                assert(self@ =~= old(self)@.remove(i as int));
                Ok(o)
            },
            None => Err(YangtzeError::NotFound("no object has this id".to_string())),
        }
    }

    /// Removes the object whose id the text spells and returns it.
    pub fn delete(&mut self, id: String) -> (r: Result<Object, YangtzeError>)
        requires
            old(self).well_formed(),
        ensures
            final(self).well_formed(),
            r is Ok <==> (parsed_uuid(id@) is Some && contains_id(old(self)@, parsed_uuid(id@)->Some_0)),
            r is Ok ==> r->Ok_0@ == old(self)@[index_of(old(self)@, parsed_uuid(id@)->Some_0)]
                && final(self)@ == old(self)@.remove(index_of(old(self)@, parsed_uuid(id@)->Some_0)),
            r is Err ==> r->Err_0 is NotFound && final(self)@ == old(self)@,
    {
        match parse_uuid(id.as_str()) {
            Some(u) => self.delete_by_id(u),
            None => Err(YangtzeError::NotFound("not an object id".to_string())),
        }
    }

    /// Stores a new object under the request's id, or under `generated` when the
    /// request carries none, at version 0. Fails, changing nothing, when that id is taken.
    pub fn insert_new(&mut self, o: Object, generated: u128) -> (r: Result<Object, YangtzeError>)
        requires
            old(self).well_formed(),
        ensures
            final(self).well_formed(),
            r is Ok <==> !contains_id(old(self)@, creation_id(o@, generated)),
            r is Ok ==> r->Ok_0@ == created(o@, creation_id(o@, generated))
                && final(self)@ == old(self)@.push(created(o@, creation_id(o@, generated))),
            r is Err ==> r->Err_0 is GeneralError && final(self)@ == old(self)@,
    {
        let id = match o.metadata.uuid {
            Some(id) => id,
            None => generated,
        };
        if self.find(id).is_some() {
            return Err(YangtzeError::GeneralError("an object with this id exists".to_string()));
        }
        let Object { metadata, spec, status } = o;
        let stored = Object {
            metadata: Metadata { uuid: Some(id), version: 0, ..metadata },
            spec,
            status,
        };
        let result = stored.clone();
        self.objects.push(stored);
        proof {
            let s = self@;
            let n = old(self)@.len();
            assert(s =~= old(self)@.push(created(o@, id)));
            assert forall|i: int, j: int|
                0 <= i < s.len() && 0 <= j < s.len() && (#[trigger] s[i]).metadata.uuid == (#[trigger] s[j]).metadata.uuid
                implies i == j by {
                if i < n && j == n {
                    assert(old(self)@[i].metadata.uuid == Some(id));
                } else if j < n && i == n {
                    assert(old(self)@[j].metadata.uuid == Some(id));
                }
            }
        }
        Ok(result)
    }

    /// Stores a new object, with a freshly generated id when the request carries none,
    /// at version 0.
    pub fn create(&mut self, o: Object) -> (r: Result<Object, YangtzeError>)
        requires
            old(self).well_formed(),
        ensures
            final(self).well_formed(),
            r is Ok ==> r->Ok_0@.metadata.uuid is Some
                && !contains_id(old(self)@, r->Ok_0@.metadata.uuid->Some_0)
                && r->Ok_0@ == created(o@, r->Ok_0@.metadata.uuid->Some_0)
                && final(self)@ == old(self)@.push(r->Ok_0@),
            o@.metadata.uuid is Some ==> (r is Ok <==> !contains_id(old(self)@, o@.metadata.uuid->Some_0)),
            o@.metadata.uuid is Some && r is Ok ==> r->Ok_0@.metadata.uuid == o@.metadata.uuid,
            o@.metadata.uuid is None && r is Err ==> exists|g: u128| contains_id(old(self)@, g),
            o@.metadata.uuid is None && r is Err ==> old(self)@.len() > 0,
            r is Err ==> r->Err_0 is GeneralError && final(self)@ == old(self)@,
    {
        let generated = new_uuid();
        self.insert_new(o, generated)
    }

    /// Applies an update: succeeds only when the object exists and its stored version
    /// is at most the version in the request; then stores the request's payloads and
    /// raises the version by one. Otherwise nothing changes.
    pub fn update(&mut self, o: Object) -> (r: Result<Object, YangtzeError>)
        requires
            old(self).well_formed(),
        ensures
            final(self).well_formed(),
            r is Ok <==> update_succeeds(old(self)@, o@),
            r is Ok ==> final(self)@ == updated(old(self)@, o@)
                && r->Ok_0@ == updated(old(self)@, o@)[index_of(old(self)@, o@.metadata.uuid->Some_0)],
            r is Err ==> final(self)@ == old(self)@,
            r is Err && (o@.metadata.uuid is None || !contains_id(old(self)@, o@.metadata.uuid->Some_0))
                ==> r->Err_0 is NotFound,
            r is Err && o@.metadata.uuid is Some && contains_id(old(self)@, o@.metadata.uuid->Some_0)
                && version_of(old(self)@, o@.metadata.uuid->Some_0) > o@.metadata.version
                ==> r->Err_0 is Conflict,
            r is Err && o@.metadata.uuid is Some && contains_id(old(self)@, o@.metadata.uuid->Some_0)
                && version_of(old(self)@, o@.metadata.uuid->Some_0) <= o@.metadata.version
                ==> r->Err_0 is GeneralError,
    {
        let id = match o.metadata.uuid {
            Some(id) => id,
            None => {
                return Err(YangtzeError::NotFound("the object has no id".to_string()));
            },
        };
        let i = match self.find(id) {
            Some(i) => i,
            None => {
                return Err(YangtzeError::NotFound("no object has this id".to_string()));
            },
        };
        let current = self.objects[i].metadata.version;
        if current > o.metadata.version {
            return Err(YangtzeError::Conflict("the object has a newer version".to_string()));
        }
        if current == u64::MAX {
            return Err(YangtzeError::GeneralError("the version cannot grow".to_string()));
        }
        let mut metadata = self.objects[i].metadata.clone();
        metadata.version = current + 1;
        let Object { spec, status, .. } = o;
        let stored = Object { metadata, spec, status };
        let result = stored.clone();
        proof {
            lemma_index_of(old(self)@, i as int);
        }
        self.objects.set(i, stored);
        proof {
            let s = self@;
            assert(s =~= updated(old(self)@, o@));
            assert forall|a: int, b: int|
                0 <= a < s.len() && 0 <= b < s.len() && (#[trigger] s[a]).metadata.uuid == (#[trigger] s[b]).metadata.uuid
                implies a == b by {
                assert(s[a].metadata.uuid == old(self)@[a].metadata.uuid);
                assert(s[b].metadata.uuid == old(self)@[b].metadata.uuid);
            }
        }
        Ok(result)
    }
}

proof fn lemma_update_step(s: Seq<ObjectView>, o: ObjectView)
    requires
        well_formed(s),
        update_succeeds(s, o),
    ensures
        well_formed(updated(s, o)),
        contains_id(updated(s, o), o.metadata.uuid->Some_0),
        index_of(updated(s, o), o.metadata.uuid->Some_0) == index_of(s, o.metadata.uuid->Some_0),
        version_of(updated(s, o), o.metadata.uuid->Some_0) == version_of(s, o.metadata.uuid->Some_0) + 1,
{
    let id = o.metadata.uuid->Some_0;
    let i = index_of(s, id);
    let t = updated(s, o);
    assert forall|a: int, b: int|
        0 <= a < t.len() && 0 <= b < t.len() && (#[trigger] t[a]).metadata.uuid == (#[trigger] t[b]).metadata.uuid
        implies a == b by {
        assert(t[a].metadata.uuid == s[a].metadata.uuid);
        assert(t[b].metadata.uuid == s[b].metadata.uuid);
    }
    assert forall|a: int| 0 <= a < t.len() implies (#[trigger] t[a]).metadata.uuid is Some by {
        assert(t[a].metadata.uuid == s[a].metadata.uuid);
    }
    assert(t[i].metadata.uuid == Some(id));
    lemma_index_of(t, i);
}

/// How many of the first `k` requests of a run were applied.
pub open spec fn applied(states: Seq<Seq<ObjectView>>, requests: Seq<ObjectView>, k: int) -> nat
    decreases k,
{
    if k <= 0 {
        0
    } else {
        applied(states, requests, k - 1) + if update_succeeds(states[k - 1], requests[k - 1]) {
            1nat
        } else {
            0nat
        }
    }
}

/// A run of updates to one object: each request is either applied, or refused
/// with the store left as it was.
pub open spec fn update_run(states: Seq<Seq<ObjectView>>, requests: Seq<ObjectView>, id: u128) -> bool {
    &&& states.len() == requests.len() + 1
    &&& forall|k: int|
        0 <= k < requests.len() ==> (#[trigger] requests[k]).metadata.uuid == Some(id) && if update_succeeds(
            states[k],
            requests[k],
        ) {
            states[k + 1] == updated(states[k], requests[k])
        } else {
            states[k + 1] == states[k]
        }
}

proof fn lemma_run_upto(states: Seq<Seq<ObjectView>>, requests: Seq<ObjectView>, id: u128, k: int)
    requires
        update_run(states, requests, id),
        well_formed(states[0]),
        contains_id(states[0], id),
        0 <= k < states.len(),
    ensures
        well_formed(states[k]),
        contains_id(states[k], id),
        version_of(states[k], id) == version_of(states[0], id) + applied(states, requests, k),
    decreases k,
{
    if k > 0 {
        lemma_run_upto(states, requests, id, k - 1);
        let j = k - 1;
        assert(requests[j].metadata.uuid == Some(id));
        if update_succeeds(states[j], requests[j]) {
            lemma_update_step(states[j], requests[j]);
        }
    }
}

/// Along any run of updates to one object, the stored version grows by exactly one
/// with each applied update and stays put with each refused one: it never falls and
/// never skips, and after k requests it is the starting version plus the number
/// applied so far.
pub proof fn lemma_version_monotonic(states: Seq<Seq<ObjectView>>, requests: Seq<ObjectView>, id: u128)
    requires
        update_run(states, requests, id),
        well_formed(states[0]),
        contains_id(states[0], id),
    ensures
        forall|k: int|
            0 <= k < states.len() ==> well_formed(#[trigger] states[k]) && contains_id(states[k], id)
                && version_of(states[k], id) == version_of(states[0], id) + applied(states, requests, k),
        forall|k: int|
            0 <= k < requests.len() ==> version_of(states[k + 1], id) == version_of(#[trigger] states[k], id) + if update_succeeds(
                states[k],
                requests[k],
            ) {
                1int
            } else {
                0int
            },
{
    assert forall|k: int| 0 <= k < states.len() implies well_formed(#[trigger] states[k]) && contains_id(states[k], id)
        && version_of(states[k], id) == version_of(states[0], id) + applied(states, requests, k) by {
        lemma_run_upto(states, requests, id, k);
    }
    assert forall|k: int| 0 <= k < requests.len() implies version_of(states[k + 1], id) == version_of(
        #[trigger] states[k],
        id,
    ) + if update_succeeds(states[k], requests[k]) {
        1int
    } else {
        0int
    } by {
        lemma_run_upto(states, requests, id, k);
        lemma_run_upto(states, requests, id, k + 1);
    }
}

/// For an object stored at version V: an update that observed a version below V is
/// refused; one that observed V or more is accepted, while V can still grow, and
/// leaves version V + 1 stored.
pub proof fn lemma_concurrency_exclusion(s: Seq<ObjectView>, o: ObjectView)
    requires
        well_formed(s),
        o.metadata.uuid is Some,
        contains_id(s, o.metadata.uuid->Some_0),
    ensures
        o.metadata.version < version_of(s, o.metadata.uuid->Some_0) ==> !update_succeeds(s, o),
        o.metadata.version >= version_of(s, o.metadata.uuid->Some_0)
            && version_of(s, o.metadata.uuid->Some_0) < u64::MAX
            ==> update_succeeds(s, o)
                && version_of(updated(s, o), o.metadata.uuid->Some_0) == version_of(s, o.metadata.uuid->Some_0) + 1,
{
    if update_succeeds(s, o) {
        lemma_update_step(s, o);
    }
}

/// Of two writers that observed an object at its stored version, at most one succeeds:
/// once the first update is stored, the second is refused.
pub proof fn lemma_single_winner(s: Seq<ObjectView>, first: ObjectView, second: ObjectView)
    requires
        well_formed(s),
        first.metadata.uuid is Some,
        second.metadata.uuid == first.metadata.uuid,
        contains_id(s, first.metadata.uuid->Some_0),
        first.metadata.version == version_of(s, first.metadata.uuid->Some_0),
        second.metadata.version == version_of(s, first.metadata.uuid->Some_0),
        update_succeeds(s, first),
    ensures
        !update_succeeds(updated(s, first), second),
{
    lemma_update_step(s, first);
}

proof fn lemma_filter_all(s: Seq<ObjectView>, q: MetadataView)
    requires
        forall|o: ObjectView| #[trigger] matches(q, o),
    ensures
        listed(s, q) == s,
    decreases s.len(),
{
    reveal(Seq::filter);
    if s.len() > 0 {
        lemma_filter_all(s.drop_last(), q);
        assert(s.drop_last().push(s.last()) =~= s);
    }
}

/// Listing with an empty query returns every stored object; a query that sets only a
/// namespace returns exactly the stored objects in that namespace, whatever their kind
/// and name; a query that no object matches returns an empty sequence.
pub proof fn lemma_filter_correctness(s: Seq<ObjectView>, q: MetadataView)
    ensures
        q.uuid is None && q.kind.len() == 0 && q.namespace.len() == 0 && q.name.len() == 0
            ==> listed(s, q) == s,
        q.uuid is None && q.kind.len() == 0 && q.namespace.len() > 0 && q.name.len() == 0
            ==> listed(s, q) == s.filter(|o: ObjectView| o.metadata.namespace == q.namespace),
        (forall|i: int| 0 <= i < s.len() ==> !matches(q, #[trigger] s[i])) ==> listed(s, q).len() == 0,
{
    if q.uuid is None && q.kind.len() == 0 && q.namespace.len() == 0 && q.name.len() == 0 {
        lemma_filter_all(s, q);
    }
    if q.uuid is None && q.kind.len() == 0 && q.namespace.len() > 0 && q.name.len() == 0 {
        let f = |o: ObjectView| matches(q, o);
        let g = |o: ObjectView| o.metadata.namespace == q.namespace;
        assert(f =~= g);
    }
    if forall|i: int| 0 <= i < s.len() ==> !matches(q, #[trigger] s[i]) {
        if listed(s, q).len() > 0 {
            let f = |o: ObjectView| matches(q, o);
            let x = listed(s, q)[0];
            s.lemma_filter_pred(f, 0);
            assert(listed(s, q).contains(x));
            s.lemma_filter_contains_rev(f, x);
            let i = choose|i: int| 0 <= i < s.len() && s[i] == x;
            assert(!matches(q, s[i]));
        }
    }
}

} // verus!
