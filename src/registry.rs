//! Directory of the live modules, keyed by their unique identifier.
use vstd::prelude::*;

verus! {

/// What a module tells the registry about itself.
#[derive(Debug, Clone)]
pub struct AppInfo {
    pub id: String,
    pub name: String,
    pub version: String,
    pub description: String,
}

impl AppInfo {
    /// An identical, independent copy.
    pub fn duplicate(&self) -> (r: AppInfo)
        ensures
            r == *self,
    {
        AppInfo {
            id: self.id.clone(),
            name: self.name.clone(),
            version: self.version.clone(),
            description: self.description.clone(),
        }
    }
}

/// Why a registration was refused.
#[derive(Debug)]
pub enum RegistryError {
    /// A module with this id is already registered.
    DuplicateEntity(String),
}

impl RegistryError {
    /// A human-readable description: `App '<id>' already registered`.
    pub fn message(&self) -> (r: String)
        ensures
            match self {
                RegistryError::DuplicateEntity(id) => r@ == "App '"@ + id@ + "' already registered"@,
            },
    {
        match self {
            RegistryError::DuplicateEntity(id) => {
                String::from_str("App '").concat(id.as_str()).concat("' already registered")
            },
        }
    }
}

/// The outcome of registering `app` in a registry holding `apps`.
pub open spec fn registration_result(apps: Map<Seq<char>, AppInfo>, app: AppInfo) -> Result<(), RegistryError> {
    if apps.contains_key(app.id@) {
        Err(RegistryError::DuplicateEntity(app.id))
    } else {
        Ok(())
    }
}

/// The modules registered after registering `app` in a registry holding `apps`:
/// unchanged when its id is taken.
pub open spec fn registered(apps: Map<Seq<char>, AppInfo>, app: AppInfo) -> Map<Seq<char>, AppInfo> {
    if apps.contains_key(app.id@) {
        apps
    } else {
        apps.insert(app.id@, app)
    }
}

/// The modules registered after unregistering `id` from a registry holding `apps`.
pub open spec fn unregistered(apps: Map<Seq<char>, AppInfo>, id: Seq<char>) -> Map<Seq<char>, AppInfo> {
    apps.remove(id)
}

/// Registering a second module under an id that is already taken is refused
/// with `DuplicateEntity`, and the first module stays registered, unchanged.
pub proof fn second_registration_refused(apps: Map<Seq<char>, AppInfo>, first: AppInfo, second: AppInfo)
    requires
        !apps.contains_key(first.id@),
        second.id@ == first.id@,
    ensures
        registration_result(apps, first) == Ok::<(), RegistryError>(()),
        registration_result(registered(apps, first), second)
            == Err::<(), RegistryError>(RegistryError::DuplicateEntity(second.id)),
        registered(registered(apps, first), second) == registered(apps, first),
        registered(apps, first).contains_key(first.id@),
        registered(apps, first)[first.id@] == first,
{
}

/// Unregistering an id that is not registered changes nothing, and so
/// unregistering the same id twice is the same as doing it once.
pub proof fn unregister_is_idempotent(apps: Map<Seq<char>, AppInfo>, id: Seq<char>)
    ensures
        !apps.contains_key(id) ==> unregistered(apps, id) == apps,
        !unregistered(apps, id).contains_key(id),
        unregistered(unregistered(apps, id), id) == unregistered(apps, id),
{
    assert(unregistered(unregistered(apps, id), id) =~= unregistered(apps, id));
    if !apps.contains_key(id) {
        assert(unregistered(apps, id) =~= apps);
    }
}

/// The registry: the entries, with distinct ids, in no particular order.
pub struct AppRegistry {
    entries: Vec<AppInfo>,
    by_id: Ghost<Map<Seq<char>, AppInfo>>,
}

impl AppRegistry {
    /// The registered modules, by id.
    pub closed spec fn apps(&self) -> Map<Seq<char>, AppInfo> {
        self.by_id@
    }

    /// The entries hold exactly the map `apps()`, each under its own id, once.
    pub closed spec fn wf(&self) -> bool {
        let v = self.entries@;
        let m = self.by_id@;
        &&& m.dom().finite()
        &&& m.len() == v.len()
        &&& forall|i: int| 0 <= i < v.len() ==> #[trigger] m.contains_key(v[i].id@) && m[v[i].id@] == v[i]
        &&& forall|k: Seq<char>| #[trigger] m.contains_key(k) ==> exists|i: int| 0 <= i < v.len() && v[i].id@ == k
        &&& forall|i: int, j: int| 0 <= i < v.len() && 0 <= j < v.len() && i != j ==> v[i].id@ != v[j].id@
    }

    /// An empty registry.
    pub fn new() -> (r: Self)
        ensures
            r.wf(),
            r.apps() == Map::<Seq<char>, AppInfo>::empty(),
    {
        AppRegistry { entries: Vec::new(), by_id: Ghost(Map::empty()) }
    }

    /// The position of the entry with id `id`, if there is one.
    fn position(&self, id: &String) -> (r: Option<usize>)
        requires
            self.wf(),
        ensures
            match r {
                Some(i) => i < self.entries@.len() && self.entries@[i as int].id@ == id@,
                None => !self.apps().contains_key(id@),
            },
    {
        let mut i: usize = 0;
        while i < self.entries.len()
            invariant
                self.wf(),
                i <= self.entries@.len(),
                forall|j: int| 0 <= j < i ==> self.entries@[j].id@ != id@,
            decreases self.entries@.len() - i,
        {
            if self.entries[i].id == *id {
                return Some(i);
            }
            i = i + 1;
        }
        None
    }

    /// Adds `app`. Fails, changing nothing, when its id is already registered.
    pub fn register(&mut self, app: AppInfo) -> (r: Result<(), RegistryError>)
        requires
            old(self).wf(),
        ensures
            final(self).wf(),
            r == registration_result(old(self).apps(), app),
            final(self).apps() == registered(old(self).apps(), app),
    {
        match self.position(&app.id) {
            Some(_) => Err(RegistryError::DuplicateEntity(app.id)),
            None => {
                let ghost k = app.id@;
                proof {
                    self.by_id@ = self.by_id@.insert(k, app);
                }
                self.entries.push(app);
                proof {
                    let v = self.entries@;
                    let m = self.by_id@;
                    assert forall|q: Seq<char>| #[trigger] m.contains_key(q) implies exists|i: int|
                        0 <= i < v.len() && v[i].id@ == q by {
                        if q == k {
                            assert(v[v.len() - 1].id@ == q);
                        } else {
                            assert(old(self).apps().contains_key(q));
                            let i = choose|i: int| 0 <= i < old(self).entries@.len() && old(self).entries@[i].id@ == q;
                            assert(v[i] == old(self).entries@[i]);
                        }
                    }
                    assert forall|i: int| 0 <= i < v.len() implies #[trigger] m.contains_key(v[i].id@) && m[v[i].id@] == v[i] by {
                        if i < v.len() - 1 {
                            assert(v[i] == old(self).entries@[i]);
                            assert(old(self).apps().contains_key(v[i].id@));
                        }
                    }
                    assert forall|i: int, j: int| 0 <= i < v.len() && 0 <= j < v.len() && i != j implies v[i].id@ != v[j].id@ by {
                        if i < v.len() - 1 {
                            assert(old(self).apps().contains_key(v[i].id@));
                        }
                        if j < v.len() - 1 {
                            assert(old(self).apps().contains_key(v[j].id@));
                        }
                    }
                }
                Ok(())
            },
        }
    }

    /// A copy of the entry registered under `id`, if any.
    pub fn get(&self, id: &str) -> (r: Option<AppInfo>)
        requires
            self.wf(),
        ensures
            self.apps().contains_key(id@) ==> r == Some(self.apps()[id@]),
            !self.apps().contains_key(id@) ==> r is None,
    {
        let key = String::from_str(id);
        match self.position(&key) {
            Some(i) => Some(self.entries[i].duplicate()),
            None => None,
        }
    }

    /// Copies of all entries, each once, in no particular order.
    pub fn list(&self) -> (r: Vec<AppInfo>)
        requires
            self.wf(),
        ensures
            r@.len() == self.apps().len(),
            forall|i: int| 0 <= i < r@.len() ==>
                #[trigger] self.apps().contains_key(r@[i].id@) && self.apps()[r@[i].id@] == r@[i],
            forall|k: Seq<char>| #[trigger] self.apps().contains_key(k) ==>
                exists|i: int| 0 <= i < r@.len() && r@[i].id@ == k,
            forall|i: int, j: int| 0 <= i < r@.len() && 0 <= j < r@.len() && i != j ==> r@[i].id@ != r@[j].id@,
    {
        let mut r: Vec<AppInfo> = Vec::new();
        let mut i: usize = 0;
        while i < self.entries.len()
            invariant
                self.wf(),
                i <= self.entries@.len(),
                r@ == self.entries@.subrange(0, i as int),
            decreases self.entries@.len() - i,
        {
            r.push(self.entries[i].duplicate());
            assert(r@ =~= self.entries@.subrange(0, i + 1));
            i = i + 1;
        }
        assert(r@ =~= self.entries@);
        r
    }

    /// Removes the entry registered under `id` and returns it; with no such
    /// entry, returns nothing and changes nothing.
    pub fn unregister(&mut self, id: &str) -> (r: Option<AppInfo>)
        requires
            old(self).wf(),
        ensures
            final(self).wf(),
            r == (if old(self).apps().contains_key(id@) { Some(old(self).apps()[id@]) } else { None }),
            final(self).apps() == unregistered(old(self).apps(), id@),
    {
        let key = String::from_str(id);
        match self.position(&key) {
            None => {
                assert(old(self).apps().remove(id@) =~= old(self).apps());
                None
            },
            Some(p) => {
                let ghost k = id@;
                let removed = self.entries.remove(p);
                proof {
                    let old_v = old(self).entries@;
                    assert(old(self).apps().contains_key(k));
                    self.by_id@ = self.by_id@.remove(k);
                    let v = self.entries@;
                    let m = self.by_id@;
                    assert forall|i: int| 0 <= i < v.len() implies #[trigger] m.contains_key(v[i].id@) && m[v[i].id@] == v[i] by {
                        let oi = if i < p { i } else { i + 1 };
                        assert(v[i] == old_v[oi]);
                        assert(old(self).apps().contains_key(old_v[oi].id@));
                    }
                    assert forall|q: Seq<char>| #[trigger] m.contains_key(q) implies exists|i: int|
                        0 <= i < v.len() && v[i].id@ == q by {
                        assert(old(self).apps().contains_key(q));
                        let oi = choose|i: int| 0 <= i < old_v.len() && old_v[i].id@ == q;
                        assert(oi != p);
                        let i = if oi < p { oi } else { oi - 1 };
                        assert(v[i] == old_v[oi]);
                    }
                    assert forall|i: int, j: int| 0 <= i < v.len() && 0 <= j < v.len() && i != j implies v[i].id@ != v[j].id@ by {
                        let oi = if i < p { i } else { i + 1 };
                        let oj = if j < p { j } else { j + 1 };
                        assert(v[i] == old_v[oi]);
                        assert(v[j] == old_v[oj]);
                    }
                }
                Some(removed)
            },
        }
    }
}

impl Default for AppRegistry {
    fn default() -> (r: Self)
        ensures
            r.wf(),
            r.apps() == Map::<Seq<char>, AppInfo>::empty(),
    {
        AppRegistry::new()
    }
}

} // verus!
