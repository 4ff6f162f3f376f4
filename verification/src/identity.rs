use vstd::prelude::*;

verus! {

/// A stable identity for a discovered device: the stable id parsed from the
/// platform's device identifier, and the human-readable name the device last
/// advertised.
#[derive(Debug)]
pub struct DeviceId {
    pub peripheral_id: u128,
    pub device_name: String,
}

/// The mathematical value of a `DeviceId`.
pub ghost struct DeviceIdView {
    pub peripheral_id: u128,
    pub name: Seq<char>,
}

impl View for DeviceId {
    type V = DeviceIdView;

    open spec fn view(&self) -> DeviceIdView {
        DeviceIdView { peripheral_id: self.peripheral_id, name: self.device_name@ }
    }
}

impl Clone for DeviceId {
    fn clone(&self) -> (r: DeviceId)
        ensures
            r@ == self@,
    {
        DeviceId { peripheral_id: self.peripheral_id, device_name: self.device_name.clone() }
    }
}

/// First entry with the given handle, searching positions `i` and later.
pub open spec fn lookup_from(s: Seq<DeviceIdView>, i: int, handle: u128) -> Option<DeviceIdView>
    decreases s.len() - i,
{
    if i < 0 || i >= s.len() {
        None
    } else if s[i].peripheral_id == handle {
        Some(s[i])
    } else {
        lookup_from(s, i + 1, handle)
    }
}

/// The identity the cache associates with a handle, if any.
pub open spec fn spec_lookup(s: Seq<DeviceIdView>, handle: u128) -> Option<DeviceIdView> {
    lookup_from(s, 0, handle)
}

/// Replace the first entry sharing `d`'s handle at position `i` or later,
/// or append `d` if no such entry exists.
pub open spec fn upsert_from(s: Seq<DeviceIdView>, i: int, d: DeviceIdView) -> Seq<DeviceIdView>
    decreases s.len() - i,
{
    if i < 0 {
        s
    } else if i >= s.len() {
        s.push(d)
    } else if s[i].peripheral_id == d.peripheral_id {
        s.update(i, d)
    } else {
        upsert_from(s, i + 1, d)
    }
}

/// Last-write-wins insertion of an identity into the cache model.
pub open spec fn spec_upsert(s: Seq<DeviceIdView>, d: DeviceIdView) -> Seq<DeviceIdView> {
    upsert_from(s, 0, d)
}

/// What a discovery event does to the cache model: a named discovery upserts
/// the identity, a nameless one changes nothing.
pub open spec fn spec_observe(
    s: Seq<DeviceIdView>,
    handle: u128,
    name: Option<Seq<char>>,
) -> Seq<DeviceIdView> {
    match name {
        Some(n) => spec_upsert(s, DeviceIdView { peripheral_id: handle, name: n }),
        None => s,
    }
}

/// The view of an optional advertised name.
pub open spec fn opt_name_view(name: Option<String>) -> Option<Seq<char>> {
    match name {
        Some(n) => Some(n@),
        None => None,
    }
}

/// The view of an optional resolved identity.
pub open spec fn opt_id_view(o: Option<DeviceId>) -> Option<DeviceIdView> {
    match o {
        Some(d) => Some(d@),
        None => None,
    }
}

/// Upserting at position `i` or later leaves all positions before `i`
/// unchanged and never shrinks the cache.
pub proof fn lemma_upsert_from_prefix(s: Seq<DeviceIdView>, i: int, d: DeviceIdView)
    requires
        0 <= i <= s.len(),
    ensures
        s.len() <= upsert_from(s, i, d).len(),
        forall|k: int| 0 <= k < i ==> upsert_from(s, i, d)[k] == s[k],
    decreases s.len() - i,
{
    if i >= s.len() {
    } else if s[i].peripheral_id == d.peripheral_id {
    } else {
        lemma_upsert_from_prefix(s, i + 1, d);
    }
}

/// Updating a position below `j` does not change what a search from `j`
/// onward finds.
pub proof fn lemma_lookup_update_below(
    s: Seq<DeviceIdView>,
    i: int,
    d: DeviceIdView,
    j: int,
    handle: u128,
)
    requires
        0 <= i < j,
        i < s.len(),
    ensures
        lookup_from(s.update(i, d), j, handle) == lookup_from(s, j, handle),
    decreases s.len() - j,
{
    if j >= s.len() {
    } else {
        lemma_lookup_update_below(s, i, d, j + 1, handle);
    }
}

/// How upsertion and lookup interact: after upserting `d`, looking up `d`'s
/// handle finds exactly `d`, and looking up any other handle finds what it
/// found before.
pub proof fn lemma_lookup_upsert(s: Seq<DeviceIdView>, i: int, d: DeviceIdView, handle: u128)
    requires
        0 <= i <= s.len(),
    ensures
        lookup_from(upsert_from(s, i, d), i, handle) == (if d.peripheral_id == handle {
            Some(d)
        } else {
            lookup_from(s, i, handle)
        }),
    decreases s.len() - i,
{
    if i >= s.len() {
    } else if s[i].peripheral_id == d.peripheral_id {
        if d.peripheral_id != handle {
            lemma_lookup_update_below(s, i, d, i + 1, handle);
        }
    } else {
        lemma_upsert_from_prefix(s, i + 1, d);
        lemma_lookup_upsert(s, i + 1, d, handle);
    }
}

/// A discovery for one handle never disturbs what the cache knows about any
/// other handle.
pub proof fn lemma_observe_preserves_others(
    s: Seq<DeviceIdView>,
    handle: u128,
    name: Option<Seq<char>>,
    other: u128,
)
    requires
        other != handle,
    ensures
        spec_lookup(spec_observe(s, handle, name), other) == spec_lookup(s, other),
{
    match name {
        Some(n) => {
            lemma_lookup_upsert(s, 0, DeviceIdView { peripheral_id: handle, name: n }, other);
        },
        None => {},
    }
}

/// A named discovery is always visible afterwards: resolving its handle
/// yields exactly the identity it carried (last write wins).
pub proof fn lemma_observe_then_lookup(s: Seq<DeviceIdView>, handle: u128, n: Seq<char>)
    ensures
        spec_lookup(spec_observe(s, handle, Some(n)), handle) == Some(
            DeviceIdView { peripheral_id: handle, name: n },
        ),
{
    lemma_lookup_upsert(s, 0, DeviceIdView { peripheral_id: handle, name: n }, handle);
}

/// Maps each transient, session-scoped device handle to the best known
/// identity for the device, populated opportunistically as discovery events
/// arrive.  Entries live for the process lifetime; a later named discovery
/// for the same handle overwrites the stored name.
pub struct IdentityCache {
    entries: Vec<DeviceId>,
}

impl View for IdentityCache {
    type V = Seq<DeviceIdView>;

    closed spec fn view(&self) -> Seq<DeviceIdView> {
        self.entries@.map_values(|d: DeviceId| d@)
    }
}

impl IdentityCache {
    /// An empty cache: no handle resolves.
    pub fn new() -> (c: IdentityCache)
        ensures
            c@ == Seq::<DeviceIdView>::empty(),
    {
        let c = IdentityCache { entries: Vec::new() };
        proof {
            assert(c@ =~= Seq::<DeviceIdView>::empty());
        }
        c
    }

    /// Pure lookup of the identity recorded for a handle, with no side
    /// effect on the cache.
    pub fn resolve(&self, handle: u128) -> (r: Option<DeviceId>)
        ensures
            opt_id_view(r) == spec_lookup(self@, handle),
    {
        let n = self.entries.len();
        let mut i: usize = 0;
        while i < n
            invariant
                n == self.entries.len(),
                i <= n,
                lookup_from(self@, 0, handle) == lookup_from(self@, i as int, handle),
            decreases n - i,
        {
            if self.entries[i].peripheral_id == handle {
                let found = self.entries[i].clone();
                proof {
                    assert(self@[i as int] == self.entries@[i as int]@);
                }
                return Some(found);
            }
            proof {
                assert(self@[i as int] == self.entries@[i as int]@);
            }
            i = i + 1;
        }
        None
    }

    /// Records the identity advertised by a discovery event.  A discovery
    /// that carries no name neither creates nor overwrites an entry; a named
    /// one upserts, so the cache always holds the best known name.
    pub fn observe_discovery(&mut self, handle: u128, name: Option<String>)
        ensures
            final(self)@ == spec_observe(old(self)@, handle, opt_name_view(name)),
    {
        let nm = match name {
            Some(nm) => nm,
            None => {
                return ;
            },
        };
        let d = DeviceId { peripheral_id: handle, device_name: nm };
        let ghost de = d;
        let ghost dv = d@;
        let n = self.entries.len();
        let mut i: usize = 0;
        while i < n
            invariant
                self.entries@ == old(self).entries@,
                n == self.entries.len(),
                i <= n,
                d == de,
                de@ == dv,
                dv.peripheral_id == handle,
                spec_observe(old(self)@, handle, opt_name_view(name)) == upsert_from(
                    old(self)@,
                    i as int,
                    dv,
                ),
            decreases n - i,
        {
            proof {
                assert(self@[i as int] == self.entries@[i as int]@);
            }
            if self.entries[i].peripheral_id == handle {
                let _replaced = self.entries.remove(i);
                self.entries.insert(i, d);
                proof {
                    old(self).entries@.remove_ensures(i as int);
                    old(self).entries@.remove(i as int).insert_ensures(i as int, de);
                    assert(self.entries@ =~= old(self).entries@.update(i as int, de));
                    assert(self@ =~= old(self)@.update(i as int, dv));
                }
                return ;
            }
            i = i + 1;
        }
        self.entries.push(d);
        proof {
            assert(self.entries@ =~= old(self).entries@.push(de));
            assert(self@ =~= old(self)@.push(dv));
        }
    }
}

} // verus!
