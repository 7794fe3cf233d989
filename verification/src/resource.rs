//! The resource store: large binary inputs kept out-of-line and reached
//! through a generated id.
//!
//! `Resource` is the capability interface both backends answer to. The
//! row-backed store (`MemResource`) is verified here in full. The
//! filesystem backend keeps its blobs outside the process, so only its
//! id-to-path resolution lives here; the reads and writes themselves are
//! wired up around the library.

use vstd::prelude::*;
use vstd::string::{StrSliceExecFns, StringExecFns};

use crate::errors::ProxyError;
use crate::outside::{fresh_uuid, is_id_char};

verus! {

/// One stored blob: a generated id and the opaque payload. Created once,
/// immutable thereafter, never deleted by this subsystem.
pub struct ResourceInfo {
    pub id: String,
    pub data: Vec<u8>,
}

/// Some row in `s` carries the id `id`.
pub open spec fn has_resource(s: Seq<ResourceInfo>, id: Seq<char>) -> bool {
    exists|i: int| 0 <= i < s.len() && (#[trigger] s[i]).id@ == id
}

/// No two rows in `s` share an id.
pub open spec fn distinct_resource_ids(s: Seq<ResourceInfo>) -> bool {
    forall|i: int, j: int| 0 <= i < j < s.len() ==> s[i].id@ != s[j].id@
}

/// The whole effect of one successful store: one fresh row appended,
/// everything else untouched.
pub open spec fn store_step(s0: Seq<ResourceInfo>, s1: Seq<ResourceInfo>, id: Seq<char>, data: Seq<u8>) -> bool {
    &&& !has_resource(s0, id)
    &&& s1.len() == s0.len() + 1
    &&& forall|j: int| 0 <= j < s0.len() ==> s1[j] == s0[j]
    &&& s1.last().id@ == id
    &&& s1.last().data@ == data
}

/// The capability interface of a resource backend: map an opaque blob to a
/// generated id and back. Both backends must be substitutable without
/// changing caller behaviour beyond performance.
pub trait Resource: Sized {
    /// The rows the backend holds, in store order.
    spec fn resources(&self) -> Seq<ResourceInfo>;

    /// The backend's invariant; `store_resource_info` preserves it.
    spec fn inv(&self) -> bool;

    /// Look a blob up by id; `NotFound` exactly when no such id was ever
    /// stored.
    fn get_resource_info(&self, resource_id: &String) -> (r: Result<Vec<u8>, ProxyError>)
        requires
            self.inv(),
        ensures
            match r {
                Ok(b) => exists|i: int|
                    0 <= i < self.resources().len()
                        && (#[trigger] self.resources()[i]).id@ == resource_id@
                        && b@ == self.resources()[i].data@,
                Err(e) => e == ProxyError::NotFound
                    && !has_resource(self.resources(), resource_id@),
            };

    /// Store a blob under a freshly generated id. Fails only when the
    /// generated id collides with a stored one; nothing changes then.
    fn store_resource_info(&mut self, resource: Vec<u8>) -> (r: Result<String, ProxyError>)
        requires
            old(self).inv(),
        ensures
            final(self).inv(),
            match r {
                Ok(id) => store_step(old(self).resources(), final(self).resources(), id@, resource@),
                Err(e) => e == ProxyError::Storage
                    && final(self).resources() == old(self).resources(),
            };
}

/// The row-backed store: blobs kept as rows of the data store itself.
pub struct MemResource {
    rows: Vec<ResourceInfo>,
}

impl MemResource {
    /// An empty store.
    pub fn new() -> (r: MemResource)
        ensures
            r.inv(),
            r.resources().len() == 0,
    {
        MemResource { rows: Vec::new() }
    }

    /// The index of the row with id `id`, if any.
    fn index_of(&self, id: &String) -> (r: Option<usize>)
        ensures
            match r {
                Some(i) => i < self.rows@.len() && self.rows@[i as int].id@ == id@,
                None => !has_resource(self.rows@, id@),
            },
    {
        let n = self.rows.len();
        let mut i: usize = 0;
        while i < n
            invariant
                n == self.rows@.len(),
                i <= n,
                forall|j: int| 0 <= j < i ==> (#[trigger] self.rows@[j]).id@ != id@,
            decreases n - i,
        {
            if self.rows[i].id == *id {
                return Some(i);
            }
            i = i + 1;
        }
        None
    }

    /// Store a blob under the given id: succeeds exactly when no stored row
    /// carries `id` yet, and changes nothing otherwise.
    pub fn store_with_id(&mut self, id: String, resource: Vec<u8>) -> (r: Result<String, ProxyError>)
        requires
            old(self).inv(),
        ensures
            final(self).inv(),
            match r {
                Ok(out) => out@ == id@
                    && store_step(old(self).resources(), final(self).resources(), id@, resource@),
                Err(e) => {
                    &&& e == ProxyError::Storage
                    &&& has_resource(old(self).resources(), id@)
                    &&& final(self).resources() == old(self).resources()
                },
            },
    {
        if self.index_of(&id).is_some() {
            return Err(ProxyError::Storage);
        }
        let row = ResourceInfo { id: id.clone(), data: resource };
        self.rows.push(row);
        Ok(id)
    }
}

impl Resource for MemResource {
    closed spec fn resources(&self) -> Seq<ResourceInfo> {
        self.rows@
    }

    closed spec fn inv(&self) -> bool {
        distinct_resource_ids(self.rows@)
    }

    fn get_resource_info(&self, resource_id: &String) -> (r: Result<Vec<u8>, ProxyError>) {
        match self.index_of(resource_id) {
            Some(i) => {
                let b = crate::util::dup_bytes(&self.rows[i].data);
                proof {
                    assert(self.resources()[i as int].id@ == resource_id@);
                    assert(b@ == self.resources()[i as int].data@);
                }
                Ok(b)
            },
            None => Err(ProxyError::NotFound),
        }
    }

    fn store_resource_info(&mut self, resource: Vec<u8>) -> (r: Result<String, ProxyError>) {
        let id = fresh_uuid();
        self.store_with_id(id, resource)
    }
}

/// Round-trip: after a blob is stored under a fresh id, every row carrying
/// that id holds exactly that blob; with `get_resource_info`'s contract,
/// a lookup of the returned id hands the bytes back unchanged.
pub proof fn lemma_store_get_round_trip(s0: Seq<ResourceInfo>, s1: Seq<ResourceInfo>, id: Seq<char>, data: Seq<u8>)
    requires
        store_step(s0, s1, id, data),
    ensures
        has_resource(s1, id),
        forall|i: int|
            0 <= i < s1.len() && (#[trigger] s1[i]).id@ == id ==> s1[i].data@ == data,
{
    assert(s1[s0.len() as int].id@ == id);
    assert forall|i: int| 0 <= i < s1.len() && (#[trigger] s1[i]).id@ == id implies s1[i].data@
        == data by {
        if i < s0.len() {
            assert(s0[i].id@ == id);
            assert(has_resource(s0, id));
        } else {
            assert(s1[i] == s1.last());
        }
    }
}

/// A well-formed generated id: non-empty, nothing but hexadecimal digits
/// and hyphens. No path separator and no dot can occur in one, so the
/// filesystem backend resolves it to a name strictly under its root.
pub open spec fn safe_resource_id(s: Seq<char>) -> bool {
    s.len() > 0 && forall|i: int| 0 <= i < s.len() ==> is_id_char(#[trigger] s[i])
}

/// Whether `s` is a well-formed generated id, decided executably.
pub fn id_is_safe(s: &String) -> (b: bool)
    ensures
        b == safe_resource_id(s@),
{
    let n = s.as_str().unicode_len();
    if n == 0 {
        return false;
    }
    let mut i: usize = 0;
    while i < n
        invariant
            n == s@.len(),
            i <= n,
            forall|j: int| 0 <= j < i ==> is_id_char(#[trigger] s@[j]),
        decreases n - i,
    {
        let c = s.as_str().get_char(i);
        let u = c as u32;
        let ok = (48 <= u && u <= 57) || (97 <= u && u <= 102) || u == 45;
        if !ok {
            return false;
        }
        i = i + 1;
    }
    true
}

/// The filesystem backend's root directory and its id-to-path rule. The
/// blobs themselves live outside the process, so the reads and writes are
/// wired up around the library; everything this type decides — which ids
/// are acceptable and which path an id names — is stated and proved here.
pub struct FileResource {
    pub root: String,
}

impl FileResource {
    pub fn new(root: String) -> (r: Self)
        ensures
            r.root == root,
    {
        FileResource { root }
    }

    /// Resolve `resource_id` to a path directly under the root. Ids that
    /// are not well-formed generated ids are rejected, so an id can never
    /// name anything outside the root; generated ids are always accepted.
    pub fn resource_path(&self, resource_id: &String) -> (r: Option<String>)
        ensures
            match r {
                Some(p) => safe_resource_id(resource_id@)
                    && p@ == self.root@ + "/"@ + resource_id@,
                None => !safe_resource_id(resource_id@),
            },
    {
        if !id_is_safe(resource_id) {
            return None;
        }
        let p = self.root.clone().concat("/").concat(resource_id.as_str());
        proof {
            assert(p@ =~= self.root@ + "/"@ + resource_id@);
        }
        Some(p)
    }
}

} // verus!
