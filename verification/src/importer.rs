use vstd::prelude::*;
use crate::com::{Resolved, S_FALSE, S_OK};
use crate::description::{describe, description_of};
use crate::heap::{Heap, NULL};
use crate::iid::{iunknown_bytes, lemma_iid_equal_by_bytes, IUnknownUUID, IID};
use crate::lifecycle::{
    fault_of, lemma_counter_of, query_fault_of, RefCount, RefCountError, RefOp,
};

verus! {

/// The attribute under which the importer files a human-readable description.
#[allow(non_upper_case_globals)]
pub const kMDItemDescription: &'static str = "kMDItemDescription";

/// The bytes of the plug-in type that the factory makes objects for.
pub open spec fn importer_type_bytes() -> Seq<u8> {
    seq![
        0x8Bu8, 0x08, 0xC4, 0xBF, 0x41, 0x5B, 0x11, 0xD8,
        0xB3, 0xF9, 0x00, 0x03, 0x93, 0x67, 0x26, 0xFC,
    ]
}

/// The bytes of the importer interface's identity.
pub open spec fn importer_interface_bytes() -> Seq<u8> {
    seq![
        0x6Eu8, 0xBC, 0x27, 0xC4, 0x89, 0x9C, 0x11, 0xD8,
        0x84, 0xAE, 0x00, 0x03, 0x93, 0x67, 0x26, 0xFC,
    ]
}

/// The bytes under which instances of this factory are registered with the
/// host.
pub open spec fn factory_bytes() -> Seq<u8> {
    seq![
        0xd8u8, 0x78, 0x57, 0xf7, 0xb0, 0xc0, 0x4c, 0x70,
        0x9b, 0x8f, 0x2e, 0x3d, 0x8e, 0x55, 0x19, 0x8c,
    ]
}

/// The identity of the plug-in type that the factory makes objects for.
#[allow(non_snake_case)]
pub fn kMDImporterTypeID() -> (iid: IID)
    ensures
        iid@ == importer_type_bytes(),
{
    let iid = IID([
        0x8B, 0x08, 0xC4, 0xBF, 0x41, 0x5B, 0x11, 0xD8,
        0xB3, 0xF9, 0x00, 0x03, 0x93, 0x67, 0x26, 0xFC,
    ]);
    assert(iid@ =~= importer_type_bytes());
    iid
}

/// The identity of the importer interface.
#[allow(non_snake_case)]
pub fn kMDImporterInterfaceID() -> (iid: IID)
    ensures
        iid@ == importer_interface_bytes(),
{
    let iid = IID([
        0x6E, 0xBC, 0x27, 0xC4, 0x89, 0x9C, 0x11, 0xD8,
        0x84, 0xAE, 0x00, 0x03, 0x93, 0x67, 0x26, 0xFC,
    ]);
    assert(iid@ =~= importer_interface_bytes());
    iid
}

/// The identity under which instances of this factory are registered with
/// the host. It is not an interface identity.
#[allow(non_snake_case)]
pub fn MetadataImporterPluginFactoryUUID() -> (iid: IID)
    ensures
        iid@ == factory_bytes(),
{
    let iid = IID([
        0xd8, 0x78, 0x57, 0xf7, 0xb0, 0xc0, 0x4c, 0x70,
        0x9b, 0x8f, 0x2e, 0x3d, 0x8e, 0x55, 0x19, 0x8c,
    ]);
    assert(iid@ =~= factory_bytes());
    iid
}

/// Whether an importer object answers a query for `iid`: it does for the
/// importer interface and for the universal base identity, and for nothing
/// else.
pub open spec fn importer_answers(iid: IID) -> bool {
    iid@ == importer_interface_bytes() || iid@ == iunknown_bytes()
}

/// Whether an importer object answers a query for `iid`.
pub fn is_importer_interface(iid: &IID) -> (yes: bool)
    ensures
        yes == importer_answers(*iid),
{
    let importer = kMDImporterInterfaceID();
    let base = IUnknownUUID();
    proof {
        lemma_iid_equal_by_bytes(*iid, importer);
        lemma_iid_equal_by_bytes(*iid, base);
    }
    *iid == importer || *iid == base
}

/// What an importer object is, to a contract.
pub struct ImporterState {
    /// The registration that the object still owns, if any.
    pub factory_id: Option<IID>,
    /// Its reference count.
    pub ref_count: nat,
}

/// An importer plug-in object: its count, and the registration with the
/// host that it owns until its last release.
#[derive(Debug)]
pub struct MetadataImporterPluginType {
    factory_id: Option<IID>,
    ref_count: RefCount,
}

impl View for MetadataImporterPluginType {
    type V = ImporterState;

    closed spec fn view(&self) -> ImporterState {
        ImporterState { factory_id: self.factory_id, ref_count: self.ref_count@ }
    }
}

/// What a release did, and what is left for the caller to do with the host.
#[derive(Clone, Copy, Debug)]
pub struct Released {
    /// The count after the release.
    pub count: u32,
    /// The registration to remove from the host's registry: present
    /// exactly when this release was the last.
    pub unregister: Option<IID>,
}

/// The typed logic behind the importer interface's base slots.
#[derive(Clone, Copy, Debug)]
pub struct MDImporterInterfaceStruct {}

impl MDImporterInterfaceStruct {
    /// Answers a query for `iid` on `handle`, the object at the address
    /// `this`. Where the object has the interface, the output is the
    /// object's own address, one reference is added and the result is
    /// `S_OK`. Else the output is null, nothing changes and the result is
    /// `S_FALSE`.
    pub fn query_interface_safe(
        &self,
        handle: &mut MetadataImporterPluginType,
        this: usize,
        iid: IID,
    ) -> (res: Resolved)
        requires
            importer_answers(iid) ==> 1 <= old(handle)@.ref_count < u32::MAX,
        ensures
            importer_answers(iid) ==> {
                &&& res.hr == S_OK
                &&& res.out == this
                &&& final(handle)@ == (ImporterState {
                    ref_count: old(handle)@.ref_count + 1,
                    ..old(handle)@
                })
            },
            !importer_answers(iid) ==> {
                &&& res.hr == S_FALSE
                &&& res.out == NULL
                &&& *final(handle) == *old(handle)
            },
    {
        if is_importer_interface(&iid) {
            handle.add_ref();
            Resolved { hr: S_OK, out: this }
        } else {
            Resolved { hr: S_FALSE, out: NULL }
        }
    }
}

impl MetadataImporterPluginType {
    /// An object as the factory makes it: one reference, and the
    /// registration `factory_id` to remove at its last release.
    pub fn new(factory_id: IID) -> (object: MetadataImporterPluginType)
        ensures
            object@ == (ImporterState { factory_id: Some(factory_id), ref_count: 1 }),
    {
        MetadataImporterPluginType { factory_id: Some(factory_id), ref_count: RefCount::new(1) }
    }

    /// The logic behind this object's interface.
    pub fn intf(&self) -> (table: MDImporterInterfaceStruct) {
        MDImporterInterfaceStruct {  }
    }

    /// The registration that the object owns.
    pub fn factory_id(&self) -> (id: IID)
        requires
            self@.factory_id is Some,
        ensures
            Some(id) == self@.factory_id,
    {
        self.factory_id.unwrap()
    }

    /// The registration that the object owns, if it still owns one.
    pub fn registration(&self) -> (id: Option<IID>)
        ensures
            id == self@.factory_id,
    {
        self.factory_id
    }

    /// The current count.
    pub fn ref_count(&self) -> (count: u32)
        ensures
            count == self@.ref_count,
    {
        self.ref_count.get()
    }

    /// Answers a query for `iid` on this object, which stands at the
    /// address `this`, through the object's interface: the output is `this`
    /// and the count is one higher where the object has the interface; the
    /// output is null and nothing changes where it has not.
    pub fn query_interface(&mut self, this: usize, iid: IID) -> (res: Resolved)
        requires
            importer_answers(iid) ==> 1 <= old(self)@.ref_count < u32::MAX,
        ensures
            importer_answers(iid) ==> {
                &&& res.hr == S_OK
                &&& res.out == this
                &&& final(self)@ == (ImporterState {
                    ref_count: old(self)@.ref_count + 1,
                    ..old(self)@
                })
            },
            !importer_answers(iid) ==> {
                &&& res.hr == S_FALSE
                &&& res.out == NULL
                &&& *final(self) == *old(self)
            },
    {
        let table = self.intf();
        table.query_interface_safe(self, this, iid)
    }

    /// Adds one reference and returns the new count.
    pub fn add_ref(&mut self) -> (count: u32)
        requires
            1 <= old(self)@.ref_count < u32::MAX,
        ensures
            count == old(self)@.ref_count + 1,
            final(self)@ == (ImporterState { ref_count: count as nat, ..old(self)@ }),
    {
        self.ref_count.add_ref()
    }

    /// Gives one reference to the object at `this` back. The release that
    /// takes the count from one to zero deallocates the object in the same
    /// step, once, and hands out the registration that it owned, to be
    /// removed from the host's registry; any other release leaves both in
    /// place.
    pub fn release(heap: &mut Heap<MetadataImporterPluginType>, this: usize) -> (released:
        Released)
        requires
            holds_live_importer(*old(heap), this),
        ensures
            released.count == old(heap)@[this]@.ref_count - 1,
            released.count == 0 ==> {
                &&& released.unregister == old(heap)@[this]@.factory_id
                &&& final(heap)@ == old(heap)@.remove(this)
                &&& !final(heap)@.contains_key(this)
                &&& final(heap).deallocations() == old(heap).deallocations() + 1
            },
            released.count != 0 ==> {
                &&& released.unregister is None
                &&& final(heap)@.contains_key(this)
                &&& final(heap)@[this]@ == (ImporterState {
                    ref_count: released.count as nat,
                    ..old(heap)@[this]@
                })
                &&& final(heap)@ == old(heap)@.insert(this, final(heap)@[this])
                &&& final(heap).deallocations() == old(heap).deallocations()
            },
            final(heap).allocations() == old(heap).allocations(),
    {
        let hndl = heap.get_mut(this);
        let rc = hndl.ref_count.release();
        if rc != 0 {
            Released { count: rc, unregister: None }
        } else {
            let gone = heap.free(this);
            assert(final(heap)@ =~= old(heap)@.remove(this));
            Released { count: rc, unregister: gone.factory_id }
        }
    }

    /// `add_ref` on any object: on a count of zero, or on a full counter,
    /// the violation is reported and the object is left as it was.
    pub fn try_add_ref(&mut self) -> (res: Result<u32, RefCountError>)
        ensures
            match fault_of(true, Some(old(self)@.ref_count), RefOp::AddRef) {
                Some(fault) => res == Err::<u32, RefCountError>(fault) && *final(self) == *old(
                    self,
                ),
                None => {
                    &&& res == Ok::<u32, RefCountError>((old(self)@.ref_count + 1) as u32)
                    &&& final(self)@ == (ImporterState {
                        ref_count: old(self)@.ref_count + 1,
                        ..old(self)@
                    })
                },
            },
    {
        let res = self.ref_count.try_add_ref();
        proof {
            lemma_counter_of(old(self).ref_count);
            lemma_counter_of(self.ref_count);
        }
        res
    }
}

/// The count of the importer object that is allocated at `this`, if one
/// is.
pub open spec fn importer_count(heap: Heap<MetadataImporterPluginType>, this: usize) -> Option<
    nat,
> {
    if heap@.contains_key(this) {
        Some(heap@[this]@.ref_count)
    } else {
        None
    }
}

/// Whether `this` is the address of an importer object that is allocated
/// and alive.
pub open spec fn holds_live_importer(heap: Heap<MetadataImporterPluginType>, this: usize) -> bool {
    heap@.contains_key(this) && heap@[this]@.ref_count >= 1
}

/// What the factory returned, and what is left for the caller to do with
/// the host.
#[derive(Clone, Copy, Debug)]
pub struct Produced {
    /// The address of the new object, or null.
    pub object: usize,
    /// The registration to add to the host's registry: present exactly when
    /// an object was made.
    pub register: Option<IID>,
}

/// One string attribute for the host's attribute bag.
#[derive(Debug)]
pub struct Attribute {
    pub key: &'static str,
    pub value: String,
}

/// What an import produced.
#[derive(Debug)]
pub struct Imported {
    /// The one attribute to set in the host's bag, if there is one; no
    /// other key of the bag is to be touched.
    pub attribute: Option<Attribute>,
    /// What the import operation reports to the host.
    pub handled: bool,
}

/// Resolves the object at `this` to the interface `iid`. On a match the
/// output is the object's own address and the object gains one reference;
/// on a mismatch the output is null and nothing changes.
pub fn com_query_interface(
    heap: &mut Heap<MetadataImporterPluginType>,
    this: usize,
    iid: [u8; 16],
) -> (res: Resolved)
    requires
        old(heap)@.contains_key(this),
        importer_answers(IID(iid)) ==> 1 <= old(heap)@[this]@.ref_count < u32::MAX,
    ensures
        importer_answers(IID(iid)) ==> {
            &&& res.hr == S_OK
            &&& res.out == this
            &&& final(heap)@.contains_key(this)
            &&& final(heap)@[this]@ == (ImporterState {
                ref_count: old(heap)@[this]@.ref_count + 1,
                ..old(heap)@[this]@
            })
            &&& final(heap)@ == old(heap)@.insert(this, final(heap)@[this])
        },
        !importer_answers(IID(iid)) ==> {
            &&& res.hr == S_FALSE
            &&& res.out == NULL
            &&& final(heap)@ == old(heap)@
        },
        final(heap).allocations() == old(heap).allocations(),
        final(heap).deallocations() == old(heap).deallocations(),
{
    let iuuid = IID::from_bytes(iid);
    let hndl = heap.get_mut(this);
    let res = hndl.query_interface(this, iuuid);
    assert(!importer_answers(iuuid) ==> final(heap)@ =~= old(heap)@);
    res
}

/// `com_query_interface` for any address. Where the query is a contract
/// violation (no object there, an object that is gone, a full counter under
/// a query that the object answers) it is reported and nothing changes;
/// else the query is answered.
pub fn try_com_query_interface(
    heap: &mut Heap<MetadataImporterPluginType>,
    this: usize,
    iid: [u8; 16],
) -> (res: Result<Resolved, RefCountError>)
    ensures
        match query_fault_of(
            old(heap).was_allocated(this),
            importer_count(*old(heap), this),
            importer_answers(IID(iid)),
        ) {
            Some(fault) => res == Err::<Resolved, RefCountError>(fault) && *final(heap) == *old(
                heap,
            ),
            None => {
                &&& res is Ok
                &&& importer_answers(IID(iid)) ==> {
                    &&& res->Ok_0.hr == S_OK
                    &&& res->Ok_0.out == this
                    &&& final(heap)@.contains_key(this)
                    &&& final(heap)@[this]@ == (ImporterState {
                        ref_count: old(heap)@[this]@.ref_count + 1,
                        ..old(heap)@[this]@
                    })
                    &&& final(heap)@ == old(heap)@.insert(this, final(heap)@[this])
                }
                &&& !importer_answers(IID(iid)) ==> {
                    &&& res->Ok_0.hr == S_FALSE
                    &&& res->Ok_0.out == NULL
                    &&& final(heap)@ == old(heap)@
                }
                &&& final(heap).allocations() == old(heap).allocations()
                &&& final(heap).deallocations() == old(heap).deallocations()
            },
        },
{
    if !heap.is_live(this) {
        if heap.was_handed_out(this) {
            Err(RefCountError::Dead)
        } else {
            Err(RefCountError::NoObject)
        }
    } else {
        let count = heap.get(this).ref_count();
        let answers = is_importer_interface(&IID::from_bytes(iid));
        if count == 0 {
            Err(RefCountError::Dead)
        } else if answers && count == u32::MAX {
            Err(RefCountError::Overflow)
        } else {
            Ok(com_query_interface(heap, this, iid))
        }
    }
}

/// Adds one reference to the object at `this` and returns the new count.
pub fn com_add_ref(heap: &mut Heap<MetadataImporterPluginType>, this: usize) -> (count: u32)
    requires
        holds_live_importer(*old(heap), this),
        old(heap)@[this]@.ref_count < u32::MAX,
    ensures
        count == old(heap)@[this]@.ref_count + 1,
        final(heap)@.contains_key(this),
        final(heap)@[this]@ == (ImporterState { ref_count: count as nat, ..old(heap)@[this]@ }),
        final(heap)@ == old(heap)@.insert(this, final(heap)@[this]),
        final(heap).allocations() == old(heap).allocations(),
        final(heap).deallocations() == old(heap).deallocations(),
{
    let hndl = heap.get_mut(this);
    hndl.add_ref()
}

/// Gives one reference to the object at `this` back. The release that
/// takes the count from one to zero deallocates the object, once, and hands
/// out the registration that it owned, to be removed from the host's
/// registry; any other release leaves both in place.
pub fn com_release(heap: &mut Heap<MetadataImporterPluginType>, this: usize) -> (released:
    Released)
    requires
        holds_live_importer(*old(heap), this),
    ensures
        released.count == old(heap)@[this]@.ref_count - 1,
        released.count == 0 ==> {
            &&& released.unregister == old(heap)@[this]@.factory_id
            &&& final(heap)@ == old(heap)@.remove(this)
            &&& !final(heap)@.contains_key(this)
            &&& final(heap).deallocations() == old(heap).deallocations() + 1
        },
        released.count != 0 ==> {
            &&& released.unregister is None
            &&& final(heap)@.contains_key(this)
            &&& final(heap)@[this]@ == (ImporterState {
                ref_count: released.count as nat,
                ..old(heap)@[this]@
            })
            &&& final(heap)@ == old(heap)@.insert(this, final(heap)@[this])
            &&& final(heap).deallocations() == old(heap).deallocations()
        },
        final(heap).allocations() == old(heap).allocations(),
{
    MetadataImporterPluginType::release(heap, this)
}

/// `com_add_ref` for any address. Where the operation is a contract
/// violation (no object there, an object that is gone, a full counter) it is
/// reported and nothing changes; else one reference is added.
pub fn try_com_add_ref(heap: &mut Heap<MetadataImporterPluginType>, this: usize) -> (res: Result<
    u32,
    RefCountError,
>)
    ensures
        match fault_of(
            old(heap).was_allocated(this),
            importer_count(*old(heap), this),
            RefOp::AddRef,
        ) {
            Some(fault) => res == Err::<u32, RefCountError>(fault) && *final(heap) == *old(heap),
            None => {
                &&& res == Ok::<u32, RefCountError>((old(heap)@[this]@.ref_count + 1) as u32)
                &&& final(heap)@.contains_key(this)
                &&& final(heap)@[this]@ == (ImporterState {
                    ref_count: old(heap)@[this]@.ref_count + 1,
                    ..old(heap)@[this]@
                })
                &&& final(heap)@ == old(heap)@.insert(this, final(heap)@[this])
                &&& final(heap).allocations() == old(heap).allocations()
                &&& final(heap).deallocations() == old(heap).deallocations()
            },
        },
{
    if !heap.is_live(this) {
        if heap.was_handed_out(this) {
            Err(RefCountError::Dead)
        } else {
            Err(RefCountError::NoObject)
        }
    } else {
        let count = heap.get(this).ref_count();
        if count == 0 {
            Err(RefCountError::Dead)
        } else if count == u32::MAX {
            Err(RefCountError::Overflow)
        } else {
            Ok(com_add_ref(heap, this))
        }
    }
}

/// `com_release` for any address. Where the operation is a contract
/// violation (no object there, or an object that is gone) it is reported and
/// nothing changes: nothing is deallocated and no registration is handed
/// out a second time. Else one reference is given back; where it was the
/// last, the object is deallocated and its registration handed out.
pub fn try_com_release(heap: &mut Heap<MetadataImporterPluginType>, this: usize) -> (res: Result<
    Released,
    RefCountError,
>)
    ensures
        match fault_of(
            old(heap).was_allocated(this),
            importer_count(*old(heap), this),
            RefOp::Release,
        ) {
            Some(fault) => res == Err::<Released, RefCountError>(fault) && *final(heap) == *old(
                heap,
            ),
            None => {
                &&& res is Ok
                &&& res->Ok_0.count == old(heap)@[this]@.ref_count - 1
                &&& res->Ok_0.count == 0 ==> {
                    &&& res->Ok_0.unregister == old(heap)@[this]@.factory_id
                    &&& final(heap)@ == old(heap)@.remove(this)
                    &&& !final(heap)@.contains_key(this)
                    &&& final(heap).deallocations() == old(heap).deallocations() + 1
                }
                &&& res->Ok_0.count != 0 ==> {
                    &&& res->Ok_0.unregister is None
                    &&& final(heap)@.contains_key(this)
                    &&& final(heap)@[this]@ == (ImporterState {
                        ref_count: res->Ok_0.count as nat,
                        ..old(heap)@[this]@
                    })
                    &&& final(heap)@ == old(heap)@.insert(this, final(heap)@[this])
                    &&& final(heap).deallocations() == old(heap).deallocations()
                }
                &&& final(heap).allocations() == old(heap).allocations()
            },
        },
{
    if !heap.is_live(this) {
        if heap.was_handed_out(this) {
            Err(RefCountError::Dead)
        } else {
            Err(RefCountError::NoObject)
        }
    } else if heap.get(this).ref_count() == 0 {
        Err(RefCountError::Dead)
    } else {
        Ok(com_release(heap, this))
    }
}

/// The import operation for the file at `path_to_file`, whose first line
/// the caller has read: `first_line` is that line, or nothing where the file
/// could not be read.
///
/// Where there is a line, the description derived from it is filed under
/// `kMDItemDescription`, and nothing else is; where there is none, nothing
/// is filed. The object and its count are not touched. The operation
/// reports `false` to the host in either case.
pub fn com_importer_import_data(
    heap: &Heap<MetadataImporterPluginType>,
    this: usize,
    content_type_uti: &str,
    path_to_file: &str,
    first_line: Option<&str>,
) -> (imported: Imported)
    ensures
        first_line is Some <==> imported.attribute is Some,
        imported.attribute is Some ==> {
            &&& imported.attribute->0.key@ == kMDItemDescription@
            &&& imported.attribute->0.value@ == description_of(first_line->0@)
        },
        !imported.handled,
{
    match first_line {
        Some(line) => {
            let attribute = Attribute { key: kMDItemDescription, value: describe(line) };
            Imported { attribute: Some(attribute), handled: false }
        },
        None => Imported { attribute: None, handled: false },
    }
}

/// Makes an importer object for the plug-in type `in_factory_id`.
///
/// For the importer's type it allocates an object with one reference that
/// owns the factory's registration, and tells the caller to register it.
/// For any other identity, or when the heap has no room, it returns null,
/// allocates nothing and registers nothing.
#[allow(non_snake_case)]
pub fn MetadataImporterPluginFactory(
    heap: &mut Heap<MetadataImporterPluginType>,
    in_factory_id: IID,
) -> (produced: Produced)
    ensures
        in_factory_id@ != importer_type_bytes() || old(heap).is_full() ==> {
            &&& produced.object == NULL
            &&& produced.register is None
            &&& *final(heap) == *old(heap)
        },
        in_factory_id@ == importer_type_bytes() && !old(heap).is_full() ==> {
            &&& produced.object != NULL
            &&& !old(heap).was_allocated(produced.object)
            &&& !old(heap)@.contains_key(produced.object)
            &&& final(heap).was_allocated(produced.object)
            &&& produced.register is Some
            &&& produced.register->0@ == factory_bytes()
            &&& final(heap)@.contains_key(produced.object)
            &&& final(heap)@[produced.object]@ == (ImporterState {
                factory_id: produced.register,
                ref_count: 1,
            })
            &&& final(heap)@ == old(heap)@.insert(produced.object, final(heap)@[produced.object])
            &&& final(heap).allocations() == old(heap).allocations() + 1
            &&& final(heap).deallocations() == old(heap).deallocations()
        },
{
    let importer_uuid = kMDImporterTypeID();
    proof {
        lemma_iid_equal_by_bytes(in_factory_id, importer_uuid);
    }
    if in_factory_id != importer_uuid {
        Produced { object: NULL, register: None }
    } else {
        let ifu = MetadataImporterPluginFactoryUUID();
        let r = heap.allocate(MetadataImporterPluginType::new(ifu));
        if r == NULL {
            Produced { object: NULL, register: None }
        } else {
            Produced { object: r, register: Some(ifu) }
        }
    }
}

} // verus!
