use vstd::prelude::*;

verus! {

/// A 128-bit interface identity. Two identities are the same exactly when all
/// sixteen bytes agree; there is no hierarchy among them.
#[derive(Clone, Copy, Debug, Hash)]
pub struct IID(pub [u8; 16]);

impl View for IID {
    type V = Seq<u8>;

    open spec fn view(&self) -> Seq<u8> {
        self.0@
    }
}

impl PartialEq for IID {
    fn eq(&self, other: &IID) -> (same: bool) {
        let mut i: usize = 0;
        while i < 16
            invariant
                i <= 16,
                forall|j: int| 0 <= j < i ==> self.0@[j] == other.0@[j],
            decreases 16 - i,
        {
            if self.0[i] != other.0[i] {
                return false;
            }
            i += 1;
        }
        assert(self.0 =~= other.0);
        true
    }
}

impl Eq for IID {

}

impl vstd::std_specs::cmp::PartialEqSpecImpl for IID {
    open spec fn obeys_eq_spec() -> bool {
        true
    }

    open spec fn eq_spec(&self, other: &IID) -> bool {
        *self == *other
    }
}

impl IID {
    /// The identity whose bytes are `bytes`, in order.
    pub fn from_bytes(bytes: [u8; 16]) -> (iid: IID)
        ensures
            iid.0 == bytes,
            iid@ == bytes@,
    {
        IID(bytes)
    }

    /// The sixteen bytes of the identity, in order.
    pub fn bytes(&self) -> (bytes: [u8; 16])
        ensures
            bytes == self.0,
            bytes@ == self@,
    {
        self.0
    }
}

/// Identities are compared by value: equal views mean equal identities.
pub proof fn lemma_iid_equal_by_bytes(a: IID, b: IID)
    ensures
        (a == b) <==> (a@ == b@),
{
    if a@ == b@ {
        assert(a.0 =~= b.0);
    }
}

/// The bytes of the universal base identity, which every object answers.
pub open spec fn iunknown_bytes() -> Seq<u8> {
    seq![
        0x00u8, 0x00, 0x00, 0x00, 0x00, 0x00, 0x00, 0x00,
        0xC0, 0x00, 0x00, 0x00, 0x00, 0x00, 0x00, 0x46,
    ]
}

/// The universal base identity.
#[allow(non_snake_case)]
pub fn IUnknownUUID() -> (iid: IID)
    ensures
        iid@ == iunknown_bytes(),
{
    let iid = IID([
        0x00, 0x00, 0x00, 0x00, 0x00, 0x00, 0x00, 0x00,
        0xC0, 0x00, 0x00, 0x00, 0x00, 0x00, 0x00, 0x46,
    ]);
    assert(iid@ =~= iunknown_bytes());
    iid
}

} // verus!
