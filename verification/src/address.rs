use vstd::prelude::*;

verus! {

/// A Stellar address, held as the bytes of its strkey text
/// (`G...` for accounts, `C...` for contracts).
#[derive(Clone, Debug, PartialEq, Eq)]
pub struct Address {
    pub strkey: Vec<u8>,
}

impl View for Address {
    type V = Seq<u8>;

    open spec fn view(&self) -> Seq<u8> {
        self.strkey@
    }
}

impl Address {
    pub fn new(strkey: Vec<u8>) -> (a: Address)
        ensures
            a@ == strkey@,
    {
        Address { strkey }
    }

    /// A copy of this address.
    pub fn duplicate(&self) -> (a: Address)
        ensures
            a@ == self@,
    {
        Address { strkey: copy_bytes(&self.strkey) }
    }

    /// Whether two addresses are the same.
    pub fn same_as(&self, other: &Address) -> (b: bool)
        ensures
            b == (self@ == other@),
    {
        same_bytes(&self.strkey, &other.strkey)
    }
}

/// The view of an optional address.
pub open spec fn opt_view(a: Option<Address>) -> Option<Seq<u8>> {
    match a {
        Some(x) => Some(x@),
        None => None,
    }
}

/// A copy of an optional address.
pub fn duplicate_opt(a: &Option<Address>) -> (r: Option<Address>)
    ensures
        opt_view(r) == opt_view(*a),
{
    match a {
        Some(x) => Some(x.duplicate()),
        None => None,
    }
}

/// Whether two optional addresses are the same.
pub fn same_opt(a: &Option<Address>, b: &Option<Address>) -> (r: bool)
    ensures
        r == (opt_view(*a) == opt_view(*b)),
{
    match (a, b) {
        (Some(x), Some(y)) => x.same_as(y),
        (None, None) => true,
        _ => false,
    }
}

/// Whether two byte strings are the same.
pub fn same_bytes(a: &Vec<u8>, b: &Vec<u8>) -> (r: bool)
    ensures
        r == (a@ == b@),
{
    if a.len() != b.len() {
        return false;
    }
    let mut i: usize = 0;
    while i < a.len()
        invariant
            i <= a.len(),
            a.len() == b.len(),
            forall|j: int| 0 <= j < i ==> a@[j] == b@[j],
        decreases a.len() - i,
    {
        if a[i] != b[i] {
            return false;
        }
        i = i + 1;
    }
    assert(a@ =~= b@);
    true
}

/// A copy of a byte string.
pub fn copy_bytes(a: &Vec<u8>) -> (r: Vec<u8>)
    ensures
        r@ == a@,
{
    let mut bytes: Vec<u8> = Vec::new();
    let mut i: usize = 0;
    while i < a.len()
        invariant
            i <= a.len(),
            bytes@ == a@.subrange(0, i as int),
        decreases a.len() - i,
    {
        bytes.push(a[i]);
        i = i + 1;
    }
    assert(bytes@ == a@);
    bytes
}

} // verus!
