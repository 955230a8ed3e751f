//! Choosing the server's private key among the items of a PEM file: the
//! first PKCS#8 or RSA key is used, every other item is passed over.
use vstd::prelude::*;

verus! {

/// The kind of one PEM item.
#[derive(Clone, Copy, Debug, PartialEq, Eq, Structural)]
pub enum PemKind {
    Pkcs8Key,
    RsaKey,
    /// A certificate, or any other item that is no usable key.
    Other,
}

/// One item of a PEM file: its kind and its DER bytes.
#[derive(Clone, Debug, PartialEq, Eq)]
pub struct PemItem {
    pub kind: PemKind,
    pub der: Vec<u8>,
}

/// The file holds no usable private key.
#[derive(Clone, Copy, Debug, PartialEq, Eq, Structural)]
pub enum KeyError {
    NoPrivateKey,
}

pub open spec fn is_key(k: PemKind) -> bool {
    k == PemKind::Pkcs8Key || k == PemKind::RsaKey
}

/// `i` is the position of the first key among `items`.
pub open spec fn is_first_key(items: Seq<PemItem>, i: int) -> bool {
    &&& 0 <= i < items.len()
    &&& is_key(items[i].kind)
    &&& forall|j: int| 0 <= j < i ==> !is_key(#[trigger] items[j].kind)
}

/// The DER bytes of the first PKCS#8 or RSA key, or `NoPrivateKey` where
/// there is none.
pub fn select_private_key(items: &Vec<PemItem>) -> (r: Result<Vec<u8>, KeyError>)
    ensures
        r matches Ok(der) ==> exists|i: int| is_first_key(items@, i) && der@ == items@[i].der@,
        r is Err <==> forall|j: int| 0 <= j < items@.len() ==> !is_key(#[trigger] items@[j].kind),
{
    let mut i: usize = 0;
    while i < items.len()
        invariant
            i <= items@.len(),
            forall|j: int| 0 <= j < i ==> !is_key(#[trigger] items@[j].kind),
        decreases items@.len() - i,
    {
        match items[i].kind {
            PemKind::Pkcs8Key | PemKind::RsaKey => {
                let der = items[i].der.clone();
                assert(is_first_key(items@, i as int));
                return Ok(der);
            },
            PemKind::Other => {},
        }
        i += 1;
    }
    Err(KeyError::NoPrivateKey)
}

} // verus!
