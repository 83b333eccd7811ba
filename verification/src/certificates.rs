//! The certificates that an identity presents.
use tokio_rustls::rustls::pki_types::CertificateDer;
use vstd::prelude::*;

use crate::controller::CertifyResponse;
use crate::tls::{
    certificate_contents, certificate_der, complete, contents, optional_contents,
    pem_certificates, present, read_certificates,
};

verus! {

/// A certificate and those that it is vouched for by.
pub struct Certificates {
    pub leaf: Vec<u8>,
    pub intermediates: Vec<Vec<u8>>,
}

/// A PEM file holds a malformed section.
#[derive(Copy, Clone, Debug, PartialEq, Eq, Structural)]
pub struct InvalidPem;

impl InvalidPem {
    /// What is said of it.
    pub fn message(&self) -> (message: &'static str)
        ensures
            message@ == "rustls error reading certs"@,
    {
        "rustls error reading certs"
    }
}

impl View for Certificates {
    type V = Seq<Seq<u8>>;

    /// The whole chain, leaf first.
    open spec fn view(&self) -> Seq<Seq<u8>> {
        seq![self.leaf@] + contents(self.intermediates@)
    }
}

/// A copy of a list of byte strings.
pub(crate) fn copy_all(list: &Vec<Vec<u8>>) -> (copy: Vec<Vec<u8>>)
    ensures
        contents(copy@) == contents(list@),
{
    let mut copy: Vec<Vec<u8>> = Vec::new();
    let mut i: usize = 0;
    while i < list.len()
        invariant
            i <= list.len(),
            copy.len() == i,
            forall|j: int| 0 <= j < i ==> #[trigger] copy[j]@ == list[j]@,
        decreases list.len() - i,
    {
        let bytes = list[i].clone();
        assert(bytes@ =~= list[i as int]@);
        copy.push(bytes);
        i += 1;
    }
    assert(contents(copy@) =~= contents(list@));
    copy
}

impl Certificates {
    /// Takes what was read from a PEM file, in order: the first certificate is
    /// the leaf. Fails if any section was malformed.
    pub fn from_sections(sections: Vec<Option<Vec<u8>>>) -> (certificates: Result<
        Certificates,
        InvalidPem,
    >)
        requires
            sections.len() > 0,
        ensures
            certificates is Ok <==> complete(optional_contents(sections@)),
            certificates matches Ok(certificates) ==> certificates@ == present(
                optional_contents(sections@),
            ),
    {
        let ghost all = optional_contents(sections@);
        let mut rest = sections;
        let mut intermediates: Vec<Vec<u8>> = Vec::new();
        let first = rest.remove(0);
        let leaf = match first {
            Some(leaf) => leaf,
            None => {
                assert(all[0] is None);
                return Err(InvalidPem);
            },
        };
        let n: usize = rest.len();
        let mut i: usize = 0;
        while i < n
            invariant
                i <= n,
                n == rest.len(),
                all == optional_contents(sections@),
                all.len() == n + 1,
                all[0] == Some(leaf@),
                forall|j: int|
                    0 <= j < n ==> #[trigger] all[j + 1] == optional_contents(rest@)[j],
                intermediates.len() == i,
                forall|j: int|
                    0 <= j < i ==> Some(#[trigger] intermediates[j]@) == all[j + 1],
            decreases n - i,
        {
            match &rest[i] {
                Some(der) => {
                    let bytes = der.clone();
                    assert(bytes@ =~= der@);
                    assert(all[i + 1] == Some(bytes@));
                    intermediates.push(bytes);
                },
                None => {
                    assert(all[i + 1] is None);
                    return Err(InvalidPem);
                },
            }
            i += 1;
        }
        let certificates = Certificates { leaf, intermediates };
        proof {
            assert forall|j: int| 0 <= j < all.len() implies #[trigger] all[j] is Some by {
                if j > 0 {
                    assert(Some(intermediates[j - 1]@) == all[j - 1 + 1]);
                }
            }
            crate::tls::lemma_present(all);
            assert forall|j: int| 0 <= j < all.len() implies certificates@[j] == present(
                all,
            )[j] by {
                if j > 0 {
                    assert(Some(intermediates[j - 1]@) == all[j - 1 + 1]);
                }
            }
            assert(certificates@ =~= present(all));
        }
        Ok(certificates)
    }

    /// Reads the certificates of a PEM file. The file holds at least one
    /// section to be a leaf.
    pub fn load(pem: &[u8]) -> (certificates: Result<Certificates, InvalidPem>)
        requires
            pem_certificates(pem@).len() > 0,
        ensures
            certificates is Ok <==> complete(pem_certificates(pem@)),
            certificates matches Ok(certificates) ==> certificates@ == present(
                pem_certificates(pem@),
            ),
    {
        Certificates::from_sections(read_certificates(pem))
    }

    /// Reads the certificates of a PEM file; `None` if it holds no section to
    /// be a leaf.
    pub fn try_load(pem: &[u8]) -> (certificates: Option<Result<Certificates, InvalidPem>>)
        ensures
            certificates is None <==> pem_certificates(pem@).len() == 0,
            certificates matches Some(loaded) ==> {
                &&& loaded is Ok <==> complete(pem_certificates(pem@))
                &&& loaded matches Ok(loaded) ==> loaded@ == present(pem_certificates(pem@))
            },
    {
        if read_certificates(pem).len() == 0 {
            None
        } else {
            Some(Certificates::load(pem))
        }
    }

    /// The chain as a server presents it, leaf first.
    pub fn chain(&self) -> (chain: Vec<CertificateDer<'static>>)
        ensures
            certificate_contents(chain@) == self@,
    {
        let mut chain: Vec<CertificateDer<'static>> = Vec::new();
        let leaf = self.leaf.clone();
        assert(leaf@ =~= self.leaf@);
        chain.push(certificate_der(leaf));
        let mut i: usize = 0;
        while i < self.intermediates.len()
            invariant
                i <= self.intermediates.len(),
                chain.len() == i + 1,
                forall|j: int|
                    0 <= j <= i ==> certificate_contents(chain@)[j] == #[trigger] self@[j],
            decreases self.intermediates.len() - i,
        {
            let ghost before = chain@;
            let bytes = self.intermediates[i].clone();
            assert(bytes@ =~= self.intermediates[i as int]@);
            chain.push(certificate_der(bytes));
            assert forall|j: int| 0 <= j <= i + 1 implies certificate_contents(chain@)[j]
                == #[trigger] self@[j] by {
                if j <= i {
                    assert(certificate_contents(before)[j] == self@[j]);
                }
            }
            i += 1;
        }
        assert(certificate_contents(chain@) =~= self@);
        chain
    }

    /// The response that hands out these certificates. It says nothing yet of
    /// how long they are valid.
    pub fn response(&self) -> (response: CertifyResponse)
        ensures
            response.chain() == self@,
            response.valid_until is None,
    {
        let leaf = self.leaf.clone();
        assert(leaf@ =~= self.leaf@);
        CertifyResponse {
            leaf_certificate: leaf,
            intermediate_certificates: copy_all(&self.intermediates),
            valid_until: None,
        }
    }
}

} // verus!
