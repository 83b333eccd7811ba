//! What holds of every list of certificates, every key, every answer to a
//! certificate request and every identity.
use std::sync::Arc;
use tokio_rustls::rustls::crypto::CryptoProvider;
use tokio_rustls::rustls::pki_types::CertificateDer;
use tokio_rustls::rustls::{ClientConfig, ServerConfig};
use vstd::prelude::*;
use vstd::utf8::encode_utf8;

use crate::certificates::Certificates;
use crate::controller::{
    expiry, replies, take_next, Certify, CertifyResponse, Reply, Timestamp, VALIDITY,
};
use crate::identity::{
    client_outcome, components, configs_of, file_anchors, is_anchor_error, is_environment,
    is_file_error, is_identity, is_key, is_outcome, issues_once, server_outcome, shown,
    valid_anchors, valid_certificates, valid_files, workload, AnchorError, ConfigError, EnvVar,
    FileError, Identity, IdentityFiles, TestEnv,
};
use crate::tls::{
    anchors_of, certificate_bytes, certificate_contents, complete, contents, has_version,
    header_len, key_encoding, lemma_present, optional_contents, pem_certificates, present,
    trust_anchor, Anchor, ClientAuth, KeyEncoding, PrivateKey,
};

verus! {

/// What is in a list of byte strings is what is in each, in order.
pub proof fn contents_are_those_of_each(list: Seq<Vec<u8>>)
    ensures
        contents(list).len() == list.len(),
        forall|i: int| 0 <= i < list.len() ==> #[trigger] contents(list)[i] == list[i]@,
{
}

/// The same, where some are missing.
pub proof fn optional_contents_are_those_of_each(list: Seq<Option<Vec<u8>>>)
    ensures
        optional_contents(list).len() == list.len(),
        forall|i: int|
            0 <= i < list.len() ==> {
                &&& (#[trigger] optional_contents(list)[i]) is Some <==> list[i] is Some
                &&& list[i] matches Some(bytes) ==> optional_contents(list)[i]->0 == bytes@
            },
{
}

/// The same, of certificates.
pub proof fn certificate_contents_are_those_of_each(list: Seq<CertificateDer<'static>>)
    ensures
        certificate_contents(list).len() == list.len(),
        forall|i: int|
            0 <= i < list.len() ==> #[trigger] certificate_contents(list)[i] == certificate_bytes(
                list[i],
            ),
{
}

/// What is there of a list grows by what is put at its end, if that is there,
/// and is nothing of an empty list.
pub proof fn what_is_there_stays_in_order<T>(list: Seq<Option<T>>, item: Option<T>)
    ensures
        present(Seq::<Option<T>>::empty()).len() == 0,
        item matches Some(item) ==> present(list.push(Some(item))) == present(list).push(item),
        item is None ==> present(list.push(item)) == present(list),
{
    assert(list.push(item).drop_last() =~= list);
}

/// Nothing is there of a list just if all of it is missing.
pub proof fn nothing_is_there_if_all_is_missing<T>(list: Seq<Option<T>>)
    ensures
        present(list).len() == 0 <==> forall|i: int|
            0 <= i < list.len() ==> #[trigger] list[i] is None,
    decreases list.len(),
{
    if list.len() > 0 {
        let before = list.drop_last();
        nothing_is_there_if_all_is_missing(before);
        if present(list).len() == 0 {
            assert forall|i: int| 0 <= i < list.len() implies #[trigger] list[i] is None by {
                if i < before.len() {
                    assert(before[i] is None);
                }
            }
        }
        if forall|i: int| 0 <= i < list.len() ==> #[trigger] list[i] is None {
            assert(list[list.len() - 1] is None);
            assert forall|i: int| 0 <= i < before.len() implies #[trigger] before[i] is None by {
                assert(list[i] is None);
            }
        }
    }
}

/// A list is complete just if each of it is there.
pub proof fn a_complete_list_lacks_nothing<T>(list: Seq<Option<T>>)
    ensures
        !complete(list) <==> exists|i: int| 0 <= i < list.len() && #[trigger] list[i] is None,
{
}

/// Each certificate gives the anchor that a root store makes of it, if any.
pub proof fn anchors_are_those_of_each(certificates: Seq<Seq<u8>>)
    ensures
        anchors_of(certificates).len() == certificates.len(),
        forall|i: int|
            0 <= i < certificates.len() ==> #[trigger] anchors_of(certificates)[i] == trust_anchor(
                certificates[i],
            ),
{
}

/// A private key keeps its bytes, under its own encoding.
pub proof fn a_key_keeps_its_bytes(der: Vec<u8>)
    ensures
        PrivateKey::Pkcs1(der).der() == der@,
        PrivateKey::Sec1(der).der() == der@,
        PrivateKey::Pkcs8(der).der() == der@,
        PrivateKey::Pkcs1(der).encoding() is Pkcs1,
        PrivateKey::Sec1(der).encoding() is Sec1,
        PrivateKey::Pkcs8(der).encoding() is Pkcs8,
{
}

/// A key is told by how it begins. Behind the header of a sequence, whose
/// length is given in one byte or in as many more as that one says, comes a
/// version of one byte. A sequence next makes it PKCS #8, whatever the version;
/// if not, version 0 makes it PKCS #1, version 1 SEC1, and any other nothing.
pub proof fn a_key_is_told_by_how_it_begins(head: Seq<u8>, version: u8, rest: Seq<u8>)
    requires
        head.len() >= 2,
        head[0] == 0x30,
        head[1] < 128 ==> head.len() == 2,
        head[1] >= 128 ==> head.len() == head[1] - 126,
    ensures
        ({
            let encoding = key_encoding(head + seq![2u8, 1u8, version] + rest);
            let sequence = rest.len() > 0 && rest[0] == 0x30;
            &&& encoding == Some(KeyEncoding::Pkcs8) <==> sequence
            &&& encoding == Some(KeyEncoding::Pkcs1) <==> !sequence && version == 0
            &&& encoding == Some(KeyEncoding::Sec1) <==> !sequence && version == 1
            &&& encoding is None <==> !sequence && version > 1
        }),
{
    let der = head + seq![2u8, 1u8, version] + rest;
    let n = head.len() as int;
    assert(der[0] == head[0] && der[1] == head[1]);
    assert(header_len(der) == n);
    assert(der[n] == 2 && der[n + 1] == 1 && der[n + 2] == version);
    if rest.len() > 0 {
        assert(der[n + 3] == rest[0]);
    }
}

/// Only what begins so is a key.
pub proof fn only_what_begins_so_is_a_key(der: Seq<u8>)
    requires
        key_encoding(der) is Some,
    ensures
        exists|n: int|
            {
                &&& 2 <= n
                &&& n + 3 <= der.len()
                &&& der[0] == 0x30
                &&& der[1] < 128 ==> n == 2
                &&& der[1] >= 128 ==> n == der[1] - 126
                &&& #[trigger] der[n] == 2
                &&& der[n + 1] == 1
            },
{
    let n = header_len(der);
    assert(has_version(der));
    assert(der[n] == 2);
}

/// The chain of a set of certificates is its leaf and, behind it, its
/// intermediates in order.
pub proof fn a_chain_is_leaf_and_intermediates(certificates: Certificates)
    ensures
        certificates@.len() == certificates.intermediates@.len() + 1,
        certificates@[0] == certificates.leaf@,
        forall|i: int|
            0 <= i < certificates.intermediates@.len() ==> certificates@[i + 1]
                == #[trigger] certificates.intermediates@[i]@,
{
}

/// The same, of a response.
pub proof fn a_response_hands_out_leaf_and_intermediates(response: CertifyResponse)
    ensures
        response.chain().len() == response.intermediate_certificates@.len() + 1,
        response.chain()[0] == response.leaf_certificate@,
        forall|i: int|
            0 <= i < response.intermediate_certificates@.len() ==> response.chain()[i + 1]
                == #[trigger] response.intermediate_certificates@[i]@,
{
}

/// Certificates that were read from a file are those of the file: the first is
/// the leaf, the others are the intermediates, in order.
pub proof fn the_first_certificate_is_the_leaf(
    sections: Seq<Option<Seq<u8>>>,
    certificates: Certificates,
)
    requires
        complete(sections),
        sections.len() > 0,
        certificates@ == present(sections),
    ensures
        sections[0] == Some(certificates.leaf@),
        certificates.intermediates@.len() == sections.len() - 1,
        forall|i: int|
            0 <= i < certificates.intermediates@.len() ==> sections[i + 1] == Some(
                #[trigger] certificates.intermediates@[i]@,
            ),
{
    lemma_present(sections);
    a_chain_is_leaf_and_intermediates(certificates);
    assert(Some(present(sections)[0]) == sections[0]);
    assert forall|i: int| 0 <= i < certificates.intermediates@.len() implies sections[i + 1]
        == Some(#[trigger] certificates.intermediates@[i]@) by {
        assert(Some(present(sections)[i + 1]) == sections[i + 1]);
    }
}

/// What is handed out is what is presented: a response with the chain of a set
/// of certificates has the same leaf and the same intermediates.
pub proof fn a_response_has_the_certificates(
    certificates: Certificates,
    response: CertifyResponse,
)
    requires
        response.chain() == certificates@,
    ensures
        response.leaf_certificate@ == certificates.leaf@,
        response.intermediate_certificates@.len() == certificates.intermediates@.len(),
        forall|i: int|
            0 <= i < certificates.intermediates@.len() ==> (
            #[trigger] response.intermediate_certificates@[i])@
                == certificates.intermediates@[i]@,
{
    a_chain_is_leaf_and_intermediates(certificates);
    a_response_hands_out_leaf_and_intermediates(response);
    assert forall|i: int| 0 <= i < certificates.intermediates@.len() implies (
    #[trigger] response.intermediate_certificates@[i])@ == certificates.intermediates@[i]@ by {
        assert(response.chain()[i + 1] == response.intermediate_certificates@[i]@);
        assert(certificates@[i + 1] == certificates.intermediates@[i]@);
    }
}

/// What is issued at any time is valid for 666 seconds from then, to the
/// nanosecond.
pub proof fn what_is_issued_is_valid_for_666_seconds(now: Timestamp)
    requires
        now.seconds + 666 <= i64::MAX,
    ensures
        expiry(now).seconds - now.seconds == 666,
        expiry(now).nanos == now.nanos,
        VALIDITY == 666,
{
}

/// A request that a response is issued for gets that response's certificates,
/// valid for 666 seconds from when the request came; the later the request, by
/// as much the later the expiry.
pub proof fn an_issued_response_counts_from_the_request<F, G>(
    issued: CertifyResponse,
    now: Timestamp,
    reply: Reply<F, G>,
    later: Timestamp,
    later_reply: Reply<F, G>,
)
    requires
        now.seconds + 666 <= i64::MAX,
        later.seconds + 666 <= i64::MAX,
        replies(Certify::<F, G>::Issue(issued), now, reply),
        replies(Certify::<F, G>::Issue(issued), later, later_reply),
    ensures
        reply matches Reply::Response(response) && {
            &&& response.leaf_certificate@ == issued.leaf_certificate@
            &&& contents(response.intermediate_certificates@) == contents(
                issued.intermediate_certificates@,
            )
            &&& response.valid_until matches Some(until)
            &&& until.seconds - now.seconds == 666
            &&& until.nanos == now.nanos
        },
        later_reply->Response_0.valid_until->0.seconds - reply->Response_0.valid_until->0.seconds
            == later.seconds - now.seconds,
{
    let response = reply->Response_0;
    assert(response.chain()[0] == issued.chain()[0]);
    assert(contents(response.intermediate_certificates@) =~= response.chain().subrange(
        1,
        response.chain().len() as int,
    ));
    assert(contents(issued.intermediate_certificates@) =~= issued.chain().subrange(
        1,
        issued.chain().len() as int,
    ));
}

/// A call is made as it was registered, whenever the request comes.
pub proof fn a_call_does_not_depend_on_the_time<F, G>(
    f: F,
    g: G,
    now: Timestamp,
    called: Reply<F, G>,
    called_async: Reply<F, G>,
)
    requires
        replies(Certify::<F, G>::Call(f), now, called),
        replies(Certify::<F, G>::CallAsync(g), now, called_async),
    ensures
        called matches Reply::Call(made) && made == f,
        called_async matches Reply::CallAsync(made) && made == g,
{
}

/// The next call is the one that was registered first, and the others move up.
pub proof fn the_oldest_call_is_next<C>(calls: Seq<C>)
    ensures
        take_next(calls).0 is None <==> calls.len() == 0,
        calls.len() == 0 ==> take_next(calls).1.len() == 0,
        calls.len() > 0 ==> {
            &&& take_next(calls).0 == Some(calls[0])
            &&& seq![calls[0]] + take_next(calls).1 == calls
        },
{
    if calls.len() > 0 {
        assert(seq![calls[0]] + take_next(calls).1 =~= calls);
    }
}

/// The components of a path are its strings, in order.
pub proof fn a_path_is_its_components(path: Seq<String>)
    ensures
        components(path).len() == path.len(),
        forall|i: int| 0 <= i < path.len() ==> #[trigger] components(path)[i] == path[i]@,
{
}

/// A file of trust anchors is usable just if it holds something, and every
/// section of it is a certificate that is an anchor.
pub proof fn every_certificate_has_to_be_an_anchor(pem: Seq<u8>)
    ensures
        valid_anchors(pem) <==> {
            &&& pem_certificates(pem).len() > 0
            &&& forall|i: int|
                0 <= i < pem_certificates(pem).len() ==> {
                    &&& (#[trigger] pem_certificates(pem)[i]) is Some
                    &&& trust_anchor(pem_certificates(pem)[i]->0) is Some
                }
        },
{
    let sections = pem_certificates(pem);
    lemma_present(sections);
    if complete(sections) {
        let found = present(sections);
        anchors_are_those_of_each(found);
        assert forall|i: int| 0 <= i < sections.len() implies anchors_of(found)[i] == trust_anchor(
            (#[trigger] sections[i])->0,
        ) by {
            assert(Some(found[i]) == sections[i]);
        }
        if complete(anchors_of(found)) {
            assert forall|i: int| 0 <= i < sections.len() implies trust_anchor(
                (#[trigger] sections[i])->0,
            ) is Some by {
                assert(anchors_of(found)[i] is Some);
            }
        }
        if forall|i: int|
            0 <= i < sections.len() ==> {
                &&& (#[trigger] sections[i]) is Some
                &&& trust_anchor(sections[i]->0) is Some
            } {
            assert forall|i: int| 0 <= i < anchors_of(found).len() implies (
            #[trigger] anchors_of(found)[i]) is Some by {
                assert(sections[i] is Some);
            }
        }
    }
}

/// The anchors of a usable file are those of its certificates, one of each, in
/// order.
pub proof fn the_anchors_are_those_of_the_file(pem: Seq<u8>)
    requires
        valid_anchors(pem),
    ensures
        file_anchors(pem).len() == pem_certificates(pem).len(),
        forall|i: int|
            0 <= i < file_anchors(pem).len() ==> Some(#[trigger] file_anchors(pem)[i])
                == trust_anchor(pem_certificates(pem)[i]->0),
{
    let sections = pem_certificates(pem);
    lemma_present(sections);
    lemma_present(anchors_of(present(sections)));
    assert forall|i: int| 0 <= i < file_anchors(pem).len() implies Some(
        #[trigger] file_anchors(pem)[i],
    ) == trust_anchor(sections[i]->0) by {
        assert(Some(present(sections)[i]) == sections[i]);
        assert(Some(present(anchors_of(present(sections)))[i]) == anchors_of(
            present(sections),
        )[i]);
    }
}

/// Each way for a file of trust anchors to be unusable has its own error: a
/// malformed section comes before all, then that no certificate is an anchor,
/// then that not every one is.
pub proof fn an_anchor_error_says_what_is_wrong(pem: Seq<u8>)
    ensures
        is_anchor_error(pem, AnchorError::InvalidPem) <==> exists|i: int|
            0 <= i < pem_certificates(pem).len() && #[trigger] pem_certificates(pem)[i] is None,
        is_anchor_error(pem, AnchorError::NoAnchors) <==> forall|i: int|
            0 <= i < pem_certificates(pem).len() ==> {
                &&& (#[trigger] pem_certificates(pem)[i]) is Some
                &&& trust_anchor(pem_certificates(pem)[i]->0) is None
            },
        is_anchor_error(pem, AnchorError::InvalidCertificate) <==> {
            &&& !valid_anchors(pem)
            &&& !is_anchor_error(pem, AnchorError::InvalidPem)
            &&& !is_anchor_error(pem, AnchorError::NoAnchors)
        },
        valid_anchors(pem) ==> forall|error: AnchorError| !is_anchor_error(pem, error),
{
    let sections = pem_certificates(pem);
    lemma_present(sections);
    every_certificate_has_to_be_an_anchor(pem);
    if complete(sections) {
        let found = present(sections);
        anchors_are_those_of_each(found);
        lemma_present(anchors_of(found));
        nothing_is_there_if_all_is_missing(anchors_of(found));
        assert forall|i: int| 0 <= i < sections.len() implies anchors_of(found)[i] == trust_anchor(
            (#[trigger] sections[i])->0,
        ) by {
            assert(Some(found[i]) == sections[i]);
        }
        if file_anchors(pem).len() == 0 {
            assert forall|i: int| 0 <= i < sections.len() implies trust_anchor(
                (#[trigger] sections[i])->0,
            ) is None by {
                assert(anchors_of(found)[i] is None);
            }
        }
        if forall|i: int|
            0 <= i < sections.len() ==> {
                &&& (#[trigger] sections[i]) is Some
                &&& trust_anchor(sections[i]->0) is None
            } {
            assert forall|i: int| 0 <= i < anchors_of(found).len() implies (
            #[trigger] anchors_of(found)[i]) is None by {
                assert(sections[i] is Some);
            }
        }
    }
}

/// The files of an identity are usable just if the certificates' file holds
/// nothing but certificates, and at least one, the key's file is a key, and the
/// trust anchors' file is usable.
pub proof fn files_are_usable_if_each_is(files: IdentityFiles)
    ensures
        valid_certificates(files.certificates@) <==> {
            &&& pem_certificates(files.certificates@).len() > 0
            &&& forall|i: int|
                0 <= i < pem_certificates(files.certificates@).len() ==> #[trigger]
                    pem_certificates(files.certificates@)[i] is Some
        },
        valid_files(files) <==> {
            &&& valid_certificates(files.certificates@)
            &&& key_encoding(files.key@) is Some
            &&& valid_anchors(encode_utf8(files.trust_anchors@))
        },
{
}

/// Each way for the files of an identity to be unusable has its own error, the
/// certificates' first, then the key's, then the trust anchors'.
pub proof fn a_file_error_says_what_is_wrong(files: IdentityFiles)
    ensures
        is_file_error(files, FileError::NoLeaf) <==> pem_certificates(
            files.certificates@,
        ).len() == 0,
        is_file_error(files, FileError::InvalidCertificates) <==> exists|i: int|
            0 <= i < pem_certificates(files.certificates@).len() && #[trigger] pem_certificates(
                files.certificates@,
            )[i] is None,
        is_file_error(files, FileError::InvalidKey) <==> {
            &&& !is_file_error(files, FileError::NoLeaf)
            &&& !is_file_error(files, FileError::InvalidCertificates)
            &&& key_encoding(files.key@) is None
        },
        forall|error: AnchorError|
            #![trigger is_anchor_error(encode_utf8(files.trust_anchors@), error)]
            is_file_error(files, FileError::TrustAnchors(error)) <==> {
                &&& !is_file_error(files, FileError::NoLeaf)
                &&& !is_file_error(files, FileError::InvalidCertificates)
                &&& key_encoding(files.key@) is Some
                &&& is_anchor_error(encode_utf8(files.trust_anchors@), error)
            },
{
}

/// The environment of a proxy names the files of its identity, the trust anchors
/// themselves, and the proxy: by its name, and as a workload by its name behind
/// `test:`.
pub proof fn an_environment_names_the_identity(
    env: TestEnv,
    files: IdentityFiles,
    local_name: Seq<char>,
)
    requires
        is_environment(env, files, local_name),
    ensures
        env.value(EnvVar::IdentityDir) == Some(files.dir@),
        env.value(EnvVar::IdentityTokenFile) == Some(files.token@),
        env.value(EnvVar::IdentityTrustAnchors) == Some(files.trust_anchors@),
        env.value(EnvVar::PolicyWorkload) == Some("test:"@ + local_name),
        env.value(EnvVar::IdentityLocalName) == Some(local_name),
        workload(local_name) == "test:"@ + local_name,
{
}

/// A key that was loaded holds the bytes that it was loaded from, under the
/// encoding that these begin with.
pub proof fn a_loaded_key_is_the_files(key: PrivateKey, der: Seq<u8>)
    requires
        is_key(key, der),
    ensures
        match key {
            PrivateKey::Pkcs1(bytes) => bytes@ == der && key_encoding(der) == Some(
                KeyEncoding::Pkcs1,
            ),
            PrivateKey::Sec1(bytes) => bytes@ == der && key_encoding(der) == Some(
                KeyEncoding::Sec1,
            ),
            PrivateKey::Pkcs8(bytes) => bytes@ == der && key_encoding(der) == Some(
                KeyEncoding::Pkcs8,
            ),
        },
{
}

/// What is shown to a peer is the chain and the key that there are, and nothing
/// if there are none.
pub proof fn what_is_shown_is_what_there_is(
    chain: Vec<CertificateDer<'static>>,
    key: PrivateKey,
)
    ensures
        shown(None) is None,
        shown(Some((chain, key))) matches Some((listed, used)) && {
            &&& used == key
            &&& listed.len() == chain@.len()
            &&& forall|i: int|
                0 <= i < listed.len() ==> #[trigger] listed[i] == certificate_bytes(chain@[i])
        },
{
}

/// For every provider, anchors, chain and key, the two configurations are those
/// that the TLS library makes of a client that shows no certificate, and of a
/// server that shows the chain and lets in clients without a certificate; and
/// a refusal is the library's own refusal of the one or of the other.
pub proof fn client_certificates_are_always_optional(
    provider: CryptoProvider,
    anchors: Seq<Anchor>,
    chain: Seq<Seq<u8>>,
    key: PrivateKey,
    outcome: Result<(Arc<ClientConfig>, Arc<ServerConfig>), ConfigError>,
)
    requires
        is_outcome(provider, anchors, chain, key, outcome),
    ensures
        outcome matches Ok((client, server)) ==> {
            &&& client_outcome(provider, anchors, None, Some(*client))
            &&& server_outcome(
                provider,
                anchors,
                ClientAuth::Optional,
                chain,
                key,
                Some(*server),
            )
        },
        outcome == Err::<(Arc<ClientConfig>, Arc<ServerConfig>), _>(ConfigError::Client)
            ==> client_outcome(provider, anchors, None, None),
        outcome == Err::<(Arc<ClientConfig>, Arc<ServerConfig>), _>(ConfigError::Server)
            ==> server_outcome(provider, anchors, ClientAuth::Optional, chain, key, None) && (
        exists|client: ClientConfig| #[trigger]
            client_outcome(provider, anchors, None, Some(client))),
{
}

/// An identity is what its files say. Its server presents the certificates of
/// the file, one or many, with the key of the file, and lets in clients without
/// a certificate; its client shows none; both trust the anchors of the file; and
/// the certificates that are handed out are those that are presented.
pub proof fn an_identity_is_what_its_files_say(
    provider: CryptoProvider,
    files: IdentityFiles,
    local_name: Seq<char>,
    identity: Identity,
    chain: Seq<Seq<u8>>,
    anchors: Seq<Anchor>,
)
    requires
        valid_files(files),
        is_identity(provider, files, local_name, Ok(identity)),
        chain.len() == pem_certificates(files.certificates@).len(),
        forall|i: int|
            0 <= i < chain.len() ==> Some(#[trigger] chain[i]) == pem_certificates(
                files.certificates@,
            )[i],
        anchors.len() == pem_certificates(encode_utf8(files.trust_anchors@)).len(),
        forall|i: int|
            0 <= i < anchors.len() ==> Some(#[trigger] anchors[i]) == trust_anchor(
                pem_certificates(encode_utf8(files.trust_anchors@))[i]->0,
            ),
    ensures
        exists|key: PrivateKey| #[trigger]
            is_key(key, files.key@) && server_outcome(
                provider,
                anchors,
                ClientAuth::Optional,
                chain,
                key,
                Some(*identity.server_config),
            ),
        client_outcome(provider, anchors, None, Some(*identity.client_config)),
        identity.certify_rsp.leaf_certificate@ == chain[0],
        contents(identity.certify_rsp.intermediate_certificates@) == chain.subrange(
            1,
            chain.len() as int,
        ),
        identity.certify_rsp.valid_until is None,
        identity.env.value(EnvVar::IdentityDir) == Some(files.dir@),
        identity.env.value(EnvVar::IdentityTokenFile) == Some(files.token@),
        identity.env.value(EnvVar::IdentityTrustAnchors) == Some(files.trust_anchors@),
        identity.env.value(EnvVar::PolicyWorkload) == Some("test:"@ + local_name),
        identity.env.value(EnvVar::IdentityLocalName) == Some(local_name),
{
    let sections = pem_certificates(files.certificates@);
    let pem = encode_utf8(files.trust_anchors@);
    files_are_usable_if_each_is(files);
    lemma_present(sections);
    assert forall|i: int| 0 <= i < chain.len() implies chain[i] == present(sections)[i] by {
        assert(Some(chain[i]) == sections[i]);
        assert(Some(present(sections)[i]) == sections[i]);
    }
    assert(chain =~= present(sections));
    the_anchors_are_those_of_the_file(pem);
    assert forall|i: int| 0 <= i < anchors.len() implies anchors[i] == file_anchors(pem)[i] by {
        assert(Some(anchors[i]) == Some(file_anchors(pem)[i]));
    }
    assert(anchors =~= file_anchors(pem));
    let made: Result<Identity, ConfigError> = Ok(identity);
    let key = choose|key: PrivateKey| #[trigger]
        is_key(key, files.key@) && is_outcome(provider, anchors, chain, key, configs_of(made));
    client_certificates_are_always_optional(provider, anchors, chain, key, configs_of(made));
    assert(is_key(key, files.key@));
    an_environment_names_the_identity(identity.env, files, local_name);
    let response = identity.certify_rsp;
    a_response_hands_out_leaf_and_intermediates(response);
    assert(contents(response.intermediate_certificates@) =~= response.chain().subrange(
        1,
        response.chain().len() as int,
    ));
}

/// That there is no identity of usable files is the TLS library's own refusal,
/// with just those files, of the client's configuration or of the server's.
pub proof fn a_refused_identity_was_refused_by_the_library(
    provider: CryptoProvider,
    files: IdentityFiles,
    local_name: Seq<char>,
    error: ConfigError,
)
    requires
        is_identity(provider, files, local_name, Err(error)),
    ensures
        error is Client ==> client_outcome(
            provider,
            file_anchors(encode_utf8(files.trust_anchors@)),
            None,
            None,
        ),
        error is Server ==> exists|key: PrivateKey| #[trigger]
            is_key(key, files.key@) && server_outcome(
                provider,
                file_anchors(encode_utf8(files.trust_anchors@)),
                ClientAuth::Optional,
                present(pem_certificates(files.certificates@)),
                key,
                None,
            ),
{
    let anchors = file_anchors(encode_utf8(files.trust_anchors@));
    let chain = present(pem_certificates(files.certificates@));
    let made: Result<Identity, ConfigError> = Err(error);
    let key = choose|key: PrivateKey| #[trigger]
        is_key(key, files.key@) && is_outcome(provider, anchors, chain, key, configs_of(made));
    client_certificates_are_always_optional(provider, anchors, chain, key, configs_of(made));
    assert(is_key(key, files.key@));
}

/// An identity's controller answers the first request, at any time, with the
/// identity's leaf and intermediates, valid for 666 seconds from then, and has
/// nothing for a second one.
pub proof fn an_identity_answers_one_request<F, G>(
    calls: Seq<Certify<F, G>>,
    own: CertifyResponse,
    now: Timestamp,
    reply: Reply<F, G>,
)
    requires
        issues_once(calls, own),
        now.seconds + 666 <= i64::MAX,
        replies(calls[0], now, reply),
    ensures
        calls.len() == 1,
        reply matches Reply::Response(response) && {
            &&& response.leaf_certificate@ == own.leaf_certificate@
            &&& contents(response.intermediate_certificates@) == contents(
                own.intermediate_certificates@,
            )
            &&& response.valid_until matches Some(until)
            &&& until.seconds - now.seconds == 666
            &&& until.nanos == now.nanos
        },
{
    let issued = calls[0]->Issue_0;
    an_issued_response_counts_from_the_request(issued, now, reply, now, reply);
    let response = reply->Response_0;
    assert(response.chain()[0] == own.chain()[0]);
    assert(contents(response.intermediate_certificates@) =~= response.chain().subrange(
        1,
        response.chain().len() as int,
    ));
    assert(contents(own.intermediate_certificates@) =~= own.chain().subrange(
        1,
        own.chain().len() as int,
    ));
}

} // verus!
