use vstd::prelude::*;
use crate::bytes::{be64, str_eq};
use crate::controls::{control_status_code, control_type_code, ControlObservation};
use crate::crypto::sha256_spec;
use crate::digest::{tlv, write_tlv, Sha256Sink, TranscriptSink};
use crate::limits::{MAX_ARTIFACTS, MAX_ID_LEN, MAX_PATH_HINT_LEN, MAX_TLV_VALUE_LEN};
use crate::manifest::{ArtifactRef, ManifestBinding};
use crate::receipt_v2::json::{ControlObservationJson, ControlsFile, ManifestArtifactJson, ManifestJson};
use crate::receipt_v2::normalize::{
    artifact_type_from_str, bounded_error, control_status_from_str, control_status_of,
    control_type_from_str, control_type_of, digest_error, digest_is, digest_of_text, id_error,
    media_type_from_str, media_type_of, name_error, opt_digest_error, opt_digest_is,
    parse_hex_digest, parse_opt_digest, hex_digest_error,
};
use crate::receipt_v2::{fails_as, or_else, ErrorView, ReceiptV2Error, Result, CONTROLS_SCHEMA_V1};
use crate::types::{BoundedBytes, Sha256Digest, TimestampUtc};
use crate::error::Error;

verus! {

/// The failure, if any, of reading one manifest artifact, in field order.
pub open spec fn artifact_error(a: ManifestArtifactJson) -> Option<ErrorView> {
    or_else(
        name_error(media_type_of(a.media_type@), "unknown media type "@, a.media_type@),
        or_else(digest_error(a.hash), bounded_error(a.path@, MAX_PATH_HINT_LEN as nat)),
    )
}

/// The first failure, if any, among the artifacts in order.
pub open spec fn artifacts_error(artifacts: Seq<ManifestArtifactJson>) -> Option<ErrorView>
    decreases artifacts.len(),
{
    if artifacts.len() == 0 {
        None
    } else {
        or_else(artifact_error(artifacts[0]), artifacts_error(artifacts.drop_first()))
    }
}

/// The failure, if any, of hashing a manifest: its action identifier, its
/// artifacts in order, then their number.
pub open spec fn manifest_error(m: ManifestJson) -> Option<ErrorView> {
    or_else(id_error(m.action_id@, MAX_ID_LEN as nat), or_else(
        artifacts_error(m.artifacts@),
        if m.artifacts@.len() == 0 {
            Some(ErrorView::Core(Error::EmptyValue))
        } else if m.artifacts@.len() > MAX_ARTIFACTS {
            Some(ErrorView::Core(Error::TooManyArtifacts))
        } else {
            None
        },
    ))
}

/// The artifact fields of a manifest transcript after `prefix`: for each
/// artifact its content digest, the hash of its path and its size.
pub open spec fn artifacts_transcript(prefix: Seq<u8>, artifacts: Seq<ManifestArtifactJson>) -> Seq<u8>
    decreases artifacts.len(),
{
    if artifacts.len() == 0 {
        prefix
    } else {
        let a = artifacts.last();
        artifacts_transcript(prefix, artifacts.drop_last()) + tlv(2, digest_of_text(a.hash.digest@)->Some_0)
            + tlv(3, sha256_spec(vstd::utf8::encode_utf8(a.path@))) + tlv(4, be64(a.size_bytes))
    }
}

/// The hash of a manifest: its action identifier, then its artifacts.
pub open spec fn manifest_hash_spec(m: ManifestJson) -> Seq<u8> {
    sha256_spec(artifacts_transcript(tlv(1, vstd::utf8::encode_utf8(m.action_id@)), m.artifacts@))
}

fn artifact_ref<'a>(a: &'a ManifestArtifactJson) -> (r: Result<ArtifactRef<'a>>)
    ensures
        r matches Ok(x) ==> digest_is(x.content_hash, a.hash) && x.size_bytes == a.size_bytes
            && x.path_hash@ == sha256_spec(vstd::utf8::encode_utf8(a.path@)),
        fails_as(r, artifact_error(*a)),
{
    let artifact_type = artifact_type_from_str(a.artifact_type.as_str())?;
    let media_type = media_type_from_str(a.media_type.as_str())?;
    let path: &str = a.path.as_str();
    let path_hash = crate::digest::sha256(path.as_bytes());
    let content_hash = parse_hex_digest(a.hash.digest.as_str())?;
    let schema_hash = match &a.schema {
        Some(schema) => {
            let id: &str = schema.id.as_str();
            Some(crate::digest::sha256(id.as_bytes()))
        },
        None => None,
    };
    let path_hint = match BoundedBytes::<MAX_PATH_HINT_LEN>::new(path.as_bytes()) {
        Ok(b) => b,
        Err(e) => return Err(ReceiptV2Error::Core(e)),
    };
    Ok(ArtifactRef { artifact_type, media_type, path_hash, size_bytes: a.size_bytes, content_hash, schema_hash, path_hint })
}

/// The hash of a manifest's binding: its action identifier, then for each
/// artifact its content digest, the hash of its path and its size.
pub fn hash_manifest(manifest: &ManifestJson) -> (r: Result<Sha256Digest>)
    ensures
        fails_as(r, manifest_error(*manifest)),
        r matches Ok(d) ==> d@ == manifest_hash_spec(*manifest),
{
    let action_text: &str = manifest.action_id.as_str();
    let action_id = match BoundedBytes::<MAX_ID_LEN>::new_identifier(action_text.as_bytes()) {
        Ok(b) => b,
        Err(e) => return Err(ReceiptV2Error::Core(e)),
    };
    assert(action_id@ == vstd::utf8::encode_utf8(manifest.action_id@));
    let artifacts = &manifest.artifacts;
    let mut refs: Vec<ArtifactRef> = Vec::new();
    let mut i: usize = 0;
    assert(artifacts@.subrange(0, artifacts@.len() as int) =~= artifacts@);
    while i < artifacts.len()
        invariant
            i <= artifacts@.len(),
            artifacts@ == manifest.artifacts@,
            id_error(manifest.action_id@, MAX_ID_LEN as nat) is None,
            refs@.len() == i,
            artifacts_error(artifacts@) == artifacts_error(artifacts@.subrange(i as int, artifacts@.len() as int)),
            forall|j: int| 0 <= j < i ==> {
                &&& digest_is(#[trigger] refs@[j].content_hash, artifacts@[j].hash)
                &&& refs@[j].size_bytes == artifacts@[j].size_bytes
                &&& refs@[j].path_hash@ == sha256_spec(vstd::utf8::encode_utf8(artifacts@[j].path@))
            },
        decreases artifacts@.len() - i,
    {
        let ghost rest = artifacts@.subrange(i as int, artifacts@.len() as int);
        assert(rest[0] == artifacts@[i as int]);
        assert(rest.drop_first() =~= artifacts@.subrange(i + 1, artifacts@.len() as int));
        let x = artifact_ref(&artifacts[i])?;
        refs.push(x);
        i = i + 1;
    }
    assert(artifacts@.subrange(artifacts@.len() as int, artifacts@.len() as int) =~= Seq::<ManifestArtifactJson>::empty());
    assert(refs@.len() == artifacts@.len());
    let binding = ManifestBinding { action_id, manifest_hash: Sha256Digest::zero(), artifacts: refs.as_slice() };
    match binding.validate() {
        Ok(()) => {},
        Err(e) => return Err(ReceiptV2Error::Core(e)),
    }
    let mut sink = Sha256Sink::new();
    let _ = write_tlv(&mut sink, 1, binding.action_id.as_bytes());
    let ghost head = sink.transcript();
    let mut k: usize = 0;
    assert(artifacts@.subrange(0, 0) =~= Seq::<ManifestArtifactJson>::empty());
    while k < refs.len()
        invariant
            k <= refs@.len(),
            refs@.len() == artifacts@.len(),
            binding.artifacts@ == refs@,
            head == tlv(1, vstd::utf8::encode_utf8(manifest.action_id@)),
            sink.transcript() == artifacts_transcript(head, artifacts@.subrange(0, k as int)),
            forall|j: int| 0 <= j < refs@.len() ==> {
                &&& digest_is(#[trigger] refs@[j].content_hash, artifacts@[j].hash)
                &&& refs@[j].size_bytes == artifacts@[j].size_bytes
                &&& refs@[j].path_hash@ == sha256_spec(vstd::utf8::encode_utf8(artifacts@[j].path@))
            },
        decreases refs@.len() - k,
    {
        proof {
            let next = artifacts@.subrange(0, k + 1);
            assert(next.drop_last() =~= artifacts@.subrange(0, k as int));
            assert(next.last() == artifacts@[k as int]);
            assert(digest_is(refs@[k as int].content_hash, artifacts@[k as int].hash));
        }
        let artifact = &binding.artifacts[k];
        let _ = write_tlv(&mut sink, 2, artifact.content_hash.0.as_slice());
        let _ = write_tlv(&mut sink, 3, artifact.path_hash.0.as_slice());
        let mut size: Vec<u8> = Vec::new();
        crate::bytes::push_be64(&mut size, artifact.size_bytes);
        let _ = write_tlv(&mut sink, 4, size.as_slice());
        k = k + 1;
    }
    assert(artifacts@.subrange(0, artifacts@.len() as int) =~= artifacts@);
    Ok(sink.finalize())
}

/// A field, where its value is within the limit of a field; nothing otherwise.
pub open spec fn tlv_if_fits(field_id: u16, value: Seq<u8>) -> Seq<u8> {
    if value.len() <= MAX_TLV_VALUE_LEN { tlv(field_id, value) } else { Seq::empty() }
}

/// The evidence summary transcript after `prefix`: for each artifact the text
/// of its digest and its path.
pub open spec fn evidence_transcript(prefix: Seq<u8>, artifacts: Seq<ManifestArtifactJson>) -> Seq<u8>
    decreases artifacts.len(),
{
    if artifacts.len() == 0 {
        prefix
    } else {
        let a = artifacts.last();
        evidence_transcript(prefix, artifacts.drop_last()) + tlv_if_fits(1, vstd::utf8::encode_utf8(a.hash.digest@))
            + tlv_if_fits(2, vstd::utf8::encode_utf8(a.path@))
    }
}

fn write_tlv_if_fits<S: TranscriptSink>(sink: &mut S, field_id: u16, value: &[u8])
    ensures
        final(sink).transcript() == old(sink).transcript() + tlv_if_fits(field_id, value@),
{
    let _ = write_tlv(sink, field_id, value);
    assert(old(sink).transcript() + Seq::<u8>::empty() =~= old(sink).transcript());
}

/// The hash of a manifest's evidence summary.
pub fn hash_evidence_summary(manifest: &ManifestJson) -> (r: Result<Sha256Digest>)
    ensures
        r matches Ok(d) && d@ == sha256_spec(evidence_transcript(Seq::empty(), manifest.artifacts@)),
{
    let mut sink = Sha256Sink::new();
    let artifacts = &manifest.artifacts;
    let mut i: usize = 0;
    assert(artifacts@.subrange(0, 0) =~= Seq::<ManifestArtifactJson>::empty());
    while i < artifacts.len()
        invariant
            i <= artifacts@.len(),
            sink.transcript() == evidence_transcript(Seq::empty(), artifacts@.subrange(0, i as int)),
        decreases artifacts@.len() - i,
    {
        proof {
            let next = artifacts@.subrange(0, i + 1);
            assert(next.drop_last() =~= artifacts@.subrange(0, i as int));
            assert(next.last() == artifacts@[i as int]);
        }
        let digest: &str = artifacts[i].hash.digest.as_str();
        write_tlv_if_fits(&mut sink, 1, digest.as_bytes());
        let path: &str = artifacts[i].path.as_str();
        write_tlv_if_fits(&mut sink, 2, path.as_bytes());
        i = i + 1;
    }
    assert(artifacts@.subrange(0, artifacts@.len() as int) =~= artifacts@);
    Ok(sink.finalize())
}

/// The controls summary transcript after `prefix`: for each observation its
/// action hash, type, status and actor hash.
pub open spec fn controls_transcript(prefix: Seq<u8>, controls: Seq<ControlObservation>) -> Seq<u8>
    decreases controls.len(),
{
    if controls.len() == 0 {
        prefix
    } else {
        let c = controls.last();
        controls_transcript(prefix, controls.drop_last()) + tlv(1, c.action_hash@)
            + tlv(2, seq![control_type_code(c.control_type)]) + tlv(3, seq![control_status_code(c.status)])
            + tlv(4, c.actor_hash@)
    }
}

/// The hash of a control set's summary.
pub fn hash_controls_summary(controls: &[ControlObservation]) -> (r: Sha256Digest)
    ensures
        r@ == sha256_spec(controls_transcript(Seq::empty(), controls@)),
{
    let mut sink = Sha256Sink::new();
    let mut i: usize = 0;
    assert(controls@.subrange(0, 0) =~= Seq::<ControlObservation>::empty());
    while i < controls.len()
        invariant
            i <= controls@.len(),
            sink.transcript() == controls_transcript(Seq::empty(), controls@.subrange(0, i as int)),
        decreases controls@.len() - i,
    {
        proof {
            let next = controls@.subrange(0, i + 1);
            assert(next.drop_last() =~= controls@.subrange(0, i as int));
            assert(next.last() == controls@[i as int]);
        }
        let c = &controls[i];
        let _ = write_tlv(&mut sink, 1, c.action_hash.0.as_slice());
        let t: [u8; 1] = [c.control_type.as_u8()];
        assert(t@ =~= seq![control_type_code(c.control_type)]);
        let _ = write_tlv(&mut sink, 2, t.as_slice());
        let st: [u8; 1] = [c.status.as_u8()];
        assert(st@ =~= seq![control_status_code(c.status)]);
        let _ = write_tlv(&mut sink, 3, st.as_slice());
        let _ = write_tlv(&mut sink, 4, c.actor_hash.0.as_slice());
        i = i + 1;
    }
    assert(controls@.subrange(0, controls@.len() as int) =~= controls@);
    sink.finalize()
}

/// Whether a control observation is what its JSON form states.
pub open spec fn observation_matches(o: ControlObservation, j: ControlObservationJson) -> bool {
    &&& control_type_of(j.control_type@) == Some(o.control_type)
    &&& digest_of_text(j.action_hash@) == Some(o.action_hash@)
    &&& control_status_of(j.status@) == Some(o.status)
    &&& digest_of_text(j.actor_hash@) == Some(o.actor_hash@)
    &&& o.observed_at == TimestampUtc { unix_seconds: j.observed_at, nanos: 0 }
    &&& opt_digest_is(o.evidence_hash, j.evidence_hash)
}

/// The failure, if any, of reading one control observation, in field order.
pub open spec fn observation_error(j: ControlObservationJson) -> Option<ErrorView> {
    or_else(name_error(control_type_of(j.control_type@), "unknown control type "@, j.control_type@), or_else(
        hex_digest_error(j.action_hash@),
        or_else(
            name_error(control_status_of(j.status@), "unknown control status "@, j.status@),
            or_else(hex_digest_error(j.actor_hash@), opt_digest_error(j.evidence_hash)),
        ),
    ))
}

/// The first failure, if any, among the observations in order.
pub open spec fn observations_error(obs: Seq<ControlObservationJson>) -> Option<ErrorView>
    decreases obs.len(),
{
    if obs.len() == 0 {
        None
    } else {
        or_else(observation_error(obs[0]), observations_error(obs.drop_first()))
    }
}

/// The failure, if any, of reading a controls file: its schema, then its
/// observations in order.
pub open spec fn controls_error(f: ControlsFile) -> Option<ErrorView> {
    if f.schema@ != CONTROLS_SCHEMA_V1@ {
        Some(ErrorView::InvalidInput("expected "@ + CONTROLS_SCHEMA_V1@))
    } else {
        observations_error(f.observations@)
    }
}

fn normalize_observation(j: &ControlObservationJson) -> (r: Result<ControlObservation>)
    ensures
        r matches Ok(o) ==> observation_matches(o, *j),
        fails_as(r, observation_error(*j)),
{
    let control_type = control_type_from_str(j.control_type.as_str())?;
    let action_hash = parse_hex_digest(j.action_hash.as_str())?;
    let status = control_status_from_str(j.status.as_str())?;
    let actor_hash = parse_hex_digest(j.actor_hash.as_str())?;
    let evidence_hash = parse_opt_digest(&j.evidence_hash)?;
    Ok(ControlObservation {
        control_type,
        action_hash,
        status,
        actor_hash,
        observed_at: TimestampUtc { unix_seconds: j.observed_at, nanos: 0 },
        evidence_hash,
    })
}

/// The control observations a controls file states.
pub fn normalize_controls(controls: &ControlsFile) -> (r: Result<Vec<ControlObservation>>)
    ensures
        fails_as(r, controls_error(*controls)),
        r matches Ok(v) ==> v@.len() == controls.observations@.len()
            && forall|i: int| 0 <= i < v@.len() ==> observation_matches(#[trigger] v@[i], controls.observations@[i]),
{
    if !str_eq(controls.schema.as_str(), CONTROLS_SCHEMA_V1) {
        return Err(crate::receipt_v2::expected_schema(CONTROLS_SCHEMA_V1));
    }
    let obs = &controls.observations;
    let mut out: Vec<ControlObservation> = Vec::new();
    let mut i: usize = 0;
    assert(obs@.subrange(0, obs@.len() as int) =~= obs@);
    while i < obs.len()
        invariant
            i <= obs@.len(),
            obs@ == controls.observations@,
            controls.schema@ == CONTROLS_SCHEMA_V1@,
            out@.len() == i,
            observations_error(obs@) == observations_error(obs@.subrange(i as int, obs@.len() as int)),
            forall|j: int| 0 <= j < i ==> observation_matches(#[trigger] out@[j], obs@[j]),
        decreases obs@.len() - i,
    {
        let ghost rest = obs@.subrange(i as int, obs@.len() as int);
        assert(rest[0] == obs@[i as int]);
        assert(rest.drop_first() =~= obs@.subrange(i + 1, obs@.len() as int));
        let o = normalize_observation(&obs[i])?;
        out.push(o);
        i = i + 1;
    }
    assert(obs@.subrange(obs@.len() as int, obs@.len() as int) =~= Seq::<ControlObservationJson>::empty());
    Ok(out)
}

} // verus!
