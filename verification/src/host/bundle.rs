//! What the host checks of an evidence bundle before it evaluates a policy:
//! the manifest's schema, that every artifact file hashes to its manifest
//! entry, which artifacts are the prompt, the action and the model waist, and
//! that the action is bound to the prompt.
use vstd::prelude::*;
use crate::bytes::str_eq;
use crate::codec::hex_lower;
use crate::crypto::sha256_spec;
use crate::host::issue::digest_of;
use crate::host::{ActionJson, HostError};
use crate::receipt_v2::check::digest_json;
use crate::receipt_v2::json::{DigestJson, ManifestArtifactJson, ManifestJson, ModelWaistJson};
use crate::receipt_v2::{expected_text, owned_text, MANIFEST_SCHEMA_V2};
use crate::text::concat;

verus! {

/// The schema of an action artifact.
pub const ACTION_SCHEMA_V1: &'static str = "ink.action.v1";

/// Refuses a manifest whose schema is not the manifest schema.
pub fn check_bundle_manifest(manifest: &ManifestJson) -> (r: Result<(), HostError>)
    ensures
        manifest.schema@ == MANIFEST_SCHEMA_V2@ ==> r is Ok,
        manifest.schema@ != MANIFEST_SCHEMA_V2@
            ==> (r matches Err(HostError::InvalidInput(m)) && m@ == expected_text(MANIFEST_SCHEMA_V2@)),
{
    if str_eq(manifest.schema.as_str(), MANIFEST_SCHEMA_V2) {
        Ok(())
    } else {
        Err(HostError::InvalidInput(concat("expected ", MANIFEST_SCHEMA_V2)))
    }
}

/// Whether an artifact's file content hashes to the digest its entry states.
pub open spec fn artifact_matches(a: ManifestArtifactJson, content: Seq<u8>) -> bool {
    hex_lower(sha256_spec(content)) == a.hash.digest@
}

/// The first artifact whose content does not hash to its entry.
pub open spec fn first_mismatch(a: Seq<ManifestArtifactJson>, contents: Seq<Vec<u8>>) -> Option<int>
    decreases a.len(),
{
    if a.len() == 0 {
        None
    } else if !artifact_matches(a[0], contents[0]@) {
        Some(0)
    } else {
        match first_mismatch(a.drop_first(), contents.drop_first()) {
            Some(i) => Some(i + 1),
            None => None,
        }
    }
}

/// The last artifact of the given type.
pub open spec fn last_of_type(a: Seq<ManifestArtifactJson>, t: Seq<char>) -> Option<int>
    decreases a.len(),
{
    if a.len() == 0 {
        None
    } else if a.last().artifact_type@ == t {
        Some(a.len() - 1)
    } else {
        last_of_type(a.drop_last(), t)
    }
}

/// Which artifacts of a bundle play which part: the digest of the prompt
/// text, and the positions of the action and of the model waist.
#[derive(Debug)]
pub struct ArtifactRoles {
    pub prompt_hash: Option<DigestJson>,
    pub action: Option<usize>,
    pub model: Option<usize>,
}

/// Whether the roles are those of the artifacts: the digest of the last
/// prompt text, and the positions of the last action and last model waist.
pub open spec fn roles_ok(
    prompt_hash: Option<DigestJson>,
    action: Option<usize>,
    model: Option<usize>,
    a: Seq<ManifestArtifactJson>,
    contents: Seq<Vec<u8>>,
) -> bool {
    &&& match last_of_type(a, "prompt_text"@) {
        Some(k) => (prompt_hash matches Some(d) && digest_of(d, contents[k]@)),
        None => prompt_hash is None,
    }
    &&& match last_of_type(a, "action_json"@) {
        Some(k) => action == Some(k as usize),
        None => action is None,
    }
    &&& match last_of_type(a, "model_waist_json"@) {
        Some(k) => model == Some(k as usize),
        None => model is None,
    }
}

/// The message of an artifact whose file does not hash to its entry.
pub open spec fn mismatch_text(path: Seq<char>) -> Seq<char> {
    "artifact hash mismatch: "@ + path
}

proof fn lemma_first_mismatch_prefix(a: Seq<ManifestArtifactJson>, contents: Seq<Vec<u8>>, i: int)
    requires
        0 <= i < a.len(),
        a.len() == contents.len(),
        forall|j: int| 0 <= j < i ==> artifact_matches(a[j], #[trigger] contents[j]@),
    ensures
        !artifact_matches(a[i], contents[i]@) ==> first_mismatch(a, contents) == Some(i),
        (forall|j: int| 0 <= j < a.len() ==> artifact_matches(a[j], #[trigger] contents[j]@)) ==> first_mismatch(a, contents) is None,
    decreases i,
{
    if i > 0 {
        lemma_first_mismatch_prefix(a.drop_first(), contents.drop_first(), i - 1);
    } else {
        if forall|j: int| 0 <= j < a.len() ==> artifact_matches(a[j], #[trigger] contents[j]@) {
            lemma_all_match(a, contents);
        }
    }
    if forall|j: int| 0 <= j < a.len() ==> artifact_matches(a[j], #[trigger] contents[j]@) {
        lemma_all_match(a, contents);
    }
}

proof fn lemma_all_match(a: Seq<ManifestArtifactJson>, contents: Seq<Vec<u8>>)
    requires
        a.len() == contents.len(),
        forall|j: int| 0 <= j < a.len() ==> artifact_matches(a[j], #[trigger] contents[j]@),
    ensures
        first_mismatch(a, contents) is None,
    decreases a.len(),
{
    if a.len() > 0 {
        assert forall|j: int| 0 <= j < a.drop_first().len() implies artifact_matches(a.drop_first()[j], #[trigger] contents.drop_first()[j]@) by {
            assert(a.drop_first()[j] == a[j + 1]);
            assert(contents.drop_first()[j] == contents[j + 1]);
        }
        lemma_all_match(a.drop_first(), contents.drop_first());
    }
}

/// Checks every artifact's content against its manifest entry, in order, and
/// finds the prompt, action and model waist artifacts; where a type occurs
/// more than once the last one counts.
pub fn check_bundle_artifacts(manifest: &ManifestJson, contents: &Vec<Vec<u8>>) -> (r: Result<ArtifactRoles, HostError>)
    requires
        contents@.len() == manifest.artifacts@.len(),
    ensures
        first_mismatch(manifest.artifacts@, contents@) matches Some(i)
            ==> (r matches Err(HostError::InvalidInput(m)) && m@ == mismatch_text(manifest.artifacts@[i].path@)),
        first_mismatch(manifest.artifacts@, contents@) is None
            ==> (r matches Ok(roles) && roles_ok(roles.prompt_hash, roles.action, roles.model, manifest.artifacts@, contents@)),
{
    let artifacts = &manifest.artifacts;
    let mut prompt_hash: Option<DigestJson> = None;
    let mut action: Option<usize> = None;
    let mut model: Option<usize> = None;
    let mut i: usize = 0;
    while i < artifacts.len()
        invariant
            i <= artifacts@.len(),
            artifacts@ == manifest.artifacts@,
            contents@.len() == artifacts@.len(),
            forall|j: int| 0 <= j < i ==> artifact_matches(artifacts@[j], #[trigger] contents@[j]@),
            roles_ok(prompt_hash, action, model, artifacts@.subrange(0, i as int), contents@),
        decreases artifacts@.len() - i,
    {
        let digest = crate::digest::sha256(contents[i].as_slice());
        let stated = digest_json(&digest);
        if !str_eq(stated.digest.as_str(), artifacts[i].hash.digest.as_str()) {
            proof {
                lemma_first_mismatch_prefix(artifacts@, contents@, i as int);
            }
            return Err(HostError::InvalidInput(concat("artifact hash mismatch: ", artifacts[i].path.as_str())));
        }
        let ghost next = artifacts@.subrange(0, i + 1);
        proof {
            assert(next.drop_last() =~= artifacts@.subrange(0, i as int));
            assert(next.last() == artifacts@[i as int]);
        }
        let kind: &str = artifacts[i].artifact_type.as_str();
        proof {
            reveal_strlit("prompt_text");
            reveal_strlit("action_json");
            reveal_strlit("model_waist_json");
            assert("prompt_text"@[0] != "action_json"@[0]);
            assert("prompt_text"@.len() != "model_waist_json"@.len());
            assert("action_json"@.len() != "model_waist_json"@.len());
        }
        if str_eq(kind, "prompt_text") {
            prompt_hash = Some(stated);
        } else if str_eq(kind, "action_json") {
            action = Some(i);
        } else if str_eq(kind, "model_waist_json") {
            model = Some(i);
        }
        proof {
            assert(contents@[i as int]@ == contents[i as int]@);
        }
        i = i + 1;
    }
    proof {
        assert(artifacts@.subrange(0, artifacts@.len() as int) =~= artifacts@);
        lemma_all_match(artifacts@, contents@);
    }
    Ok(ArtifactRoles { prompt_hash, action, model })
}

/// The failure of binding a bundle's action to its prompt and model: no
/// action, an action of another schema, an action whose prompt hash is not the
/// prompt's, then no model waist.
pub open spec fn binding_error(action: Option<ActionJson>, prompt_hash: Option<DigestJson>, model_present: bool) -> Option<Seq<char>> {
    match action {
        None => Some("missing action_json artifact"@),
        Some(a) => if a.schema@ != ACTION_SCHEMA_V1@ {
            Some(expected_text(ACTION_SCHEMA_V1@))
        } else if !(prompt_hash matches Some(p) && p.digest@ == a.prompt_hash.digest@) {
            Some("prompt/action binding mismatch"@)
        } else if !model_present {
            Some("missing model_waist_json artifact"@)
        } else {
            None
        },
    }
}

/// Checks that a bundle has an action of the action schema, bound to its
/// prompt, and a model waist.
pub fn check_bundle_binding(action: Option<&ActionJson>, prompt_hash: Option<&DigestJson>, model: Option<&ModelWaistJson>) -> (r: Result<(), HostError>)
    ensures
        binding_error(match action { Some(a) => Some(*a), None => None }, match prompt_hash { Some(p) => Some(*p), None => None }, model is Some) is None ==> r is Ok,
        binding_error(match action { Some(a) => Some(*a), None => None }, match prompt_hash { Some(p) => Some(*p), None => None }, model is Some) matches Some(m)
            ==> (r matches Err(HostError::InvalidInput(t)) && t@ == m),
{
    let a = match action {
        Some(a) => a,
        None => return Err(HostError::InvalidInput(owned_text("missing action_json artifact"))),
    };
    if !str_eq(a.schema.as_str(), ACTION_SCHEMA_V1) {
        return Err(HostError::InvalidInput(concat("expected ", ACTION_SCHEMA_V1)));
    }
    let bound = match prompt_hash {
        Some(p) => str_eq(p.digest.as_str(), a.prompt_hash.digest.as_str()),
        None => false,
    };
    if !bound {
        return Err(HostError::InvalidInput(owned_text("prompt/action binding mismatch")));
    }
    if model.is_none() {
        return Err(HostError::InvalidInput(owned_text("missing model_waist_json artifact")));
    }
    Ok(())
}

} // verus!
