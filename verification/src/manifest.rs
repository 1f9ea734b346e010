use vstd::prelude::*;
use crate::error::{Error, Result};
use crate::limits::{MAX_ARTIFACTS, MAX_PATH_HINT_LEN};
use crate::types::{ActionId, BoundedBytes, Sha256Digest};

verus! {

/// What an artifact of an action is.
#[derive(Clone, Copy, Debug, PartialEq, Eq, Structural)]
pub enum ArtifactType {
    ActionProposal,
    Prompt,
    PolicySpec,
    PolicyCompilation,
    ControlSet,
    Other,
}

/// The media type of an artifact.
#[derive(Clone, Copy, Debug, PartialEq, Eq, Structural)]
pub enum MediaType {
    ApplicationJson,
    TextPlain,
    ApplicationYaml,
    ApplicationOctetStream,
}

/// One artifact that a manifest binds to an action.
#[derive(Clone, Copy, Debug)]
pub struct ArtifactRef<'a> {
    pub artifact_type: ArtifactType,
    pub media_type: MediaType,
    pub path_hash: Sha256Digest,
    pub size_bytes: u64,
    pub content_hash: Sha256Digest,
    pub schema_hash: Option<Sha256Digest>,
    pub path_hint: BoundedBytes<'a, MAX_PATH_HINT_LEN>,
}

impl<'a> ArtifactRef<'a> {
    /// Checks the artifact; every artifact that can be built passes.
    pub fn validate(&self) -> (r: Result<()>)
        ensures
            r is Ok,
    {
        Ok(())
    }
}

/// The artifacts of an action, bound under one manifest hash.
#[derive(Clone, Copy, Debug)]
pub struct ManifestBinding<'a> {
    pub action_id: ActionId<'a>,
    pub manifest_hash: Sha256Digest,
    pub artifacts: &'a [ArtifactRef<'a>],
}

/// The failure, if any, of a manifest with `n` artifacts: none, or more than
/// `MAX_ARTIFACTS`.
pub open spec fn manifest_error(n: nat) -> Option<Error> {
    if n == 0 {
        Some(Error::EmptyValue)
    } else if n > MAX_ARTIFACTS {
        Some(Error::TooManyArtifacts)
    } else {
        None
    }
}

impl<'a> ManifestBinding<'a> {
    /// Checks that the manifest binds one to `MAX_ARTIFACTS` artifacts.
    pub fn validate(&self) -> (r: Result<()>)
        ensures
            manifest_error(self.artifacts@.len()) matches Some(e) ==> r == Err::<(), Error>(e),
            manifest_error(self.artifacts@.len()) is None ==> r is Ok,
    {
        if self.artifacts.len() == 0 {
            return Err(Error::EmptyValue);
        }
        if self.artifacts.len() > MAX_ARTIFACTS {
            return Err(Error::TooManyArtifacts);
        }
        let mut i: usize = 0;
        while i < self.artifacts.len()
            invariant
                i <= self.artifacts@.len(),
            decreases self.artifacts@.len() - i,
        {
            self.artifacts[i].validate()?;
            i = i + 1;
        }
        Ok(())
    }
}

} // verus!
