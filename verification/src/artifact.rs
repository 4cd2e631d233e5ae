//! The temporary files of one request. A request owns at most three: the
//! upload as it arrived, the input under its sniffed extension, and the
//! output under the target extension. The library decides when each is
//! claimed and when it is released; creating and deleting the files is the
//! caller's part.

use vstd::prelude::*;

verus! {

/// What a temporary file of a request is for.
#[derive(Clone, Copy, Debug, PartialEq, Eq, Structural)]
pub enum ArtifactRole {
    /// The upload as received, under a name without extension.
    Upload,
    /// The upload under its sniffed extension, read by the transcoder.
    Input,
    /// What the transcoder writes, under the target extension.
    Output,
}

/// A set of artifacts of one request.
#[derive(Clone, Copy, Debug, PartialEq, Eq, Structural)]
pub struct ArtifactSet {
    pub upload: bool,
    pub input: bool,
    pub output: bool,
}

impl ArtifactSet {
    /// Whether the set holds the artifact of a role.
    pub open spec fn has(self, role: ArtifactRole) -> bool {
        match role {
            ArtifactRole::Upload => self.upload,
            ArtifactRole::Input => self.input,
            ArtifactRole::Output => self.output,
        }
    }

    /// The set without any artifact.
    pub open spec fn none() -> ArtifactSet {
        ArtifactSet { upload: false, input: false, output: false }
    }

    /// The artifacts of either set.
    pub open spec fn plus(self, other: ArtifactSet) -> ArtifactSet {
        ArtifactSet {
            upload: self.upload || other.upload,
            input: self.input || other.input,
            output: self.output || other.output,
        }
    }

    /// The artifacts of this set that are not in the other.
    pub open spec fn minus(self, other: ArtifactSet) -> ArtifactSet {
        ArtifactSet {
            upload: self.upload && !other.upload,
            input: self.input && !other.input,
            output: self.output && !other.output,
        }
    }

    /// No artifact is in both sets.
    pub open spec fn disjoint(self, other: ArtifactSet) -> bool {
        !(self.upload && other.upload) && !(self.input && other.input) && !(self.output
            && other.output)
    }

    /// How many artifacts the set holds.
    pub open spec fn size(self) -> nat {
        (if self.upload {
            1nat
        } else {
            0nat
        }) + (if self.input {
            1nat
        } else {
            0nat
        }) + (if self.output {
            1nat
        } else {
            0nat
        })
    }

    /// The set without any artifact.
    pub fn empty() -> (set: ArtifactSet)
        ensures
            set == ArtifactSet::none(),
    {
        ArtifactSet { upload: false, input: false, output: false }
    }

    /// Whether the set holds the artifact of a role.
    pub fn contains(&self, role: ArtifactRole) -> (found: bool)
        ensures
            found == self.has(role),
    {
        match role {
            ArtifactRole::Upload => self.upload,
            ArtifactRole::Input => self.input,
            ArtifactRole::Output => self.output,
        }
    }

    /// Whether the set holds no artifact.
    pub fn is_empty(&self) -> (empty: bool)
        ensures
            empty == (*self == ArtifactSet::none()),
            empty == (self.size() == 0),
    {
        !self.upload && !self.input && !self.output
    }

    /// The artifacts of either set.
    pub fn union(self, other: ArtifactSet) -> (both: ArtifactSet)
        ensures
            both == self.plus(other),
    {
        ArtifactSet {
            upload: self.upload || other.upload,
            input: self.input || other.input,
            output: self.output || other.output,
        }
    }

    /// The artifacts of this set that are not in the other.
    pub fn without(self, other: ArtifactSet) -> (rest: ArtifactSet)
        ensures
            rest == self.minus(other),
    {
        ArtifactSet {
            upload: self.upload && !other.upload,
            input: self.input && !other.input,
            output: self.output && !other.output,
        }
    }

    /// How many artifacts the set holds.
    pub fn count(&self) -> (count: usize)
        ensures
            count == self.size(),
    {
        let mut count: usize = 0;
        if self.upload {
            count += 1;
        }
        if self.input {
            count += 1;
        }
        if self.output {
            count += 1;
        }
        count
    }
}

} // verus!
