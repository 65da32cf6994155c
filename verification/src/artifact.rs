//! A model of the kernel-artifact cache and its coherency laws.
//!
//! The real cache is a file of opaque device binary bytes; whether a binary
//! behaves like the program it was compiled from is the device ecosystem's
//! guarantee and cannot be observed host-side. This module states the
//! caching strategy itself over a model in which a built program is known
//! by its provenance — the source it was compiled from, the element type
//! embedded in its build options, and the device it was built for — and
//! proves the laws the strategy is designed for: a persisted binary loaded
//! for the same (device, type) tuple stands for the very program that was
//! built from source, and a binary built for one element type or device is
//! never reused for another.

use vstd::prelude::*;

use crate::traits::ElemType;

verus! {

/// What determines a built program's behaviour: the source artifact it was
/// compiled from and the element type its build options embedded.
#[derive(Clone, Copy, PartialEq, Eq, Structural, Debug)]
pub struct Provenance {
    pub source_id: u64,
    pub elem: ElemType,
}

/// A persisted binary artifact: the provenance of the program whose binary
/// it is, and the device it was compiled for.
#[derive(Clone, Copy, PartialEq, Eq, Structural, Debug)]
pub struct BinaryArtifact {
    pub device_id: u64,
    pub provenance: Provenance,
}

/// The artifact cache: at most one persisted binary.
#[derive(Clone, Copy, PartialEq, Eq, Structural, Debug)]
pub struct ArtifactCache {
    pub stored: Option<BinaryArtifact>,
}

/// Whether the stored binary may serve a request for (`device_id`, `elem`):
/// only a binary built for exactly that device and element type.
pub open spec fn spec_binary_usable(
    stored: Option<BinaryArtifact>,
    device_id: u64,
    elem: ElemType,
) -> bool {
    match stored {
        Some(bin) => bin.device_id == device_id && bin.provenance.elem == elem,
        None => false,
    }
}

/// The program that `load_or_build` yields: the stored binary's program
/// when the binary is usable for the request, else a fresh compilation of
/// the source with the requested element type.
pub open spec fn spec_load_or_build(
    cache: ArtifactCache,
    device_id: u64,
    source_id: u64,
    elem: ElemType,
) -> Provenance {
    if spec_binary_usable(cache.stored, device_id, elem) {
        cache.stored->Some_0.provenance
    } else {
        Provenance { source_id, elem }
    }
}

impl ArtifactCache {
    /// A cache holding no binary.
    pub fn empty() -> (c: ArtifactCache)
        ensures
            c.stored is None,
    {
        ArtifactCache { stored: None }
    }

    /// Loads the stored binary when it is usable for this device and
    /// element type; otherwise compiles the source and persists its binary.
    /// Either way the cache afterwards holds the binary of the very program
    /// returned, built for this device.
    pub fn load_or_build(
        &mut self,
        device_id: u64,
        source_id: u64,
        elem: ElemType,
    ) -> (p: Provenance)
        ensures
            p == spec_load_or_build(*old(self), device_id, source_id, elem),
            final(self).stored == Some(BinaryArtifact { device_id, provenance: p }),
            p.elem == elem,
    {
        let usable = match self.stored {
            Some(bin) => bin.device_id == device_id && bin.provenance.elem == elem,
            None => false,
        };
        if usable {
            let bin = self.stored.unwrap();
            self.stored = Some(BinaryArtifact { device_id, provenance: bin.provenance });
            bin.provenance
        } else {
            let p = Provenance { source_id, elem };
            self.stored = Some(BinaryArtifact { device_id, provenance: p });
            p
        }
    }
}

/// Round trip: building from source (cold cache), persisting the binary,
/// then loading that binary for the same (device, type, source) tuple gives
/// the same program — the cached run behaves exactly like the source-built
/// one.
pub proof fn lemma_artifact_round_trip(
    cold: ArtifactCache,
    device_id: u64,
    source_id: u64,
    elem: ElemType,
)
    requires
        cold.stored is None,
    ensures
        ({
            let first = spec_load_or_build(cold, device_id, source_id, elem);
            let warmed = ArtifactCache {
                stored: Some(BinaryArtifact { device_id, provenance: first }),
            };
            spec_load_or_build(warmed, device_id, source_id, elem) == first
            && first == Provenance { source_id, elem }
        }),
{
}

/// No cross-type and no cross-device reuse: a stored binary built for a
/// different element type or device never serves the request; the program
/// comes from a fresh compilation with the requested type.
pub proof fn lemma_no_cross_type_reuse(
    cache: ArtifactCache,
    device_id: u64,
    source_id: u64,
    elem: ElemType,
)
    requires
        !spec_binary_usable(cache.stored, device_id, elem),
    ensures
        spec_load_or_build(cache, device_id, source_id, elem) == (Provenance { source_id, elem }),
{
}

} // verus!
