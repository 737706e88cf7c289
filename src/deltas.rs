//! Choosing how to resolve a difference between sender and receiver.
use vstd::prelude::*;

verus! {

/// The resource that limits a transfer.
#[derive(Clone, Copy, Debug, PartialEq, Eq, Structural)]
pub enum Bottleneck {
    Network,
    Disk,
    CPU,
}

/// The suggested method for resolving a difference between sender and
/// receiver.
#[derive(Clone, Copy, Debug, PartialEq, Eq, Structural)]
pub enum Resolution {
    DirectoryComplete,
    DirectoryCompleteCompressed,
    DirectoryDelta,
    DirectoryDeltaCompressed,
    FileComplete,
    FileDelta,
    FileCompleteCompressed,
    FileDeltaCompressed,
}

/// The method chosen for a bottleneck, for a directory or a single file: a
/// network bottleneck calls for compressed deltas; a disk bottleneck for
/// deltas; a CPU bottleneck for deltas of a directory and a complete copy of
/// a file.
pub open spec fn chosen_resolution(bn: Bottleneck, is_dir: bool) -> Resolution {
    if is_dir {
        match bn {
            Bottleneck::Disk => Resolution::DirectoryDelta,
            Bottleneck::Network => Resolution::DirectoryDeltaCompressed,
            Bottleneck::CPU => Resolution::DirectoryDelta,
        }
    } else {
        match bn {
            Bottleneck::Disk => Resolution::FileDelta,
            Bottleneck::Network => Resolution::FileDeltaCompressed,
            Bottleneck::CPU => Resolution::FileComplete,
        }
    }
}

/// Best-effort choice of how to resolve a conflict on a path, given the
/// bottleneck and whether the path is a directory.
pub fn resolution_method(bn: Bottleneck, is_dir: bool) -> (r: Resolution)
    ensures
        r == chosen_resolution(bn, is_dir),
{
    if is_dir {
        match bn {
            Bottleneck::Disk => Resolution::DirectoryDelta,
            Bottleneck::Network => Resolution::DirectoryDeltaCompressed,
            Bottleneck::CPU => Resolution::DirectoryDelta,
        }
    } else {
        match bn {
            Bottleneck::Disk => Resolution::FileDelta,
            Bottleneck::Network => Resolution::FileDeltaCompressed,
            Bottleneck::CPU => Resolution::FileComplete,
        }
    }
}

} // verus!
