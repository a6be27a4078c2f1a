use vstd::prelude::*;

pub mod copier;
pub mod copy_stage;
pub mod deliver;
pub mod layout;
pub mod reconstruct;

verus! {

/// What can go wrong between requesting a readback and delivering its bytes.
#[derive(Clone, Copy, PartialEq, Eq, Structural, Debug)]
pub enum ReadbackError {
    /// The device refused to allocate the staging buffer.
    ResourceExhausted,
    /// The source texture has no GPU-resident backing yet this frame.
    SourceNotReady,
    /// The device reported that mapping the staging buffer failed.
    MapFailed,
    /// The consumer side of the delivery channel is gone.
    ChannelClosed,
}

} // verus!
