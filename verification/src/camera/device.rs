//! Device handle: finding the device behind a configured path and asking
//! it for the configured frame format.
//!
//! A configured path may be a symbolic link, and so may what it points at.
//! The chain is followed for a bounded number of hops. Looking at the file
//! system is the driver's work: it probes the path it is told to probe and
//! reports what it found; the resolver decides what follows.

use vstd::prelude::*;
use crate::camera::config::CameraDevice;
use crate::camera::distribution::CaptureError;
use crate::paths::follow_link;
use crate::paths::link_target;

verus! {

/// How many symbolic links are followed before resolution gives up.
pub const MAX_SYMLINK_HOPS: usize = 10;

/// How many buffers a capture session maps.
pub const BUFFER_COUNT: u32 = 4;

/// The pixel format asked of every device: motion JPEG.
pub const PIXEL_FORMAT: [u8; 4] = [0x4d, 0x4a, 0x50, 0x47];

/// What the driver found at the path it probed.
pub enum Probe {
    /// Something that is not a symbolic link.
    Plain,
    /// A symbolic link with this target.
    Link(String),
    /// Nothing that could be examined.
    Unreadable,
    /// A symbolic link whose target could not be read.
    LinkUnreadable,
}

/// A probe as plain values.
pub enum ProbeModel {
    Plain,
    Link(Seq<char>),
    Unreadable,
    LinkUnreadable,
}

impl View for Probe {
    type V = ProbeModel;

    open spec fn view(&self) -> ProbeModel {
        match self {
            Probe::Plain => ProbeModel::Plain,
            Probe::Link(target) => ProbeModel::Link(target@),
            Probe::Unreadable => ProbeModel::Unreadable,
            Probe::LinkUnreadable => ProbeModel::LinkUnreadable,
        }
    }
}

/// Why a path could not be resolved.
#[derive(Clone, Copy, Debug, PartialEq, Eq, Structural)]
pub enum PathResolutionError {
    /// A path on the chain could not be examined.
    Unreadable,
    /// The target of a link on the chain could not be read.
    LinkUnreadable,
    /// The chain is longer than `MAX_SYMLINK_HOPS` links.
    TooManyHops,
}

/// Where resolution stands, as plain values.
pub enum ResolveModel {
    /// The path to probe next, and the number of links followed so far.
    Probing(Seq<char>, nat),
    /// Resolution ended at this path.
    Resolved(Seq<char>),
    /// Resolution failed at this path.
    Failed(PathResolutionError, Seq<char>),
}

/// What follows when the probe of `current`, reached over `hops` links,
/// gave `probe`.
pub open spec fn resolve_step(current: Seq<char>, hops: nat, probe: ProbeModel) -> ResolveModel {
    match probe {
        ProbeModel::Plain => ResolveModel::Resolved(current),
        ProbeModel::Unreadable => ResolveModel::Failed(PathResolutionError::Unreadable, current),
        ProbeModel::LinkUnreadable => ResolveModel::Failed(
            PathResolutionError::LinkUnreadable,
            current,
        ),
        ProbeModel::Link(target) => if hops < MAX_SYMLINK_HOPS {
            ResolveModel::Probing(link_target(current, target), hops + 1)
        } else {
            ResolveModel::Failed(PathResolutionError::TooManyHops, current)
        },
    }
}

/// Where resolution stands after the probes `probes`, in their order,
/// starting from `current` reached over `hops` links. Probes after the end
/// of resolution are not looked at.
pub open spec fn resolve_run(current: Seq<char>, hops: nat, probes: Seq<ProbeModel>) -> ResolveModel
    decreases probes.len(),
{
    if probes.len() == 0 {
        ResolveModel::Probing(current, hops)
    } else {
        match resolve_step(current, hops, probes[0]) {
            ResolveModel::Probing(next, followed) => resolve_run(next, followed, probes.skip(1)),
            ended => ended,
        }
    }
}

/// A resolution under way: the path to probe next and the links followed
/// to reach it.
pub struct PathResolver {
    current: String,
    hops: usize,
}

/// The outcome of one step of resolution.
pub enum Resolution {
    /// Not done: probe the resolver's current path and step again.
    Probing(PathResolver),
    /// Done: the device is at this path.
    Resolved(String),
    /// Failed at this path.
    Failed(PathResolutionError, String),
}

impl View for Resolution {
    type V = ResolveModel;

    closed spec fn view(&self) -> ResolveModel {
        match self {
            Resolution::Probing(resolver) => ResolveModel::Probing(
                resolver.current@,
                resolver.hops as nat,
            ),
            Resolution::Resolved(path) => ResolveModel::Resolved(path@),
            Resolution::Failed(error, path) => ResolveModel::Failed(*error, path@),
        }
    }
}

impl PathResolver {
    /// The path to probe next.
    pub closed spec fn current(&self) -> Seq<char> {
        self.current@
    }

    /// The number of links followed so far.
    pub closed spec fn hops(&self) -> nat {
        self.hops as nat
    }

    /// No more links were followed than are allowed.
    pub open spec fn wf(&self) -> bool {
        self.hops() <= MAX_SYMLINK_HOPS
    }

    /// Starts resolving `path`.
    pub fn start(path: String) -> (resolver: PathResolver)
        ensures
            resolver.wf(),
            resolver.current() == path@,
            resolver.hops() == 0,
    {
        PathResolver { current: path, hops: 0 }
    }

    /// The path to probe next.
    pub fn path(&self) -> (path: &str)
        ensures
            path@ == self.current(),
    {
        self.current.as_str()
    }

    /// The number of links followed so far.
    pub fn followed(&self) -> (hops: usize)
        ensures
            hops == self.hops(),
    {
        self.hops
    }

    /// Takes in what the probe of the current path found. A plain file ends
    /// resolution at the current path; a link leads on, unless the allowed
    /// number of links has been followed already; a failed probe ends it
    /// with an error.
    pub fn step(self, probe: Probe) -> (next: Resolution)
        requires
            self.wf(),
        ensures
            next@ == resolve_step(self.current(), self.hops(), probe@),
            next matches Resolution::Probing(resolver) ==> resolver.wf() && resolver.hops()
                == self.hops() + 1,
    {
        match probe {
            Probe::Plain => Resolution::Resolved(self.current),
            Probe::Unreadable => Resolution::Failed(PathResolutionError::Unreadable, self.current),
            Probe::LinkUnreadable => Resolution::Failed(
                PathResolutionError::LinkUnreadable,
                self.current,
            ),
            Probe::Link(target) => {
                if self.hops < MAX_SYMLINK_HOPS {
                    let next = follow_link(self.current.as_str(), target);
                    Resolution::Probing(PathResolver { current: next, hops: self.hops + 1 })
                } else {
                    Resolution::Failed(PathResolutionError::TooManyHops, self.current)
                }
            },
        }
    }
}

/// Resolution ends within the bounded number of hops: whatever the probes
/// find, once one more probe than the hops still allowed has been taken in,
/// the path is resolved or an error is reported.
pub proof fn lemma_resolution_is_bounded(current: Seq<char>, hops: nat, probes: Seq<ProbeModel>)
    requires
        hops <= MAX_SYMLINK_HOPS,
        probes.len() > MAX_SYMLINK_HOPS - hops,
    ensures
        !(resolve_run(current, hops, probes) is Probing),
    decreases probes.len(),
{
    match resolve_step(current, hops, probes[0]) {
        ResolveModel::Probing(next, followed) => {
            lemma_resolution_is_bounded(next, followed, probes.skip(1));
        },
        _ => {},
    }
}

/// A path that is no symbolic link resolves to itself at the first probe.
pub proof fn lemma_direct_path_resolves_to_itself(path: Seq<char>, later: Seq<ProbeModel>)
    ensures
        resolve_step(path, 0, ProbeModel::Plain) == ResolveModel::Resolved(path),
        resolve_run(path, 0, seq![ProbeModel::Plain] + later) == ResolveModel::Resolved(path),
{
    assert((seq![ProbeModel::Plain] + later)[0] == ProbeModel::Plain);
}

/// The frame format of a capture device, as far as it is negotiated here.
#[derive(Clone, Copy, Debug)]
pub struct CaptureFormat {
    /// Frame width in pixels.
    pub width: u32,
    /// Frame height in pixels.
    pub height: u32,
    /// Four-character code of the pixel format.
    pub fourcc: [u8; 4],
    /// Bytes per line, as the device reported it.
    pub stride: u32,
    /// Bytes per frame, as the device reported it.
    pub size: u32,
}

/// The format to commit to a device: the one it reported, with the frame
/// size of its configured slot and the fixed pixel format written over it.
pub open spec fn requested_format(reported: CaptureFormat, slot: CameraDevice) -> CaptureFormat {
    CaptureFormat {
        width: slot.width,
        height: slot.height,
        fourcc: PIXEL_FORMAT,
        stride: reported.stride,
        size: reported.size,
    }
}

/// Computes the format to commit to a device from the one it reported.
pub fn request_format(reported: CaptureFormat, slot: &CameraDevice) -> (format: CaptureFormat)
    ensures
        format == requested_format(reported, *slot),
{
    CaptureFormat {
        width: slot.width,
        height: slot.height,
        fourcc: PIXEL_FORMAT,
        stride: reported.stride,
        size: reported.size,
    }
}

/// The steps of opening a device, in their order.
#[derive(Clone, Copy, Debug, PartialEq, Eq, Structural)]
pub enum OpenStage {
    /// Resolve the configured path.
    ResolvePath,
    /// Open the device at the resolved path.
    OpenDevice,
    /// Read the format the device currently has.
    ReadFormat,
    /// Commit the requested format.
    WriteFormat,
    /// Map the capture session's buffers.
    MapBuffers,
}

/// The error that a failure at `stage` amounts to.
pub open spec fn stage_error(stage: OpenStage) -> CaptureError {
    match stage {
        OpenStage::ResolvePath => CaptureError::PathResolution,
        OpenStage::OpenDevice => CaptureError::DeviceOpen,
        OpenStage::ReadFormat => CaptureError::FormatNegotiation,
        OpenStage::WriteFormat => CaptureError::FormatNegotiation,
        OpenStage::MapBuffers => CaptureError::DeviceOpen,
    }
}

impl OpenStage {
    /// The error that a failure at this step amounts to. None of them is
    /// fatal: the loop tries the device again.
    pub fn error(self) -> (error: CaptureError)
        ensures
            error == stage_error(self),
    {
        match self {
            OpenStage::ResolvePath => CaptureError::PathResolution,
            OpenStage::OpenDevice => CaptureError::DeviceOpen,
            OpenStage::ReadFormat => CaptureError::FormatNegotiation,
            OpenStage::WriteFormat => CaptureError::FormatNegotiation,
            OpenStage::MapBuffers => CaptureError::DeviceOpen,
        }
    }
}

} // verus!
