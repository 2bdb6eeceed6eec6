use vstd::prelude::*;

verus! {

/// Errors returned by listener methods.
#[derive(Debug, Clone, PartialEq, Eq)]
pub enum EmitError {
    /// Event channel closed before the event could be forwarded.
    ChannelClosed(String),
}

/// Byte payload wrapper used in listener events.
#[derive(Clone, PartialEq, Eq)]
pub struct Blob(pub Vec<u8>);

impl Blob {
    /// Number of bytes.
    pub fn len(&self) -> (r: usize)
        ensures
            r == self.0@.len(),
    {
        self.0.len()
    }

    /// The bytes.
    pub fn as_slice(&self) -> (r: &[u8])
        ensures
            r@ == self.0@,
    {
        self.0.as_slice()
    }
}

impl From<Vec<u8>> for Blob {
    fn from(v: Vec<u8>) -> (r: Blob) {
        Blob(v)
    }
}

impl vstd::std_specs::convert::FromSpecImpl<Vec<u8>> for Blob {
    open spec fn obeys_from_spec() -> bool {
        true
    }

    open spec fn from_spec(v: Vec<u8>) -> Blob {
        Blob(v)
    }
}

impl From<Blob> for Vec<u8> {
    fn from(b: Blob) -> (r: Vec<u8>) {
        b.0
    }
}

impl vstd::std_specs::convert::FromSpecImpl<Blob> for Vec<u8> {
    open spec fn obeys_from_spec() -> bool {
        true
    }

    open spec fn from_spec(b: Blob) -> Vec<u8> {
        b.0
    }
}

/// Unified event stream for all listener interfaces.
#[allow(inconsistent_fields)]
pub enum Event {
    /// Full framebuffer image.
    Scanout { width: u32, height: u32, stride: u32, pixman_format: u32, data: Blob },
    /// Partial framebuffer rectangle update.
    Update { x: i32, y: i32, width: i32, height: i32, stride: u32, pixman_format: u32, data: Blob },
    /// Framebuffer export through a single DMABUF fd.
    ScanoutDmabuf {
        dmabuf: zvariant::OwnedFd,
        width: u32,
        height: u32,
        stride: u32,
        fourcc: u32,
        modifier: u64,
        y0_top: bool,
    },
    /// Partial update for the current DMABUF scanout.
    UpdateDmabuf { x: i32, y: i32, width: i32, height: i32 },
    /// Disable display output.
    Disable,
    /// Update host cursor position/visibility.
    MouseSet { x: i32, y: i32, on: i32 },
    /// Define a cursor image and hotspot.
    CursorDefine { width: i32, height: i32, hot_x: i32, hot_y: i32, data: Blob },
    /// Multi-plane DMABUF scanout payload.
    ScanoutDmabuf2 {
        dmabuf: Vec<zvariant::OwnedFd>,
        x: u32,
        y: u32,
        width: u32,
        height: u32,
        offset: Vec<u64>,
        stride: Vec<u32>,
        num_planes: u32,
        fourcc: u32,
        backing_width: u32,
        backing_height: u32,
        modifier: u64,
        y0_top: bool,
    },
    /// Framebuffer export through shared memory mapping.
    ScanoutMap {
        memfd: zvariant::OwnedFd,
        offset: u32,
        width: u32,
        height: u32,
        stride: u32,
        pixman_format: u32,
    },
    /// Partial update for the current mapped scanout.
    UpdateMap { x: i32, y: i32, width: i32, height: i32 },
}

/// Core listener interface name.
pub const IFACE_DISPLAY_LISTENER: &'static str = "org.qemu.Display1.Listener";

/// Optional shared-memory scanout interface name.
pub const IFACE_SCANOUT_MAP: &'static str = "org.qemu.Display1.Listener.Unix.Map";

/// Optional multi-plane DMABUF scanout interface name.
pub const IFACE_SCANOUT_DMABUF2: &'static str = "org.qemu.Display1.Listener.Unix.ScanoutDMABUF2";

/// Feature flags controlling which listener interfaces are exported.
#[derive(Clone, Copy, Debug, PartialEq, Eq, Structural)]
pub struct Options {
    /// Export `org.qemu.Display1.Listener.Unix.ScanoutDMABUF2`.
    pub with_dmabuf2: bool,
    /// Export `org.qemu.Display1.Listener.Unix.Map`.
    pub with_map: bool,
}

impl Default for Options {
    /// Multi-plane DMABUF on, shared-memory mapping off.
    fn default() -> (r: Options)
        ensures
            r == (Options { with_dmabuf2: true, with_map: false }),
    {
        Options { with_dmabuf2: true, with_map: false }
    }
}

impl Options {
    /// The default options: multi-plane DMABUF on, shared-memory mapping off.
    pub fn new() -> (r: Options)
        ensures
            r == (Options { with_dmabuf2: true, with_map: false }),
    {
        Options { with_dmabuf2: true, with_map: false }
    }

    /// The same options with multi-plane DMABUF export set to `on`.
    pub fn with_dmabuf2(self, on: bool) -> (r: Options)
        ensures
            r == (Options { with_dmabuf2: on, ..self }),
    {
        Options { with_dmabuf2: on, ..self }
    }

    /// The same options with shared-memory mapping export set to `on`.
    pub fn with_map(self, on: bool) -> (r: Options)
        ensures
            r == (Options { with_map: on, ..self }),
    {
        Options { with_map: on, ..self }
    }
}

/// The interfaces a listener exports for `opts`: the core interface, then the
/// multi-plane DMABUF interface and the shared-memory interface when enabled.
pub open spec fn spec_interfaces(opts: Options) -> Seq<&'static str> {
    seq![IFACE_DISPLAY_LISTENER] + (if opts.with_dmabuf2 {
        seq![IFACE_SCANOUT_DMABUF2]
    } else {
        Seq::empty()
    }) + (if opts.with_map {
        seq![IFACE_SCANOUT_MAP]
    } else {
        Seq::empty()
    })
}

/// Main implementation of `org.qemu.Display1.Listener`.
pub struct Listener {
    /// Event sink shared by all interface handlers.
    pub tx: kanal::AsyncSender<Event>,
    /// Interface names exposed by the `Interfaces` property.
    pub ifaces: Vec<&'static str>,
}

impl Listener {
    /// Builds a listener and computes the `Interfaces` property from [`Options`].
    pub fn from_opts(opts: Options, tx: kanal::AsyncSender<Event>) -> (r: Self)
        ensures
            r.ifaces@ == spec_interfaces(opts),
            r.tx == tx,
    {
        let mut ifaces: Vec<&'static str> = Vec::with_capacity(3);
        ifaces.push(IFACE_DISPLAY_LISTENER);
        if opts.with_dmabuf2 {
            ifaces.push(IFACE_SCANOUT_DMABUF2);
        }
        if opts.with_map {
            ifaces.push(IFACE_SCANOUT_MAP);
        }
        proof {
            assert(ifaces@ =~= spec_interfaces(opts));
        }
        Listener { tx, ifaces }
    }
}

} // verus!
