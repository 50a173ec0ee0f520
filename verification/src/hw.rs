//! The hardware service protocol: PCI device descriptions.
//!
//! A device server answers queries about a PCI device — its base address
//! registers, expansion ROM, capabilities, and message-signalled-interrupt
//! support — over IPC.  The transport serializes the messages; this module
//! owns the protocol's data: the wire values a reply carries, modeled as
//! plain fields in [`PciInfoData`], and their decoding into the typed
//! [`PciInfo`] shape callers read.  A reply whose fields lie outside the
//! protocol's closed code sets is rejected, never guessed at.

use vstd::prelude::*;

use crate::handle::Handle;

verus! {

/// Wire code: a base address register that is not implemented.
pub const IO_TYPE_NO_BAR: u32 = 0;

/// Wire code: a base address register in port I/O space.
pub const IO_TYPE_PORT: u32 = 1;

/// Wire code: a base address register in memory space.
pub const IO_TYPE_MEMORY: u32 = 2;

/// Wire code: the request succeeded.
pub const HW_ERROR_SUCCESS: u32 = 0;

/// Wire code: an index was out of bounds.
pub const HW_ERROR_OUT_OF_BOUNDS: u32 = 1;

/// Wire code: the request's arguments were invalid.
pub const HW_ERROR_ILLEGAL_ARGUMENTS: u32 = 2;

/// Wire code: the server ran out of a resource.
pub const HW_ERROR_RESOURCE_EXHAUSTION: u32 = 3;

/// Wire code: the device itself failed.
pub const HW_ERROR_DEVICE_ERROR: u32 = 4;

/// An error of the hardware service, or of the IPC carrying it.
#[derive(Debug, Clone, Copy, PartialEq, Eq, Structural)]
pub enum Error {
    /// An index was out of bounds.
    OutOfBounds,
    /// The request's arguments were invalid.
    IllegalArguments,
    /// The server ran out of a resource.
    ResourceExhaustion,
    /// The device itself failed.
    DeviceError,
    /// The kernel IPC underneath failed.
    HelError(crate::result::Error),
}

/// Whether `code` is one of the service's failure codes.
pub open spec fn is_hw_error_code(code: u32) -> bool {
    1 <= code <= 4
}

/// The error a failure code denotes.
pub open spec fn hw_error_of_code(code: u32) -> Error
    recommends
        is_hw_error_code(code),
{
    if code == 1 {
        Error::OutOfBounds
    } else if code == 2 {
        Error::IllegalArguments
    } else if code == 3 {
        Error::ResourceExhaustion
    } else {
        Error::DeviceError
    }
}

impl Error {
    /// Maps a service failure code onto its variant; the success code and
    /// anything outside the closed set map to `None`.
    pub fn from_wire(code: u32) -> (r: Option<Error>)
        ensures
            r is Some <==> is_hw_error_code(code),
            r matches Some(e) ==> e == hw_error_of_code(code),
    {
        match code {
            1 => Some(Error::OutOfBounds),
            2 => Some(Error::IllegalArguments),
            3 => Some(Error::ResourceExhaustion),
            4 => Some(Error::DeviceError),
            _ => None,
        }
    }

    /// Wraps a kernel IPC error.
    pub fn from_hel(e: crate::result::Error) -> (r: Error)
        ensures
            r == Error::HelError(e),
    {
        Error::HelError(e)
    }
}

/// Where a base address register lives.
#[derive(Debug, Clone, Copy, PartialEq, Eq, Structural)]
pub enum IoType {
    /// The register is not implemented.
    NoBar,
    /// The register addresses port I/O space.
    Port,
    /// The register addresses memory space.
    Memory,
}

/// The register kind a wire code denotes, if any.
pub open spec fn spec_io_type(code: u32) -> Option<IoType> {
    if code == IO_TYPE_NO_BAR {
        Some(IoType::NoBar)
    } else if code == IO_TYPE_PORT {
        Some(IoType::Port)
    } else if code == IO_TYPE_MEMORY {
        Some(IoType::Memory)
    } else {
        None
    }
}

impl IoType {
    /// Decodes a register kind from its wire code; a code outside the
    /// closed set is rejected.
    pub fn decode(code: u32) -> (r: Option<IoType>)
        ensures
            r == spec_io_type(code),
    {
        match code {
            0 => Some(IoType::NoBar),
            1 => Some(IoType::Port),
            2 => Some(IoType::Memory),
            _ => None,
        }
    }
}

/// One base address register as the wire carries it.
#[derive(Debug, Clone, Copy, PartialEq, Eq, Structural)]
pub struct PciBarData {
    /// Wire code of the register kind as the device reports it.
    pub io_type: u32,
    /// Wire code of the register kind as the host sees it.
    pub host_type: u32,
    /// Bus address of the register's window.
    pub address: u64,
    /// Length of the register's window in bytes.
    pub length: u64,
    /// Offset of the window within its host mapping.
    pub offset: u32,
}

/// The expansion ROM as the wire carries it.
#[derive(Debug, Clone, Copy, PartialEq, Eq, Structural)]
pub struct PciExpansionRomData {
    /// Bus address of the ROM window.
    pub address: u64,
    /// Length of the ROM window in bytes.
    pub length: u64,
}

/// A device-information reply as the wire carries it: every field the
/// server may omit is optional.
#[derive(Debug)]
pub struct PciInfoData {
    /// The base address registers, at most six.
    pub bars: Option<Vec<PciBarData>>,
    /// The expansion ROM window, if the device has one.
    pub expansion_rom: Option<PciExpansionRomData>,
    /// The capability type codes, in configuration-space order.
    pub capabilities: Option<Vec<u32>>,
    /// How many message-signalled interrupts the device supports.
    pub num_msis: Option<u32>,
    /// One when the device uses the extended interrupt table, zero when
    /// not.
    pub msi_x: Option<u32>,
}

/// One decoded base address register.
#[derive(Debug, Clone, Copy, PartialEq, Eq, Structural)]
pub struct BarInfo {
    /// The register kind as the device reports it.
    pub io_type: IoType,
    /// The register kind as the host sees it.
    pub host_type: IoType,
    /// Bus address of the register's window.
    pub address: u64,
    /// Length of the register's window in bytes.
    pub length: u64,
    /// Offset of the window within its host mapping.
    pub offset: u32,
}

/// The register an unimplemented slot decodes to.
pub open spec fn spec_default_bar() -> BarInfo {
    BarInfo { io_type: IoType::NoBar, host_type: IoType::NoBar, address: 0, length: 0, offset: 0 }
}

/// The register a wire value decodes to, if its kind codes are valid.
pub open spec fn spec_decode_bar(bar: PciBarData) -> Option<BarInfo> {
    match (spec_io_type(bar.io_type), spec_io_type(bar.host_type)) {
        (Some(io_type), Some(host_type)) => Some(
            BarInfo {
                io_type,
                host_type,
                address: bar.address,
                length: bar.length,
                offset: bar.offset,
            },
        ),
        _ => None,
    }
}

impl BarInfo {
    /// Decodes one register from its wire value; invalid kind codes are
    /// rejected.
    pub fn decode(bar: &PciBarData) -> (r: Option<BarInfo>)
        ensures
            r == spec_decode_bar(*bar),
    {
        match (IoType::decode(bar.io_type), IoType::decode(bar.host_type)) {
            (Some(io_type), Some(host_type)) => Some(
                BarInfo {
                    io_type,
                    host_type,
                    address: bar.address,
                    length: bar.length,
                    offset: bar.offset,
                },
            ),
            _ => None,
        }
    }

    /// The register kind as the device reports it.
    pub fn io_type(&self) -> (r: IoType)
        ensures
            r == self.io_type,
    {
        self.io_type
    }

    /// The register kind as the host sees it.
    pub fn host_type(&self) -> (r: IoType)
        ensures
            r == self.host_type,
    {
        self.host_type
    }

    /// Bus address of the register's window.
    pub fn address(&self) -> (r: u64)
        ensures
            r == self.address,
    {
        self.address
    }

    /// Length of the register's window in bytes.
    pub fn length(&self) -> (r: u64)
        ensures
            r == self.length,
    {
        self.length
    }

    /// Offset of the window within its host mapping.
    pub fn offset(&self) -> (r: u32)
        ensures
            r == self.offset,
    {
        self.offset
    }
}

/// The decoded expansion ROM window.
#[derive(Debug, Clone, Copy, PartialEq, Eq, Structural)]
pub struct ExpansionRomInfo {
    /// Bus address of the ROM window.
    pub address: u64,
    /// Length of the ROM window in bytes.
    pub length: u64,
}

impl ExpansionRomInfo {
    /// Decodes the ROM window from its wire value.
    pub fn decode(rom: &PciExpansionRomData) -> (r: ExpansionRomInfo)
        ensures
            r.address == rom.address,
            r.length == rom.length,
    {
        ExpansionRomInfo { address: rom.address, length: rom.length }
    }

    /// Bus address of the ROM window.
    pub fn address(&self) -> (r: u64)
        ensures
            r == self.address,
    {
        self.address
    }

    /// Length of the ROM window in bytes.
    pub fn length(&self) -> (r: u64)
        ensures
            r == self.length,
    {
        self.length
    }
}

/// One decoded capability.
#[derive(Debug, Clone, Copy, PartialEq, Eq, Structural)]
pub struct Capability {
    /// The capability's type code.
    pub type_: u32,
}

impl Capability {
    /// Decodes one capability from its wire type code.
    pub fn decode(type_: u32) -> (r: Capability)
        ensures
            r.type_ == type_,
    {
        Capability { type_ }
    }

    /// The capability's type code.
    pub fn type_(&self) -> (r: u32)
        ensures
            r == self.type_,
    {
        self.type_
    }
}

/// The decoded device description.
#[derive(Debug)]
pub struct PciInfo {
    /// The six base address registers; unreported slots are unimplemented.
    pub bar_info: Vec<BarInfo>,
    /// The expansion ROM window; all zero when the device has none.
    pub expansion_rom_info: ExpansionRomInfo,
    /// The capabilities, in configuration-space order.
    pub caps: Vec<Capability>,
    /// How many message-signalled interrupts the device supports.
    pub num_msis: u32,
    /// Whether the device uses the extended interrupt table.
    pub msi_x: bool,
}

/// Whether a wire reply decodes at all: at most six registers, each with
/// valid kind codes.
pub open spec fn spec_pci_info_ok(d: PciInfoData) -> bool {
    match d.bars {
        Some(bars) => bars@.len() <= 6 && (forall|i: int|
            0 <= i < bars@.len() ==> spec_decode_bar(#[trigger] bars@[i]) is Some),
        None => true,
    }
}

/// Whether `p` is the decoding of the wire reply `d`: the reported
/// registers in order with unimplemented ones behind them, the ROM window
/// or its zero default, the capabilities in order, and the interrupt
/// fields with their defaults.
pub open spec fn spec_info_decoded(d: PciInfoData, p: PciInfo) -> bool {
    &&& p.bar_info@.len() == 6
    &&& match d.bars {
        Some(bars) => (forall|i: int|
            0 <= i < bars@.len() ==> #[trigger] p.bar_info@[i] == spec_decode_bar(
                bars@[i],
            )->0) && (forall|i: int|
            bars@.len() <= i < 6 ==> #[trigger] p.bar_info@[i] == spec_default_bar()),
        None => forall|i: int| 0 <= i < 6 ==> #[trigger] p.bar_info@[i] == spec_default_bar(),
    }
    &&& match d.expansion_rom {
        Some(rom) => p.expansion_rom_info.address == rom.address && p.expansion_rom_info.length
            == rom.length,
        None => p.expansion_rom_info == (ExpansionRomInfo { address: 0, length: 0 }),
    }
    &&& match d.capabilities {
        Some(caps) => p.caps@.len() == caps@.len() && forall|i: int|
            0 <= i < caps@.len() ==> #[trigger] p.caps@[i].type_ == caps@[i],
        None => p.caps@.len() == 0,
    }
    &&& p.num_msis == (match d.num_msis {
        Some(n) => n,
        None => 0,
    })
    &&& p.msi_x == (d.msi_x == Some(1u32))
}

impl PciInfo {
    /// Decodes a device description from its wire reply.  Omitted fields
    /// take the protocol's defaults: no registers, an all-zero ROM window,
    /// no capabilities, no interrupts.  A reply with more than six
    /// registers or an invalid kind code is rejected.
    pub fn decode(d: &PciInfoData) -> (r: Option<PciInfo>)
        ensures
            r is Some <==> spec_pci_info_ok(*d),
            r matches Some(p) ==> spec_info_decoded(*d, p),
    {
        let bar_info: Vec<BarInfo> = match &d.bars {
            Some(bars) => {
                match decode_bars(bars) {
                    Some(v) => v,
                    None => {
                        return None;
                    },
                }
            },
            None => default_bars(),
        };
        let expansion_rom_info = match &d.expansion_rom {
            Some(rom) => ExpansionRomInfo::decode(rom),
            None => ExpansionRomInfo { address: 0, length: 0 },
        };
        let mut caps: Vec<Capability> = Vec::new();
        match &d.capabilities {
            Some(cap_codes) => {
                let m = cap_codes.len();
                let mut j: usize = 0;
                #[verifier::loop_isolation(false)]
                while j < m
                    invariant
                        j <= m,
                        caps@.len() == j,
                        forall|k: int|
                            0 <= k < j ==> #[trigger] caps@[k].type_ == cap_codes@[k],
                    decreases m - j,
                {
                    let cap = Capability::decode(cap_codes[j]);
                    caps.push(cap);
                    j = j + 1;
                }
            },
            None => {},
        }
        let num_msis = match &d.num_msis {
            Some(n) => *n,
            None => 0,
        };
        let msi_x = match &d.msi_x {
            Some(v) => *v == 1,
            None => false,
        };
        Some(PciInfo { bar_info, expansion_rom_info, caps, num_msis, msi_x })
    }

    /// The six base address registers.
    pub fn bar_info(&self) -> (r: &Vec<BarInfo>)
        ensures
            r == self.bar_info,
    {
        &self.bar_info
    }

    /// The expansion ROM window.
    pub fn expansion_rom_info(&self) -> (r: &ExpansionRomInfo)
        ensures
            r == self.expansion_rom_info,
    {
        &self.expansion_rom_info
    }

    /// The capabilities, in configuration-space order.
    pub fn caps(&self) -> (r: &Vec<Capability>)
        ensures
            r == self.caps,
    {
        &self.caps
    }

    /// How many message-signalled interrupts the device supports.
    pub fn num_msis(&self) -> (r: u32)
        ensures
            r == self.num_msis,
    {
        self.num_msis
    }

    /// Whether the device uses the extended interrupt table.
    pub fn msi_x(&self) -> (r: bool)
        ensures
            r == self.msi_x,
    {
        self.msi_x
    }
}

/// Decodes a reply's register list into the six register slots: the
/// reported registers in order, unreported slots unimplemented.  A list of
/// more than six, or a register with an invalid kind code, is rejected.
fn decode_bars(bars: &Vec<PciBarData>) -> (r: Option<Vec<BarInfo>>)
    ensures
        r is Some <==> bars@.len() <= 6 && (forall|i: int|
            0 <= i < bars@.len() ==> spec_decode_bar(#[trigger] bars@[i]) is Some),
        r matches Some(v) ==> {
            &&& v@.len() == 6
            &&& forall|i: int|
                0 <= i < bars@.len() ==> #[trigger] v@[i] == spec_decode_bar(bars@[i])->0
            &&& forall|i: int| bars@.len() <= i < 6 ==> #[trigger] v@[i] == spec_default_bar()
        },
{
    let n = bars.len();
    if n > 6 {
        return None;
    }
    let mut out: Vec<BarInfo> = Vec::new();
    let mut i: usize = 0;
    #[verifier::loop_isolation(false)]
    while i < n
        invariant
            i <= n,
            out@.len() == i,
            forall|k: int| 0 <= k < i ==> spec_decode_bar(#[trigger] bars@[k]) is Some,
            forall|k: int| 0 <= k < i ==> #[trigger] out@[k] == spec_decode_bar(bars@[k])->0,
        decreases n - i,
    {
        match BarInfo::decode(&bars[i]) {
            Some(bar) => {
                out.push(bar);
            },
            None => {
                return None;
            },
        }
        i = i + 1;
    }
    let default_bar = BarInfo {
        io_type: IoType::NoBar,
        host_type: IoType::NoBar,
        address: 0,
        length: 0,
        offset: 0,
    };
    let mut j: usize = out.len();
    #[verifier::loop_isolation(false)]
    while j < 6
        invariant
            n <= j <= 6,
            out@.len() == j,
            forall|k: int| 0 <= k < n ==> spec_decode_bar(#[trigger] bars@[k]) is Some,
            forall|k: int| 0 <= k < n ==> #[trigger] out@[k] == spec_decode_bar(bars@[k])->0,
            forall|k: int| n <= k < j ==> #[trigger] out@[k] == spec_default_bar(),
        decreases 6 - j,
    {
        out.push(default_bar);
        j = j + 1;
    }
    Some(out)
}

/// The six register slots of a device that reported none: all
/// unimplemented.
fn default_bars() -> (r: Vec<BarInfo>)
    ensures
        r@.len() == 6,
        forall|i: int| 0 <= i < 6 ==> #[trigger] r@[i] == spec_default_bar(),
{
    let default_bar = BarInfo {
        io_type: IoType::NoBar,
        host_type: IoType::NoBar,
        address: 0,
        length: 0,
        offset: 0,
    };
    let mut out: Vec<BarInfo> = Vec::new();
    let mut i: usize = 0;
    #[verifier::loop_isolation(false)]
    while i < 6
        invariant
            i <= 6,
            out@.len() == i,
            forall|k: int| 0 <= k < i ==> #[trigger] out@[k] == spec_default_bar(),
        decreases 6 - i,
    {
        out.push(default_bar);
        i = i + 1;
    }
    out
}

/// A hardware device, addressed over its IPC lane.
#[derive(Debug)]
pub struct Device {
    /// The lane queries to the device's server are submitted on.
    pub handle: Handle,
}

impl Device {
    /// A device behind the given lane handle.
    pub fn new(handle: Handle) -> (r: Device)
        ensures
            r.handle == handle,
    {
        Device { handle }
    }
}

/// Interprets a device-information reply: a successful status yields the
/// decoded description, a failure status its error.  A successful reply
/// must decode, and the status must lie in the protocol's closed set; both
/// are on the caller to have checked, as a violation marks a corrupted
/// conversation.
pub fn info_reply(code: u32, data: &PciInfoData) -> (r: Result<PciInfo, Error>)
    requires
        code == HW_ERROR_SUCCESS || is_hw_error_code(code),
        code == HW_ERROR_SUCCESS ==> spec_pci_info_ok(*data),
    ensures
        code == HW_ERROR_SUCCESS ==> (r matches Ok(p) && spec_info_decoded(*data, p)),
        is_hw_error_code(code) ==> r == Err::<PciInfo, Error>(hw_error_of_code(code)),
{
    if code == HW_ERROR_SUCCESS {
        match PciInfo::decode(data) {
            Some(info) => Ok(info),
            None => Err(Error::DeviceError),  // unreachable: the reply decodes
        }
    } else {
        match Error::from_wire(code) {
            Some(e) => Err(e),
            None => Err(Error::DeviceError),  // unreachable: the code is known
        }
    }
}

/// Interprets a reply that should have pushed a descriptor, as the answers
/// to register and interrupt requests do: a successful status yields the
/// pulled handle, a failure status its error.  A success without a pushed
/// descriptor marks a corrupted conversation and is on the caller to have
/// ruled out.
pub fn descriptor_reply(code: u32, pulled: Option<Handle>) -> (r: Result<Handle, Error>)
    requires
        code == HW_ERROR_SUCCESS || is_hw_error_code(code),
        code == HW_ERROR_SUCCESS ==> pulled is Some,
    ensures
        code == HW_ERROR_SUCCESS ==> (r matches Ok(h) && Some(h) == pulled),
        is_hw_error_code(code) ==> r == Err::<Handle, Error>(hw_error_of_code(code)),
{
    if code == HW_ERROR_SUCCESS {
        match pulled {
            Some(h) => Ok(h),
            None => Err(Error::DeviceError),  // unreachable: a descriptor was pushed
        }
    } else {
        match Error::from_wire(code) {
            Some(e) => Err(e),
            None => Err(Error::DeviceError),  // unreachable: the code is known
        }
    }
}

} // verus!
