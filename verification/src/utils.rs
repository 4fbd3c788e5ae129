//! Helpers shared by the capture session: wide-string handling, adapter
//! classification and the searches for a usable device and output.

use crate::{luid_value, AdapterDesc, Luid};
use vstd::prelude::*;

verus! {

/// Index of the first zero code unit of `content`, or its length if there is
/// none.
pub open spec fn terminal_idx(content: Seq<u16>) -> int
    decreases content.len(),
{
    if content.len() == 0 || content[0] == 0 {
        0
    } else {
        1 + terminal_idx(content.drop_first())
    }
}

/// `terminal_idx` is the one index that lies within the sequence, has no zero
/// before it, and is either the end or the place of a zero.
pub proof fn lemma_terminal_idx(content: Seq<u16>)
    ensures
        0 <= terminal_idx(content) <= content.len(),
        forall|j: int| 0 <= j < terminal_idx(content) ==> content[j] != 0,
        terminal_idx(content) < content.len() ==> content[terminal_idx(content)] == 0,
    decreases content.len(),
{
    if content.len() == 0 || content[0] == 0 {
    } else {
        let rest = content.drop_first();
        lemma_terminal_idx(rest);
        assert forall|j: int| 0 <= j < terminal_idx(content) implies content[j] != 0 by {
            if j > 0 {
                assert(content[j] == rest[j - 1]);
            }
        }
        if terminal_idx(content) < content.len() {
            assert(content[terminal_idx(content)] == rest[terminal_idx(rest)]);
        }
    }
}

/// Any index with those three properties is `terminal_idx`.
pub proof fn lemma_terminal_idx_unique(content: Seq<u16>, idx: int)
    requires
        0 <= idx <= content.len(),
        forall|j: int| 0 <= j < idx ==> content[j] != 0,
        idx < content.len() ==> content[idx] == 0,
    ensures
        idx == terminal_idx(content),
{
    lemma_terminal_idx(content);
    let t = terminal_idx(content);
    if t < idx {
        assert(content[t] != 0);
    } else if idx < t {
        assert(content[idx] != 0);
    }
}

/// Finds where a null-terminated wide string ends inside its buffer.
pub fn find_terminal_idx(content: &[u16]) -> (idx: usize)
    ensures
        idx == terminal_idx(content@),
        idx <= content@.len(),
        forall|j: int| 0 <= j < idx ==> content@[j] != 0,
        idx < content@.len() ==> content@[idx as int] == 0,
{
    let mut i: usize = 0;
    while i < content.len()
        invariant
            i <= content@.len(),
            forall|j: int| 0 <= j < i ==> content@[j] != 0,
        decreases content@.len() - i,
    {
        if content[i] == 0 {
            proof {
                lemma_terminal_idx_unique(content@, i as int);
            }
            return i;
        }
        i += 1;
    }
    proof {
        lemma_terminal_idx_unique(content@, i as int);
    }
    i
}

/// The text that a sequence of UTF-16 code units decodes to when every
/// code unit that is no part of a valid pair is replaced by U+FFFD.
pub uninterp spec fn utf16_lossy(units: Seq<u16>) -> Seq<char>;

/// `String::from_utf16_lossy` of the standard library: the result is the
/// lossy decoding of the code units, a function of the code units alone.
#[verifier::external_body]
fn decode_utf16_lossy(units: &[u16]) -> (text: String)
    ensures
        text@ == utf16_lossy(units@),
{
    String::from_utf16_lossy(units)
}

/// The text of a null-terminated wide string: what stands before the first
/// zero, decoded lossily.
pub open spec fn wide_text(data: Seq<u16>) -> Seq<char> {
    utf16_lossy(data.subrange(0, terminal_idx(data)))
}

/// Converts a wide string, as the system fills it into a fixed buffer, to
/// text: the buffer is cut at the first zero and decoded.
pub fn convert_u16_to_string(data: &[u16]) -> (text: String)
    ensures
        text@ == wide_text(data@),
{
    let terminal_idx = find_terminal_idx(data);
    decode_utf16_lossy(&data[0..terminal_idx])
}

/// Vendor identifier of the basic render driver.
pub const BASIC_RENDER_VENDOR: u32 = 0x1414;

/// Device identifier of the basic render driver.
pub const BASIC_RENDER_DEVICE: u32 = 0x8c;

/// Vendor identifier of the processors whose graphics count as integrated.
pub const INTEGRATED_VENDOR: u32 = 0x8086;

/// The adapter flag that marks a software adapter.
pub const ADAPTER_FLAG_SOFTWARE: u32 = 2;

/// The creation of a device is not supported for the driver type
/// (0x887A0004).
pub const DXGI_ERROR_UNSUPPORTED: i32 = -2005270524;

/// What the system reports of an adapter.
#[derive(Clone, Debug, PartialEq, Eq)]
pub struct NativeAdapterDesc {
    /// Name, as a null-terminated wide string in its buffer.
    pub description: Vec<u16>,
    pub vendor_id: u32,
    pub device_id: u32,
    pub flags: u32,
    /// Bits 0 to 31 of the logical identifier.
    pub luid_low: u32,
    /// Bits 32 to 63 of the logical identifier.
    pub luid_high: i32,
}

/// An adapter renders in software if it is the basic render driver or its
/// flags say so.
pub open spec fn spec_is_software(vendor_id: u32, device_id: u32, flags: u32) -> bool {
    (vendor_id == BASIC_RENDER_VENDOR && device_id == BASIC_RENDER_DEVICE) || (flags
        & ADAPTER_FLAG_SOFTWARE) != 0
}

/// An adapter counts as integrated if it is one of two known devices of one
/// vendor.
pub open spec fn spec_is_integrated(vendor_id: u32, device_id: u32) -> bool {
    vendor_id == INTEGRATED_VENDOR && (device_id == 0x163c || device_id == 0x1616)
}

/// `desc` is the descriptor of the adapter that stood at `index` in the
/// enumeration and of which the system reports `native`.
pub open spec fn describes(desc: AdapterDesc, index: u32, native: NativeAdapterDesc) -> bool {
    &&& desc.index == index
    &&& desc.description@ == wide_text(native.description@)
    &&& desc.luid.0 == luid_value(native.luid_low, native.luid_high)
    &&& desc.device_id == native.device_id
    &&& desc.vendor_id == native.vendor_id
    &&& !desc.is_default
    &&& desc.is_software == spec_is_software(native.vendor_id, native.device_id, native.flags)
    &&& desc.is_hardware == !desc.is_software
    &&& desc.is_integrated == spec_is_integrated(native.vendor_id, native.device_id)
    &&& desc.is_discrete == !desc.is_integrated
}

/// Whether an adapter renders in software.
pub fn is_software_adapter(vendor_id: u32, device_id: u32, flags: u32) -> (software: bool)
    ensures
        software == spec_is_software(vendor_id, device_id, flags),
{
    (vendor_id == BASIC_RENDER_VENDOR && device_id == BASIC_RENDER_DEVICE) || (flags
        & ADAPTER_FLAG_SOFTWARE) != 0
}

/// The descriptor of the adapter at `index` of which the system reports
/// `native`.
pub fn describe_adapter(index: u32, native: &NativeAdapterDesc) -> (desc: AdapterDesc)
    ensures
        describes(desc, index, *native),
        desc.wf(),
{
    let is_integrated = native.vendor_id == INTEGRATED_VENDOR && (native.device_id == 0x163c
        || native.device_id == 0x1616);
    let is_software = is_software_adapter(native.vendor_id, native.device_id, native.flags);
    AdapterDesc {
        index,
        description: convert_u16_to_string(native.description.as_slice()),
        luid: Luid::from_parts(native.luid_low, native.luid_high),
        device_id: native.device_id,
        vendor_id: native.vendor_id,
        is_default: false,
        is_software,
        is_hardware: !is_software,
        is_discrete: !is_integrated,
        is_integrated,
    }
}

/// The descriptor of one adapter, from what the system reported of it;
/// `None` where the system reported nothing.
pub fn get_hardware_adapter_desc(native: Option<&NativeAdapterDesc>) -> (desc: Option<AdapterDesc>)
    ensures
        desc is Some <==> native is Some,
        desc matches Some(d) ==> describes(d, 0, *native->Some_0) && d.wf(),
{
    match native {
        Some(native) => Some(describe_adapter(0, native)),
        None => None,
    }
}

/// The descriptors of all adapters, in the order of the enumeration, from
/// what the system reported of each. There is no list where the enumeration
/// gave no adapter, nor where the system reported nothing of one of them.
pub fn get_hardware_adapters_desc(natives: &Vec<Option<NativeAdapterDesc>>) -> (descs: Option<
    Vec<AdapterDesc>,
>)
    requires
        natives@.len() <= u32::MAX,
    ensures
        descs is Some <==> natives@.len() > 0 && forall|i: int|
            0 <= i < natives@.len() ==> natives@[i] is Some,
        descs matches Some(list) ==> list@.len() == natives@.len() && forall|i: int|
            0 <= i < list@.len() ==> describes(
                #[trigger] list@[i],
                i as u32,
                natives@[i]->Some_0,
            ) && list@[i].wf(),
{
    let mut list: Vec<AdapterDesc> = Vec::new();
    let mut i: usize = 0;
    while i < natives.len()
        invariant
            i <= natives@.len() <= u32::MAX,
            list@.len() == i,
            forall|j: int| 0 <= j < i ==> natives@[j] is Some,
            forall|j: int|
                0 <= j < i ==> describes(#[trigger] list@[j], j as u32, natives@[j]->Some_0)
                    && list@[j].wf(),
        decreases natives@.len() - i,
    {
        match &natives[i] {
            Some(native) => {
                list.push(describe_adapter(i as u32, native));
            },
            None => {
                return None;
            },
        }
        i += 1;
    }
    if list.len() > 0 {
        Some(list)
    } else {
        None
    }
}

/// The ways in which the process can declare itself aware of the monitors'
/// pixel densities, in the order in which they are tried.
#[derive(Clone, Copy, Debug, PartialEq, Eq, Structural)]
pub enum DpiMethod {
    /// Per-monitor awareness of the process.
    ProcessAwareness,
    /// Per-monitor awareness context, second version.
    ContextV2,
    /// Per-monitor awareness context, first version.
    ContextV1,
    /// System awareness, which every version of the system has.
    Legacy,
}

/// The method that is tried when `tried` failed; none after the last.
pub open spec fn spec_next_dpi_method(tried: DpiMethod, succeeded: bool) -> Option<DpiMethod> {
    if succeeded {
        None
    } else {
        match tried {
            DpiMethod::ProcessAwareness => Some(DpiMethod::ContextV2),
            DpiMethod::ContextV2 => Some(DpiMethod::ContextV1),
            DpiMethod::ContextV1 => Some(DpiMethod::Legacy),
            DpiMethod::Legacy => None,
        }
    }
}

/// The place of a method in the order of trial.
pub open spec fn dpi_rank(method: DpiMethod) -> nat {
    match method {
        DpiMethod::ProcessAwareness => 0,
        DpiMethod::ContextV2 => 1,
        DpiMethod::ContextV1 => 2,
        DpiMethod::Legacy => 3,
    }
}

/// Says what to try after `tried`: nothing once a method succeeded, the next
/// method after a failure, and nothing after the last method.
pub fn next_dpi_method(tried: DpiMethod, succeeded: bool) -> (next: Option<DpiMethod>)
    ensures
        next == spec_next_dpi_method(tried, succeeded),
        next is Some <==> !succeeded && !(tried is Legacy),
        next matches Some(m) ==> dpi_rank(m) == dpi_rank(tried) + 1,
{
    if succeeded {
        None
    } else {
        match tried {
            DpiMethod::ProcessAwareness => Some(DpiMethod::ContextV2),
            DpiMethod::ContextV2 => Some(DpiMethod::ContextV1),
            DpiMethod::ContextV1 => Some(DpiMethod::Legacy),
            DpiMethod::Legacy => None,
        }
    }
}

/// What `init` leaves to do.
#[derive(Clone, Copy, Debug, PartialEq, Eq, Structural)]
pub struct InitPlan {
    /// The runtime is to be initialized, multithreaded.
    pub initialize_runtime: bool,
    /// Awareness of pixel densities is to be declared, starting with this
    /// method.
    pub dpi: Option<DpiMethod>,
}

/// The record of what was initialized in this process. The process keeps
/// one, and everything in it is done at most once.
#[derive(Debug)]
pub struct ProcessInit {
    runtime_initialized: bool,
    dpi_declared: bool,
}

impl ProcessInit {
    /// The runtime was initialized, or is being.
    pub closed spec fn runtime_done(self) -> bool {
        self.runtime_initialized
    }

    /// The declaration of awareness was made, or is being.
    pub closed spec fn dpi_done(self) -> bool {
        self.dpi_declared
    }

    /// The record of a process in which nothing was initialized.
    pub fn new() -> (fresh: ProcessInit)
        ensures
            !fresh.runtime_done(),
            !fresh.dpi_done(),
    {
        ProcessInit { runtime_initialized: false, dpi_declared: false }
    }

    /// Says whether the runtime is to be initialized now: the first time,
    /// and never again.
    pub fn ro_initialize_once(&mut self) -> (initialize: bool)
        ensures
            initialize == !old(self).runtime_done(),
            final(self).runtime_done(),
            final(self).dpi_done() == old(self).dpi_done(),
    {
        let initialize = !self.runtime_initialized;
        self.runtime_initialized = true;
        initialize
    }

    /// Says with which method the awareness of pixel densities is to be
    /// declared now: with the first, the first time, and never again.
    pub fn become_dpi_aware(&mut self) -> (method: Option<DpiMethod>)
        ensures
            method == if old(self).dpi_done() {
                None
            } else {
                Some(DpiMethod::ProcessAwareness)
            },
            final(self).dpi_done(),
            final(self).runtime_done() == old(self).runtime_done(),
    {
        let method = if self.dpi_declared {
            None
        } else {
            Some(DpiMethod::ProcessAwareness)
        };
        self.dpi_declared = true;
        method
    }
}

/// The plan of `init` for a process with the record `state`.
pub open spec fn spec_init_plan(state: ProcessInit) -> InitPlan {
    InitPlan {
        initialize_runtime: !state.runtime_done(),
        dpi: if state.dpi_done() {
            None
        } else {
            Some(DpiMethod::ProcessAwareness)
        },
    }
}

/// Prepares the process for capturing: says what is still to be initialized
/// and records it as done.
pub fn init(state: &mut ProcessInit) -> (plan: InitPlan)
    ensures
        plan == spec_init_plan(*old(state)),
        final(state).runtime_done(),
        final(state).dpi_done(),
        spec_init_plan(*final(state)) == (InitPlan { initialize_runtime: false, dpi: None }),
{
    let initialize_runtime = state.ro_initialize_once();
    let dpi = state.become_dpi_aware();
    InitPlan { initialize_runtime, dpi }
}

/// The kinds of driver a device can be created for without naming an
/// adapter, in the order in which they are tried.
#[derive(Clone, Copy, Debug, PartialEq, Eq, Structural)]
pub enum DriverType {
    Hardware,
    Warp,
}

/// What follows an attempt to create a device for a driver type.
#[derive(Clone, Copy, Debug, PartialEq, Eq, Structural)]
pub enum DeviceAttempt {
    /// Create a device for this driver type.
    Try { driver: DriverType },
    /// The device was created.
    Created { driver: DriverType },
    /// The creation failed with this code, which is not `DXGI_ERROR_UNSUPPORTED`.
    Failed { code: i32 },
    /// No driver type is supported.
    Unsupported,
}

/// What follows `previous`: at the beginning the first driver type is
/// tried; after a success there is a device; a failure that says the driver
/// type is unsupported leads to the next type; any other failure ends the
/// attempts.
pub open spec fn spec_create_d3d_device(previous: Option<(DriverType, Result<(), i32>)>)
    -> DeviceAttempt {
    match previous {
        None => DeviceAttempt::Try { driver: DriverType::Hardware },
        Some((driver, Ok(_))) => DeviceAttempt::Created { driver },
        Some((driver, Err(code))) => if code != DXGI_ERROR_UNSUPPORTED {
            DeviceAttempt::Failed { code }
        } else if driver is Hardware {
            DeviceAttempt::Try { driver: DriverType::Warp }
        } else {
            DeviceAttempt::Unsupported
        },
    }
}

/// Decides how the creation of a device without a named adapter goes on
/// after `previous`, the driver type that was tried last and what came of
/// it.
pub fn create_d3d_device(previous: Option<(DriverType, Result<(), i32>)>) -> (next: DeviceAttempt)
    ensures
        next == spec_create_d3d_device(previous),
{
    match previous {
        None => DeviceAttempt::Try { driver: DriverType::Hardware },
        Some((driver, Ok(_))) => DeviceAttempt::Created { driver },
        Some((driver, Err(code))) => {
            if code != DXGI_ERROR_UNSUPPORTED {
                DeviceAttempt::Failed { code }
            } else {
                match driver {
                    DriverType::Hardware => DeviceAttempt::Try { driver: DriverType::Warp },
                    DriverType::Warp => DeviceAttempt::Unsupported,
                }
            }
        },
    }
}

} // verus!
