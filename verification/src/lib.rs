//! Capture-session logic for desktop duplication.
//!
//! The crate holds the decisions of a screen-capture session: which adapter
//! and output to bind, when the staging texture must be reallocated, how a
//! native failure code is classified and what the session does next. The
//! native calls themselves are made by the embedding program, which reports
//! every result back as an event.

use vstd::prelude::*;

pub mod acquire;
pub mod capture;
pub mod staging_texture;
pub mod text;
pub mod utils;

pub use crate::capture::CaptureDXGI;

use crate::staging_texture::StagingTexture;
use crate::text::{lower_hex, push_lower_hex, push_signed_decimal, signed_decimal};
use vstd::string::StringExecFns;

verus! {

/// Two to the power 32: the weight of the high part of a logical identifier.
pub open spec fn high_unit() -> int {
    0x1_0000_0000
}

/// The 64-bit value composed of a low part (bits 0 to 31) and a signed high
/// part (bits 32 to 63).
pub open spec fn luid_value(low: u32, high: i32) -> int {
    high as int * high_unit() + low as int
}

/// Logical identifier of an adapter, unique for the lifetime of the system
/// session.
#[derive(Clone, Copy, Debug, PartialEq, Eq, Structural)]
pub struct Luid(pub i64);

impl Luid {
    /// Low part of the identifier: its bits 0 to 31.
    pub open spec fn spec_low_part(self) -> int {
        self.0 as int % high_unit()
    }

    /// High part of the identifier: its bits 32 to 63, signed.
    pub open spec fn spec_high_part(self) -> int {
        self.0 as int / high_unit()
    }

    /// Composes an identifier from the two parts in which the system reports
    /// it.
    pub fn from_parts(low: u32, high: i32) -> (luid: Luid)
        ensures
            luid.0 == luid_value(low, high),
            luid.spec_low_part() == low,
            luid.spec_high_part() == high,
    {
        let value: i64 = (low as i64) | ((high as i64) << 32);
        assert(value == high as int * 0x1_0000_0000 + low as int) by (bit_vector)
            requires
                value == (low as i64) | ((high as i64) << 32),
        ;
        Luid(value)
    }

    /// The low part, as the system wants it back.
    pub fn low_part(&self) -> (low: u32)
        ensures
            low == self.spec_low_part(),
    {
        let value: i64 = self.0;
        let low: u32 = (value & 0xffff_ffff) as u32;
        assert(low == value as int % 0x1_0000_0000) by (bit_vector)
            requires
                low == (value & 0xffff_ffff) as u32,
        ;
        low
    }

    /// The high part, as the system wants it back.
    pub fn high_part(&self) -> (high: i32)
        ensures
            high == self.spec_high_part(),
    {
        let value: i64 = self.0;
        let high: i32 = (value >> 32) as i32;
        assert(high == value as int / 0x1_0000_0000) by (bit_vector)
            requires
                high == (value >> 32) as i32,
        ;
        high
    }

    /// The identifier as one signed 64-bit number.
    pub fn value(&self) -> (value: i64)
        ensures
            value == self.0,
    {
        self.0
    }

    /// The identifier as it is displayed: the sixteen hexadecimal digits of
    /// its 64 bits.
    pub open spec fn spec_to_string(self) -> Seq<char> {
        lower_hex(self.0 as u64 as nat, 16)
    }

    /// The identifier as it is displayed.
    pub fn to_string(&self) -> (text: String)
        ensures
            text@ == self.spec_to_string(),
    {
        let mut text = String::new();
        push_lower_hex(&mut text, self.0 as u64, 16);
        assert(text@ =~= self.spec_to_string());
        text
    }
}

impl Default for Luid {
    fn default() -> (luid: Luid)
        ensures
            luid.0 == 0,
    {
        Luid(0)
    }
}

/// Splitting an identifier into its parts and composing them again gives the
/// identifier back.
pub proof fn lemma_luid_parts_compose(luid: Luid)
    ensures
        -0x8000_0000 <= luid.spec_high_part() < 0x8000_0000,
        0 <= luid.spec_low_part() < 0x1_0000_0000,
        luid_value(luid.spec_low_part() as u32, luid.spec_high_part() as i32) == luid.0,
{
}

/// Composing two parts and splitting the result gives the parts back, and
/// different pairs of parts give different identifiers.
pub proof fn lemma_luid_compose_parts(low: u32, high: i32)
    ensures
        i64::MIN <= luid_value(low, high) <= i64::MAX,
        Luid(luid_value(low, high) as i64).spec_low_part() == low,
        Luid(luid_value(low, high) as i64).spec_high_part() == high,
{
}

/// What is known of a graphics adapter: where it stood in the enumeration,
/// who made it, and how it is classified.
#[derive(Debug, PartialEq, Eq)]
pub struct AdapterDesc {
    /// Ordinal within the enumeration.
    pub index: u32,
    /// Human-readable name.
    pub description: String,
    /// Logical identifier.
    pub luid: Luid,
    /// Device identifier assigned by the vendor.
    pub device_id: u32,
    /// Vendor identifier.
    pub vendor_id: u32,
    /// Whether this is the system's default adapter.
    pub is_default: bool,
    /// Rendering is done in software.
    pub is_software: bool,
    /// Rendering is done by hardware.
    pub is_hardware: bool,
    /// A discrete graphics card.
    pub is_discrete: bool,
    /// Graphics integrated in the processor.
    pub is_integrated: bool,
}

impl AdapterDesc {
    /// The four classifications come in two complementary pairs.
    pub open spec fn wf(self) -> bool {
        &&& self.is_hardware == !self.is_software
        &&& self.is_discrete == !self.is_integrated
    }

    /// The descriptor as it is displayed: the name, the logical identifier
    /// in decimal, and the vendor's and the device's identifiers in
    /// hexadecimal with at least four digits.
    pub open spec fn spec_to_string(self) -> Seq<char> {
        " Adapter: ["@ + self.description@ + "] LUID=[Luid("@ + signed_decimal(self.luid.0 as int)
            + ")] VendorId=["@ + lower_hex(self.vendor_id as nat, 4) + "] DeviceId=["@ + lower_hex(
            self.device_id as nat,
            4,
        ) + "]"@
    }

    /// The descriptor as it is displayed.
    pub fn to_string(&self) -> (text: String)
        ensures
            text@ == self.spec_to_string(),
    {
        let mut text = String::from_str(" Adapter: [");
        text.append(self.description.as_str());
        text.append("] LUID=[Luid(");
        push_signed_decimal(&mut text, self.luid.0);
        text.append(")] VendorId=[");
        push_lower_hex(&mut text, self.vendor_id as u64, 4);
        text.append("] DeviceId=[");
        push_lower_hex(&mut text, self.device_id as u64, 4);
        text.append("]");
        text
    }
}

impl Clone for AdapterDesc {
    fn clone(&self) -> (copy: AdapterDesc)
        ensures
            copy == *self,
    {
        AdapterDesc {
            index: self.index,
            description: self.description.clone(),
            luid: self.luid,
            device_id: self.device_id,
            vendor_id: self.vendor_id,
            is_default: self.is_default,
            is_software: self.is_software,
            is_hardware: self.is_hardware,
            is_discrete: self.is_discrete,
            is_integrated: self.is_integrated,
        }
    }
}

impl Default for AdapterDesc {
    fn default() -> (desc: AdapterDesc)
        ensures
            desc.index == 0,
            desc.description@ == Seq::<char>::empty(),
            desc.luid.0 == 0,
            desc.device_id == 0,
            desc.vendor_id == 0,
            !desc.is_default,
            !desc.is_software,
            !desc.is_hardware,
            !desc.is_discrete,
            !desc.is_integrated,
    {
        AdapterDesc {
            index: 0,
            description: String::new(),
            luid: Luid(0),
            device_id: 0,
            vendor_id: 0,
            is_default: false,
            is_software: false,
            is_hardware: false,
            is_discrete: false,
            is_integrated: false,
        }
    }
}

/// Why no device with a bound duplication could be had.
#[derive(Clone, Copy, Debug, PartialEq, Eq, Structural)]
pub enum AcquireError {
    /// The enumeration gave no adapter that renders in hardware.
    AdapterNotFound,
    /// Every candidate adapter refused to create a device.
    DeviceCreationFailed,
    /// No duplication could be bound to the requested output.
    DuplicationUnavailable,
}

/// The rectangle that an output covers on the desktop, in pixels.
#[derive(Clone, Copy, Debug, PartialEq, Eq, Structural)]
pub struct DesktopRect {
    pub left: i32,
    pub top: i32,
    pub right: i32,
    pub bottom: i32,
}

impl DesktopRect {
    /// Horizontal extent; not positive for a degenerate rectangle.
    pub open spec fn spec_width(self) -> int {
        self.right - self.left
    }

    /// Vertical extent; not positive for a degenerate rectangle.
    pub open spec fn spec_height(self) -> int {
        self.bottom - self.top
    }

    /// Both extents are strictly positive and fit the 32 bits in which
    /// dimensions are kept.
    pub open spec fn covers_pixels(self) -> bool {
        &&& 0 < self.spec_width() <= u32::MAX
        &&& 0 < self.spec_height() <= u32::MAX
    }
}

/// A duplication bound to one output of one adapter: the output's size in
/// pixels and the adapter it belongs to. The native handle that goes with it
/// is kept by whoever made the binding.
#[derive(Debug, PartialEq, Eq)]
pub struct OutputDuplication {
    output_dimensions: (u32, u32),
    adapter_desc: AdapterDesc,
}

impl OutputDuplication {
    /// Width and height of the bound output.
    pub closed spec fn dimensions(self) -> (u32, u32) {
        self.output_dimensions
    }

    /// Descriptor of the adapter that owns the output.
    pub closed spec fn adapter(self) -> AdapterDesc {
        self.adapter_desc
    }

    /// Width and height are strictly positive.
    pub open spec fn wf(self) -> bool {
        self.dimensions().0 > 0 && self.dimensions().1 > 0
    }

    #[verifier::type_invariant]
    spec fn inv(self) -> bool {
        self.wf()
    }

    /// Records a binding, unless one of the dimensions is zero.
    pub fn new(width: u32, height: u32, adapter_desc: AdapterDesc) -> (bound: Option<
        OutputDuplication,
    >)
        ensures
            bound is Some <==> width > 0 && height > 0,
            bound matches Some(d) ==> d.dimensions() == (width, height) && d.adapter()
                == adapter_desc && d.wf(),
    {
        if width > 0 && height > 0 {
            Some(OutputDuplication { output_dimensions: (width, height), adapter_desc })
        } else {
            None
        }
    }

    /// Records a binding to an output that covers `rect` on the desktop,
    /// unless the rectangle is degenerate.
    pub fn from_desktop_coordinates(rect: DesktopRect, adapter_desc: AdapterDesc) -> (bound:
        Option<OutputDuplication>)
        ensures
            bound is Some <==> rect.covers_pixels(),
            bound matches Some(d) ==> d.dimensions().0 == rect.spec_width() && d.dimensions().1
                == rect.spec_height() && d.adapter() == adapter_desc && d.wf(),
    {
        let width: i64 = rect.right as i64 - rect.left as i64;
        let height: i64 = rect.bottom as i64 - rect.top as i64;
        if 0 < width && width <= u32::MAX as i64 && 0 < height && height <= u32::MAX as i64 {
            Some(
                OutputDuplication {
                    output_dimensions: (width as u32, height as u32),
                    adapter_desc,
                },
            )
        } else {
            None
        }
    }

    /// Width and height of the bound output, in pixels.
    pub fn output_dimensions(&self) -> (dims: (u32, u32))
        ensures
            dims == self.dimensions(),
            dims.0 > 0,
            dims.1 > 0,
    {
        proof {
            use_type_invariant(self);
        }
        self.output_dimensions
    }

    /// Descriptor of the adapter that owns the output.
    pub fn adapter_desc(&self) -> (desc: &AdapterDesc)
        ensures
            *desc == self.adapter(),
    {
        &self.adapter_desc
    }
}

impl Clone for OutputDuplication {
    fn clone(&self) -> (copy: OutputDuplication)
        ensures
            copy == *self,
    {
        proof {
            use_type_invariant(self);
        }
        OutputDuplication {
            output_dimensions: self.output_dimensions,
            adapter_desc: self.adapter_desc.clone(),
        }
    }
}

/// How a frame's pixels reach the consumer.
#[derive(Clone, Copy, Debug, PartialEq, Eq, Structural)]
pub enum FrameData {
    /// The staging texture was mapped for reading; rows are `row_pitch` bytes
    /// apart.
    Mapped { row_pitch: u32, depth_pitch: u32 },
    /// The texture itself is handed over, by its native handle.
    Texture,
}

/// A captured frame: the staging texture that holds it, and the one form in
/// which its pixels are handed over.
#[derive(Clone, Copy, Debug, PartialEq, Eq, Structural)]
pub struct OtherFrame {
    pub texture: StagingTexture,
    pub ptr: FrameData,
}

} // verus!
