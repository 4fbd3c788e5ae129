//! The staging texture: the copy target from which the processor reads a
//! captured frame.

use crate::{FrameData, OtherFrame};
use vstd::prelude::*;

verus! {

/// Usage of a texture that the graphics processor reads and writes.
pub const USAGE_DEFAULT: i32 = 0;

/// Usage of a texture that only carries data from the graphics processor to
/// the processor.
pub const USAGE_STAGING: i32 = 3;

/// The texture can be bound as input of a shader.
pub const BIND_SHADER_RESOURCE: u32 = 8;

/// The texture can be bound as a render target.
pub const BIND_RENDER_TARGET: u32 = 32;

/// The processor may map the texture for reading.
pub const CPU_ACCESS_READ: u32 = 0x2_0000;

/// Mip levels of the texture can be generated on the graphics processor.
pub const MISC_GENERATE_MIPS: u32 = 1;

/// A shader resource view of a two-dimensional texture.
pub const SRV_DIMENSION_TEXTURE2D: i32 = 4;

/// The largest mip level a staging texture can be made for: a dimension is
/// divided by two to this power.
pub const MAX_MIP_LEVEL: u32 = 31;

/// Description from which a two-dimensional texture is created.
#[derive(Clone, Copy, Debug, PartialEq, Eq, Structural)]
pub struct TextureDesc {
    pub width: u32,
    pub height: u32,
    pub mip_levels: u32,
    pub array_size: u32,
    pub format: i32,
    pub sample_count: u32,
    pub usage: i32,
    pub bind_flags: u32,
    pub cpu_access_flags: u32,
    pub misc_flags: u32,
}

impl TextureDesc {
    /// The graphics processor cannot write the texture: it can be bound
    /// nowhere and is used for staging only.
    pub open spec fn gpu_write_disallowed(self) -> bool {
        self.usage == USAGE_STAGING && self.bind_flags == 0
    }

    /// The processor may map the texture for reading.
    pub open spec fn cpu_readable(self) -> bool {
        self.cpu_access_flags == CPU_ACCESS_READ
    }
}

/// Description from which the shader resource view of the frame buffer is
/// created.
#[derive(Clone, Copy, Debug, PartialEq, Eq, Structural)]
pub struct ViewDesc {
    pub format: i32,
    pub view_dimension: i32,
    pub mip_levels: u32,
    pub most_detailed_mip: u32,
}

/// Two to the power `level`.
pub open spec fn pow2(level: nat) -> nat
    decreases level,
{
    if level == 0 {
        1
    } else {
        2 * pow2((level - 1) as nat)
    }
}

/// A dimension at mip level `level`: halved `level` times, rounding down.
pub open spec fn mip_extent(extent: u32, level: u32) -> int {
    extent as int / pow2(level as nat) as int
}

/// Size and format of a frame as the duplication delivers it.
#[derive(Clone, Copy, Debug, PartialEq, Eq, Structural)]
pub struct FrameDesc {
    pub width: u32,
    pub height: u32,
    pub format: i32,
}

/// The copy target of a capture session, by the values it was created from.
///
/// It stands for two native textures: the frame buffer, into which the
/// graphics processor copies a frame, and the mapping buffer, which the
/// processor reads.
#[derive(Clone, Copy, Debug, PartialEq, Eq, Structural)]
pub struct StagingTexture {
    width: u32,
    height: u32,
    format: i32,
    mip_level: u32,
}

impl StagingTexture {
    /// Width of the frames the texture takes.
    pub closed spec fn spec_width(self) -> u32 {
        self.width
    }

    /// Height of the frames the texture takes.
    pub closed spec fn spec_height(self) -> u32 {
        self.height
    }

    /// Pixel format of the frames the texture takes.
    pub closed spec fn spec_format(self) -> i32 {
        self.format
    }

    /// Mip level at which the mapping buffer reads the frame.
    pub closed spec fn spec_mip_level(self) -> u32 {
        self.mip_level
    }

    /// The mip level is one that the texture can be created with.
    pub open spec fn wf(self) -> bool {
        self.spec_mip_level() <= MAX_MIP_LEVEL
    }

    #[verifier::type_invariant]
    spec fn inv(self) -> bool {
        self.wf()
    }

    /// A value is determined by the four values it was created from.
    pub proof fn lemma_determined(self, other: StagingTexture)
        requires
            self.spec_width() == other.spec_width(),
            self.spec_height() == other.spec_height(),
            self.spec_format() == other.spec_format(),
            self.spec_mip_level() == other.spec_mip_level(),
        ensures
            self == other,
    {
    }

    /// The size and format of the frames the texture takes.
    pub open spec fn frame_desc(self) -> FrameDesc {
        FrameDesc {
            width: self.spec_width(),
            height: self.spec_height(),
            format: self.spec_format(),
        }
    }

    /// The texture takes frames of exactly this size and format.
    pub open spec fn spec_matches(self, frame: FrameDesc) -> bool {
        self.frame_desc() == frame
    }

    /// Plans a staging texture for frames of the given size and format, read
    /// at the given mip level. There is none for a mip level above
    /// `MAX_MIP_LEVEL`.
    pub fn new(width: u32, height: u32, format: i32, mip_level: u32) -> (texture: Option<
        StagingTexture,
    >)
        ensures
            texture is Some <==> mip_level <= MAX_MIP_LEVEL,
            texture matches Some(t) ==> t.spec_width() == width && t.spec_height() == height
                && t.spec_format() == format && t.spec_mip_level() == mip_level && t.wf(),
    {
        if mip_level <= MAX_MIP_LEVEL {
            Some(StagingTexture { width, height, format, mip_level })
        } else {
            None
        }
    }

    /// The staging texture for frames of the given description, read at
    /// full size.
    pub closed spec fn spec_for_frame(frame: FrameDesc) -> StagingTexture {
        StagingTexture {
            width: frame.width,
            height: frame.height,
            format: frame.format,
            mip_level: 0,
        }
    }

    /// The staging texture for a frame takes that frame, and no frame of
    /// another size or format.
    pub broadcast proof fn lemma_for_frame(frame: FrameDesc)
        ensures
            (#[trigger] Self::spec_for_frame(frame)).frame_desc() == frame,
            Self::spec_for_frame(frame).spec_mip_level() == 0,
            Self::spec_for_frame(frame).wf(),
    {
    }

    /// Plans the staging texture for frames of the given description, read
    /// at full size.
    pub fn for_frame(frame: FrameDesc) -> (texture: StagingTexture)
        ensures
            texture == Self::spec_for_frame(frame),
            texture.frame_desc() == frame,
            texture.spec_mip_level() == 0,
            texture.wf(),
    {
        StagingTexture {
            width: frame.width,
            height: frame.height,
            format: frame.format,
            mip_level: 0,
        }
    }

    pub fn width(&self) -> (width: u32)
        ensures
            width == self.spec_width(),
    {
        self.width
    }

    pub fn height(&self) -> (height: u32)
        ensures
            height == self.spec_height(),
    {
        self.height
    }

    pub fn format(&self) -> (format: i32)
        ensures
            format == self.spec_format(),
    {
        self.format
    }

    pub fn mip_level(&self) -> (mip_level: u32)
        ensures
            mip_level == self.spec_mip_level(),
            mip_level <= MAX_MIP_LEVEL,
    {
        proof {
            use_type_invariant(self);
        }
        self.mip_level
    }

    /// The frame that this texture hands over once it was mapped and the
    /// system said how its rows lie in memory.
    pub fn as_mapped(&self, row_pitch: u32, depth_pitch: u32) -> (frame: OtherFrame)
        ensures
            frame == (OtherFrame {
                texture: *self,
                ptr: FrameData::Mapped { row_pitch, depth_pitch },
            }),
    {
        OtherFrame { texture: *self, ptr: FrameData::Mapped { row_pitch, depth_pitch } }
    }

    /// The frame that this texture hands over by its native handle.
    pub fn as_raw(&self) -> (frame: OtherFrame)
        ensures
            frame == (OtherFrame { texture: *self, ptr: FrameData::Texture }),
    {
        OtherFrame { texture: *self, ptr: FrameData::Texture }
    }

    /// Whether the texture takes frames of exactly this size and format.
    pub fn matches(&self, frame: &FrameDesc) -> (same: bool)
        ensures
            same == self.spec_matches(*frame),
    {
        self.width == frame.width && self.height == frame.height && self.format == frame.format
    }

    /// The resource on the side of the graphics processor, by its
    /// description: the frame buffer, a full-size texture that the graphics
    /// processor copies into and generates mip levels for.
    pub fn as_gpu_resource(&self) -> (desc: TextureDesc)
        ensures
            desc == (TextureDesc {
                width: self.spec_width(),
                height: self.spec_height(),
                mip_levels: (self.spec_mip_level() + 1) as u32,
                array_size: 1,
                format: self.spec_format(),
                sample_count: 1,
                usage: USAGE_DEFAULT,
                bind_flags: 40,
                cpu_access_flags: 0,
                misc_flags: MISC_GENERATE_MIPS,
            }),
            desc.bind_flags == BIND_RENDER_TARGET | BIND_SHADER_RESOURCE,
    {
        proof {
            use_type_invariant(self);
        }
        let bind_flags: u32 = BIND_RENDER_TARGET | BIND_SHADER_RESOURCE;
        assert(bind_flags == 40) by (bit_vector)
            requires
                bind_flags == 32u32 | 8u32,
        ;
        TextureDesc {
            width: self.width,
            height: self.height,
            mip_levels: self.mip_level + 1,
            array_size: 1,
            format: self.format,
            sample_count: 1,
            usage: USAGE_DEFAULT,
            bind_flags,
            cpu_access_flags: 0,
            misc_flags: MISC_GENERATE_MIPS,
        }
    }

    /// The view resource, by its description: the view through which
    /// shaders read every mip level of the frame buffer.
    pub fn as_view_resource(&self) -> (desc: ViewDesc)
        ensures
            desc == (ViewDesc {
                format: self.spec_format(),
                view_dimension: SRV_DIMENSION_TEXTURE2D,
                mip_levels: u32::MAX,
                most_detailed_mip: 0,
            }),
    {
        ViewDesc {
            format: self.format,
            view_dimension: SRV_DIMENSION_TEXTURE2D,
            mip_levels: u32::MAX,
            most_detailed_mip: 0,
        }
    }

    /// The resource on the side of the processor, by its description: the
    /// mapping buffer, which the processor maps and reads. It has the size
    /// of the frame at the texture's mip level, the graphics processor
    /// cannot write it, and the processor can read it.
    pub fn as_cpu_resource(&self) -> (desc: TextureDesc)
        ensures
            desc == (TextureDesc {
                width: mip_extent(self.spec_width(), self.spec_mip_level()) as u32,
                height: mip_extent(self.spec_height(), self.spec_mip_level()) as u32,
                mip_levels: 1,
                array_size: 1,
                format: self.spec_format(),
                sample_count: 1,
                usage: USAGE_STAGING,
                bind_flags: 0,
                cpu_access_flags: CPU_ACCESS_READ,
                misc_flags: 0,
            }),
            desc.gpu_write_disallowed(),
            desc.cpu_readable(),
            self.spec_mip_level() == 0 ==> desc.width == self.spec_width() && desc.height
                == self.spec_height(),
    {
        proof {
            use_type_invariant(self);
        }
        let divisor: u32 = pow2_u32(self.mip_level);
        proof {
            if self.mip_level == 0 {
                assert(pow2(0) == 1);
                assert(self.width as int / 1 == self.width);
                assert(self.height as int / 1 == self.height);
            }
        }
        TextureDesc {
            width: self.width / divisor,
            height: self.height / divisor,
            mip_levels: 1,
            array_size: 1,
            format: self.format,
            sample_count: 1,
            usage: USAGE_STAGING,
            bind_flags: 0,
            cpu_access_flags: CPU_ACCESS_READ,
            misc_flags: 0,
        }
    }
}

/// The staging texture that must be created before a frame of description
/// `frame` can be copied: none if `current` takes such frames, the texture
/// for the frame otherwise.
pub open spec fn spec_ensure_staging(current: Option<StagingTexture>, frame: FrameDesc) -> Option<
    StagingTexture,
> {
    if current matches Some(t) && t.spec_matches(frame) {
        None
    } else {
        Some(StagingTexture::spec_for_frame(frame))
    }
}

/// The staging texture there is once `spec_ensure_staging` was carried out.
pub open spec fn staged(current: Option<StagingTexture>, frame: FrameDesc) -> Option<
    StagingTexture,
> {
    match spec_ensure_staging(current, frame) {
        Some(t) => Some(t),
        None => current,
    }
}

/// How many staging textures are created when `frames` are ensured for one
/// after the other, starting with `current`.
pub open spec fn allocations(current: Option<StagingTexture>, frames: Seq<FrameDesc>) -> nat
    decreases frames.len(),
{
    if frames.len() == 0 {
        0
    } else {
        let first: nat = if spec_ensure_staging(current, frames[0]) is Some {
            1
        } else {
            0
        };
        first + allocations(staged(current, frames[0]), frames.drop_first())
    }
}

/// Decides whether the staging texture must be replaced before a frame of
/// description `frame` is copied, and by which texture.
pub fn ensure_staging(current: &Option<StagingTexture>, frame: &FrameDesc) -> (plan: Option<
    StagingTexture,
>)
    ensures
        plan == spec_ensure_staging(*current, *frame),
        plan is None <==> (*current matches Some(t) && t.frame_desc() == *frame),
        plan matches Some(t) ==> t.frame_desc() == *frame && t.spec_mip_level() == 0 && t.wf(),
{
    let reuse = match current {
        Some(t) => t.matches(frame),
        None => false,
    };
    if reuse {
        None
    } else {
        Some(StagingTexture::for_frame(*frame))
    }
}

/// Ensuring twice for the same size and format creates a texture at most
/// once: after the first time the texture is the one for the frame, and the
/// second time nothing is created.
pub proof fn lemma_ensure_staging_idempotent(current: Option<StagingTexture>, frame: FrameDesc)
    ensures
        staged(current, frame) matches Some(t) && t.frame_desc() == frame,
        spec_ensure_staging(staged(current, frame), frame) is None,
        staged(staged(current, frame), frame) == staged(current, frame),
        allocations(current, seq![frame, frame]) <= 1,
        allocations(current, seq![frame, frame]) == 0 <==> (current matches Some(t)
            && t.frame_desc() == frame),
{
    broadcast use StagingTexture::lemma_for_frame;

    let frames = seq![frame, frame];
    let rest = frames.drop_first();
    assert(rest[0] == frame);
    assert(rest.drop_first().len() == 0);
    assert(allocations(staged(staged(current, frame), frame), rest.drop_first()) == 0);
    assert(allocations(staged(current, frame), rest) == 0);
}

/// Ensuring for a frame whose size or format differs from the last creates
/// exactly one texture, the one for the new frame.
pub proof fn lemma_ensure_staging_reallocates(
    current: Option<StagingTexture>,
    before: FrameDesc,
    after: FrameDesc,
)
    requires
        before != after,
    ensures
        spec_ensure_staging(staged(current, before), after) == Some(
            StagingTexture::spec_for_frame(after),
        ),
        staged(staged(current, before), after) matches Some(t) && t.frame_desc() == after,
        allocations(staged(current, before), seq![after]) == 1,
{
    broadcast use StagingTexture::lemma_for_frame;

    let frames = seq![after];
    assert(frames[0] == after);
    assert(frames.drop_first().len() == 0);
    assert(allocations(staged(staged(current, before), after), frames.drop_first()) == 0);
}

/// Two to the power `level`, for a level whose power fits 32 bits.
fn pow2_u32(level: u32) -> (power: u32)
    requires
        level <= MAX_MIP_LEVEL,
    ensures
        power == pow2(level as nat),
        power > 0,
{
    let mut power: u32 = 1;
    let mut done: u32 = 0;
    while done < level
        invariant
            done <= level <= MAX_MIP_LEVEL,
            power == pow2(done as nat),
        decreases level - done,
    {
        proof {
            lemma_pow2_grows((done + 1) as nat, 31);
            lemma_pow2_31();
        }
        power = power * 2;
        done = done + 1;
    }
    proof {
        lemma_pow2_grows(0, level as nat);
    }
    power
}

/// A higher power of two is not smaller.
proof fn lemma_pow2_grows(low: nat, high: nat)
    requires
        low <= high,
    ensures
        1 <= pow2(low) <= pow2(high),
    decreases high,
{
    if low < high {
        lemma_pow2_grows(low, (high - 1) as nat);
    } else if low > 0 {
        lemma_pow2_grows((low - 1) as nat, (low - 1) as nat);
    }
}

proof fn lemma_pow2_31()
    ensures
        pow2(31) == 0x8000_0000,
{
    reveal_with_fuel(pow2, 32);
}

} // verus!
