//! The decisions of the GPU bootstrap: which pixel format the surface
//! gets, and how it is configured.

use crate::state::common::render::{CompositeAlphaMode, PresentMode, SurfaceConfiguration};
use vstd::prelude::*;
use wgpu::TextureFormat;

verus! {

/// How many frames may wait for the display.
pub const MAXIMUM_FRAME_LATENCY: u32 = 2;

/// What `TextureFormat::is_srgb` says of a format: whether it is
/// gamma-corrected.
pub uninterp spec fn is_srgb_format(format: TextureFormat) -> bool;

/// Asks `TextureFormat::is_srgb` whether a format is gamma-corrected.
#[verifier::external_body]
fn format_is_srgb(format: &TextureFormat) -> (srgb: bool)
    ensures
        srgb == is_srgb_format(*format),
{
    format.is_srgb()
}

/// For each of `formats`, whether it is gamma-corrected.
pub open spec fn srgb_flags(formats: Seq<TextureFormat>) -> Seq<bool> {
    Seq::new(formats.len(), |i: int| is_srgb_format(formats[i]))
}

/// Whether `index` is the place to choose where `srgb` tells of each
/// format whether it is gamma-corrected: the first place that is, or the
/// very first place where none is.
pub open spec fn is_chosen(srgb: Seq<bool>, index: int) -> bool {
    &&& 0 <= index < srgb.len()
    &&& forall|earlier: int| 0 <= earlier < index ==> !srgb[earlier]
    &&& srgb[index] || (index == 0 && forall|any: int| 0 <= any < srgb.len() ==> !srgb[any])
}

/// Whether `config` is the configuration of the splash phase's surface:
/// the given format and size, presentation in step with the display,
/// alpha compositing left to the platform, no further view formats, two
/// frames of latency at most.
pub open spec fn is_configuration_for(
    config: SurfaceConfiguration,
    format: TextureFormat,
    width: u32,
    height: u32,
) -> bool {
    &&& config.format == format
    &&& config.width == width
    &&& config.height == height
    &&& config.present_mode == PresentMode::AutoVsync
    &&& config.alpha_mode == CompositeAlphaMode::Auto
    &&& config.view_formats@ == Seq::<TextureFormat>::empty()
    &&& config.desired_maximum_frame_latency == MAXIMUM_FRAME_LATENCY
}

/// Picks the place of the format to use, given for each supported format
/// whether it is gamma-corrected. There must be a format.
pub fn choose_among(srgb: &[bool]) -> (index: usize)
    requires
        srgb@.len() > 0,
    ensures
        is_chosen(srgb@, index as int),
{
    let mut index: usize = 0;
    while index < srgb.len()
        invariant
            index <= srgb@.len(),
            forall|earlier: int| 0 <= earlier < index ==> !srgb@[earlier],
        decreases srgb@.len() - index,
    {
        if srgb[index] {
            return index;
        }
        index += 1;
    }
    0
}

/// Picks the place of the surface's format among the formats that the
/// surface supports, of which there must be one: the first gamma-corrected
/// format, or the very first where none is gamma-corrected.
pub fn choose_surface_format(formats: &[TextureFormat]) -> (index: usize)
    requires
        formats@.len() > 0,
    ensures
        is_chosen(srgb_flags(formats@), index as int),
{
    let mut srgb: Vec<bool> = Vec::new();
    let mut read: usize = 0;
    while read < formats.len()
        invariant
            read <= formats@.len(),
            srgb@ == srgb_flags(formats@.take(read as int)),
        decreases formats@.len() - read,
    {
        let flag = format_is_srgb(&formats[read]);
        srgb.push(flag);
        read += 1;
    }
    assert(formats@.take(read as int) =~= formats@);
    choose_among(srgb.as_slice())
}

/// Builds the configuration of a surface of the window's present size,
/// with the format picked among those that the surface supports, of which
/// there must be one.
pub fn surface_configuration(formats: &[TextureFormat], width: u32, height: u32) -> (config:
    SurfaceConfiguration)
    requires
        formats@.len() > 0,
    ensures
        exists|index: int| #[trigger]
            is_chosen(srgb_flags(formats@), index) && is_configuration_for(
                config,
                formats@[index],
                width,
                height,
            ),
{
    let index = choose_surface_format(formats);
    SurfaceConfiguration {
        format: formats[index],
        width,
        height,
        present_mode: PresentMode::AutoVsync,
        alpha_mode: CompositeAlphaMode::Auto,
        view_formats: Vec::new(),
        desired_maximum_frame_latency: MAXIMUM_FRAME_LATENCY,
    }
}

/// Only one place is chosen among given formats.
pub proof fn lemma_chosen_unique(srgb: Seq<bool>, a: int, b: int)
    requires
        is_chosen(srgb, a),
        is_chosen(srgb, b),
    ensures
        a == b,
{
}

} // verus!
