//! What an SVBONY camera reports through its vendor library, made into the
//! gateway's own values. The calls into the vendor library are the driver's;
//! here is what the driver does with their results.

use crate::interface::{CameraInfo, CameraInfoView, ImgType, ROIFormat};
use vstd::prelude::*;

verus! {

/// What a control reads as when reading it failed.
pub const CONTROL_READ_FAILED: i64 = -1;

/// The end mark in the vendor library's list of pixel encodings.
pub const FORMAT_LIST_END: i32 = -1;

/// The encodings that a list of the vendor library names: those before the
/// first end mark.
pub open spec fn listed_formats(formats: Seq<i32>) -> Seq<ImgType>
    decreases formats.len(),
{
    if formats.len() == 0 || formats[0] == FORMAT_LIST_END {
        Seq::empty()
    } else {
        seq![ImgType::of_ordinal(formats[0] as int)] + listed_formats(formats.skip(1))
    }
}

/// The binning factors of a list, each cut down to a byte.
pub open spec fn listed_bins(bins: Seq<i32>) -> Seq<u8> {
    Seq::new(bins.len(), |i: int| bins[i] as u8)
}

/// The pixel encodings of a list of the vendor library.
pub fn supported_formats(formats: &Vec<i32>) -> (types: Vec<ImgType>)
    ensures
        types@ == listed_formats(formats@),
{
    let mut types: Vec<ImgType> = Vec::new();
    let mut i: usize = 0;
    assert(formats@.skip(0) =~= formats@);
    while i < formats.len() && formats[i] != FORMAT_LIST_END
        invariant
            i <= formats.len(),
            listed_formats(formats@) == types@ + listed_formats(formats@.skip(i as int)),
        decreases formats.len() - i,
    {
        let ghost rest = formats@.skip(i as int);
        proof {
            assert(rest[0] == formats@[i as int]);
            assert(rest.skip(1) =~= formats@.skip(i + 1));
        }
        let ghost before = types@;
        types.push(ImgType::from_i32(&formats[i]));
        proof {
            assert(types@ + listed_formats(formats@.skip(i + 1)) =~= before + listed_formats(rest));
        }
        i = i + 1;
    }
    proof {
        let rest = formats@.skip(i as int);
        if i < formats.len() {
            assert(rest[0] == formats@[i as int]);
        }
        assert(listed_formats(rest) =~= Seq::<ImgType>::empty());
        assert(types@ + Seq::<ImgType>::empty() =~= types@);
    }
    types
}

/// The binning factors of a list of the vendor library.
pub fn supported_bins(bins: &Vec<i32>) -> (factors: Vec<u8>)
    ensures
        factors@ == listed_bins(bins@),
{
    let mut factors: Vec<u8> = Vec::new();
    let mut i: usize = 0;
    while i < bins.len()
        invariant
            i <= bins.len(),
            factors@ == listed_bins(bins@.take(i as int)),
        decreases bins.len() - i,
    {
        let factor: u8 = #[verifier::truncate]
        (bins[i] as u8);
        factors.push(factor);
        proof {
            assert(factors@ =~= listed_bins(bins@.take(i + 1)));
        }
        i = i + 1;
    }
    proof {
        assert(bins@.take(i as int) =~= bins@);
    }
    factors
}

/// The region a camera reports, from the numbers of the vendor library.
/// Each number is cut down to the width of its field.
pub fn roi_format(startx: i32, starty: i32, width: i32, height: i32, bin: i32, img_type: i32) -> (roi:
    ROIFormat)
    ensures
        roi == (ROIFormat {
            startx: startx as u32,
            starty: starty as u32,
            width: width as u32,
            height: height as u32,
            bin: bin as u8,
            img_type: img_type as u8,
        }),
{
    ROIFormat {
        startx: #[verifier::truncate]
        (startx as u32),
        starty: #[verifier::truncate]
        (starty as u32),
        width: #[verifier::truncate]
        (width as u32),
        height: #[verifier::truncate]
        (height as u32),
        bin: #[verifier::truncate]
        (bin as u8),
        img_type: #[verifier::truncate]
        (img_type as u8),
    }
}

/// The description of a camera, from the properties of the vendor library.
/// No camera is taken to be coolable.
pub fn camera_info(
    name: String,
    idx: usize,
    max_width: i64,
    max_height: i64,
    formats: &Vec<i32>,
    bins: &Vec<i32>,
) -> (info: CameraInfo)
    ensures
        info@ == (CameraInfoView {
            name: name@,
            idx: idx as u32,
            max_width: max_width as u32,
            max_height: max_height as u32,
            supported_img_type: listed_formats(formats@),
            supported_bins: listed_bins(bins@),
            is_coolable: false,
        }),
{
    CameraInfo {
        name,
        idx: #[verifier::truncate]
        (idx as u32),
        max_width: #[verifier::truncate]
        (max_width as u32),
        max_height: #[verifier::truncate]
        (max_height as u32),
        supported_img_type: supported_formats(formats),
        supported_bins: supported_bins(bins),
        is_coolable: false,
    }
}

/// The value to report for a control: what was read, or the failure mark
/// where nothing could be read.
pub fn control_reading(read: Option<i64>) -> (value: i64)
    ensures
        value == (match read {
            Some(v) => v,
            None => CONTROL_READ_FAILED,
        }),
{
    match read {
        Some(v) => v,
        None => CONTROL_READ_FAILED,
    }
}

} // verus!
