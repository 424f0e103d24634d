//! The device capability: the data a camera reports and the operations a
//! camera driver has to offer.

use vstd::prelude::*;

verus! {

/// Pixel encodings. `END` stands for every ordinal outside the table.
#[allow(non_camel_case_types)]
#[derive(Debug, Clone, Copy, PartialEq, Eq, Structural)]
pub enum ImgType {
    RAW8,
    RAW10,
    RAW12,
    RAW14,
    RAW16,
    Y8,
    Y10,
    Y12,
    Y14,
    Y16,
    RGB24,
    RGB32,
    END,
}

impl ImgType {
    /// The encoding with wire ordinal `n`; `END` when `n` names none.
    pub open spec fn of_ordinal(n: int) -> ImgType {
        if n == 0 {
            ImgType::RAW8
        } else if n == 1 {
            ImgType::RAW10
        } else if n == 2 {
            ImgType::RAW12
        } else if n == 3 {
            ImgType::RAW14
        } else if n == 4 {
            ImgType::RAW16
        } else if n == 5 {
            ImgType::Y8
        } else if n == 6 {
            ImgType::Y10
        } else if n == 7 {
            ImgType::Y12
        } else if n == 8 {
            ImgType::Y14
        } else if n == 9 {
            ImgType::Y16
        } else if n == 10 {
            ImgType::RGB24
        } else if n == 11 {
            ImgType::RGB32
        } else {
            ImgType::END
        }
    }

    /// The wire ordinal of an encoding; `END` has ordinal -1.
    pub open spec fn ordinal(self) -> int {
        match self {
            ImgType::RAW8 => 0,
            ImgType::RAW10 => 1,
            ImgType::RAW12 => 2,
            ImgType::RAW14 => 3,
            ImgType::RAW16 => 4,
            ImgType::Y8 => 5,
            ImgType::Y10 => 6,
            ImgType::Y12 => 7,
            ImgType::Y14 => 8,
            ImgType::Y16 => 9,
            ImgType::RGB24 => 10,
            ImgType::RGB32 => 11,
            ImgType::END => -1,
        }
    }

    /// The name under which an encoding is listed in a device description.
    pub open spec fn name(self) -> Seq<char> {
        match self {
            ImgType::RAW8 => "RAW8"@,
            ImgType::RAW10 => "RAW10"@,
            ImgType::RAW12 => "RAW12"@,
            ImgType::RAW14 => "RAW14"@,
            ImgType::RAW16 => "RAW16"@,
            ImgType::Y8 => "Y8"@,
            ImgType::Y10 => "Y10"@,
            ImgType::Y12 => "Y12"@,
            ImgType::Y14 => "Y14"@,
            ImgType::Y16 => "Y16"@,
            ImgType::RGB24 => "RGB24"@,
            ImgType::RGB32 => "RGB32"@,
            ImgType::END => "END"@,
        }
    }

    /// The encoding with wire ordinal `img_t`.
    pub fn from_i32(img_t: &i32) -> (t: ImgType)
        ensures
            t == ImgType::of_ordinal(*img_t as int),
    {
        match *img_t {
            0 => ImgType::RAW8,
            1 => ImgType::RAW10,
            2 => ImgType::RAW12,
            3 => ImgType::RAW14,
            4 => ImgType::RAW16,
            5 => ImgType::Y8,
            6 => ImgType::Y10,
            7 => ImgType::Y12,
            8 => ImgType::Y14,
            9 => ImgType::Y16,
            10 => ImgType::RGB24,
            11 => ImgType::RGB32,
            _ => ImgType::END,
        }
    }

    /// The wire ordinal of the encoding.
    pub fn to_i32(self) -> (n: i32)
        ensures
            n == self.ordinal(),
    {
        match self {
            ImgType::RAW8 => 0,
            ImgType::RAW10 => 1,
            ImgType::RAW12 => 2,
            ImgType::RAW14 => 3,
            ImgType::RAW16 => 4,
            ImgType::Y8 => 5,
            ImgType::Y10 => 6,
            ImgType::Y12 => 7,
            ImgType::Y14 => 8,
            ImgType::Y16 => 9,
            ImgType::RGB24 => 10,
            ImgType::RGB32 => 11,
            ImgType::END => -1,
        }
    }

    /// The name of the encoding.
    pub fn as_str(self) -> (s: &'static str)
        ensures
            s@ == self.name(),
    {
        match self {
            ImgType::RAW8 => "RAW8",
            ImgType::RAW10 => "RAW10",
            ImgType::RAW12 => "RAW12",
            ImgType::RAW14 => "RAW14",
            ImgType::RAW16 => "RAW16",
            ImgType::Y8 => "Y8",
            ImgType::Y10 => "Y10",
            ImgType::Y12 => "Y12",
            ImgType::Y14 => "Y14",
            ImgType::Y16 => "Y16",
            ImgType::RGB24 => "RGB24",
            ImgType::RGB32 => "RGB32",
            ImgType::END => "END",
        }
    }
}

/// Reading an ordinal back gives the encoding it was taken from.
pub proof fn lemma_img_type_ordinal_round_trip(t: ImgType)
    ensures
        ImgType::of_ordinal(t.ordinal()) == t,
{
}

/// The controls a camera can expose, in wire order starting at 0.
#[allow(non_camel_case_types)]
#[derive(Debug, Clone, Copy, PartialEq, Eq, Structural)]
pub enum ControlType {
    GAIN,
    EXPOSURE,
    GAMMA,
    GAMMA_CONTRAST,
    WB_R,
    WB_G,
    WB_B,
    FLIP,
    FRAME_SPEED_MODE,
    CONTRAST,
    SHARPNESS,
    SATURATION,
    AUTO_TARGET_BRIGHTNESS,
    BLACK_LEVEL,
    COOLER_ENABLE,
    TARGET_TEMPERATURE,
    CURRENT_TEMPERATURE,
    COOLER_POWER,
    BAD_PIXEL_CORRECTION_ENABLE,
}

impl ControlType {
    /// Whether `n` is the wire ordinal of a control.
    pub open spec fn is_ordinal(n: int) -> bool {
        0 <= n <= 18
    }

    /// The wire ordinal of a control.
    pub open spec fn ordinal(self) -> int {
        match self {
            ControlType::GAIN => 0,
            ControlType::EXPOSURE => 1,
            ControlType::GAMMA => 2,
            ControlType::GAMMA_CONTRAST => 3,
            ControlType::WB_R => 4,
            ControlType::WB_G => 5,
            ControlType::WB_B => 6,
            ControlType::FLIP => 7,
            ControlType::FRAME_SPEED_MODE => 8,
            ControlType::CONTRAST => 9,
            ControlType::SHARPNESS => 10,
            ControlType::SATURATION => 11,
            ControlType::AUTO_TARGET_BRIGHTNESS => 12,
            ControlType::BLACK_LEVEL => 13,
            ControlType::COOLER_ENABLE => 14,
            ControlType::TARGET_TEMPERATURE => 15,
            ControlType::CURRENT_TEMPERATURE => 16,
            ControlType::COOLER_POWER => 17,
            ControlType::BAD_PIXEL_CORRECTION_ENABLE => 18,
        }
    }

    /// The control with wire ordinal `n`, for `n` in `0..=18`.
    pub open spec fn of_ordinal(n: int) -> ControlType
        recommends
            ControlType::is_ordinal(n),
    {
        if n == 0 {
            ControlType::GAIN
        } else if n == 1 {
            ControlType::EXPOSURE
        } else if n == 2 {
            ControlType::GAMMA
        } else if n == 3 {
            ControlType::GAMMA_CONTRAST
        } else if n == 4 {
            ControlType::WB_R
        } else if n == 5 {
            ControlType::WB_G
        } else if n == 6 {
            ControlType::WB_B
        } else if n == 7 {
            ControlType::FLIP
        } else if n == 8 {
            ControlType::FRAME_SPEED_MODE
        } else if n == 9 {
            ControlType::CONTRAST
        } else if n == 10 {
            ControlType::SHARPNESS
        } else if n == 11 {
            ControlType::SATURATION
        } else if n == 12 {
            ControlType::AUTO_TARGET_BRIGHTNESS
        } else if n == 13 {
            ControlType::BLACK_LEVEL
        } else if n == 14 {
            ControlType::COOLER_ENABLE
        } else if n == 15 {
            ControlType::TARGET_TEMPERATURE
        } else if n == 16 {
            ControlType::CURRENT_TEMPERATURE
        } else if n == 17 {
            ControlType::COOLER_POWER
        } else {
            ControlType::BAD_PIXEL_CORRECTION_ENABLE
        }
    }

    /// The control with wire ordinal `ctrl_idx`.
    pub fn from_i32(ctrl_idx: &i32) -> (c: ControlType)
        requires
            ControlType::is_ordinal(*ctrl_idx as int),
        ensures
            c == ControlType::of_ordinal(*ctrl_idx as int),
            c.ordinal() == *ctrl_idx,
    {
        match *ctrl_idx {
            0 => ControlType::GAIN,
            1 => ControlType::EXPOSURE,
            2 => ControlType::GAMMA,
            3 => ControlType::GAMMA_CONTRAST,
            4 => ControlType::WB_R,
            5 => ControlType::WB_G,
            6 => ControlType::WB_B,
            7 => ControlType::FLIP,
            8 => ControlType::FRAME_SPEED_MODE,
            9 => ControlType::CONTRAST,
            10 => ControlType::SHARPNESS,
            11 => ControlType::SATURATION,
            12 => ControlType::AUTO_TARGET_BRIGHTNESS,
            13 => ControlType::BLACK_LEVEL,
            14 => ControlType::COOLER_ENABLE,
            15 => ControlType::TARGET_TEMPERATURE,
            16 => ControlType::CURRENT_TEMPERATURE,
            17 => ControlType::COOLER_POWER,
            _ => ControlType::BAD_PIXEL_CORRECTION_ENABLE,
        }
    }

    /// The control named by `ctrl_idx`, or `None` when the ordinal names none.
    pub fn try_from_i32(ctrl_idx: i32) -> (c: Option<ControlType>)
        ensures
            c == (if ControlType::is_ordinal(ctrl_idx as int) {
                Some(ControlType::of_ordinal(ctrl_idx as int))
            } else {
                None
            }),
    {
        if 0 <= ctrl_idx && ctrl_idx <= 18 {
            Some(ControlType::from_i32(&ctrl_idx))
        } else {
            None
        }
    }

    /// The wire ordinal of the control.
    pub fn to_i32(self) -> (n: i32)
        ensures
            n == self.ordinal(),
    {
        match self {
            ControlType::GAIN => 0,
            ControlType::EXPOSURE => 1,
            ControlType::GAMMA => 2,
            ControlType::GAMMA_CONTRAST => 3,
            ControlType::WB_R => 4,
            ControlType::WB_G => 5,
            ControlType::WB_B => 6,
            ControlType::FLIP => 7,
            ControlType::FRAME_SPEED_MODE => 8,
            ControlType::CONTRAST => 9,
            ControlType::SHARPNESS => 10,
            ControlType::SATURATION => 11,
            ControlType::AUTO_TARGET_BRIGHTNESS => 12,
            ControlType::BLACK_LEVEL => 13,
            ControlType::COOLER_ENABLE => 14,
            ControlType::TARGET_TEMPERATURE => 15,
            ControlType::CURRENT_TEMPERATURE => 16,
            ControlType::COOLER_POWER => 17,
            ControlType::BAD_PIXEL_CORRECTION_ENABLE => 18,
        }
    }
}

/// Every control is found again under its ordinal.
pub proof fn lemma_control_type_ordinal_round_trip(c: ControlType)
    ensures
        ControlType::is_ordinal(c.ordinal()),
        ControlType::of_ordinal(c.ordinal()) == c,
{
}


/// What a device says of itself. It is fixed when the device is opened.
#[derive(Debug, Clone, PartialEq, Eq)]
pub struct CameraInfo {
    pub name: String,
    pub idx: u32,
    pub max_width: u32,
    pub max_height: u32,
    pub supported_img_type: Vec<ImgType>,
    pub supported_bins: Vec<u8>,
    pub is_coolable: bool,
}

/// [`CameraInfo`], with its name and its lists taken by their views.
pub struct CameraInfoView {
    pub name: Seq<char>,
    pub idx: u32,
    pub max_width: u32,
    pub max_height: u32,
    pub supported_img_type: Seq<ImgType>,
    pub supported_bins: Seq<u8>,
    pub is_coolable: bool,
}

impl View for CameraInfo {
    type V = CameraInfoView;

    open spec fn view(&self) -> CameraInfoView {
        CameraInfoView {
            name: self.name@,
            idx: self.idx,
            max_width: self.max_width,
            max_height: self.max_height,
            supported_img_type: self.supported_img_type@,
            supported_bins: self.supported_bins@,
            is_coolable: self.is_coolable,
        }
    }
}

impl CameraInfoView {
    /// Whether a device can describe itself so: a sensor of positive size,
    /// at least one pixel encoding and one binning factor, no binning factor
    /// zero, and nothing listed twice.
    pub open spec fn well_formed(self) -> bool {
        &&& self.max_width > 0
        &&& self.max_height > 0
        &&& self.supported_img_type.len() > 0
        &&& self.supported_img_type.no_duplicates()
        &&& self.supported_bins.len() > 0
        &&& self.supported_bins.no_duplicates()
        &&& forall|i: int| 0 <= i < self.supported_bins.len() ==> #[trigger] self.supported_bins[i] > 0
    }
}

/// The region of the sensor that a device reads out, with binning factor and
/// the ordinal of the pixel encoding.
#[derive(Debug, Clone, Copy, PartialEq, Eq, Structural)]
pub struct ROIFormat {
    pub startx: u32,
    pub starty: u32,
    pub width: u32,
    pub height: u32,
    pub bin: u8,
    pub img_type: u8,
}

impl ROIFormat {
    /// Whether the region lies on the sensor that `info` describes. It is
    /// for the driver to see to this, not for the gateway.
    pub open spec fn fits(self, info: CameraInfoView) -> bool {
        &&& self.startx + self.width <= info.max_width
        &&& self.starty + self.height <= info.max_height
        &&& self.bin > 0
    }
}

/// A region that a client asks a device to read out.
#[derive(Debug, Clone, Copy, PartialEq, Eq, Structural)]
pub struct RoiRequest {
    pub startx: u32,
    pub starty: u32,
    pub width: u32,
    pub height: u32,
    pub bin: u8,
    pub img_type: ImgType,
}

impl RoiRequest {
    /// The region a device reports once it has taken the request as it is.
    pub open spec fn format(self) -> ROIFormat {
        ROIFormat {
            startx: self.startx,
            starty: self.starty,
            width: self.width,
            height: self.height,
            bin: self.bin,
            img_type: if self.img_type == ImgType::END {
                255u8
            } else {
                self.img_type.ordinal() as u8
            },
        }
    }
}

/// The range and the abilities of one control.
#[derive(Debug, Clone, PartialEq, Eq)]
pub struct ControlCaps {
    pub name: String,
    pub max_value: u64,
    pub min_value: u64,
    pub default_value: u64,
    pub is_auto_supported: bool,
    pub is_writable: bool,
    pub control_type: ControlType,
}

/// The operations of one camera.
///
/// Beside each operation that the gateway calls stands a relation that says
/// which outcomes a driver admits for it: which value a read may give in a
/// state, which state a write may lead to. A driver states its relations as
/// exactly as it can; one that states none admits every outcome.
pub trait CameraInterface: Sized {
    /// Whether an enumeration may find `count` devices of this kind.
    open spec fn counts(count: usize) -> bool {
        true
    }

    /// Whether opening the device with number `idx` may give this state.
    open spec fn opened_at(&self, idx: usize) -> bool {
        true
    }

    /// Whether a device in this state may report `flag` as its capture flag.
    open spec fn reads_flag(&self, flag: bool) -> bool {
        true
    }

    /// Whether setting the capture flag to `flag` may lead to `after`.
    open spec fn sets_flag(&self, after: &Self, flag: bool) -> bool {
        true
    }

    /// Whether starting the capture may lead to `after`.
    open spec fn starts(&self, after: &Self) -> bool {
        true
    }

    /// Whether stopping the capture may lead to `after`.
    open spec fn stops(&self, after: &Self) -> bool {
        true
    }

    /// Whether a device in this state may report `roi` as its region.
    open spec fn reads_roi(&self, roi: ROIFormat) -> bool {
        true
    }

    /// Whether asking for the region `request` may lead to `after`.
    open spec fn sets_roi(&self, after: &Self, request: RoiRequest) -> bool {
        true
    }

    /// Whether a device in this state may report `value` for a control.
    open spec fn reads_control(&self, ctrl_type: ControlType, value: i64) -> bool {
        true
    }

    /// Whether writing `value` to a control may lead to `after`.
    open spec fn sets_control(
        &self,
        after: &Self,
        ctrl_type: ControlType,
        value: i64,
        is_auto: bool,
    ) -> bool {
        true
    }

    /// Whether a device in this state may describe itself by `info`.
    open spec fn reads_info(&self, info: CameraInfoView) -> bool {
        true
    }

    /// Whether a device in this state may hand out `frame`; `None` stands
    /// for a failed acquisition.
    open spec fn yields_frame(&self, frame: Option<Seq<char>>) -> bool {
        true
    }

    fn num_devices() -> (count: usize)
        ensures
            Self::counts(count),
    ;

    fn new(idx: usize) -> (camera: Self)
        ensures
            camera.opened_at(idx),
    ;

    fn set_roi(
        &mut self,
        startx: u32,
        starty: u32,
        width: u32,
        height: u32,
        bin: u8,
        img_type: ImgType,
    )
        ensures
            old(self).sets_roi(
                final(self),
                (RoiRequest { startx, starty, width, height, bin, img_type }),
            ),
    ;

    fn set_img_type(&mut self, img_type: ImgType);

    fn get_roi(&self) -> (roi: ROIFormat)
        ensures
            self.reads_roi(roi),
    ;

    fn get_img_type(&self) -> ImgType;

    fn start_capture(&mut self)
        ensures
            old(self).starts(final(self)),
    ;

    fn stop_capture(&mut self)
        ensures
            old(self).stops(final(self)),
    ;

    /// One encoded frame, or `None` when the device could not deliver one.
    fn get_frame(&self) -> (frame: Option<String>)
        ensures
            self.yields_frame(
                match frame {
                    Some(f) => Some(f@),
                    None => None,
                },
            ),
    ;

    fn get_control_value(&self, ctrl_type: ControlType) -> (value: i64)
        ensures
            self.reads_control(ctrl_type, value),
    ;

    fn set_control_value(&mut self, ctrl_type: ControlType, value: i64, is_auto: bool)
        ensures
            old(self).sets_control(final(self), ctrl_type, value, is_auto),
    ;

    fn get_info(&self) -> (info: CameraInfo)
        ensures
            self.reads_info(info@),
    ;

    fn is_capture(&self) -> (flag: bool)
        ensures
            self.reads_flag(flag),
    ;

    fn set_is_capture(&mut self, is_capture: bool)
        ensures
            old(self).sets_flag(final(self), is_capture),
    ;

    fn adjust_white_balance(&self);

    fn close(&self);
}

/// A driver whose capture flag reads as it was last set: by the flag's own
/// setter, by starting or by stopping the capture.
pub open spec fn keeps_flag<T: CameraInterface>() -> bool {
    &&& forall|a: T, b: T, set: bool, seen: bool|
        #[trigger] a.sets_flag(&b, set) && #[trigger] b.reads_flag(seen) ==> seen == set
    &&& forall|a: T, b: T, seen: bool|
        #[trigger] a.starts(&b) && #[trigger] b.reads_flag(seen) ==> seen
    &&& forall|a: T, b: T, seen: bool|
        #[trigger] a.stops(&b) && #[trigger] b.reads_flag(seen) ==> !seen
}

/// A driver that takes every region as it is asked for and reports it so.
pub open spec fn keeps_roi<T: CameraInterface>() -> bool {
    forall|a: T, b: T, request: RoiRequest, seen: ROIFormat|
        #[trigger] a.sets_roi(&b, request) && #[trigger] b.reads_roi(seen) ==> seen
            == request.format()
}

/// A driver on which the control `ctrl_type` reads as it was last written.
pub open spec fn keeps_control<T: CameraInterface>(ctrl_type: ControlType) -> bool {
    forall|a: T, b: T, value: i64, is_auto: bool, seen: i64|
        #[trigger] a.sets_control(&b, ctrl_type, value, is_auto) && #[trigger] b.reads_control(
            ctrl_type,
            seen,
        ) ==> seen == value
}

} // verus!
