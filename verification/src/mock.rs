//! A simulated camera: fixed geometry, random pixels.

use crate::interface::{CameraInfo, CameraInfoView, CameraInterface, ControlType, ImgType, ROIFormat, RoiRequest};
use vstd::prelude::*;
use vstd::string::*;

verus! {

/// `rand::rngs::ThreadRng`, carried from where it is made to where it is
/// asked for a number; nothing in it is looked at.
#[verifier::external_type_specification]
#[verifier::external_body]
pub struct ExThreadRng(rand::rngs::ThreadRng);

/// The standard base64 text of a byte string, padding included.
pub uninterp spec fn base64_text(bytes: Seq<u8>) -> Seq<char>;

/// `rand::thread_rng`: the random number generator of the calling thread.
/// Nothing is claimed of it.
#[verifier::external_body]
fn thread_rng() -> rand::rngs::ThreadRng {
    rand::thread_rng()
}

/// `rand::Rng::gen_range` over `0..255`: some byte below 255, whichever the
/// generator comes up with.
#[verifier::external_body]
fn random_level(rng: &mut rand::rngs::ThreadRng) -> (level: u8)
    ensures
        level < 255,
{
    rand::Rng::gen_range(rng, 0..255)
}

/// `base64::Engine::encode` with the engine `STANDARD`. The contract claims
/// only that the text is a function of the bytes.
#[verifier::external_body]
fn base64_encode(bytes: &Vec<u8>) -> (text: String)
    ensures
        text@ == base64_text(bytes@),
{
    base64::Engine::encode(&base64::engine::general_purpose::STANDARD, bytes)
}

/// Whether `pixels` can be one frame of a sensor of `w` by `h` pixels.
pub open spec fn mock_pixels(pixels: Seq<u8>, w: u32, h: u32) -> bool {
    &&& pixels.len() == w * h
    &&& forall|i: int| 0 <= i < pixels.len() ==> #[trigger] pixels[i] < 255
}

/// A camera without hardware behind it. It reports one region and reads 0
/// for every control whatever is written to it; its frames are random.
#[derive(Debug, Clone)]
pub struct MockCamera {
    idx: usize,
    w: u32,
    h: u32,
    is_capture: bool,
}

impl MockCamera {
    pub closed spec fn index(&self) -> usize {
        self.idx
    }

    pub closed spec fn width(&self) -> u32 {
        self.w
    }

    pub closed spec fn height(&self) -> u32 {
        self.h
    }

    pub closed spec fn capturing(&self) -> bool {
        self.is_capture
    }

    /// The state that differs from this one in the capture flag at most.
    pub closed spec fn with_flag(&self, flag: bool) -> MockCamera {
        MockCamera { idx: self.idx, w: self.w, h: self.h, is_capture: flag }
    }

    /// The region the simulated sensor reports whatever was asked: all of
    /// it, unbinned, in the first encoding.
    pub open spec fn fixed_roi(&self) -> ROIFormat {
        ROIFormat {
            startx: 0,
            starty: 0,
            width: self.width(),
            height: self.height(),
            bin: 1,
            img_type: 0,
        }
    }

    /// The description of the simulated camera: only the index varies.
    pub open spec fn fixed_info(&self) -> CameraInfoView {
        CameraInfoView {
            name: "Mock Camera"@,
            idx: self.index() as u32,
            max_width: 1912,
            max_height: 1304,
            supported_img_type: seq![ImgType::RAW8, ImgType::RAW16],
            supported_bins: seq![1u8, 2u8, 4u8, 8u8],
            is_coolable: false,
        }
    }
}

/// Changing the flag of a simulated camera changes nothing else, and the
/// flag reads as it was set.
pub proof fn lemma_mock_with_flag()
    ensures
        forall|camera: MockCamera, flag: bool|
            {
                let changed = #[trigger] camera.with_flag(flag);
                &&& changed.capturing() == flag
                &&& changed.index() == camera.index()
                &&& changed.width() == camera.width()
                &&& changed.height() == camera.height()
            },
        forall|camera: MockCamera| #[trigger] camera.with_flag(camera.capturing()) == camera,
{
}

/// The simulated camera describes itself as a device can, and as long as
/// its sensor has the size it was opened with, the region it reports lies on
/// the sensor.
pub proof fn lemma_mock_is_well_formed(camera: MockCamera)
    ensures
        camera.fixed_info().well_formed(),
        camera.width() == 1912 && camera.height() == 1304 ==> camera.fixed_roi().fits(
            camera.fixed_info(),
        ),
{
}

/// The simulated camera keeps its capture flag.
pub proof fn lemma_mock_keeps_flag()
    ensures
        crate::interface::keeps_flag::<MockCamera>(),
{
}

impl CameraInterface for MockCamera {
    /// An enumeration finds no simulated device: they are opened by number.
    open spec fn counts(count: usize) -> bool {
        count == 0
    }

    open spec fn opened_at(&self, idx: usize) -> bool {
        &&& self.index() == idx
        &&& self.width() == 1912
        &&& self.height() == 1304
        &&& !self.capturing()
    }

    open spec fn reads_flag(&self, flag: bool) -> bool {
        flag == self.capturing()
    }

    open spec fn sets_flag(&self, after: &Self, flag: bool) -> bool {
        *after == self.with_flag(flag)
    }

    open spec fn starts(&self, after: &Self) -> bool {
        *after == self.with_flag(true)
    }

    open spec fn stops(&self, after: &Self) -> bool {
        *after == self.with_flag(false)
    }

    open spec fn reads_roi(&self, roi: ROIFormat) -> bool {
        roi == self.fixed_roi()
    }

    /// A request for a region changes nothing.
    open spec fn sets_roi(&self, after: &Self, request: RoiRequest) -> bool {
        *after == *self
    }

    /// Every control reads 0.
    open spec fn reads_control(&self, ctrl_type: ControlType, value: i64) -> bool {
        value == 0
    }

    /// A write to a control changes nothing.
    open spec fn sets_control(
        &self,
        after: &Self,
        ctrl_type: ControlType,
        value: i64,
        is_auto: bool,
    ) -> bool {
        *after == *self
    }

    open spec fn reads_info(&self, info: CameraInfoView) -> bool {
        info == self.fixed_info()
    }

    /// A frame is the base64 text of one sensor's worth of pixels.
    open spec fn yields_frame(&self, frame: Option<Seq<char>>) -> bool {
        exists|pixels: Seq<u8>|
            mock_pixels(pixels, self.width(), self.height()) && frame == Some(
                #[trigger] base64_text(pixels),
            )
    }

    fn num_devices() -> (count: usize) {
        0
    }

    fn new(idx: usize) -> (camera: Self) {
        MockCamera { idx, w: 1912, h: 1304, is_capture: false }
    }

    fn get_info(&self) -> (info: CameraInfo)
        ensures
            info@.well_formed(),
    {
        let mut supported_img_type: Vec<ImgType> = Vec::new();
        supported_img_type.push(ImgType::RAW8);
        supported_img_type.push(ImgType::RAW16);
        let mut supported_bins: Vec<u8> = Vec::new();
        supported_bins.push(1);
        supported_bins.push(2);
        supported_bins.push(4);
        supported_bins.push(8);
        let info = CameraInfo {
            name: String::from_str("Mock Camera"),
            idx: #[verifier::truncate]
            (self.idx as u32),
            max_width: 1912,
            max_height: 1304,
            supported_img_type,
            supported_bins,
            is_coolable: false,
        };
        assert(info@.supported_img_type =~= seq![ImgType::RAW8, ImgType::RAW16]);
        assert(info@.supported_bins =~= seq![1u8, 2u8, 4u8, 8u8]);
        assert(info@ == self.fixed_info());
        info
    }

    fn set_roi(
        &mut self,
        startx: u32,
        starty: u32,
        width: u32,
        height: u32,
        bin: u8,
        img_type: ImgType,
    ) {
    }

    fn set_img_type(&mut self, img_type: ImgType)
        ensures
            *final(self) == *old(self),
    {
    }

    fn get_roi(&self) -> (roi: ROIFormat) {
        ROIFormat { startx: 0, starty: 0, width: self.w, height: self.h, bin: 1, img_type: 0 }
    }

    fn get_img_type(&self) -> (t: ImgType)
        ensures
            t == ImgType::RAW8,
    {
        ImgType::RAW8
    }

    fn start_capture(&mut self) {
        self.is_capture = true
    }

    fn stop_capture(&mut self) {
        self.is_capture = false
    }

    fn get_frame(&self) -> (frame: Option<String>)
        ensures
            frame is Some,
    {
        let mut rng = thread_rng();
        assert(self.w * self.h <= u64::MAX) by (nonlinear_arith)
            requires
                self.w <= u32::MAX,
                self.h <= u32::MAX,
        ;
        let count: u64 = self.w as u64 * self.h as u64;
        let mut buf: Vec<u8> = Vec::new();
        let mut i: u64 = 0;
        while i < count
            invariant
                i <= count,
                buf@.len() == i,
                forall|k: int| 0 <= k < buf@.len() ==> #[trigger] buf@[k] < 255,
            decreases count - i,
        {
            let level: u8 = random_level(&mut rng);
            buf.push(level);
            i = i + 1;
        }
        let text: String = base64_encode(&buf);
        assert(mock_pixels(buf@, self.w, self.h));
        Some(text)
    }

    fn get_control_value(&self, ctrl_type: ControlType) -> (value: i64) {
        0
    }

    fn adjust_white_balance(&self) {
    }

    fn set_control_value(&mut self, ctrl_type: ControlType, value: i64, is_auto: bool) {
    }

    fn is_capture(&self) -> (flag: bool) {
        self.is_capture
    }

    fn set_is_capture(&mut self, is_capture: bool) {
        self.is_capture = is_capture
    }

    fn close(&self) {
    }
}

} // verus!
