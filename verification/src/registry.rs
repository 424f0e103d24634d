//! The device registry: every device the gateway serves, addressed by its
//! place in one list. Simulated devices come first, hardware devices after
//! them.

use crate::dispatch::{
    capture_step, cmd_process, command_effect, outcome_view, stream_effect, DispatchError,
    Progress, ProgressView, StreamStepView, StreamStep,
};
use crate::envelope::{Payload, PayloadView};
use crate::interface::CameraInterface;
use crate::mock::MockCamera;
use vstd::prelude::*;

verus! {

/// A device of the registry, tagged with its kind. `S` is the driver of the
/// hardware kind.
#[allow(non_camel_case_types)]
#[derive(Debug, Clone)]
pub enum Vendor<S> {
    MOCK(MockCamera),
    SVBONY(S),
}

/// Whether `after` is a device of the same kind as `before`, and the two are
/// related by `command_effect`.
pub open spec fn vendor_command_effect<S: CameraInterface>(
    before: Vendor<S>,
    after: Vendor<S>,
    request: PayloadView,
    outcome: Result<ProgressView, DispatchError>,
) -> bool {
    match (before, after) {
        (Vendor::MOCK(b), Vendor::MOCK(a)) => command_effect(b, a, request, outcome),
        (Vendor::SVBONY(b), Vendor::SVBONY(a)) => command_effect(b, a, request, outcome),
        _ => false,
    }
}

/// Whether `after` is a device of the same kind as `before`, and the two are
/// related by `stream_effect`.
pub open spec fn vendor_stream_effect<S: CameraInterface>(
    before: Vendor<S>,
    after: Vendor<S>,
    request: PayloadView,
    step: StreamStepView,
) -> bool {
    match (before, after) {
        (Vendor::MOCK(b), Vendor::MOCK(a)) => stream_effect(b, a, request, step),
        (Vendor::SVBONY(b), Vendor::SVBONY(a)) => stream_effect(b, a, request, step),
        _ => false,
    }
}

impl<S: CameraInterface> Vendor<S> {
    /// Runs one command against the device, whatever its kind.
    pub fn cmd_process(&mut self, dict: &Payload) -> (outcome: Result<Progress, DispatchError>)
        ensures
            vendor_command_effect(*old(self), *final(self), dict@, outcome_view(outcome)),
    {
        match self {
            Vendor::MOCK(mock) => cmd_process(mock, dict),
            Vendor::SVBONY(svb) => cmd_process(svb, dict),
        }
    }

    /// Takes one step of a capture stream on the device, whatever its kind.
    pub fn capture_step(&mut self, dict: &Payload) -> (step: StreamStep)
        ensures
            vendor_stream_effect(*old(self), *final(self), dict@, step@),
    {
        match self {
            Vendor::MOCK(mock) => capture_step(mock, dict),
            Vendor::SVBONY(svb) => capture_step(svb, dict),
        }
    }

    /// Closes the device.
    pub fn close(&self) {
        match self {
            Vendor::MOCK(mock) => mock.close(),
            Vendor::SVBONY(svb) => svb.close(),
        }
    }
}

/// Whether `devices` lists `num_mock` simulated devices and after them
/// `num_svb` hardware devices, each opened with its number within its kind.
pub open spec fn lists_devices<S: CameraInterface>(
    devices: Seq<Vendor<S>>,
    num_mock: usize,
    num_svb: usize,
) -> bool {
    &&& devices.len() == num_mock + num_svb
    &&& forall|i: int|
        0 <= i < num_mock ==> (#[trigger] devices[i] matches Vendor::MOCK(mock)
            && mock.opened_at(i as usize))
    &&& forall|i: int|
        num_mock <= i < devices.len() ==> (#[trigger] devices[i] matches Vendor::SVBONY(svb)
            && svb.opened_at((i - num_mock) as usize))
}

/// Opens `num_mock` simulated devices and `num_svb` hardware devices and
/// lists them in this order. The place of a device in the list is the index
/// under which clients address it.
pub fn open_devices<S: CameraInterface>(num_mock: usize, num_svb: usize) -> (devices: Vec<
    Vendor<S>,
>)
    ensures
        lists_devices(devices@, num_mock, num_svb),
{
    let mut devices: Vec<Vendor<S>> = Vec::new();
    let mut i: usize = 0;
    while i < num_mock
        invariant
            i <= num_mock,
            lists_devices(devices@, i, 0),
        decreases num_mock - i,
    {
        devices.push(Vendor::MOCK(MockCamera::new(i)));
        i = i + 1;
    }
    let mut k: usize = 0;
    while k < num_svb
        invariant
            k <= num_svb,
            lists_devices(devices@, num_mock, k),
        decreases num_svb - k,
    {
        devices.push(Vendor::SVBONY(S::new(k)));
        k = k + 1;
    }
    devices
}

/// Enumerates the devices of both kinds and opens them all.
pub fn get_devices<S: CameraInterface>() -> (devices: Vec<Vendor<S>>)
    ensures
        exists|num_mock: usize, num_svb: usize|
            MockCamera::counts(num_mock) && S::counts(num_svb) && #[trigger] lists_devices(
                devices@,
                num_mock,
                num_svb,
            ),
{
    let num_mock: usize = MockCamera::num_devices();
    let num_svb: usize = S::num_devices();
    open_devices(num_mock, num_svb)
}

} // verus!
