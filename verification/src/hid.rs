//! The HID layer: listing endpoints, choosing the interface that answers
//! feature reports, and one feature-report exchange.
//!
//! On the wire a report is 65 bytes long: a report id, which is 0 for a
//! device that numbers no reports, followed by the 64-byte packet. The id is
//! put in front of every report sent and taken off every report received.

use crate::error::{AkkoError, TransportStep};
use crate::protocol::{zero_packet, PACKET_SIZE};
use hidapi::{DeviceInfo, HidApi, HidDevice, HidError};
use vstd::prelude::*;

verus! {

/// Length of a report on the wire: the report id and the packet.
pub const BUFFER_SIZE: usize = 65;

/// The report id of a device that numbers no reports.
pub const REPORT_ID: u8 = 0;

/// `hidapi::HidApi`, the context that holds the list of attached devices.
#[verifier::external_type_specification]
#[verifier::external_body]
pub struct ExHidApi(hidapi::HidApi);

/// `hidapi::HidDevice`, an open handle to one interface.
#[verifier::external_type_specification]
#[verifier::external_body]
pub struct ExHidDevice(hidapi::HidDevice);

/// `hidapi::DeviceInfo`, the description of one listed interface.
#[verifier::external_type_specification]
#[verifier::external_body]
pub struct ExDeviceInfo(hidapi::DeviceInfo);

/// `hidapi::HidError`, the error of every hidapi call.
#[verifier::external_type_specification]
#[verifier::external_body]
pub struct ExHidError(hidapi::HidError);

/// `HidApi::new` starts the host's HID layer and lists the attached devices.
/// Whether it succeeds depends on the host: nothing is claimed of the result.
pub assume_specification[ hidapi::HidApi::new ]() -> (api: Result<HidApi, HidError>)
;

/// `HidDevice::send_feature_report` writes `data`, report id first, as one
/// feature report. Whether it succeeds depends on the device: nothing is
/// claimed of the result.
pub assume_specification[ hidapi::HidDevice::send_feature_report ](
    device: &HidDevice,
    data: &[u8],
) -> (sent: Result<(), HidError>)
;

/// `HidDevice::get_feature_report` reads one feature report into `buf` and
/// returns how many bytes the transport reported. What arrives depends on the
/// device: all that is claimed is that the buffer keeps its length.
pub assume_specification[ hidapi::HidDevice::get_feature_report ](
    device: &HidDevice,
    buf: &mut [u8],
) -> (read: Result<usize, HidError>)
    ensures
        final(buf)@.len() == old(buf)@.len(),
;

/// The report that carries `packet` on the wire: the report id, then the
/// packet.
pub open spec fn framed(packet: Seq<u8>) -> Seq<u8> {
    seq![REPORT_ID] + packet
}

/// The packet that a received report holds: the sixty-four bytes after the
/// report id, or sixty-four zeros where the transport reported fewer than two
/// bytes.
pub open spec fn unframed(report: Seq<u8>, bytes_read: usize) -> Seq<u8> {
    if bytes_read > 1 {
        report.subrange(1, BUFFER_SIZE as int)
    } else {
        zero_packet()
    }
}

/// Puts the report id in front of a packet.
pub fn frame_report(packet: &[u8; PACKET_SIZE]) -> (report: [u8; BUFFER_SIZE])
    ensures
        report@ == framed(packet@),
{
    let mut report = [0u8; BUFFER_SIZE];
    report[0] = REPORT_ID;
    let mut i: usize = 0;
    while i < PACKET_SIZE
        invariant
            i <= PACKET_SIZE,
            report@.len() == BUFFER_SIZE,
            report@[0] == REPORT_ID,
            forall|j: int| 0 <= j < i ==> report@[j + 1] == packet@[j],
        decreases PACKET_SIZE - i,
    {
        report[i + 1] = packet[i];
        i += 1;
    }
    assert(report@ =~= framed(packet@));
    report
}

/// Takes the report id off a received report. A read of fewer than two bytes
/// counts as an all-zero packet.
pub fn unframe_report(report: &[u8; BUFFER_SIZE], bytes_read: usize) -> (packet: Vec<u8>)
    ensures
        packet@ == unframed(report@, bytes_read),
        packet@.len() == PACKET_SIZE,
{
    let mut packet: Vec<u8> = Vec::new();
    let mut i: usize = 0;
    while i < PACKET_SIZE
        invariant
            i <= PACKET_SIZE,
            packet@.len() == i,
            forall|j: int|
                0 <= j < i ==> packet@[j] == if bytes_read > 1 {
                    report@[j + 1]
                } else {
                    0u8
                },
        decreases PACKET_SIZE - i,
    {
        let byte: u8 = if bytes_read > 1 {
            report[i + 1]
        } else {
            0
        };
        packet.push(byte);
        i += 1;
    }
    assert(packet@ =~= unframed(report@, bytes_read));
    packet
}

/// Whether the path that hidapi lists for a device is valid UTF-8.
pub uninterp spec fn path_is_text(info: DeviceInfo) -> bool;

/// `DeviceInfo::path`, read as text: tells whether the listed path is valid
/// UTF-8, which is what `DeviceInfo::open_device` expects of it.
#[verifier::external_body]
fn has_text_path(info: &DeviceInfo) -> (is_text: bool)
    ensures
        is_text == path_is_text(*info),
{
    info.path().to_str().is_ok()
}

/// `DeviceInfo::open_device` opens the listed interface by its path. The
/// native Linux backend stops the process on a path that is not UTF-8, so
/// such a path is left out. Whether the system grants the open depends on the
/// host: nothing is claimed of the result.
pub assume_specification[ hidapi::DeviceInfo::open_device ](
    info: &DeviceInfo,
    hidapi: &HidApi,
) -> (device: Result<HidDevice, HidError>)
    requires
        path_is_text(*info),
;

/// One HID interface as the host lists it: the identifiers that the
/// selection reads, and hidapi's own description, which opens it.
pub struct HidEndpoint {
    pub vendor_id: u16,
    pub product_id: u16,
    pub info: DeviceInfo,
}

impl HidEndpoint {
    /// The vendor and product id of the interface.
    pub open spec fn id(self) -> (u16, u16) {
        (self.vendor_id, self.product_id)
    }
}

/// `HidApi::device_list` hands out the interfaces that the context has
/// listed, in list order; each comes with its `vendor_id()` and
/// `product_id()`. Which interfaces there are depends on the host: nothing is
/// claimed of the result.
#[verifier::external_body]
pub(crate) fn list_endpoints(api: &HidApi) -> (endpoints: Vec<HidEndpoint>) {
    api.device_list().map(
        |d| HidEndpoint { vendor_id: d.vendor_id(), product_id: d.product_id(), info: d.clone() },
    ).collect()
}

/// The vendor and product ids of a list of interfaces, in list order.
pub fn endpoint_ids(endpoints: &Vec<HidEndpoint>) -> (ids: Vec<(u16, u16)>)
    ensures
        ids@ == endpoints@.map_values(|e: HidEndpoint| e.id()),
{
    let mut ids: Vec<(u16, u16)> = Vec::new();
    let mut i: usize = 0;
    while i < endpoints.len()
        invariant
            i <= endpoints.len(),
            ids@.len() == i,
            forall|j: int| 0 <= j < i ==> ids@[j] == endpoints@[j].id(),
        decreases endpoints.len() - i,
    {
        ids.push((endpoints[i].vendor_id, endpoints[i].product_id));
        i += 1;
    }
    assert(ids@ =~= endpoints@.map_values(|e: HidEndpoint| e.id()));
    ids
}

/// The positions in `ids`, in ascending order, of the interfaces that have
/// the given vendor and product id.
pub open spec fn matching_positions(ids: Seq<(u16, u16)>, vid: u16, pid: u16) -> Seq<usize>
    decreases ids.len(),
{
    if ids.len() == 0 {
        Seq::empty()
    } else {
        let before = matching_positions(ids.drop_last(), vid, pid);
        if ids.last() == (vid, pid) {
            before.push((ids.len() - 1) as usize)
        } else {
            before
        }
    }
}

/// Every matching position lies within the list and holds a matching
/// interface; the positions ascend; and every matching interface is among
/// them.
pub proof fn lemma_matching_positions(ids: Seq<(u16, u16)>, vid: u16, pid: u16)
    requires
        ids.len() <= usize::MAX,
    ensures
        matching_positions(ids, vid, pid).len() <= ids.len(),
        forall|k: int|
            0 <= k < matching_positions(ids, vid, pid).len() ==> {
                &&& (#[trigger] matching_positions(ids, vid, pid)[k]) < ids.len()
                &&& ids[matching_positions(ids, vid, pid)[k] as int] == (vid, pid)
            },
        forall|k: int, l: int|
            0 <= k < l < matching_positions(ids, vid, pid).len() ==> matching_positions(
                ids,
                vid,
                pid,
            )[k] < matching_positions(ids, vid, pid)[l],
        forall|i: int|
            0 <= i < ids.len() && ids[i] == (vid, pid) ==> matching_positions(
                ids,
                vid,
                pid,
            ).contains(i as usize),
    decreases ids.len(),
{
    if ids.len() > 0 {
        let shorter = ids.drop_last();
        let before = matching_positions(shorter, vid, pid);
        let all = matching_positions(ids, vid, pid);
        lemma_matching_positions(shorter, vid, pid);
        assert forall|i: int| 0 <= i < ids.len() && ids[i] == (vid, pid) implies all.contains(
            i as usize,
        ) by {
            if i < ids.len() - 1 {
                assert(shorter[i] == ids[i]);
                let k = choose|k: int| 0 <= k < before.len() && before[k] == i as usize;
                assert(all[k] == i as usize);
            } else {
                assert(all[all.len() - 1] == i as usize);
            }
        }
        assert forall|k: int| 0 <= k < all.len() implies (#[trigger] all[k]) < ids.len()
            && ids[all[k] as int] == (vid, pid) by {
            if k < before.len() {
                assert(all[k] == before[k]);
                assert(shorter[before[k] as int] == ids[before[k] as int]);
            }
        }
    }
}

/// Finds the interfaces with the given vendor and product id.
pub fn find_matching(ids: &Vec<(u16, u16)>, vid: u16, pid: u16) -> (positions: Vec<usize>)
    ensures
        positions@ == matching_positions(ids@, vid, pid),
{
    let mut positions: Vec<usize> = Vec::new();
    let mut i: usize = 0;
    while i < ids.len()
        invariant
            i <= ids.len(),
            positions@ == matching_positions(ids@.take(i as int), vid, pid),
        decreases ids.len() - i,
    {
        assert(ids@.take(i + 1).drop_last() =~= ids@.take(i as int));
        if ids[i].0 == vid && ids[i].1 == pid {
            positions.push(i);
        }
        i += 1;
    }
    assert(ids@.take(ids.len() as int) =~= ids@);
    positions
}

/// The candidates for the keyboard with the given ids: the positions of the
/// matching interfaces in list order, or `DeviceNotFound` where no interface
/// matches. The decision reads the listed identifiers alone.
pub fn candidates_for(ids: &Vec<(u16, u16)>, vid: u16, pid: u16) -> (candidates: Result<
    Vec<usize>,
    AkkoError,
>)
    ensures
        matching_positions(ids@, vid, pid).len() == 0 ==> candidates == Err::<
            Vec<usize>,
            AkkoError,
        >(AkkoError::DeviceNotFound { vendor_id: vid, product_id: pid }),
        matching_positions(ids@, vid, pid).len() > 0 ==> (candidates matches Ok(positions)
            && positions@ == matching_positions(ids@, vid, pid)),
{
    let positions = find_matching(ids, vid, pid);
    if positions.len() == 0 {
        Err(AkkoError::DeviceNotFound { vendor_id: vid, product_id: pid })
    } else {
        Ok(positions)
    }
}

/// What trying one candidate interface showed.
#[derive(Debug, Clone, Copy, PartialEq, Eq, Structural)]
pub enum InterfaceProbe {
    /// The system would not open the interface.
    Unopened,
    /// The interface opened, but reading a feature report from it failed.
    Silent,
    /// The interface opened and answered a feature-report read.
    Answers,
}

/// An open keyboard: the handle of the selected interface, and how the
/// selection went.
pub struct AkkoHidDevice {
    device: HidDevice,
    interface_index: usize,
    verified: bool,
    probes: Vec<InterfaceProbe>,
}

impl InterfaceProbe {
    /// What the feature-report read on an opened interface shows: the
    /// interface answers where the read succeeded, whatever it read, and is
    /// silent where the read failed.
    pub open spec fn of_read(read: Result<usize, HidError>) -> InterfaceProbe {
        match read {
            Ok(_) => InterfaceProbe::Answers,
            Err(_) => InterfaceProbe::Silent,
        }
    }

    /// Classifies the end of the feature-report read on an opened interface.
    pub fn from_read(read: &Result<usize, HidError>) -> (probe: Self)
        ensures
            probe == Self::of_read(*read),
    {
        match read {
            Ok(_) => InterfaceProbe::Answers,
            Err(_) => InterfaceProbe::Silent,
        }
    }
}

/// What opening an interface ended in, as this library reports it: the
/// handle as it is, or `InterfaceOpenFailure` with the text of hidapi's
/// error as its cause.
pub fn opened_or_failure(opened: Result<HidDevice, HidError>) -> (reported: Result<
    HidDevice,
    AkkoError,
>)
    ensures
        match opened {
            Ok(device) => reported == Ok::<HidDevice, AkkoError>(device),
            Err(e) => reported matches Err(AkkoError::InterfaceOpenFailure(cause))
                && vstd::string::to_string_from_display_ensures::<HidError>(&e, cause),
        },
{
    match opened {
        Ok(device) => Ok(device),
        Err(e) => Err(AkkoError::InterfaceOpenFailure(e.to_string())),
    }
}

/// Tries one candidate: opens it and reads a feature report into a zeroed
/// 65-byte buffer. The handle is kept only where the read succeeds.
///
/// An interface whose listed path is not UTF-8 is not opened and counts as
/// `Unopened`. For every other interface the host decides: `Unopened` where
/// the open fails, else what `InterfaceProbe::of_read` makes of the read.
fn probe_interface(api: &HidApi, endpoint: &HidEndpoint) -> (tried: (
    InterfaceProbe,
    Option<HidDevice>,
))
    ensures
        tried.0 is Answers <==> tried.1 is Some,
        !path_is_text(endpoint.info) ==> tried.0 is Unopened,
{
    if !has_text_path(&endpoint.info) {
        return (InterfaceProbe::Unopened, None);
    }
    match endpoint.info.open_device(api) {
        Ok(device) => {
            let mut test_buf = [0u8; BUFFER_SIZE];
            test_buf[0] = REPORT_ID;
            let read = device.get_feature_report(&mut test_buf);
            let probe = InterfaceProbe::from_read(&read);
            match probe {
                InterfaceProbe::Answers => (probe, Some(device)),
                _ => (probe, None),
            }
        },
        Err(_) => (InterfaceProbe::Unopened, None),
    }
}

/// Opens an interface without asking it for a feature report.
///
/// An interface whose listed path is not UTF-8 is not opened: the result is
/// `InterfaceOpenFailure` with that as its cause. For every other interface
/// the host decides, and the result is what `opened_or_failure` makes of the
/// open.
fn open_unverified(api: &HidApi, endpoint: &HidEndpoint) -> (opened: Result<HidDevice, AkkoError>)
    ensures
        opened matches Err(e) ==> e is InterfaceOpenFailure,
        !path_is_text(endpoint.info) ==> (opened matches Err(
            AkkoError::InterfaceOpenFailure(cause),
        ) && cause@ == "device path is not valid UTF-8"@),
{
    if !has_text_path(&endpoint.info) {
        return Err(
            AkkoError::InterfaceOpenFailure(String::from_str("device path is not valid UTF-8")),
        );
    }
    opened_or_failure(endpoint.info.open_device(api))
}

impl AkkoHidDevice {
    /// The outcomes of the tries that the selection made, in order: one for
    /// each candidate tried.
    pub closed spec fn tries(&self) -> Seq<InterfaceProbe> {
        self.probes@
    }

    /// The position, among the candidates, of the interface that was opened.
    pub closed spec fn selected(&self) -> int {
        self.interface_index as int
    }

    /// Whether the opened interface answered a feature-report read.
    pub closed spec fn answered(&self) -> bool {
        self.verified
    }

    /// The selection rule. Candidates are tried in order until one answers a
    /// feature-report read; that one is selected. Where none answers, the
    /// first candidate is opened without the read.
    pub open spec fn well_selected(&self) -> bool {
        &&& self.tries().len() >= 1
        &&& forall|k: int| 0 <= k < self.tries().len() - 1 ==> !(self.tries()[k] is Answers)
        &&& self.answered() <==> self.tries().last() is Answers
        &&& self.answered() ==> self.selected() == self.tries().len() - 1
        &&& !self.answered() ==> self.selected() == 0
    }

    /// The position, among the interfaces that matched, of the one opened.
    pub fn interface_index(&self) -> (index: usize)
        ensures
            index == self.selected(),
    {
        self.interface_index
    }

    /// Whether the opened interface answered a feature-report read when it
    /// was selected. `false` means that no candidate did and the first one
    /// was opened as it was.
    pub fn supports_feature_reports(&self) -> (answered: bool)
        ensures
            answered == self.answered(),
    {
        self.verified
    }

    /// The outcome of each try, in the order of the tries.
    pub fn probes(&self) -> (probes: &Vec<InterfaceProbe>)
        ensures
            probes@ == self.tries(),
    {
        &self.probes
    }

    /// Chooses and opens, among `endpoints`, the interface of the keyboard
    /// with the given ids.
    ///
    /// With no matching interface the result is `DeviceNotFound`, and no
    /// interface is touched. Otherwise the matching interfaces are tried in
    /// list order, and the first that answers a feature-report read is
    /// returned. Where none answers, the first matching interface is opened
    /// without the read, and only if that fails the result is
    /// `InterfaceOpenFailure`.
    pub fn find_feature_report_interface(
        api: &HidApi,
        endpoints: &Vec<HidEndpoint>,
        vid: u16,
        pid: u16,
    ) -> (found: Result<Self, AkkoError>)
        ensures
            matching_positions(endpoints@.map_values(|e: HidEndpoint| e.id()), vid, pid).len() == 0
                <==> found matches Err(AkkoError::DeviceNotFound { .. }),
            found matches Err(e) ==> e == (AkkoError::DeviceNotFound {
                vendor_id: vid,
                product_id: pid,
            }) || e is InterfaceOpenFailure,
            found matches Ok(device) ==> {
                let candidates = matching_positions(
                    endpoints@.map_values(|e: HidEndpoint| e.id()),
                    vid,
                    pid,
                ).len();
                &&& device.well_selected()
                &&& device.tries().len() <= candidates
                &&& !device.answered() ==> device.tries().len() == candidates
            },
    {
        let ids = endpoint_ids(endpoints);
        proof {
            assert(ids@.len() == ids.len());
            lemma_matching_positions(ids@, vid, pid);
        }
        let candidates = match candidates_for(&ids, vid, pid) {
            Ok(candidates) => candidates,
            Err(e) => {
                return Err(e);
            },
        };
        let mut probes: Vec<InterfaceProbe> = Vec::new();
        let mut k: usize = 0;
        while k < candidates.len()
            invariant
                k <= candidates.len(),
                candidates@.len() > 0,
                candidates@ == matching_positions(
                    endpoints@.map_values(|e: HidEndpoint| e.id()),
                    vid,
                    pid,
                ),
                probes@.len() == k,
                forall|j: int| 0 <= j < k ==> !(probes@[j] is Answers),
                forall|j: int|
                    0 <= j < candidates@.len() ==> (#[trigger] candidates@[j]) < endpoints@.len(),
            decreases candidates.len() - k,
        {
            let (probe, opened) = probe_interface(api, &endpoints[candidates[k]]);
            probes.push(probe);
            match opened {
                Some(device) => {
                    return Ok(Self { device, interface_index: k, verified: true, probes });
                },
                None => {},
            }
            k += 1;
        }
        match open_unverified(api, &endpoints[candidates[0]]) {
            Ok(device) => Ok(Self { device, interface_index: 0, verified: false, probes }),
            Err(e) => Err(e),
        }
    }

    /// Opens the keyboard with the given vendor and product id on the
    /// interface that answers feature reports.
    ///
    /// What is attached is the host's matter, so the contract says what holds
    /// of every outcome: the selection rule for a device that was opened,
    /// and the possible errors.
    pub fn open(vid: u16, pid: u16) -> (opened: Result<Self, AkkoError>)
        ensures
            opened matches Ok(device) ==> device.well_selected(),
            opened matches Err(e) ==> e is HidInitFailure || e == (AkkoError::DeviceNotFound {
                vendor_id: vid,
                product_id: pid,
            }) || e is InterfaceOpenFailure,
    {
        let api = match HidApi::new() {
            Ok(api) => api,
            Err(e) => {
                return Err(AkkoError::HidInitFailure(e.to_string()));
            },
        };
        let endpoints = list_endpoints(&api);
        Self::find_feature_report_interface(&api, &endpoints, vid, pid)
    }

    /// Sends a 64-byte packet as a feature report and returns the 64-byte
    /// reply.
    ///
    /// The packet goes out behind a report id of 0, as a 65-byte report; the
    /// reply is read into a 65-byte buffer and handed back without its first
    /// byte. What the device answers is its own matter: the contract fixes
    /// the reply's length and the kind of error.
    pub fn send_feature_report(&self, data: &[u8; PACKET_SIZE]) -> (reply: Result<
        Vec<u8>,
        AkkoError,
    >)
        ensures
            reply matches Ok(bytes) ==> bytes@.len() == PACKET_SIZE,
            reply matches Err(e) ==> e is TransportIoError,
    {
        let out_buf = frame_report(data);
        match self.device.send_feature_report(&out_buf) {
            Ok(()) => self.receive_feature_report(),
            Err(e) => Err(
                AkkoError::TransportIoError { step: TransportStep::Send, cause: e.to_string() },
            ),
        }
    }

    /// Reads one feature report and returns its 64-byte packet.
    fn receive_feature_report(&self) -> (reply: Result<Vec<u8>, AkkoError>)
        ensures
            reply matches Ok(bytes) ==> bytes@.len() == PACKET_SIZE,
            reply matches Err(e) ==> e matches AkkoError::TransportIoError {
                step: TransportStep::Receive,
                ..
            },
    {
        let mut in_buf = [0u8; BUFFER_SIZE];
        in_buf[0] = REPORT_ID;
        match self.device.get_feature_report(&mut in_buf) {
            Ok(bytes_read) => Ok(unframe_report(&in_buf, bytes_read)),
            Err(e) => Err(
                AkkoError::TransportIoError { step: TransportStep::Receive, cause: e.to_string() },
            ),
        }
    }
}

} // verus!
