//! Finding Furuno radars on the network.

use vstd::prelude::*;
use vstd::slice::*;
use vstd::string::*;

use super::protocol::{
    FurunoRadarModelReport, FurunoRadarReport, BASE_PORT, BEACON_REPORT_HEADER,
    BEACON_REPORT_LENGTH_MIN, LOGIN_EXPECTED_HEADER, MODEL_REPORT_LENGTH,
};
use crate::bytes;
use crate::bytes::{copy_range, get_be16, same_bytes};
use crate::text;
use crate::text::{c_string, has_text, starts_with, trim};

verus! {

/// A radar that a model report announces.
pub struct FoundRadar {
    pub model_name: String,
    pub serial_no: Option<String>,
    /// Whether the radar has a second range.
    pub dual_range: bool,
    /// User name of range A.
    pub user_name: String,
    /// User name of range B, where there is one.
    pub user_name_b: Option<String>,
}

/// What a found radar is.
pub ghost struct FoundView {
    pub model_name: Seq<char>,
    pub serial_no: Option<Seq<char>>,
    pub dual_range: bool,
    pub user_name: Seq<char>,
    pub user_name_b: Option<Seq<char>>,
}

impl View for FoundRadar {
    type V = FoundView;

    open spec fn view(&self) -> FoundView {
        FoundView {
            model_name: self.model_name@,
            serial_no: text::optional(self.serial_no),
            dual_range: self.dual_range,
            user_name: self.user_name@,
            user_name_b: text::optional(self.user_name_b),
        }
    }
}

/// What a packet on the beacon port tells.
pub enum LocatorOutcome {
    /// Nothing of interest.
    Nothing,
    /// A beacon whose length field does not fit.
    LengthMismatch,
    /// A beacon of a radar; its name, where it has one. The model report is
    /// still to come.
    Beacon(Option<String>),
    /// A model report of a radar.
    Found(FoundRadar),
}

/// Whether a packet is the beacon of a radar.
pub open spec fn is_beacon(report: Seq<u8>) -> bool {
    &&& report.len() >= BEACON_REPORT_LENGTH_MIN
    &&& report[16] == 0x52
    &&& report.take(11) == BEACON_REPORT_HEADER@
}

/// Whether a packet is a model report.
pub open spec fn is_model_report(report: Seq<u8>) -> bool {
    !is_beacon(report) && report.len() == MODEL_REPORT_LENGTH
}

/// The model name in a model report.
pub open spec fn report_model(report: Seq<u8>) -> Option<Seq<char>> {
    text::c_text(report.subrange(24, 56))
}

/// The serial number in a model report.
pub open spec fn report_serial(report: Seq<u8>) -> Option<Seq<char>> {
    text::c_text(report.subrange(120, 152))
}

/// The model and the serial number, with `suffix`.
pub open spec fn default_name(model: Seq<char>, serial: Option<Seq<char>>, suffix: Seq<char>) -> Seq<
    char,
> {
    text::trimmed(
        model + seq![' '] + (match serial {
            Some(s) => s,
            None => Seq::empty(),
        }) + suffix,
    )
}

/// Whether a model name is that of a radar.
pub open spec fn is_radar_model(model: Seq<char>) -> bool {
    text::begins_with(model, "DRS"@) || text::begins_with(model, "FAR"@)
}

/// The radar that a model report announces.
pub open spec fn found_radar(report: Seq<u8>) -> Option<FoundView> {
    match report_model(report) {
        Some(model) => if is_radar_model(model) {
            let serial = report_serial(report);
            let dual_range = text::contains_text(model, "NXT"@);
            Some(
                FoundView {
                    model_name: model,
                    serial_no: serial,
                    dual_range,
                    user_name: default_name(model, serial, Seq::empty()),
                    user_name_b: if dual_range {
                        Some(default_name(model, serial, " B"@))
                    } else {
                        None
                    },
                },
            )
        } else {
            None
        },
        None => None,
    }
}

impl FurunoRadarReport {
    /// Read a beacon report.
    pub fn parse(report: &[u8]) -> (r: FurunoRadarReport)
        requires
            report@.len() >= BEACON_REPORT_LENGTH_MIN,
        ensures
            r.length == report@[11],
            r.name@ == report@.subrange(16, 24),
    {
        FurunoRadarReport { length: report[11], name: copy_range(report, 16, 24) }
    }
}

impl FurunoRadarModelReport {
    /// Read a model report.
    pub fn parse(report: &[u8]) -> (r: FurunoRadarModelReport)
        requires
            report@.len() == MODEL_REPORT_LENGTH,
        ensures
            r.model@ == report@.subrange(24, 56),
            r.serial_no@ == report@.subrange(120, 152),
    {
        FurunoRadarModelReport {
            model: copy_range(report, 24, 56),
            serial_no: copy_range(report, 120, 152),
        }
    }
}

fn user_name(model: &str, serial: &Option<String>, suffix: &str) -> (r: String)
    ensures
        r@ == default_name(model@, text::optional(*serial), suffix@),
{
    let mut name = String::from_str(model);
    name.push(' ');
    match serial {
        Some(s) => {
            name.append(s.as_str());
        },
        None => {},
    }
    name.append(suffix);
    proof {
        let whole = model@ + seq![' '] + (match text::optional(*serial) {
            Some(s) => s,
            None => Seq::<char>::empty(),
        }) + suffix@;
        assert(name@ =~= whole);
    }
    trim(name.as_str())
}

fn process_beacon_model_report(report: &[u8]) -> (r: Option<FoundRadar>)
    requires
        report@.len() == MODEL_REPORT_LENGTH,
    ensures
        r is Some <==> found_radar(report@) is Some,
        r matches Some(f) ==> found_radar(report@) == Some(f@),
{
    let data = FurunoRadarModelReport::parse(report);
    let model = match c_string(data.model.as_slice()) {
        Some(m) => m,
        None => {
            return None;
        },
    };
    if !(starts_with(model, "DRS") || starts_with(model, "FAR")) {
        return None;
    }
    let serial_no: Option<String> = match c_string(data.serial_no.as_slice()) {
        Some(s) => Some(String::from_str(s)),
        None => None,
    };
    let dual_range = has_text(model, "NXT");
    let name = user_name(model, &serial_no, "");
    let user_name_b: Option<String> = if dual_range {
        Some(user_name(model, &serial_no, " B"))
    } else {
        None
    };
    proof {
        reveal_strlit("");
        assert(""@ =~= Seq::<char>::empty());
    }
    Some(
        FoundRadar {
            model_name: String::from_str(model),
            serial_no,
            dual_range,
            user_name: name,
            user_name_b,
        },
    )
}

/// Read a packet from the beacon port.
pub fn process_locator_report(report: &[u8]) -> (r: LocatorOutcome)
    ensures
        match r {
            LocatorOutcome::LengthMismatch => is_beacon(report@) && report@[11] + 8
                != report@.len(),
            LocatorOutcome::Beacon(name) => is_beacon(report@) && report@[11] + 8 == report@.len()
                && text::optional(name) == text::c_text(report@.subrange(16, 24)),
            LocatorOutcome::Found(f) => is_model_report(report@) && found_radar(report@) == Some(
                f@,
            ),
            LocatorOutcome::Nothing => !is_beacon(report@) && (is_model_report(report@)
                ==> found_radar(report@) is None),
        },
{
    if report.len() >= BEACON_REPORT_LENGTH_MIN && report[16] == 0x52 && same_bytes(
        slice_subrange(report, 0, 11),
        &BEACON_REPORT_HEADER,
    ) {
        assert(report@.take(11) =~= report@.subrange(0, 11));
        let data = FurunoRadarReport::parse(report);
        if data.length as usize + 8 != report.len() {
            return LocatorOutcome::LengthMismatch;
        }
        return match c_string(data.name.as_slice()) {
            Some(n) => LocatorOutcome::Beacon(Some(String::from_str(n))),
            None => LocatorOutcome::Beacon(None),
        };
    }
    assert(!is_beacon(report@)) by {
        assert(report@.len() >= 11 ==> report@.take(11) =~= report@.subrange(0, 11));
    }
    if report.len() == MODEL_REPORT_LENGTH {
        match process_beacon_model_report(report) {
            Some(f) => LocatorOutcome::Found(f),
            None => LocatorOutcome::Nothing,
        }
    } else {
        LocatorOutcome::Nothing
    }
}

/// The command port that a login reply grants: `header` is its first 8 bytes,
/// `offset` the 4 that follow. `None` when the reply is not a login reply.
pub fn login_port(header: &[u8], offset: &[u8]) -> (r: Option<u16>)
    requires
        offset@.len() == 4,
        header@ == LOGIN_EXPECTED_HEADER@ ==> BASE_PORT + bytes::be16(offset@, 0) <= u16::MAX,
    ensures
        r == if header@ == LOGIN_EXPECTED_HEADER@ {
            Some((BASE_PORT + bytes::be16(offset@, 0)) as u16)
        } else {
            None
        },
{
    if !same_bytes(header, &LOGIN_EXPECTED_HEADER) {
        return None;
    }
    Some(BASE_PORT + get_be16(offset, 0))
}

/// A model report whose model name contains `NXT` announces two ranges, and
/// their user names differ only in the mark of the second.
pub proof fn law_dual_range_names(report: Seq<u8>)
    requires
        found_radar(report) is Some,
    ensures
        (found_radar(report)->0).dual_range <==> (found_radar(report)->0).user_name_b is Some,
        (found_radar(report)->0).dual_range <==> text::contains_text(
            (found_radar(report)->0).model_name,
            "NXT"@,
        ),
{
}

/// A model report reads back: the model and the serial number that were put into it, each
/// with a zero behind it; the radar is called by both.
pub proof fn law_model_report_reads_back(
    report: Seq<u8>,
    model: Seq<char>,
    serial: Seq<char>,
    rest: Seq<u8>,
    tail: Seq<u8>,
)
    requires
        report.len() == MODEL_REPORT_LENGTH,
        forall|i: int|
            0 <= i < vstd::utf8::encode_utf8(model).len() ==> vstd::utf8::encode_utf8(model)[i] != 0,
        forall|i: int|
            0 <= i < vstd::utf8::encode_utf8(serial).len() ==> vstd::utf8::encode_utf8(serial)[i]
                != 0,
        report.subrange(24, 56) == vstd::utf8::encode_utf8(model) + rest,
        rest.len() > 0 ==> rest[0] == 0,
        report.subrange(120, 152) == vstd::utf8::encode_utf8(serial) + tail,
        tail.len() > 0 ==> tail[0] == 0,
        model.len() >= 3,
        model[0] == 'D' && model[1] == 'R' && model[2] == 'S' || model[0] == 'F' && model[1] == 'A'
            && model[2] == 'R',
    ensures
        found_radar(report) matches Some(f) && {
            &&& f.model_name == model
            &&& f.serial_no == Some(serial)
            &&& f.user_name == text::trimmed(model + seq![' '] + serial)
            &&& f.dual_range <==> text::contains_text(model, "NXT"@)
            &&& f.user_name_b matches Some(b) ==> b == text::trimmed(
                model + seq![' '] + serial + " B"@,
            )
        },
{
    text::law_field_reads_back(model, rest);
    text::law_field_reads_back(serial, tail);
    reveal_strlit("DRS");
    reveal_strlit("FAR");
    let head = model.subrange(0, 3);
    if model[0] == 'D' {
        assert(head =~= "DRS"@);
    } else {
        assert(head =~= "FAR"@);
    }
    assert(model + seq![' '] + serial + Seq::<char>::empty() =~= model + seq![' '] + serial);
}

/// A device of another kind is no radar.
pub proof fn law_other_devices_are_not_found(report: Seq<u8>, model: Seq<char>)
    requires
        report_model(report) == Some(model),
        model.len() == 0 || model[0] != 'D' && model[0] != 'F',
    ensures
        found_radar(report) is None,
{
    reveal_strlit("DRS");
    reveal_strlit("FAR");
    if model.len() >= 3 {
        assert(model.subrange(0, 3)[0] == model[0]);
    }
}

} // verus!
