//! State reports from a Navico radar.

use vstd::prelude::*;
use vstd::slice::*;

use super::capabilities;
use super::capabilities::NavicoCapabilities;
use super::model;
use super::model::{HaloMode, Model};
use super::protocol::{
    CATEGORY_ACK, CATEGORY_STATE, INFO_BY_OTHERS_TIMEOUT, INFO_BY_US_INTERVAL,
    INSTALLATION_ANTENNA_GEOMETRY, INSTALLATION_NAME, INSTALLATION_SECTOR_BLANKING,
    REPORT_REQUEST_INTERVAL, STATE_CONFIG, STATE_FEATURES, STATE_INSTALLATION, STATE_MODE,
    STATE_PROPERTIES, STATE_SETUP, STATE_SETUP_EXTENDED,
};
use crate::bytes;
use crate::bytes::{get_le16, get_le32, to_signed16, to_signed32};
use crate::radar::{ControlId, DopplerMode, Power, Update};
use crate::text;
use crate::text::{c_string, c_wide_string, owned, push_decimal};

verus! {

/// Why a report cannot be used.
#[derive(Clone, Copy, Debug, PartialEq, Eq, Structural)]
pub enum ReportError {
    /// No whole opcode.
    TooShort,
    /// An acknowledgement with unexpected content.
    StrangeContent,
    /// A report of another length than its kind has.
    WrongLength,
    UnknownStatus(u8),
    UnknownDoppler(u8),
}

/// What is known of a radar.
#[derive(Clone, Copy, Debug, PartialEq, Eq, Structural)]
pub struct NavicoState {
    pub model: Model,
    pub capabilities: Option<NavicoCapabilities>,
    /// Whether a HALO radar still has to tell its features.
    pub awaiting_capabilities: bool,
    /// Whether the extended setup report tells the operating mode.
    pub has_use_mode_from_ext: bool,
    pub doppler: DopplerMode,
}

/// The least and the greatest range, in meters.
#[derive(Clone, Copy, Debug, PartialEq, Eq, Structural)]
pub struct RangeLimits {
    pub min: i32,
    pub max: i32,
}

/// What is to be set up once the model is known, and of a HALO its features.
#[derive(Clone, Copy, Debug, PartialEq, Eq, Structural)]
pub struct Setup {
    pub model: Model,
    /// The features of a HALO.
    pub capabilities: Option<NavicoCapabilities>,
    /// The ranges, where they are told.
    pub limits: Option<RangeLimits>,
}

/// A control that shows a text, and the text.
pub struct TextUpdate {
    pub id: ControlId,
    pub text: String,
}

/// What a report brings.
pub struct ReportOutcome {
    /// The model, when it is new.
    pub model: Option<Model>,
    pub setup: Option<Setup>,
    pub updates: Vec<Update>,
    pub texts: Vec<TextUpdate>,
}

/// What a report brings.
pub ghost struct OutcomeView {
    pub model: Option<Model>,
    pub setup: Option<Setup>,
    pub updates: Seq<Update>,
    pub texts: Seq<(ControlId, Seq<char>)>,
}

/// What a list of texts holds.
pub open spec fn texts_view(texts: Seq<TextUpdate>) -> Seq<(ControlId, Seq<char>)> {
    Seq::new(texts.len(), |i: int| (texts[i].id, texts[i].text@))
}

impl View for ReportOutcome {
    type V = OutcomeView;

    open spec fn view(&self) -> OutcomeView {
        OutcomeView {
            model: self.model,
            setup: self.setup,
            updates: self.updates@,
            texts: texts_view(self.texts@),
        }
    }
}

/// A report that only changes controls.
pub open spec fn controls(updates: Seq<Update>) -> OutcomeView {
    OutcomeView { model: None, setup: None, updates, texts: Seq::empty() }
}

/// A report that brings nothing.
pub open spec fn nothing() -> OutcomeView {
    controls(Seq::empty())
}

/// A signed word at offset `i`.
pub open spec fn signed_at(data: Seq<u8>, i: int) -> i64 {
    bytes::signed16(bytes::le16(data, i)) as i64
}

/// A signed long word at offset `i`.
pub open spec fn long_at(data: Seq<u8>, i: int) -> i64 {
    bytes::signed32(bytes::le32(data, i)) as i64
}

/// A control with a value.
pub open spec fn value(id: ControlId, value: i64) -> Update {
    Update::Value { id, value }
}

// Power

/// The power state for a status.
pub open spec fn power(status: u8) -> Option<Power> {
    match status {
        0 => Some(Power::Off),
        1 => Some(Power::Standby),
        2 => Some(Power::Transmit),
        5 => Some(Power::Preparing),
        _ => None,
    }
}

// Operating modes

/// The control changes for a HALO mode. Some controls can only be set in custom
/// mode. An unknown mode changes nothing.
pub open spec fn halo_mode_updates(mode: int) -> Seq<Update> {
    match HaloMode::of_number(mode) {
        Some(m) => seq![value(ControlId::Mode, mode as i64)] + Seq::new(
            5,
            |i: int|
                Update::Allowed {
                    id: model::dynamic_allowed_controls()[i],
                    allowed: m == HaloMode::Custom,
                },
        ),
        None => Seq::empty(),
    }
}

// Setup

/// The control changes of a setup report.
pub open spec fn setup_updates(s: NavicoState, data: Seq<u8>) -> Seq<Update> {
    seq![value(ControlId::Range, long_at(data, 2))] + (if s.model.halo()
        && !s.has_use_mode_from_ext {
        halo_mode_updates(data[7] as int)
    } else {
        Seq::empty()
    }) + seq![
        Update::Auto { id: ControlId::Gain, value: data[12] as i64, flag: data[8] },
        if s.model.halo() {
            Update::AutoState { id: ControlId::Sea, auto: data[13] > 0 }
        } else {
            Update::Auto { id: ControlId::Sea, value: long_at(data, 17), flag: data[13] }
        },
        value(ControlId::Rain, data[22] as i64),
        value(ControlId::InterferenceRejection, data[34] as i64),
        value(ControlId::TargetExpansion, data[38] as i64),
        value(ControlId::TargetBoost, data[42] as i64),
    ]
}

// Properties and features

/// The set-up of a HALO with known features.
pub open spec fn halo_setup(m: Model, caps: NavicoCapabilities) -> Setup {
    Setup {
        model: m,
        capabilities: Some(caps),
        limits: if caps.instrumented_range_max_dm > 0 {
            Some(
                RangeLimits {
                    min: (caps.instrumented_range_min_dm / 10) as i32,
                    max: (caps.instrumented_range_max_dm / 10) as i32,
                },
            )
        } else {
            None
        },
    }
}

/// The set-up of another radar.
pub open spec fn plain_setup(m: Model, data: Seq<u8>) -> Setup {
    Setup {
        model: m,
        capabilities: None,
        limits: Some(RangeLimits { min: 50, max: (bytes::le32(data, 42) / 10) as i32 }),
    }
}

/// The firmware version in a properties report.
pub open spec fn firmware(data: Seq<u8>) -> Seq<char> {
    text::decimal(bytes::le32(data, 50) as nat) + seq!['.'] + text::decimal(
        bytes::le32(data, 54) as nat,
    ) + seq!['.'] + text::decimal(bytes::le16(data, 16) as nat) + seq![' '] + text::wide_text(
        data.subrange(58, 90),
        0,
    ) + seq![' '] + text::wide_text(data.subrange(90, 122), 0)
}

/// The model in a properties report.
pub open spec fn reported_model(data: Seq<u8>) -> Model {
    Model::of_scanner_type(bytes::le32(data, 30))
}

/// Whether a properties report tells a model that is not known yet.
pub open spec fn is_new_model(s: NavicoState, data: Seq<u8>) -> bool {
    reported_model(data) != Model::Unknown && reported_model(data) != s.model
}

/// The state after a properties report.
pub open spec fn properties_state(s: NavicoState, data: Seq<u8>) -> NavicoState {
    if !is_new_model(s, data) {
        s
    } else if reported_model(data).halo() {
        NavicoState {
            model: reported_model(data),
            awaiting_capabilities: s.capabilities is None,
            ..s
        }
    } else {
        NavicoState { model: reported_model(data), ..s }
    }
}

/// What a properties report brings.
pub open spec fn properties_outcome(s: NavicoState, data: Seq<u8>) -> OutcomeView {
    let m = reported_model(data);
    OutcomeView {
        model: if is_new_model(s, data) { Some(m) } else { None },
        setup: if !is_new_model(s, data) {
            None
        } else if m.halo() {
            match s.capabilities {
                Some(caps) => Some(halo_setup(m, caps)),
                None => None,
            }
        } else {
            Some(plain_setup(m, data))
        },
        updates: seq![value(ControlId::TransmitTime, bytes::le32(data, 34) as i64)],
        texts: seq![(ControlId::FirmwareVersion, firmware(data))],
    }
}

/// The state after a feature report.
pub open spec fn features_state(s: NavicoState, data: Seq<u8>) -> NavicoState {
    NavicoState {
        capabilities: Some(capabilities::features(data.skip(2))),
        awaiting_capabilities: false,
        ..s
    }
}

/// What a feature report brings.
pub open spec fn features_outcome(s: NavicoState, data: Seq<u8>) -> OutcomeView {
    OutcomeView {
        setup: if s.awaiting_capabilities {
            Some(halo_setup(s.model, capabilities::features(data.skip(2))))
        } else {
            None
        },
        ..nothing()
    }
}

// Configuration

/// The control of no-transmit sector `i`.
pub open spec fn sector_control(i: int) -> ControlId {
    if i == 0 {
        ControlId::NoTransmitSector1
    } else if i == 1 {
        ControlId::NoTransmitSector2
    } else if i == 2 {
        ControlId::NoTransmitSector3
    } else {
        ControlId::NoTransmitSector4
    }
}

/// Sector `i` in a run of sectors of five bytes at offset `at`.
pub open spec fn sector_at(data: Seq<u8>, at: int, i: int) -> Update {
    Update::Sector {
        id: sector_control(i),
        start: signed_at(data, at + 5 * i + 1),
        end: signed_at(data, at + 5 * i + 3),
        enabled: data[at + 5 * i] > 0,
    }
}

/// The control changes of a configuration report.
pub open spec fn config_updates(s: NavicoState, data: Seq<u8>) -> Seq<Update> {
    seq![
        value(ControlId::BearingAlignment, signed_at(data, 6)),
        value(ControlId::AntennaHeight, long_at(data, 10)),
    ] + (if s.model.halo() {
        seq![value(ControlId::AccentLight, data[19] as i64)]
    } else {
        Seq::empty()
    }) + seq![
        value(ControlId::AntennaForward, signed_at(data, 20)),
        value(ControlId::AntennaStarboard, signed_at(data, 23)),
    ] + Seq::new(4, |i: int| sector_at(data, 34, i))
}

// Installation

/// The number of sectors in a sector entry.
pub open spec fn sector_count(payload: Seq<u8>) -> int {
    let whole = (payload.len() - 1) / 5;
    let told = payload[0] as int;
    let n = if told < whole { told } else { whole };
    if n < 4 { n } else { 4 }
}

/// The control changes of an installation entry.
pub open spec fn entry_updates(tag: int, payload: Seq<u8>) -> Seq<Update> {
    if tag == INSTALLATION_ANTENNA_GEOMETRY && payload.len() >= 14 {
        seq![
            value(ControlId::AntennaForward, signed_at(payload, 6)),
            value(ControlId::AntennaStarboard, signed_at(payload, 10)),
        ]
    } else if tag == INSTALLATION_SECTOR_BLANKING && payload.len() > 0 {
        Seq::new(sector_count(payload) as nat, |i: int| sector_at(payload, 1, i))
    } else {
        Seq::empty()
    }
}

/// The text of an installation entry.
pub open spec fn entry_texts(tag: int, payload: Seq<u8>) -> Seq<(ControlId, Seq<char>)> {
    match text::c_text(payload) {
        Some(name) if tag == INSTALLATION_NAME && name.len() > 0 => seq![
            (ControlId::UserName, name),
        ],
        _ => Seq::empty(),
    }
}

/// Whether a whole installation entry stands at offset `at`.
pub open spec fn has_entry(data: Seq<u8>, at: int) -> bool {
    at + 4 <= data.len() && at + 4 + bytes::le16(data, at + 2) <= data.len()
}

/// The end of the installation entry at offset `at`.
pub open spec fn entry_end(data: Seq<u8>, at: int) -> int {
    at + 4 + bytes::le16(data, at + 2)
}

/// The control changes of the installation entries from offset `at` on. An
/// entry that is cut off ends the list.
pub open spec fn installation_updates(data: Seq<u8>, at: int) -> Seq<Update>
    decreases data.len() - at,
{
    if has_entry(data, at) {
        entry_updates(
            bytes::le16(data, at),
            data.subrange(at + 4, entry_end(data, at)),
        ) + installation_updates(data, entry_end(data, at))
    } else {
        Seq::empty()
    }
}

/// The texts of the installation entries from offset `at` on.
pub open spec fn installation_texts(data: Seq<u8>, at: int) -> Seq<(ControlId, Seq<char>)>
    decreases data.len() - at,
{
    if has_entry(data, at) {
        entry_texts(
            bytes::le16(data, at),
            data.subrange(at + 4, entry_end(data, at)),
        ) + installation_texts(data, entry_end(data, at))
    } else {
        Seq::empty()
    }
}

/// What an installation report brings.
pub open spec fn installation_outcome(data: Seq<u8>) -> OutcomeView {
    OutcomeView {
        texts: installation_texts(data, 2),
        ..controls(installation_updates(data, 2))
    }
}

// Extended setup

/// Whether an extended setup report holds the Doppler state.
pub open spec fn has_doppler(data: Seq<u8>) -> bool {
    data.len() >= 21
}

/// Whether an extended setup report holds the operating mode.
pub open spec fn has_use_mode(s: NavicoState, data: Seq<u8>) -> bool {
    data.len() >= 24 && s.model.halo()
}

/// The operating mode in an extended setup report. Bird mode with variant 1 is
/// Bird+.
pub open spec fn use_mode(data: Seq<u8>) -> int {
    if data[22] == 5 && data[23] == 1 { 6 } else { data[22] as int }
}

/// The state after an extended setup report.
pub open spec fn extended_state(s: NavicoState, data: Seq<u8>) -> NavicoState {
    NavicoState {
        doppler: match DopplerMode::of_value(data[18] as int) {
            Some(mode) if has_doppler(data) => mode,
            _ => s.doppler,
        },
        has_use_mode_from_ext: s.has_use_mode_from_ext || has_use_mode(s, data),
        ..s
    }
}

/// The Doppler controls of an extended setup report.
pub open spec fn doppler_updates(data: Seq<u8>) -> Seq<Update> {
    if has_doppler(data) {
        seq![
            value(ControlId::Doppler, data[18] as i64),
            value(ControlId::DopplerSpeedThreshold, bytes::le16(data, 19) as i64),
        ]
    } else {
        Seq::empty()
    }
}

/// The operating mode of an extended setup report.
pub open spec fn use_mode_updates(s: NavicoState, data: Seq<u8>) -> Seq<Update> {
    if has_use_mode(s, data) { halo_mode_updates(use_mode(data)) } else { Seq::empty() }
}

/// The sea clutter controls of an extended setup report.
pub open spec fn sea_updates(s: NavicoState, data: Seq<u8>) -> Seq<Update> {
    if s.model.halo() {
        seq![
            value(ControlId::SeaState, data[2] as i64),
            Update::AutoAdjust {
                id: ControlId::Sea,
                value: data[14] as i64,
                adjust: bytes::signed8(data[15] as int) as i64,
            },
        ]
    } else {
        Seq::empty()
    }
}

/// The other controls of an extended setup report.
pub open spec fn level_updates(s: NavicoState, data: Seq<u8>) -> Seq<Update> {
    let levels = seq![
        value(ControlId::LocalInterferenceRejection, data[3] as i64),
        value(ControlId::ScanSpeed, data[4] as i64),
        Update::Auto { id: ControlId::SideLobeSuppression, value: data[9] as i64, flag: data[5] },
        value(ControlId::NoiseRejection, data[12] as i64),
    ];
    if s.model.halo() || s.model == Model::Gen4 {
        levels.push(value(ControlId::TargetSeparation, data[13] as i64))
    } else {
        levels
    }
}

/// The control changes of an extended setup report.
pub open spec fn extended_updates(s: NavicoState, data: Seq<u8>) -> Seq<Update> {
    doppler_updates(data) + use_mode_updates(s, data) + sea_updates(s, data) + level_updates(
        s,
        data,
    )
}

// All reports

/// Whether the controls of the radar are set up.
pub open spec fn ready(s: NavicoState) -> bool {
    s.model != Model::Unknown && !s.awaiting_capabilities
}

/// The state and what is brought, or the error.
pub type Step = Result<(NavicoState, OutcomeView), ReportError>;

/// What a report changes and brings. Until the controls are set up, only the
/// properties and the features are looked at.
pub open spec fn report_step(s: NavicoState, data: Seq<u8>) -> Step {
    if data.len() < 2 {
        Err(ReportError::TooShort)
    } else if data[1] != CATEGORY_STATE {
        if data[1] == CATEGORY_ACK && data[0] == 0x11 && (data.len() != 3 || data[2] != 0) {
            Err(ReportError::StrangeContent)
        } else {
            Ok((s, nothing()))
        }
    } else if data[0] == STATE_PROPERTIES {
        if data.len() != 129 {
            Err(ReportError::WrongLength)
        } else {
            Ok((properties_state(s, data), properties_outcome(s, data)))
        }
    } else if data[0] == STATE_FEATURES {
        if data.len() < 4 {
            Ok((s, nothing()))
        } else {
            Ok((features_state(s, data), features_outcome(s, data)))
        }
    } else if !ready(s) {
        Ok((s, nothing()))
    } else if data[0] == STATE_MODE {
        if data.len() != 18 {
            Err(ReportError::WrongLength)
        } else {
            match power(data[2]) {
                Some(p) => Ok((s, controls(seq![Update::Power(p)]))),
                None => Err(ReportError::UnknownStatus(data[2])),
            }
        }
    } else if data[0] == STATE_SETUP {
        if data.len() != 99 {
            Err(ReportError::WrongLength)
        } else {
            Ok((s, controls(setup_updates(s, data))))
        }
    } else if data[0] == STATE_CONFIG {
        if data.len() != 66 {
            Err(ReportError::WrongLength)
        } else {
            Ok((s, controls(config_updates(s, data))))
        }
    } else if data[0] == STATE_INSTALLATION {
        if data.len() < 4 {
            Ok((s, nothing()))
        } else {
            Ok((s, installation_outcome(data)))
        }
    } else if data[0] == STATE_SETUP_EXTENDED {
        if data.len() < 18 {
            Err(ReportError::WrongLength)
        } else if has_doppler(data) && DopplerMode::of_value(data[18] as int) is None {
            Err(ReportError::UnknownDoppler(data[18]))
        } else {
            Ok((extended_state(s, data), controls(extended_updates(s, data))))
        }
    } else {
        Ok((s, nothing()))
    }
}

fn outcome_of(updates: Vec<Update>) -> (r: ReportOutcome)
    ensures
        r@ == controls(updates@),
{
    let r = ReportOutcome { model: None, setup: None, updates, texts: Vec::new() };
    assert(r@.texts =~= Seq::<(ControlId, Seq<char>)>::empty());
    r
}

fn no_outcome() -> (r: ReportOutcome)
    ensures
        r@ == nothing(),
{
    outcome_of(Vec::new())
}

fn push_value(out: &mut Vec<Update>, id: ControlId, v: i64)
    ensures
        final(out)@ == old(out)@.push(value(id, v)),
{
    out.push(Update::Value { id, value: v });
}

fn get_signed(data: &[u8], i: usize) -> (r: i64)
    requires
        i + 2 <= data@.len(),
    ensures
        r == signed_at(data@, i as int),
{
    to_signed16(get_le16(data, i)) as i64
}

fn get_long(data: &[u8], i: usize) -> (r: i64)
    requires
        i + 4 <= data@.len(),
    ensures
        r == long_at(data@, i as int),
{
    to_signed32(get_le32(data, i)) as i64
}

fn set_halo_mode(out: &mut Vec<Update>, mode: u8)
    ensures
        final(out)@ == old(out)@ + halo_mode_updates(mode as int),
{
    match HaloMode::from_u8(mode) {
        Some(m) => {
            let allowed = m == HaloMode::Custom;
            push_value(out, ControlId::Mode, mode as i64);
            out.push(Update::Allowed { id: ControlId::NoiseRejection, allowed });
            out.push(Update::Allowed { id: ControlId::TargetExpansion, allowed });
            out.push(Update::Allowed { id: ControlId::TargetSeparation, allowed });
            out.push(Update::Allowed { id: ControlId::LocalInterferenceRejection, allowed });
            out.push(Update::Allowed { id: ControlId::ScanSpeed, allowed });
        },
        None => {},
    }
    assert(out@ =~= old(out)@ + halo_mode_updates(mode as int));
}

fn push_sector(out: &mut Vec<Update>, data: &[u8], at: usize, i: usize)
    requires
        i < 4,
        at + 5 * i + 5 <= data@.len(),
    ensures
        final(out)@ == old(out)@.push(sector_at(data@, at as int, i as int)),
{
    let id = match i {
        0 => ControlId::NoTransmitSector1,
        1 => ControlId::NoTransmitSector2,
        2 => ControlId::NoTransmitSector3,
        _ => ControlId::NoTransmitSector4,
    };
    assert(data@.len() == data.len());
    let pos: usize = at + 5 * i;
    out.push(
        Update::Sector {
            id,
            start: get_signed(data, pos + 1),
            end: get_signed(data, pos + 3),
            enabled: data[pos] > 0,
        },
    );
}

impl NavicoState {
    /// Nothing known.
    pub fn new() -> (r: NavicoState)
        ensures
            r == (NavicoState {
                model: Model::Unknown,
                capabilities: None,
                awaiting_capabilities: false,
                has_use_mode_from_ext: false,
                doppler: DopplerMode::Off,
            }),
    {
        NavicoState {
            model: Model::Unknown,
            capabilities: None,
            awaiting_capabilities: false,
            has_use_mode_from_ext: false,
            doppler: DopplerMode::Off,
        }
    }

    fn process_state_mode(&self, data: &[u8]) -> (r: Result<ReportOutcome, ReportError>)
        requires
            data@.len() == 18,
        ensures
            match r {
                Ok(o) => power(data@[2]) matches Some(p) && o@ == controls(seq![Update::Power(p)]),
                Err(e) => power(data@[2]) is None && e == ReportError::UnknownStatus(data@[2]),
            },
    {
        let status: u8 = data[2];
        let p = match status {
            0 => Power::Off,
            1 => Power::Standby,
            2 => Power::Transmit,
            5 => Power::Preparing,
            _ => {
                return Err(ReportError::UnknownStatus(status));
            },
        };
        let updates: Vec<Update> = vec![Update::Power(p)];
        assert(updates@ =~= seq![Update::Power(p)]);
        Ok(outcome_of(updates))
    }

    fn process_state_setup(&self, data: &[u8]) -> (r: ReportOutcome)
        requires
            data@.len() == 99,
        ensures
            r@ == controls(setup_updates(*self, data@)),
    {
        let mut out: Vec<Update> = Vec::new();
        push_value(&mut out, ControlId::Range, get_long(data, 2));
        if self.model.is_halo() && !self.has_use_mode_from_ext {
            set_halo_mode(&mut out, data[7]);
        }
        out.push(Update::Auto { id: ControlId::Gain, value: data[12] as i64, flag: data[8] });
        if self.model.is_halo() {
            out.push(Update::AutoState { id: ControlId::Sea, auto: data[13] > 0 });
        } else {
            out.push(
                Update::Auto { id: ControlId::Sea, value: get_long(data, 17), flag: data[13] },
            );
        }
        push_value(&mut out, ControlId::Rain, data[22] as i64);
        push_value(&mut out, ControlId::InterferenceRejection, data[34] as i64);
        push_value(&mut out, ControlId::TargetExpansion, data[38] as i64);
        push_value(&mut out, ControlId::TargetBoost, data[42] as i64);
        assert(out@ =~= setup_updates(*self, data@));
        outcome_of(out)
    }

    fn finalize_halo(m: Model, caps: &NavicoCapabilities) -> (r: Setup)
        ensures
            r == halo_setup(m, *caps),
    {
        let limits = if caps.instrumented_range_max_dm > 0 {
            Some(RangeLimits { min: caps.range_min_m(), max: caps.range_max_m() })
        } else {
            None
        };
        Setup { model: m, capabilities: Some(*caps), limits }
    }

    fn process_state_properties(&mut self, data: &[u8]) -> (r: ReportOutcome)
        requires
            data@.len() == 129,
        ensures
            *final(self) == properties_state(*old(self), data@),
            r@ == properties_outcome(*old(self), data@),
    {
        let m = Model::from_scanner_type(get_le32(data, 30));
        let mut new_model: Option<Model> = None;
        let mut setup: Option<Setup> = None;
        if m != Model::Unknown && self.model != m {
            new_model = Some(m);
            self.model = m;
            if m.is_halo() {
                match self.capabilities {
                    Some(caps) => {
                        setup = Some(NavicoState::finalize_halo(m, &caps));
                        self.awaiting_capabilities = false;
                    },
                    None => {
                        self.awaiting_capabilities = true;
                    },
                }
            } else {
                let max: u32 = get_le32(data, 42) / 10;
                setup = Some(
                    Setup {
                        model: m,
                        capabilities: None,
                        limits: Some(RangeLimits { min: 50, max: max as i32 }),
                    },
                );
            }
        }
        let mut version = String::new();
        push_decimal(&mut version, get_le32(data, 50) as u64);
        version.push('.');
        push_decimal(&mut version, get_le32(data, 54) as u64);
        version.push('.');
        push_decimal(&mut version, get_le16(data, 16) as u64);
        version.push(' ');
        let date = c_wide_string(slice_subrange(data, 58, 90));
        version.append(date.as_str());
        version.push(' ');
        let time = c_wide_string(slice_subrange(data, 90, 122));
        version.append(time.as_str());
        assert(version@ =~= firmware(data@));
        let mut updates: Vec<Update> = Vec::new();
        push_value(&mut updates, ControlId::TransmitTime, get_le32(data, 34) as i64);
        let r = ReportOutcome {
            model: new_model,
            setup,
            updates,
            texts: vec![TextUpdate { id: ControlId::FirmwareVersion, text: version }],
        };
        assert(r@.texts =~= properties_outcome(*old(self), data@).texts);
        assert(r@.updates =~= properties_outcome(*old(self), data@).updates);
        r
    }

    fn process_state_features(&mut self, data: &[u8]) -> (r: ReportOutcome)
        requires
            data@.len() >= 4,
        ensures
            *final(self) == features_state(*old(self), data@),
            r@ == features_outcome(*old(self), data@),
    {
        let body = slice_subrange(data, 2, data.len());
        assert(body@ =~= data@.skip(2));
        let caps = NavicoCapabilities::parse(body);
        let mut r = no_outcome();
        if self.awaiting_capabilities {
            r.setup = Some(NavicoState::finalize_halo(self.model, &caps));
            self.awaiting_capabilities = false;
        }
        self.capabilities = Some(caps);
        r
    }

    fn process_state_config(&self, data: &[u8]) -> (r: ReportOutcome)
        requires
            data@.len() == 66,
        ensures
            r@ == controls(config_updates(*self, data@)),
    {
        let mut out: Vec<Update> = Vec::new();
        push_value(&mut out, ControlId::BearingAlignment, get_signed(data, 6));
        push_value(&mut out, ControlId::AntennaHeight, get_long(data, 10));
        if self.model.is_halo() {
            push_value(&mut out, ControlId::AccentLight, data[19] as i64);
        }
        push_value(&mut out, ControlId::AntennaForward, get_signed(data, 20));
        push_value(&mut out, ControlId::AntennaStarboard, get_signed(data, 23));
        push_sector(&mut out, data, 34, 0);
        push_sector(&mut out, data, 34, 1);
        push_sector(&mut out, data, 34, 2);
        push_sector(&mut out, data, 34, 3);
        assert(out@ =~= config_updates(*self, data@));
        outcome_of(out)
    }

    fn push_sea(&self, out: &mut Vec<Update>, data: &[u8])
        requires
            data@.len() >= 18,
        ensures
            final(out)@ == old(out)@ + sea_updates(*self, data@),
    {
        if self.model.is_halo() {
            push_value(out, ControlId::SeaState, data[2] as i64);
            let adjust: i64 = if data[15] < 0x80 {
                data[15] as i64
            } else {
                data[15] as i64 - 0x100
            };
            out.push(Update::AutoAdjust { id: ControlId::Sea, value: data[14] as i64, adjust });
        }
        assert(out@ =~= old(out)@ + sea_updates(*self, data@));
    }

    fn push_levels(&self, out: &mut Vec<Update>, data: &[u8])
        requires
            data@.len() >= 18,
        ensures
            final(out)@ == old(out)@ + level_updates(*self, data@),
    {
        push_value(out, ControlId::LocalInterferenceRejection, data[3] as i64);
        push_value(out, ControlId::ScanSpeed, data[4] as i64);
        out.push(
            Update::Auto {
                id: ControlId::SideLobeSuppression,
                value: data[9] as i64,
                flag: data[5],
            },
        );
        push_value(out, ControlId::NoiseRejection, data[12] as i64);
        if self.model.is_halo() || self.model == Model::Gen4 {
            push_value(out, ControlId::TargetSeparation, data[13] as i64);
        }
        assert(out@ =~= old(out)@ + level_updates(*self, data@));
    }

    fn push_use_mode(&self, out: &mut Vec<Update>, data: &[u8])
        ensures
            final(out)@ == old(out)@ + use_mode_updates(*self, data@),
    {
        if data.len() >= 24 && self.model.is_halo() {
            let mode: u8 = if data[22] == 5 && data[23] == 1 {
                6
            } else {
                data[22]
            };
            set_halo_mode(out, mode);
        }
        assert(out@ =~= old(out)@ + use_mode_updates(*self, data@));
    }

    fn push_doppler(out: &mut Vec<Update>, data: &[u8])
        requires
            data@.len() >= 18,
        ensures
            final(out)@ == old(out)@ + doppler_updates(data@),
    {
        if data.len() >= 21 {
            push_value(out, ControlId::Doppler, data[18] as i64);
            push_value(out, ControlId::DopplerSpeedThreshold, get_le16(data, 19) as i64);
        }
        assert(out@ =~= old(out)@ + doppler_updates(data@));
    }

    fn process_state_setup_extended(&mut self, data: &[u8]) -> (r: Result<
        ReportOutcome,
        ReportError,
    >)
        requires
            data@.len() >= 18,
        ensures
            match r {
                Ok(o) => {
                    &&& has_doppler(data@) ==> DopplerMode::of_value(data@[18] as int) is Some
                    &&& *final(self) == extended_state(*old(self), data@)
                    &&& o@ == controls(extended_updates(*old(self), data@))
                },
                Err(e) => {
                    &&& has_doppler(data@) && DopplerMode::of_value(data@[18] as int) is None
                    &&& e == ReportError::UnknownDoppler(data@[18])
                    &&& *final(self) == *old(self)
                },
            },
    {
        let mut doppler = self.doppler;
        if data.len() >= 21 {
            match DopplerMode::from_value(data[18]) {
                Some(mode) => {
                    doppler = mode;
                },
                None => {
                    return Err(ReportError::UnknownDoppler(data[18]));
                },
            }
        }
        let mut out: Vec<Update> = Vec::new();
        NavicoState::push_doppler(&mut out, data);
        assert(out@ =~= doppler_updates(data@));
        self.push_use_mode(&mut out, data);
        self.push_sea(&mut out, data);
        self.push_levels(&mut out, data);
        self.doppler = doppler;
        if data.len() >= 24 && self.model.is_halo() {
            self.has_use_mode_from_ext = true;
        }
        Ok(outcome_of(out))
    }

    /// Process a report.
    pub fn process_report(&mut self, data: &[u8]) -> (r: Result<ReportOutcome, ReportError>)
        ensures
            match r {
                Ok(o) => report_step(*old(self), data@) == Ok::<
                    (NavicoState, OutcomeView),
                    ReportError,
                >((*final(self), o@)),
                Err(e) => report_step(*old(self), data@) == Err::<
                    (NavicoState, OutcomeView),
                    ReportError,
                >(e) && *final(self) == *old(self),
            },
    {
        if data.len() < 2 {
            return Err(ReportError::TooShort);
        }
        if data[1] != CATEGORY_STATE {
            if data[1] == CATEGORY_ACK && data[0] == 0x11 && (data.len() != 3 || data[2] != 0) {
                return Err(ReportError::StrangeContent);
            }
            return Ok(no_outcome());
        }
        let sub_opcode: u8 = data[0];
        if sub_opcode == STATE_PROPERTIES {
            if data.len() != 129 {
                return Err(ReportError::WrongLength);
            }
            return Ok(self.process_state_properties(data));
        }
        if sub_opcode == STATE_FEATURES {
            if data.len() < 4 {
                return Ok(no_outcome());
            }
            return Ok(self.process_state_features(data));
        }
        if self.model == Model::Unknown || self.awaiting_capabilities {
            return Ok(no_outcome());
        }
        match sub_opcode {
            STATE_MODE => {
                if data.len() != 18 {
                    return Err(ReportError::WrongLength);
                }
                self.process_state_mode(data)
            },
            STATE_SETUP => {
                if data.len() != 99 {
                    return Err(ReportError::WrongLength);
                }
                Ok(self.process_state_setup(data))
            },
            STATE_CONFIG => {
                if data.len() != 66 {
                    return Err(ReportError::WrongLength);
                }
                Ok(self.process_state_config(data))
            },
            STATE_INSTALLATION => {
                if data.len() < 4 {
                    return Ok(no_outcome());
                }
                Ok(process_state_installation(data))
            },
            STATE_SETUP_EXTENDED => {
                if data.len() < 18 {
                    return Err(ReportError::WrongLength);
                }
                self.process_state_setup_extended(data)
            },
            _ => Ok(no_outcome()),
        }
    }
}

fn push_entry_updates(out: &mut Vec<Update>, tag: u16, payload: &[u8])
    ensures
        final(out)@ == old(out)@ + entry_updates(tag as int, payload@),
{
    if tag == INSTALLATION_ANTENNA_GEOMETRY && payload.len() >= 14 {
        push_value(out, ControlId::AntennaForward, get_signed(payload, 6));
        push_value(out, ControlId::AntennaStarboard, get_signed(payload, 10));
    } else if tag == INSTALLATION_SECTOR_BLANKING && payload.len() > 0 {
        let told: usize = payload[0] as usize;
        let whole: usize = (payload.len() - 1) / 5;
        let n: usize = if told < whole {
            told
        } else {
            whole
        };
        let count: usize = if n < 4 {
            n
        } else {
            4
        };
        let ghost all = entry_updates(tag as int, payload@);
        let mut i: usize = 0;
        assert(out@ =~= old(out)@ + all.take(0));
        while i < count
            invariant
                i <= count <= 4,
                count == sector_count(payload@),
                count <= (payload@.len() - 1) / 5,
                payload@.len() > 0,
                tag == INSTALLATION_SECTOR_BLANKING,
                all == entry_updates(tag as int, payload@),
                out@ == old(out)@ + all.take(i as int),
            decreases count - i,
        {
            push_sector(out, payload, 1, i);
            i += 1;
            assert(out@ =~= old(out)@ + all.take(i as int));
        }
        assert(all.take(i as int) =~= all);
    }
    assert(out@ =~= old(out)@ + entry_updates(tag as int, payload@));
}

fn push_entry_text(out: &mut Vec<TextUpdate>, tag: u16, payload: &[u8])
    ensures
        texts_view(final(out)@) == texts_view(old(out)@) + entry_texts(tag as int, payload@),
{
    if tag == INSTALLATION_NAME {
        match c_string(payload) {
            Some(name) => {
                if name.unicode_len() > 0 {
                    out.push(TextUpdate { id: ControlId::UserName, text: owned(name) });
                }
            },
            None => {},
        }
    }
    assert(texts_view(out@) =~= texts_view(old(out)@) + entry_texts(tag as int, payload@));
}

fn process_state_installation(data: &[u8]) -> (r: ReportOutcome)
    requires
        data@.len() >= 4,
    ensures
        r@ == installation_outcome(data@),
{
    let mut updates: Vec<Update> = Vec::new();
    let mut texts: Vec<TextUpdate> = Vec::new();
    let mut at: usize = 2;
    proof {
        assert(updates@ + installation_updates(data@, 2) =~= installation_updates(data@, 2));
        assert(texts_view(texts@) + installation_texts(data@, 2) =~= installation_texts(data@, 2));
    }
    while data.len() - at >= 4
        invariant_except_break
            at <= data@.len(),
            data@.len() == data.len(),
            updates@ + installation_updates(data@, at as int) == installation_updates(data@, 2),
            texts_view(texts@) + installation_texts(data@, at as int) == installation_texts(
                data@,
                2,
            ),
        ensures
            updates@ == installation_updates(data@, 2),
            texts_view(texts@) == installation_texts(data@, 2),
        decreases data@.len() - at,
    {
        let tag: u16 = get_le16(data, at);
        let n: usize = get_le16(data, at + 2) as usize;
        if data.len() - at - 4 < n {
            proof {
                assert(updates@ + Seq::<Update>::empty() =~= updates@);
                assert(texts_view(texts@) + Seq::<(ControlId, Seq<char>)>::empty() =~= texts_view(
                    texts@,
                ));
            }
            break;
        }
        let payload = slice_subrange(data, at + 4, at + 4 + n);
        let ghost before = updates@;
        let ghost texts_before = texts_view(texts@);
        push_entry_updates(&mut updates, tag, payload);
        push_entry_text(&mut texts, tag, payload);
        proof {
            let end = entry_end(data@, at as int);
            assert(has_entry(data@, at as int));
            assert(updates@ + installation_updates(data@, end) =~= before + installation_updates(
                data@,
                at as int,
            ));
            assert(texts_view(texts@) + installation_texts(data@, end) =~= texts_before
                + installation_texts(data@, at as int));
        }
        at = at + 4 + n;
    }
    proof {
        assert(updates@ + Seq::<Update>::empty() =~= updates@);
        assert(texts_view(texts@) + Seq::<(ControlId, Seq<char>)>::empty() =~= texts_view(texts@));
    }
    ReportOutcome { model: None, setup: None, updates, texts }
}

// Timing

/// When to ask for reports, and when to send information, in milliseconds.
#[derive(Clone, Copy, Debug, PartialEq, Eq, Structural)]
pub struct Schedule {
    pub report_request: u64,
    pub info_send: u64,
}

impl Schedule {
    /// Everything at once.
    pub fn new(now: u64) -> (r: Schedule)
        ensures
            r == (Schedule { report_request: now, info_send: now }),
    {
        Schedule { report_request: now, info_send: now }
    }

    /// When to wake up.
    pub fn next(&self) -> (r: u64)
        ensures
            r <= self.report_request,
            r <= self.info_send,
            r == self.report_request || r == self.info_send,
    {
        if self.report_request <= self.info_send {
            self.report_request
        } else {
            self.info_send
        }
    }

    /// Whether to ask for reports.
    pub fn wants_reports(&self, now: u64) -> (r: bool)
        ensures
            r == (self.report_request <= now),
    {
        self.report_request <= now
    }

    /// Reports were asked for. A request that failed is not noted, and is made again.
    pub fn reports_requested(&mut self)
        requires
            old(self).report_request <= u64::MAX - REPORT_REQUEST_INTERVAL,
        ensures
            *final(self) == (Schedule {
                report_request: (old(self).report_request + REPORT_REQUEST_INTERVAL) as u64,
                ..*old(self)
            }),
    {
        self.report_request = self.report_request + REPORT_REQUEST_INTERVAL;
    }

    /// Whether to send information.
    pub fn wants_info(&self, now: u64) -> (r: bool)
        ensures
            r == (self.info_send <= now),
    {
        self.info_send <= now
    }

    /// Information was sent. Where that failed it is not noted, and is tried again.
    pub fn info_sent(&mut self)
        requires
            old(self).info_send <= u64::MAX - INFO_BY_US_INTERVAL,
        ensures
            *final(self) == (Schedule {
                info_send: (old(self).info_send + INFO_BY_US_INTERVAL) as u64,
                ..*old(self)
            }),
    {
        self.info_send = self.info_send + INFO_BY_US_INTERVAL;
    }

    /// Information arrived. Where another sender sends it, ours is held back;
    /// what we sent ourselves does not count.
    pub fn process_info(&mut self, now: u64, from_ourselves: bool)
        requires
            now <= u64::MAX - INFO_BY_OTHERS_TIMEOUT,
        ensures
            *final(self) == if from_ourselves {
                *old(self)
            } else {
                Schedule { info_send: (now + INFO_BY_OTHERS_TIMEOUT) as u64, ..*old(self) }
            },
    {
        if !from_ourselves {
            self.info_send = now + INFO_BY_OTHERS_TIMEOUT;
        }
    }
}

// Laws

/// A HALO is set up once its model and its features are known, in whatever
/// order they arrive.
pub proof fn law_halo_set_up_either_way(
    s: NavicoState,
    properties: Seq<u8>,
    features: Seq<u8>,
)
    requires
        s.model == Model::Unknown,
        s.capabilities is None,
        !s.awaiting_capabilities,
        properties.len() == 129,
        properties[0] == STATE_PROPERTIES,
        properties[1] == CATEGORY_STATE,
        reported_model(properties).halo(),
        features.len() >= 4,
        features[0] == STATE_FEATURES,
        features[1] == CATEGORY_STATE,
    ensures
        ({
            let caps = capabilities::features(features.skip(2));
            let done = Some(halo_setup(reported_model(properties), caps));
            let first = report_step(s, properties);
            let second = report_step((first->Ok_0).0, features);
            let other_first = report_step(s, features);
            let other_second = report_step((other_first->Ok_0).0, properties);
            &&& first is Ok && (first->Ok_0).1.setup is None && !ready((first->Ok_0).0)
            &&& second is Ok && (second->Ok_0).1.setup == done && ready((second->Ok_0).0)
            &&& other_first is Ok && (other_first->Ok_0).1.setup is None && !ready(
                (other_first->Ok_0).0,
            )
            &&& other_second is Ok && (other_second->Ok_0).1.setup == done
            &&& (other_second->Ok_0).0 == (second->Ok_0).0
        }),
{
}

/// While a radar is not set up, no report changes its controls but the one that
/// tells its properties.
pub proof fn law_controls_wait_for_set_up(s: NavicoState, data: Seq<u8>)
    requires
        !ready(s),
        data.len() >= 2,
        data[0] != STATE_PROPERTIES || data[1] != CATEGORY_STATE,
    ensures
        report_step(s, data) matches Ok((next, o)) ==> o.updates.len() == 0 && o.texts.len() == 0,
{
}

/// Once the extended setup report told the operating mode, the plain one does
/// not change it any more.
pub proof fn law_use_mode_stays(s: NavicoState, data: Seq<u8>, i: int)
    requires
        s.has_use_mode_from_ext,
        0 <= i < setup_updates(s, data).len(),
    ensures
        setup_updates(s, data)[i] != value(ControlId::Mode, data[7] as i64),
{
}

/// The power state is what the radar says; a status that is not known is an error.
pub proof fn law_power_reports(s: NavicoState, data: Seq<u8>)
    requires
        ready(s),
        data.len() == 18,
        data[0] == 0x01,
        data[1] == 0xc4,
    ensures
        ({
            let says = |p: Power|
                report_step(s, data) == Ok::<(NavicoState, OutcomeView), ReportError>(
                    (s, controls(seq![Update::Power(p)])),
                );
            &&& data[2] == 0 ==> says(Power::Off)
            &&& data[2] == 1 ==> says(Power::Standby)
            &&& data[2] == 2 ==> says(Power::Transmit)
            &&& data[2] == 5 ==> says(Power::Preparing)
            &&& data[2] != 0 && data[2] != 1 && data[2] != 2 && data[2] != 5 ==> report_step(s, data)
                is Err
        }),
{
}

/// A setup report reads back: the range, the levels of gain, sea and rain, and the
/// settings of the filters that were put into it.
pub proof fn law_setup_reads_back(s: NavicoState, data: Seq<u8>, range: int, sea: int)
    requires
        ready(s),
        !s.model.halo() || s.has_use_mode_from_ext,
        data.len() == 99,
        data[0] == 0x02,
        data[1] == 0xc4,
        bytes::holds_signed32(data, 2, range),
        bytes::holds_signed32(data, 17, sea),
    ensures
        report_step(s, data) matches Ok((next, o)) && {
            &&& next == s
            &&& o == controls(o.updates)
            &&& o.updates.len() == 7
            &&& o.updates[0] == value(ControlId::Range, range as i64)
            &&& o.updates[1] == (Update::Auto {
                id: ControlId::Gain,
                value: data[12] as i64,
                flag: data[8],
            })
            &&& s.model.halo() ==> o.updates[2] == (Update::AutoState {
                id: ControlId::Sea,
                auto: data[13] != 0,
            })
            &&& !s.model.halo() ==> o.updates[2] == (Update::Auto {
                id: ControlId::Sea,
                value: sea as i64,
                flag: data[13],
            })
            &&& o.updates[3] == value(ControlId::Rain, data[22] as i64)
            &&& o.updates[4] == value(ControlId::InterferenceRejection, data[34] as i64)
            &&& o.updates[5] == value(ControlId::TargetExpansion, data[38] as i64)
            &&& o.updates[6] == value(ControlId::TargetBoost, data[42] as i64)
        },
{
    bytes::law_numbers_read_back(data, 2, range);
    bytes::law_numbers_read_back(data, 17, sea);
}

/// The operating mode of a HALO is shown, and five controls can be set in custom mode only.
pub proof fn law_modes_allow_controls(mode: int)
    requires
        0 <= mode <= 6,
    ensures
        ({
            let u = halo_mode_updates(mode);
            let free = mode == 0;
            let may = |id: ControlId| Update::Allowed { id, allowed: free };
            &&& u.len() == 6
            &&& u[0] == value(ControlId::Mode, mode as i64)
            &&& u.contains(may(ControlId::NoiseRejection))
            &&& u.contains(may(ControlId::TargetExpansion))
            &&& u.contains(may(ControlId::TargetSeparation))
            &&& u.contains(may(ControlId::LocalInterferenceRejection))
            &&& u.contains(may(ControlId::ScanSpeed))
        }),
        halo_mode_updates(mode + 7).len() == 0,
{
    let u = halo_mode_updates(mode);
    assert(u[1] == Update::Allowed { id: ControlId::NoiseRejection, allowed: mode == 0 });
    assert(u[2] == Update::Allowed { id: ControlId::TargetExpansion, allowed: mode == 0 });
    assert(u[3] == Update::Allowed { id: ControlId::TargetSeparation, allowed: mode == 0 });
    assert(u[4] == Update::Allowed {
        id: ControlId::LocalInterferenceRejection,
        allowed: mode == 0,
    });
    assert(u[5] == Update::Allowed { id: ControlId::ScanSpeed, allowed: mode == 0 });
}

/// A HALO that only has the plain setup report tells its mode there.
pub proof fn law_setup_tells_mode(s: NavicoState, data: Seq<u8>)
    requires
        ready(s),
        s.model.halo(),
        !s.has_use_mode_from_ext,
        data.len() == 99,
        data[0] == 0x02,
        data[1] == 0xc4,
        data[7] <= 6,
    ensures
        report_step(s, data) matches Ok((next, o)) && o.updates.len() == 13 && o.updates[1]
            == value(ControlId::Mode, data[7] as i64) && o.updates[9] == value(
            ControlId::Rain,
            data[22] as i64,
        ),
{
    law_modes_allow_controls(data[7] as int);
}

/// A sector reads back: its start, its end and whether it is on.
pub proof fn law_sector_reads_back(data: Seq<u8>, at: int, i: int, start: int, end: int)
    requires
        0 <= i < 4,
        bytes::holds_signed16(data, at + 5 * i + 1, start),
        bytes::holds_signed16(data, at + 5 * i + 3, end),
    ensures
        sector_at(data, at, i) == (Update::Sector {
            id: if i == 0 {
                ControlId::NoTransmitSector1
            } else if i == 1 {
                ControlId::NoTransmitSector2
            } else if i == 2 {
                ControlId::NoTransmitSector3
            } else {
                ControlId::NoTransmitSector4
            },
            start: start as i64,
            end: end as i64,
            enabled: data[at + 5 * i] != 0,
        }),
{
    bytes::law_numbers_read_back(data, at + 5 * i + 1, start);
    bytes::law_numbers_read_back(data, at + 5 * i + 3, end);
}

/// A configuration report reads back: the alignment, the height and the offsets of the
/// antenna, the light of a HALO, and the four sectors.
pub proof fn law_config_reads_back(
    s: NavicoState,
    data: Seq<u8>,
    alignment: int,
    height: int,
    forward: int,
    starboard: int,
    i: int,
    start: int,
    end: int,
)
    requires
        ready(s),
        data.len() == 66,
        data[0] == 0x04,
        data[1] == 0xc4,
        bytes::holds_signed16(data, 6, alignment),
        bytes::holds_signed32(data, 10, height),
        bytes::holds_signed16(data, 20, forward),
        bytes::holds_signed16(data, 23, starboard),
        0 <= i < 4,
        bytes::holds_signed16(data, 35 + 5 * i, start),
        bytes::holds_signed16(data, 37 + 5 * i, end),
    ensures
        report_step(s, data) matches Ok((next, o)) && {
            let n: int = if s.model.halo() { 3 } else { 2 };
            &&& next == s
            &&& o.updates.len() == n + 6
            &&& o.updates[0] == value(ControlId::BearingAlignment, alignment as i64)
            &&& o.updates[1] == value(ControlId::AntennaHeight, height as i64)
            &&& s.model.halo() ==> o.updates[2] == value(ControlId::AccentLight, data[19] as i64)
            &&& o.updates[n] == value(ControlId::AntennaForward, forward as i64)
            &&& o.updates[n + 1] == value(ControlId::AntennaStarboard, starboard as i64)
            &&& o.updates[n + 2 + i] matches Update::Sector { id, start: a, end: b, enabled } && a
                == start && b == end && enabled == (data[34 + 5 * i] != 0)
        },
{
    bytes::law_numbers_read_back(data, 6, alignment);
    bytes::law_numbers_read_back(data, 10, height);
    bytes::law_numbers_read_back(data, 20, forward);
    bytes::law_numbers_read_back(data, 23, starboard);
    law_sector_reads_back(data, 34, i, start, end);
}

/// The entries of an installation report are read one behind the other.
pub proof fn law_installation_entries_follow(
    before: Seq<u8>,
    tag: int,
    payload: Seq<u8>,
    rest: Seq<u8>,
)
    requires
        before.len() >= 2,
        0 <= tag < 0x1_0000,
        payload.len() < 0x1_0000,
    ensures
        ({
            let data = before + bytes::le16_bytes(tag) + bytes::le16_bytes(payload.len() as int)
                + payload + rest;
            let at = before.len() as int;
            let end = at + 4 + payload.len();
            &&& installation_updates(data, at) == entry_updates(tag, payload)
                + installation_updates(data, end)
            &&& installation_texts(data, at) == entry_texts(tag, payload) + installation_texts(
                data,
                end,
            )
        }),
{
    let data = before + bytes::le16_bytes(tag) + bytes::le16_bytes(payload.len() as int) + payload
        + rest;
    let at = before.len() as int;
    let end = at + 4 + payload.len();
    assert(data[at] == bytes::le16_bytes(tag)[0] && data[at + 1] == bytes::le16_bytes(tag)[1]);
    assert(data[at + 2] == bytes::le16_bytes(payload.len() as int)[0] && data[at + 3]
        == bytes::le16_bytes(payload.len() as int)[1]);
    assert(data.subrange(at + 4, end) =~= payload);
}

/// What the entries of an installation report tell: the name, the place of the antenna, and
/// sectors.
pub proof fn law_installation_entries_tell(
    payload: Seq<u8>,
    forward: int,
    starboard: int,
    i: int,
    start: int,
    end: int,
)
    ensures
        payload.len() >= 14 && bytes::holds_signed16(payload, 6, forward) && bytes::holds_signed16(
            payload,
            10,
            starboard,
        ) ==> entry_updates(1, payload) == seq![
            value(ControlId::AntennaForward, forward as i64),
            value(ControlId::AntennaStarboard, starboard as i64),
        ],
        payload.len() >= 1 && 0 <= i < payload[0] <= 4 && payload.len() == 1 + 5 * payload[0]
            && bytes::holds_signed16(payload, 2 + 5 * i, start) && bytes::holds_signed16(
            payload,
            4 + 5 * i,
            end,
        ) ==> {
            let u = entry_updates(3, payload);
            &&& u.len() == payload[0]
            &&& u[i] matches Update::Sector { id, start: a, end: b, enabled } && id
                == sector_control(i) && a == start && b == end && enabled == (payload[1 + 5 * i]
                != 0)
        },
        text::c_text(payload) matches Some(name) && name.len() > 0 ==> entry_texts(0, payload)
            == seq![(ControlId::UserName, text::c_text(payload)->0)],
        entry_updates(0, payload).len() == 0,
{
    bytes::law_numbers_read_back(payload, 6, forward);
    bytes::law_numbers_read_back(payload, 10, starboard);
    if 0 <= i < 4 && bytes::holds_signed16(payload, 2 + 5 * i, start) && bytes::holds_signed16(
        payload,
        4 + 5 * i,
        end,
    ) {
        law_sector_reads_back(payload, 1, i, start, end);
    }
}

/// An extended setup report reads back: the Doppler mode and its threshold, the sea state
/// of a HALO, and the other levels.
pub proof fn law_extended_setup_reads_back(
    s: NavicoState,
    data: Seq<u8>,
    threshold: int,
    adjust: int,
)
    requires
        ready(s),
        s.model.halo(),
        data.len() >= 24,
        data[0] == 0x08,
        data[1] == 0xc4,
        data[18] <= 2,
        data[22] > 6,
        bytes::holds16(data, 19, threshold),
        -0x80 <= adjust < 0x80,
        data[15] == (if adjust >= 0 { adjust } else { 0x100 + adjust }),
    ensures
        report_step(s, data) matches Ok((next, o)) && {
            &&& next.doppler == if data[18] == 0 {
                DopplerMode::Off
            } else if data[18] == 1 {
                DopplerMode::Both
            } else {
                DopplerMode::Approaching
            }
            &&& next.has_use_mode_from_ext
            &&& next.model == s.model && next.capabilities == s.capabilities
            &&& o.updates == seq![
                value(ControlId::Doppler, data[18] as i64),
                value(ControlId::DopplerSpeedThreshold, threshold as i64),
                value(ControlId::SeaState, data[2] as i64),
                Update::AutoAdjust {
                    id: ControlId::Sea,
                    value: data[14] as i64,
                    adjust: adjust as i64,
                },
                value(ControlId::LocalInterferenceRejection, data[3] as i64),
                value(ControlId::ScanSpeed, data[4] as i64),
                Update::Auto {
                    id: ControlId::SideLobeSuppression,
                    value: data[9] as i64,
                    flag: data[5],
                },
                value(ControlId::NoiseRejection, data[12] as i64),
                value(ControlId::TargetSeparation, data[13] as i64),
            ]
        },
{
    bytes::law_numbers_read_back(data, 19, threshold);
    assert(report_step(s, data)->Ok_0.1.updates =~= seq![
        value(ControlId::Doppler, data[18] as i64),
        value(ControlId::DopplerSpeedThreshold, threshold as i64),
        value(ControlId::SeaState, data[2] as i64),
        Update::AutoAdjust { id: ControlId::Sea, value: data[14] as i64, adjust: adjust as i64 },
        value(ControlId::LocalInterferenceRejection, data[3] as i64),
        value(ControlId::ScanSpeed, data[4] as i64),
        Update::Auto { id: ControlId::SideLobeSuppression, value: data[9] as i64, flag: data[5] },
        value(ControlId::NoiseRejection, data[12] as i64),
        value(ControlId::TargetSeparation, data[13] as i64),
    ]);
}

/// The operating mode in an extended setup report is shown; bird mode with variant 1 is the
/// mode behind it.
pub proof fn law_extended_setup_tells_mode(s: NavicoState, data: Seq<u8>)
    requires
        ready(s),
        s.model.halo(),
        data.len() >= 24,
        data[0] == 0x08,
        data[1] == 0xc4,
        data[18] <= 2,
        data[22] <= 5,
    ensures
        report_step(s, data) matches Ok((next, o)) && o.updates.len() == 15 && o.updates[2] == value(
            ControlId::Mode,
            if data[22] == 5 && data[23] == 1 { 6 } else { data[22] as i64 },
        ),
{
    law_modes_allow_controls(use_mode(data));
}

/// A radar that is no HALO and is not a 4G has neither sea state nor separation.
pub proof fn law_short_extended_setup(s: NavicoState, data: Seq<u8>)
    requires
        ready(s),
        s.model == Model::BR24 || s.model == Model::Gen3 || s.model == Model::Gen4,
        data.len() == 18,
        data[0] == 0x08,
        data[1] == 0xc4,
    ensures
        report_step(s, data) matches Ok((next, o)) && {
            &&& next == s
            &&& o.updates.len() == if s.model == Model::Gen4 { 5int } else { 4int }
            &&& o.updates[0] == value(ControlId::LocalInterferenceRejection, data[3] as i64)
            &&& o.updates[1] == value(ControlId::ScanSpeed, data[4] as i64)
            &&& o.updates[3] == value(ControlId::NoiseRejection, data[12] as i64)
            &&& s.model == Model::Gen4 ==> o.updates[4] == value(
                ControlId::TargetSeparation,
                data[13] as i64,
            )
        },
{
}

/// A properties report reads back: the model, the hours of transmission and the firmware;
/// a radar that is no HALO is set up with the ranges that it tells, in whole meters.
pub proof fn law_properties_read_back(
    s: NavicoState,
    data: Seq<u8>,
    m: Model,
    hours: int,
    decimeters: int,
    major: int,
    minor: int,
    build: int,
)
    requires
        data.len() == 129,
        data[0] == 0x03,
        data[1] == 0xc4,
        m != Model::Unknown,
        bytes::holds32(data, 30, m.code()),
        bytes::holds32(data, 34, hours),
        bytes::holds32(data, 42, decimeters),
        bytes::holds32(data, 50, major),
        bytes::holds32(data, 54, minor),
        bytes::holds16(data, 16, build),
    ensures
        report_step(s, data) matches Ok((next, o)) && {
            &&& next.model == m
            &&& o.model == if s.model == m { None } else { Some(m) }
            &&& o.updates == seq![value(ControlId::TransmitTime, hours as i64)]
            &&& o.texts.len() == 1
            &&& o.texts[0].0 == ControlId::FirmwareVersion
            &&& text::begins_with(
                o.texts[0].1,
                text::decimal(major as nat) + seq!['.'] + text::decimal(minor as nat) + seq!['.']
                    + text::decimal(build as nat) + seq![' '],
            )
            &&& s.model != m && !m.halo() ==> (o.setup matches Some(setup) && setup.model == m
                && setup.capabilities is None && (setup.limits matches Some(l) && l.min == 50 && 10
                * l.max <= decimeters < 10 * (l.max + 1)))
            &&& s.model == m ==> o.setup is None && next == s
        },
{
    model::law_scanner_type_round_trip(m);
    bytes::law_numbers_read_back(data, 30, m.code());
    bytes::law_numbers_read_back(data, 34, hours);
    bytes::law_numbers_read_back(data, 42, decimeters);
    bytes::law_numbers_read_back(data, 50, major);
    bytes::law_numbers_read_back(data, 54, minor);
    bytes::law_numbers_read_back(data, 16, build);
    let head = text::decimal(major as nat) + seq!['.'] + text::decimal(minor as nat) + seq!['.']
        + text::decimal(build as nat) + seq![' '];
    let whole = firmware(data);
    assert(whole =~= head + text::wide_text(data.subrange(58, 90), 0) + seq![' ']
        + text::wide_text(data.subrange(90, 122), 0));
    assert(whole.subrange(0, head.len() as int) =~= head);
}

/// A HALO is set up with the ranges that its features tell, in whole meters.
pub proof fn law_halo_ranges(m: Model, caps: NavicoCapabilities)
    ensures
        ({
            let setup = halo_setup(m, caps);
            &&& setup.model == m
            &&& setup.capabilities == Some(caps)
            &&& setup.limits is None <==> caps.instrumented_range_max_dm == 0
            &&& setup.limits matches Some(l) ==> {
                &&& 10 * l.min <= caps.instrumented_range_min_dm < 10 * (l.min + 1)
                &&& 10 * l.max <= caps.instrumented_range_max_dm < 10 * (l.max + 1)
            }
        }),
{
}

/// An installation report is read from behind its opcode on: one with a single entry
/// brings what the entry tells.
pub proof fn law_installation_report_reads_back(s: NavicoState, tag: int, payload: Seq<u8>)
    requires
        ready(s),
        0 <= tag < 0x1_0000,
        payload.len() < 0x1_0000,
    ensures
        ({
            let data = seq![0x06u8, 0xc4] + bytes::le16_bytes(tag) + bytes::le16_bytes(
                payload.len() as int,
            ) + payload;
            &&& report_step(s, data) matches Ok((next, o))
            &&& next == s
            &&& o.updates == entry_updates(tag, payload)
            &&& o.texts == entry_texts(tag, payload)
        }),
{
    let before = seq![0x06u8, 0xc4];
    let data = before + bytes::le16_bytes(tag) + bytes::le16_bytes(payload.len() as int) + payload;
    law_installation_entries_follow(before, tag, payload, Seq::empty());
    assert(data + Seq::<u8>::empty() =~= data);
    let end = 6 + payload.len() as int;
    assert(data.len() == end);
    assert(installation_updates(data, end) =~= Seq::<Update>::empty());
    assert(installation_texts(data, end) =~= Seq::<(ControlId, Seq<char>)>::empty());
    assert(entry_updates(tag, payload) + Seq::<Update>::empty() =~= entry_updates(tag, payload));
    assert(entry_texts(tag, payload) + Seq::<(ControlId, Seq<char>)>::empty() =~= entry_texts(
        tag,
        payload,
    ));
}

/// Reports of a wrong length are errors, and what is not a state report changes nothing
/// unless it is an acknowledgement with strange content.
pub proof fn law_wrong_lengths_are_errors(s: NavicoState, data: Seq<u8>)
    requires
        ready(s),
        data.len() >= 2,
    ensures
        data[1] == 0xc4 && data[0] == 0x01 && data.len() != 18 ==> report_step(s, data) is Err,
        data[1] == 0xc4 && data[0] == 0x02 && data.len() != 99 ==> report_step(s, data) is Err,
        data[1] == 0xc4 && data[0] == 0x03 && data.len() != 129 ==> report_step(s, data) is Err,
        data[1] == 0xc4 && data[0] == 0x04 && data.len() != 66 ==> report_step(s, data) is Err,
        data[1] == 0xc4 && data[0] == 0x08 && data.len() < 18 ==> report_step(s, data) is Err,
        data[1] != 0xc4 && data[1] != 0xc6 ==> report_step(s, data) == Ok::<
            (NavicoState, OutcomeView),
            ReportError,
        >((s, nothing())),
        data == seq![0x11u8, 0xc6, 0] ==> report_step(s, data) is Ok,
        data[0] == 0x11 && data[1] == 0xc6 && data.len() == 2 ==> report_step(s, data) is Err,
{
}

/// A radar that has no name is not called by an empty one.
pub proof fn law_empty_names_are_skipped(payload: Seq<u8>, tag: int)
    ensures
        text::c_text(payload) == Some(Seq::<char>::empty()) ==> entry_texts(0, payload).len() == 0,
        text::c_text(payload) is None ==> entry_texts(0, payload).len() == 0,
        tag != 0 ==> entry_texts(tag, payload).len() == 0,
{
}

} // verus!
