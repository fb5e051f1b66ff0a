//! Finding Garmin radars on the network.
//!
//! An enhanced radar is registered once its capabilities and its range table
//! have both arrived. An HD radar sends neither; it is registered at once.

use vstd::prelude::*;
use vstd::slice::*;
use vstd::string::*;

use std::collections::HashMap;

use super::capabilities;
use super::capabilities::{cap, GarminCapabilities};
use super::discovery;
use super::discovery::{CdmProductData, ProductDataView};
use super::protocol::{
    DATA_PORT, GMN_HEADER_LEN, GarminRadarType, MSG_BEARING_ALIGNMENT, MSG_CAPABILITY,
    MSG_CDM_HEARTBEAT, MSG_CDM_PRODUCT_DATA, MSG_ERROR_MESSAGE, MSG_HD_SETTINGS, MSG_HD_SPOKE,
    MSG_HD_STATE, MSG_NOISE_BLANKER, MSG_NO_TX_ZONE_1_MODE, MSG_NO_TX_ZONE_1_START,
    MSG_NO_TX_ZONE_1_STOP, MSG_RANGE_A, MSG_RANGE_A_AUTO_LEVEL, MSG_RANGE_A_GAIN,
    MSG_RANGE_A_GAIN_MODE, MSG_RANGE_A_RAIN_GAIN, MSG_RANGE_A_RAIN_MODE, MSG_RANGE_A_SEA_GAIN,
    MSG_RANGE_A_SEA_MODE, MSG_RANGE_A_SEA_STATE, MSG_RANGE_TABLE, MSG_RPM_MODE, MSG_SCANNER_STATE,
    MSG_SENTRY_MODE, MSG_SENTRY_STANDBY_TIME, MSG_SENTRY_TRANSMIT_TIME, MSG_STATE_CHANGE,
    MSG_TRANSMIT_MODE, REPORT_PORT,
};
use super::range_table;
use super::report;
use crate::bytes::get_le32;
use crate::range;
use crate::range::Ranges;
use crate::text::{owned, same_text};

verus! {

broadcast use vstd::std_specs::hash::group_hash_axioms;

/// HD metric ranges, in meters.
pub const GARMIN_HD_RANGES_METRIC: [i32; 16] = [
    250, 500, 750, 1000, 1500, 2000, 3000, 4000, 6000, 8000, 12000, 16000, 24000, 36000, 48000,
    64000,
];

/// HD nautical ranges from 1/8 to 48 nautical miles, in meters.
pub const GARMIN_HD_RANGES_NAUTICAL: [i32; 16] = [
    232, 463, 926, 1389, 1852, 2778, 3704, 5556, 7408, 11112, 14816, 22224, 29632, 44448, 66672,
    88896,
];

/// The distances that an HD radar can be set to.
pub fn hd_ranges() -> (r: Ranges)
    ensures
        range::sorted_from(r@, GARMIN_HD_RANGES_METRIC@ + GARMIN_HD_RANGES_NAUTICAL@),
        r@ == range::sorted(GARMIN_HD_RANGES_METRIC@ + GARMIN_HD_RANGES_NAUTICAL@),
{
    let mut all: Vec<i32> = Vec::new();
    all.extend_from_slice(&GARMIN_HD_RANGES_METRIC);
    all.extend_from_slice(&GARMIN_HD_RANGES_NAUTICAL);
    assert(all@ =~= GARMIN_HD_RANGES_METRIC@ + GARMIN_HD_RANGES_NAUTICAL@);
    Ranges::new_by_distance(all.as_slice())
}

/// The generation of a radar, by its capabilities.
pub open spec fn generation(radar_type: GarminRadarType, caps: Set<u32>) -> Seq<char> {
    if radar_type == GarminRadarType::HD {
        "HD"@
    } else if caps.contains(cap::TRANSMIT_CHANNEL_MODE) || caps.contains(cap::NO_TX_ZONE_2_MODE) {
        "Fantom Pro"@
    } else if capabilities::motionscope(caps) || capabilities::doppler_sensitivity(caps) {
        "Fantom"@
    } else if caps.contains(cap::SCAN_AVERAGE_MODE_A) {
        "xHD3"@
    } else if caps.contains(cap::PULSE_EXPANSION_A) || caps.contains(cap::TARGET_SIZE_MODE_A) {
        "xHD2"@
    } else {
        "xHD"@
    }
}

/// A model name from the capabilities of a radar.
pub fn detect_model_name(detected_type: GarminRadarType, caps: &GarminCapabilities) -> (r: String)
    ensures
        r@ == "Garmin "@ + generation(detected_type, caps@),
{
    let generation = if detected_type == GarminRadarType::HD {
        "HD"
    } else if caps.has_transmit_channel_select() || caps.has_no_tx_zone_2() {
        "Fantom Pro"
    } else if caps.has_motionscope() || caps.has_doppler_sensitivity() {
        "Fantom"
    } else if caps.has_scan_average() {
        "xHD3"
    } else if caps.has_pulse_expansion() || caps.has_target_size_mode() {
        "xHD2"
    } else {
        "xHD"
    };
    let mut name = String::from_str("Garmin ");
    name.append(generation);
    name
}

/// How far a radar has come.
pub enum RadarState {
    /// Waiting for the capabilities and the range table.
    Pending {
        detected_type: GarminRadarType,
        capabilities: Option<GarminCapabilities>,
        ranges: Option<Ranges>,
    },
    Registered,
}

/// How far a radar has come.
pub ghost enum StateView {
    Pending {
        detected_type: GarminRadarType,
        capabilities: Option<Set<u32>>,
        ranges: Option<Seq<i32>>,
    },
    Registered,
}

impl View for RadarState {
    type V = StateView;

    open spec fn view(&self) -> StateView {
        match self {
            RadarState::Pending { detected_type, capabilities, ranges } => StateView::Pending {
                detected_type: *detected_type,
                capabilities: match capabilities {
                    Some(c) => Some(c@),
                    None => None,
                },
                ranges: match ranges {
                    Some(r) => Some(r@),
                    None => None,
                },
            },
            RadarState::Registered => StateView::Registered,
        }
    }
}

/// What is known of the radars on the network, by their address.
pub struct GarminLocator {
    pub radars: HashMap<u64, RadarState>,
    pub product_ids: HashMap<u64, u16>,
    pub device_names: HashMap<u64, CdmProductData>,
}

/// What is known of the radars on the network.
pub ghost struct LocatorView {
    pub radars: Map<u64, StateView>,
    pub product_ids: Map<u64, u16>,
    pub device_names: Map<u64, ProductDataView>,
}

impl View for GarminLocator {
    type V = LocatorView;

    open spec fn view(&self) -> LocatorView {
        LocatorView {
            radars: self.radars@.map_values(|s: RadarState| s@),
            product_ids: self.product_ids@,
            device_names: self.device_names@.map_values(|p: CdmProductData| p@),
        }
    }
}

/// A radar that is complete.
pub struct Registration {
    pub radar_type: GarminRadarType,
    pub model_name: String,
    pub user_name: String,
    /// The model name and the user name of range B, where there is one.
    pub range_b: Option<(String, String)>,
    /// Whether the radar marks Doppler returns.
    pub doppler: bool,
    pub capabilities: GarminCapabilities,
    pub ranges: Ranges,
    /// The port that spokes arrive on.
    pub data_port: u16,
}

/// What a complete radar is.
pub ghost struct RegistrationView {
    pub radar_type: GarminRadarType,
    pub model_name: Seq<char>,
    pub user_name: Seq<char>,
    pub range_b: Option<(Seq<char>, Seq<char>)>,
    pub doppler: bool,
    pub capabilities: Set<u32>,
    pub ranges: Seq<i32>,
    pub data_port: u16,
}

impl View for Registration {
    type V = RegistrationView;

    open spec fn view(&self) -> RegistrationView {
        RegistrationView {
            radar_type: self.radar_type,
            model_name: self.model_name@,
            user_name: self.user_name@,
            range_b: match self.range_b {
                Some(names) => Some((names.0@, names.1@)),
                None => None,
            },
            doppler: self.doppler,
            capabilities: self.capabilities@,
            ranges: self.ranges@,
            data_port: self.data_port,
        }
    }
}

/// What is to be done about a packet.
pub enum LocatorAction {
    Nothing,
    /// Ask the sender for its product data.
    AskProductData,
    /// Start the radar.
    Register(Registration),
}

/// What is to be done about a packet.
pub ghost enum ActionView {
    Nothing,
    AskProductData,
    Register(RegistrationView),
}

impl View for LocatorAction {
    type V = ActionView;

    open spec fn view(&self) -> ActionView {
        match self {
            LocatorAction::Nothing => ActionView::Nothing,
            LocatorAction::AskProductData => ActionView::AskProductData,
            LocatorAction::Register(r) => ActionView::Register(r@),
        }
    }
}

/// The radar type that a message tells.
pub open spec fn type_of_message(id: u32) -> Option<GarminRadarType> {
    if id == MSG_HD_SPOKE || id == MSG_HD_STATE || id == MSG_HD_SETTINGS {
        Some(GarminRadarType::HD)
    } else if id == MSG_RPM_MODE || id == MSG_TRANSMIT_MODE || id == MSG_RANGE_A || id
        == MSG_RANGE_A_GAIN_MODE || id == MSG_RANGE_A_GAIN || id == MSG_RANGE_A_AUTO_LEVEL || id
        == MSG_BEARING_ALIGNMENT || id == MSG_NOISE_BLANKER || id == MSG_RANGE_A_RAIN_MODE || id
        == MSG_RANGE_A_RAIN_GAIN || id == MSG_RANGE_A_SEA_MODE || id == MSG_RANGE_A_SEA_GAIN || id
        == MSG_RANGE_A_SEA_STATE || id == MSG_NO_TX_ZONE_1_MODE || id == MSG_NO_TX_ZONE_1_START
        || id == MSG_NO_TX_ZONE_1_STOP || id == MSG_SENTRY_MODE || id == MSG_SENTRY_STANDBY_TIME
        || id == MSG_SENTRY_TRANSMIT_TIME || id == MSG_SCANNER_STATE || id == MSG_STATE_CHANGE || id
        == MSG_ERROR_MESSAGE {
        Some(GarminRadarType::XHD)
    } else {
        None
    }
}

/// The model name of a radar: the name that the device tells, else that of its
/// product, else one from its capabilities.
pub open spec fn model_name(
    s: LocatorView,
    from: u64,
    radar_type: GarminRadarType,
    caps: Set<u32>,
) -> Seq<char> {
    if s.device_names.contains_key(from) && s.device_names[from].device_name.len() > 0 {
        s.device_names[from].device_name
    } else if s.product_ids.contains_key(from) && discovery::product_label(s.product_ids[from])
        is Some {
        discovery::product_label(s.product_ids[from])->0
    } else {
        "Garmin "@ + generation(radar_type, caps)
    }
}

/// The user name of a radar: its alias where the user gave it one, else the
/// model name.
pub open spec fn user_name(s: LocatorView, from: u64, model: Seq<char>) -> Seq<char> {
    if s.device_names.contains_key(from) && s.device_names[from].device_alias.len() > 0
        && s.device_names[from].device_alias != s.device_names[from].device_name {
        s.device_names[from].device_alias
    } else {
        model
    }
}

/// The registration of a radar.
pub open spec fn registration(
    s: LocatorView,
    from: u64,
    radar_type: GarminRadarType,
    caps: Set<u32>,
    ranges: Seq<i32>,
) -> RegistrationView {
    let model = model_name(s, from, radar_type, caps);
    let user = user_name(s, from, model);
    RegistrationView {
        radar_type,
        model_name: model,
        user_name: user,
        range_b: if caps.contains(cap::RANGE_B) {
            Some((model + " B"@, user + " B"@))
        } else {
            None
        },
        doppler: capabilities::motionscope(caps),
        capabilities: caps,
        ranges,
        data_port: if radar_type == GarminRadarType::HD { REPORT_PORT } else { DATA_PORT },
    }
}

/// The state with another entry for a radar.
pub open spec fn with_radar(s: LocatorView, from: u64, state: StateView) -> LocatorView {
    LocatorView { radars: s.radars.insert(from, state), ..s }
}

/// What happens when a radar is waiting for `state`: it is registered when
/// nothing is missing.
pub open spec fn pending_step(s: LocatorView, from: u64, state: StateView) -> (
    LocatorView,
    ActionView,
) {
    match state {
        StateView::Pending { detected_type, capabilities: Some(caps), ranges: Some(ranges) } => if
        detected_type.supported() {
            (
                with_radar(s, from, StateView::Registered),
                ActionView::Register(registration(s, from, detected_type, caps, ranges)),
            )
        } else {
            (with_radar(s, from, state), ActionView::Nothing)
        },
        _ => (with_radar(s, from, state), ActionView::Nothing),
    }
}

/// What a radar is waiting for, also when nothing has arrived yet.
pub open spec fn waiting(s: LocatorView, from: u64) -> StateView {
    if s.radars.contains_key(from) {
        s.radars[from]
    } else {
        StateView::Pending { detected_type: GarminRadarType::XHD, capabilities: None, ranges: None }
    }
}

/// The state with capabilities that arrived.
pub open spec fn with_capabilities(state: StateView, caps: Set<u32>) -> StateView {
    match state {
        StateView::Pending { detected_type, ranges, .. } => StateView::Pending {
            detected_type,
            capabilities: Some(caps),
            ranges,
        },
        StateView::Registered => state,
    }
}

/// The state with a range table that arrived.
pub open spec fn with_ranges(state: StateView, list: Seq<i32>) -> StateView {
    match state {
        StateView::Pending { detected_type, capabilities, .. } => StateView::Pending {
            detected_type,
            capabilities,
            ranges: Some(list),
        },
        StateView::Registered => state,
    }
}

/// What a packet from address `from` changes, and what is to be done about it.
pub open spec fn locator_step(s: LocatorView, packet: Seq<u8>, from: u64) -> (
    LocatorView,
    ActionView,
) {
    let id = report::message_id(packet);
    let payload = report::payload(packet);
    if packet.len() < GMN_HEADER_LEN {
        (s, ActionView::Nothing)
    } else if id == MSG_CDM_HEARTBEAT {
        match discovery::heartbeat(payload) {
            Some(hb) => if s.product_ids.contains_key(from) && s.product_ids[from]
                == hb.product_id {
                (s, ActionView::Nothing)
            } else {
                (
                    LocatorView { product_ids: s.product_ids.insert(from, hb.product_id), ..s },
                    ActionView::AskProductData,
                )
            },
            None => (s, ActionView::Nothing),
        }
    } else if id == MSG_CDM_PRODUCT_DATA {
        match discovery::product_data(payload) {
            Some(names) => (
                LocatorView { device_names: s.device_names.insert(from, names), ..s },
                ActionView::Nothing,
            ),
            None => (s, ActionView::Nothing),
        }
    } else if s.radars.contains_key(from) && s.radars[from] == StateView::Registered {
        (s, ActionView::Nothing)
    } else if id == MSG_CAPABILITY {
        if capabilities::is_complete(payload) {
            pending_step(
                s,
                from,
                with_capabilities(waiting(s, from), capabilities::reported(payload)),
            )
        } else {
            (s, ActionView::Nothing)
        }
    } else if id == MSG_RANGE_TABLE {
        if range_table::is_table(payload) {
            pending_step(
                s,
                from,
                with_ranges(waiting(s, from), range::sorted(range_table::distances(payload))),
            )
        } else {
            (s, ActionView::Nothing)
        }
    } else if type_of_message(id) is None || s.radars.contains_key(from) {
        (s, ActionView::Nothing)
    } else if type_of_message(id) == Some(GarminRadarType::HD) {
        let caps = capabilities::LEGACY_HD_BITS@.to_set();
        let ranges = range::sorted(GARMIN_HD_RANGES_METRIC@ + GARMIN_HD_RANGES_NAUTICAL@);
        (
            with_radar(s, from, StateView::Registered),
            ActionView::Register(registration(s, from, GarminRadarType::HD, caps, ranges)),
        )
    } else {
        (with_radar(s, from, waiting(s, from)), ActionView::Nothing)
    }
}

fn with_b(name: &str) -> (r: String)
    ensures
        r@ == name@ + " B"@,
{
    let mut s = String::from_str(name);
    s.append(" B");
    s
}

impl GarminLocator {
    /// No radars.
    pub fn new() -> (r: GarminLocator)
        ensures
            r@ == (LocatorView {
                radars: Map::empty(),
                product_ids: Map::empty(),
                device_names: Map::empty(),
            }),
    {
        let r = GarminLocator {
            radars: HashMap::new(),
            product_ids: HashMap::new(),
            device_names: HashMap::new(),
        };
        assert(r@.radars =~= Map::empty());
        assert(r@.device_names =~= Map::empty());
        r
    }

    /// The radar type that a message tells.
    pub fn detect_radar_type(packet_type: u32) -> (r: Option<GarminRadarType>)
        ensures
            r == type_of_message(packet_type),
    {
        match packet_type {
            MSG_HD_SPOKE | MSG_HD_STATE | MSG_HD_SETTINGS => Some(GarminRadarType::HD),
            MSG_RPM_MODE
            | MSG_TRANSMIT_MODE
            | MSG_RANGE_A
            | MSG_RANGE_A_GAIN_MODE
            | MSG_RANGE_A_GAIN
            | MSG_RANGE_A_AUTO_LEVEL
            | MSG_BEARING_ALIGNMENT
            | MSG_NOISE_BLANKER
            | MSG_RANGE_A_RAIN_MODE
            | MSG_RANGE_A_RAIN_GAIN
            | MSG_RANGE_A_SEA_MODE
            | MSG_RANGE_A_SEA_GAIN
            | MSG_RANGE_A_SEA_STATE
            | MSG_NO_TX_ZONE_1_MODE
            | MSG_NO_TX_ZONE_1_START
            | MSG_NO_TX_ZONE_1_STOP
            | MSG_SENTRY_MODE
            | MSG_SENTRY_STANDBY_TIME
            | MSG_SENTRY_TRANSMIT_TIME
            | MSG_SCANNER_STATE
            | MSG_STATE_CHANGE
            | MSG_ERROR_MESSAGE => Some(GarminRadarType::XHD),
            _ => None,
        }
    }

    fn set_state(&mut self, from: u64, state: RadarState)
        ensures
            final(self)@ == with_radar(old(self)@, from, state@),
    {
        self.radars.insert(from, state);
        proof {
            assert(self@.radars =~= old(self)@.radars.insert(from, state@));
        }
    }

    fn name_of(&self, radar_type: GarminRadarType, caps: &GarminCapabilities, from: u64) -> (r:
        String)
        ensures
            r@ == model_name(self@, from, radar_type, caps@),
    {
        match self.device_names.get(&from) {
            Some(names) => {
                if names.device_name.as_str().unicode_len() > 0 {
                    return owned(names.device_name.as_str());
                }
            },
            None => {},
        }
        match self.product_ids.get(&from) {
            Some(id) => match discovery::product_name(*id) {
                Some(name) => {
                    return owned(name);
                },
                None => {},
            },
            None => {},
        }
        detect_model_name(radar_type, caps)
    }

    fn user_name_of(&self, from: u64, model: &str) -> (r: String)
        ensures
            r@ == user_name(self@, from, model@),
    {
        match self.device_names.get(&from) {
            Some(names) => {
                if names.device_alias.as_str().unicode_len() > 0 && !same_text(
                    names.device_alias.as_str(),
                    names.device_name.as_str(),
                ) {
                    return owned(names.device_alias.as_str());
                }
            },
            None => {},
        }
        owned(model)
    }

    fn register(
        &mut self,
        radar_type: GarminRadarType,
        caps: GarminCapabilities,
        ranges: Ranges,
        from: u64,
    ) -> (r: LocatorAction)
        ensures
            final(self)@ == with_radar(old(self)@, from, StateView::Registered),
            r@ == ActionView::Register(registration(old(self)@, from, radar_type, caps@, ranges@)),
    {
        let model = self.name_of(radar_type, &caps, from);
        let user = self.user_name_of(from, model.as_str());
        let range_b = if caps.has_dual_range() {
            Some((with_b(model.as_str()), with_b(user.as_str())))
        } else {
            None
        };
        let data_port: u16 = if radar_type == GarminRadarType::HD {
            REPORT_PORT
        } else {
            DATA_PORT
        };
        self.set_state(from, RadarState::Registered);
        LocatorAction::Register(
            Registration {
                radar_type,
                model_name: model,
                user_name: user,
                range_b,
                doppler: caps.has_motionscope(),
                capabilities: caps,
                ranges,
                data_port,
            },
        )
    }

    fn try_register_pending(&mut self, from: u64, state: RadarState) -> (r: LocatorAction)
        ensures
            (final(self)@, r@) == pending_step(old(self)@, from, state@),
    {
        match state {
            RadarState::Pending {
                detected_type,
                capabilities: Some(caps),
                ranges: Some(ranges),
            } if detected_type.is_supported() => self.register(detected_type, caps, ranges, from),
            other => {
                self.set_state(from, other);
                LocatorAction::Nothing
            },
        }
    }

    /// What the radar is waiting for. Its entry is taken out.
    fn take_pending(&mut self, from: u64) -> (r: RadarState)
        ensures
            r@ == waiting(old(self)@, from),
            final(self)@ == (LocatorView {
                radars: old(self)@.radars.remove(from),
                ..old(self)@
            }),
    {
        let taken = self.radars.remove(&from);
        assert(self@.radars =~= old(self)@.radars.remove(from));
        match taken {
            Some(state) => state,
            None => RadarState::Pending {
                detected_type: GarminRadarType::XHD,
                capabilities: None,
                ranges: None,
            },
        }
    }

    fn is_registered(&self, from: u64) -> (r: bool)
        ensures
            r == (self@.radars.contains_key(from) && self@.radars[from] == StateView::Registered),
    {
        match self.radars.get(&from) {
            Some(RadarState::Registered) => true,
            _ => false,
        }
    }

    fn handle_cdm_heartbeat(&mut self, payload: &[u8], from: u64) -> (r: LocatorAction)
        ensures
            (final(self)@, r@) == match discovery::heartbeat(payload@) {
                Some(hb) => if old(self)@.product_ids.contains_key(from)
                    && old(self)@.product_ids[from] == hb.product_id {
                    (old(self)@, ActionView::Nothing)
                } else {
                    (
                        LocatorView {
                            product_ids: old(self)@.product_ids.insert(from, hb.product_id),
                            ..old(self)@
                        },
                        ActionView::AskProductData,
                    )
                },
                None => (old(self)@, ActionView::Nothing),
            },
    {
        match discovery::parse(payload) {
            Some(hb) => {
                let known = match self.product_ids.get(&from) {
                    Some(id) => *id == hb.product_id,
                    None => false,
                };
                if known {
                    LocatorAction::Nothing
                } else {
                    self.product_ids.insert(from, hb.product_id);
                    LocatorAction::AskProductData
                }
            },
            None => LocatorAction::Nothing,
        }
    }

    fn handle_cdm_product_data(&mut self, payload: &[u8], from: u64)
        ensures
            final(self)@ == match discovery::product_data(payload@) {
                Some(names) => (LocatorView {
                    device_names: old(self)@.device_names.insert(from, names),
                    ..old(self)@
                }),
                None => old(self)@,
            },
    {
        match discovery::parse_product_data(payload) {
            Some(names) => {
                self.device_names.insert(from, names);
                assert(self@.device_names =~= old(self)@.device_names.insert(from, names@));
            },
            None => {},
        }
    }

    fn handle_capability(&mut self, payload: &[u8], from: u64) -> (r: LocatorAction)
        requires
            waiting(old(self)@, from) is Pending,
        ensures
            (final(self)@, r@) == if capabilities::is_complete(payload@) {
                pending_step(
                    old(self)@,
                    from,
                    with_capabilities(
                        waiting(old(self)@, from),
                        capabilities::reported(payload@),
                    ),
                )
            } else {
                (old(self)@, ActionView::Nothing)
            },
    {
        match GarminCapabilities::parse(payload) {
            Some(caps) => {
                let state = self.take_pending(from);
                let next = match state {
                    RadarState::Pending { detected_type, ranges, .. } => RadarState::Pending {
                        detected_type,
                        capabilities: Some(caps),
                        ranges,
                    },
                    other => other,
                };
                let r = self.try_register_pending(from, next);
                proof {
                    lemma_replaced(old(self)@, from);
                }
                r
            },
            None => LocatorAction::Nothing,
        }
    }

    fn handle_range_table(&mut self, payload: &[u8], from: u64) -> (r: LocatorAction)
        requires
            waiting(old(self)@, from) is Pending,
        ensures
            (final(self)@, r@) == if range_table::is_table(payload@) {
                pending_step(
                    old(self)@,
                    from,
                    with_ranges(
                        waiting(old(self)@, from),
                        range::sorted(range_table::distances(payload@)),
                    ),
                )
            } else {
                (old(self)@, ActionView::Nothing)
            },
    {
        match range_table::parse(payload) {
            Some(list) => {
                let state = self.take_pending(from);
                let next = match state {
                    RadarState::Pending { detected_type, capabilities, .. } => RadarState::Pending {
                        detected_type,
                        capabilities,
                        ranges: Some(list),
                    },
                    other => other,
                };
                let r = self.try_register_pending(from, next);
                proof {
                    lemma_replaced(old(self)@, from);
                }
                r
            },
            None => LocatorAction::Nothing,
        }
    }

    /// Process a packet from address `from`.
    pub fn process_report(&mut self, packet: &[u8], from: u64) -> (r: LocatorAction)
        ensures
            (final(self)@, r@) == locator_step(old(self)@, packet@, from),
    {
        if packet.len() < GMN_HEADER_LEN {
            return LocatorAction::Nothing;
        }
        let id: u32 = get_le32(packet, 0);
        let payload = slice_subrange(packet, GMN_HEADER_LEN, packet.len());
        assert(payload@ =~= report::payload(packet@));
        if id == MSG_CDM_HEARTBEAT {
            return self.handle_cdm_heartbeat(payload, from);
        }
        if id == MSG_CDM_PRODUCT_DATA {
            self.handle_cdm_product_data(payload, from);
            return LocatorAction::Nothing;
        }
        if self.is_registered(from) {
            return LocatorAction::Nothing;
        }
        if id == MSG_CAPABILITY {
            return self.handle_capability(payload, from);
        }
        if id == MSG_RANGE_TABLE {
            return self.handle_range_table(payload, from);
        }
        let detected_type = match GarminLocator::detect_radar_type(id) {
            Some(t) => t,
            None => {
                return LocatorAction::Nothing;
            },
        };
        if self.radars.contains_key(&from) {
            return LocatorAction::Nothing;
        }
        match detected_type {
            GarminRadarType::HD => self.register(
                detected_type,
                GarminCapabilities::for_legacy_hd(),
                hd_ranges(),
                from,
            ),
            _ => {
                self.set_state(
                    from,
                    RadarState::Pending { detected_type, capabilities: None, ranges: None },
                );
                LocatorAction::Nothing
            },
        }
    }
}

proof fn lemma_replaced(s: LocatorView, from: u64)
    ensures
        forall|state: StateView| #[trigger]
            pending_step(
                LocatorView { radars: s.radars.remove(from), ..s },
                from,
                state,
            ) == pending_step(s, from, state),
{
    let t = LocatorView { radars: s.radars.remove(from), ..s };
    assert forall|state: StateView| #[trigger] pending_step(t, from, state) == pending_step(
        s,
        from,
        state,
    ) by {
        assert(t.radars.insert(from, state) =~= s.radars.insert(from, state));
        assert(t.radars.insert(from, StateView::Registered) =~= s.radars.insert(
            from,
            StateView::Registered,
        ));
    }
}

/// Whether every radar that is not registered is an enhanced one.
pub open spec fn only_enhanced_wait(s: LocatorView) -> bool {
    forall|from: u64| #[trigger]
        s.radars.contains_key(from) ==> (s.radars[from] matches StateView::Pending {
            detected_type,
            ..
        } ==> detected_type == GarminRadarType::XHD)
}

/// Only enhanced radars ever wait for their capabilities and range table.
pub proof fn law_only_enhanced_wait(s: LocatorView, packet: Seq<u8>, from: u64)
    requires
        only_enhanced_wait(s),
    ensures
        only_enhanced_wait(locator_step(s, packet, from).0),
{
    let next = locator_step(s, packet, from).0;
    assert forall|other: u64| #[trigger] next.radars.contains_key(other) implies (
    next.radars[other] matches StateView::Pending { detected_type, .. } ==> detected_type
        == GarminRadarType::XHD) by {
        assert(s.radars.contains_key(from) || !s.radars.contains_key(from));
        if other != from {
            assert(s.radars.contains_key(other));
        }
    }
}

/// A registered radar stays registered, and is not registered again.
pub proof fn law_registered_once(s: LocatorView, packet: Seq<u8>, from: u64)
    requires
        s.radars.contains_key(from),
        s.radars[from] == StateView::Registered,
    ensures
        locator_step(s, packet, from).0.radars == s.radars,
        !(locator_step(s, packet, from).1 is Register),
{
}

/// A packet changes nothing that is known of other addresses.
pub proof fn law_addresses_are_independent(s: LocatorView, packet: Seq<u8>, from: u64, other: u64)
    requires
        from != other,
    ensures
        ({
            let next = locator_step(s, packet, from).0;
            &&& next.radars.contains_key(other) == s.radars.contains_key(other)
            &&& s.radars.contains_key(other) ==> next.radars[other] == s.radars[other]
            &&& next.product_ids.contains_key(other) == s.product_ids.contains_key(other)
            &&& s.product_ids.contains_key(other) ==> next.product_ids[other]
                == s.product_ids[other]
            &&& next.device_names.contains_key(other) == s.device_names.contains_key(other)
            &&& s.device_names.contains_key(other) ==> next.device_names[other]
                == s.device_names[other]
        }),
{
}

/// An enhanced radar is registered when its capabilities and its range table
/// have arrived, in whatever order.
pub proof fn law_registered_when_complete(
    s: LocatorView,
    from: u64,
    caps_packet: Seq<u8>,
    table_packet: Seq<u8>,
)
    requires
        !s.radars.contains_key(from),
        caps_packet.len() >= GMN_HEADER_LEN,
        report::message_id(caps_packet) == MSG_CAPABILITY,
        capabilities::is_complete(report::payload(caps_packet)),
        table_packet.len() >= GMN_HEADER_LEN,
        report::message_id(table_packet) == MSG_RANGE_TABLE,
        range_table::is_table(report::payload(table_packet)),
    ensures
        ({
            let done = registration(
                s,
                from,
                GarminRadarType::XHD,
                capabilities::reported(report::payload(caps_packet)),
                range::sorted(range_table::distances(report::payload(table_packet))),
            );
            let (c, first) = locator_step(s, caps_packet, from);
            let (ct, second) = locator_step(c, table_packet, from);
            let (t, other_first) = locator_step(s, table_packet, from);
            let (tc, other_second) = locator_step(t, caps_packet, from);
            &&& first is Nothing && second == ActionView::Register(done)
            &&& other_first is Nothing && other_second == ActionView::Register(done)
            &&& ct == tc
        }),
{
    let (c, first) = locator_step(s, caps_packet, from);
    let (ct, second) = locator_step(c, table_packet, from);
    let (t, other_first) = locator_step(s, table_packet, from);
    let (tc, other_second) = locator_step(t, caps_packet, from);
    assert(ct.radars =~= tc.radars);
}

/// A device is asked for its names when its heartbeat first tells a product, and not again
/// by the next heartbeat of the same product.
pub proof fn law_heartbeat_asks_once(s: LocatorView, packet: Seq<u8>, from: u64, product_id: u16)
    requires
        packet.len() >= 20,
        packet[0] == 0x8e && packet[1] == 0x03 && packet[2] == 0 && packet[3] == 0,
        packet[8] == 2,
        packet[10] == product_id as int % 0x100,
        packet[11] == product_id as int / 0x100,
        !s.product_ids.contains_key(from),
    ensures
        ({
            let (next, action) = locator_step(s, packet, from);
            &&& action is AskProductData
            &&& next.product_ids.contains_key(from) && next.product_ids[from] == product_id
            &&& next.radars == s.radars && next.device_names == s.device_names
            &&& locator_step(next, packet, from) == (next, ActionView::Nothing)
        }),
{
    assert(report::message_id(packet) == 0x038e);
    let payload = report::payload(packet);
    discovery::law_heartbeat_reads_back(payload, product_id, payload[4], payload[5]);
}

/// An HD radar is started by its first message, with the port that its reports and spokes
/// share, and has one range.
pub proof fn law_hd_radar_is_started(s: LocatorView, packet: Seq<u8>, from: u64)
    requires
        packet.len() >= 8,
        packet[0] == 0xa3 || packet[0] == 0xa5 || packet[0] == 0xa7,
        packet[1] == 0x02 && packet[2] == 0 && packet[3] == 0,
        !s.radars.contains_key(from),
    ensures
        locator_step(s, packet, from).1 matches ActionView::Register(r) && {
            &&& r.radar_type == GarminRadarType::HD
            &&& r.range_b is None
            &&& !r.doppler
            &&& r.data_port == 50100
        },
        locator_step(s, packet, from).0.radars == s.radars.insert(from, StateView::Registered),
{
    capabilities::law_legacy_hd_is_basic();
}

/// A radar is called what it calls itself: by the alias that its user gave it, else by its
/// model. With range B there is a second radar of the same names, marked as B.
pub proof fn law_names_are_taken_over(
    s: LocatorView,
    from: u64,
    radar_type: GarminRadarType,
    caps: Set<u32>,
    ranges: Seq<i32>,
    name: Seq<char>,
    alias: Seq<char>,
)
    requires
        s.device_names.contains_key(from),
        s.device_names[from] == (discovery::ProductDataView {
            device_name: name,
            device_alias: alias,
        }),
        name.len() > 0,
    ensures
        ({
            let r = registration(s, from, radar_type, caps, ranges);
            &&& r.model_name == name
            &&& r.user_name == if alias.len() > 0 { alias } else { name }
            &&& r.range_b is Some <==> caps.contains(0x56)
            &&& r.range_b matches Some(names) ==> names.0 == name + " B"@ && names.1 == r.user_name
                + " B"@
            &&& r.doppler <==> caps.contains(0xa3) || caps.contains(0xa4)
            &&& r.capabilities == caps && r.ranges == ranges && r.radar_type == radar_type
            &&& radar_type == GarminRadarType::XHD ==> r.data_port == 50102
        }),
{
}

/// A radar that does not tell its name is called by its generation: what each generation
/// adds makes a radar one of it.
pub proof fn law_generations(caps: Set<u32>)
    ensures
        generation(GarminRadarType::HD, caps) == "HD"@,
        ({
            let g = generation(GarminRadarType::XHD, caps);
            let pro = caps.contains(0xb2) || caps.contains(0xbf);
            let doppler = caps.contains(0xa3) || caps.contains(0xa4) || caps.contains(0xc3)
                || caps.contains(0xc4);
            let average = caps.contains(0xca);
            let expansion = caps.contains(0xab) || caps.contains(0xbd);
            &&& pro ==> g == "Fantom Pro"@
            &&& !pro && doppler ==> g == "Fantom"@
            &&& !pro && !doppler && average ==> g == "xHD3"@
            &&& !pro && !doppler && !average && expansion ==> g == "xHD2"@
            &&& !pro && !doppler && !average && !expansion ==> g == "xHD"@
        }),
{
}

/// A radar is known by its messages: one of an HD radar starts it at once, one of an
/// enhanced radar makes it wait for what it still has to tell.
pub proof fn law_messages_tell_the_type(id: u32)
    ensures
        type_of_message(id) == Some(GarminRadarType::HD) <==> id == 0x02a3 || id == 0x02a5 || id
            == 0x02a7,
        type_of_message(id) == Some(GarminRadarType::XHD) ==> 0x0916 <= id <= 0x099b,
        ({
            ||| id == 0x0916 || id == 0x0919 || id == 0x091d || id == 0x091e
            ||| id == 0x0924 || id == 0x0925 || id == 0x0930 || id == 0x0932
            ||| id == 0x0933 || id == 0x0934 || 0x0939 <= id <= 0x093b
            ||| 0x093f <= id <= 0x0944
            ||| id == 0x0992 || id == 0x0993 || id == 0x099b
        }) <==> type_of_message(id) == Some(GarminRadarType::XHD),
{
}

} // verus!
