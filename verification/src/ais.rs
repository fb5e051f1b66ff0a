//! AIS vessel tracking and storage.
//!
//! The store collects what Signal K reports of AIS vessels over time, and says which
//! vessels are to be broadcast. Times are nanoseconds on a clock of the caller's that
//! never goes back.

use vstd::prelude::*;

use crate::json::{Json, Number};
use crate::text;
use crate::text::{chars_of, find, owned, same_text, text_of};

verus! {

/// Timeout after which a vessel is marked as "Lost" (3 minutes).
pub const AIS_TIMEOUT: u64 = 180_000_000_000;

/// Delay before broadcasting vessel updates, to coalesce rapid updates.
pub const BROADCAST_DELAY: u64 = 100_000_000;

/// GPS position.
#[derive(Clone, Copy, Debug)]
pub struct Position {
    pub latitude: Number,
    pub longitude: Number,
}

impl PartialEq for Position {
    fn eq(&self, other: &Position) -> (r: bool) {
        self.latitude == other.latitude && self.longitude == other.longitude
    }
}

impl vstd::std_specs::cmp::PartialEqSpecImpl for Position {
    open spec fn obeys_eq_spec() -> bool {
        true
    }

    open spec fn eq_spec(&self, other: &Position) -> bool {
        self.latitude.same(other.latitude) && self.longitude.same(other.longitude)
    }
}

/// Vessel dimensions and GPS antenna offset.
#[derive(Clone, Copy, Debug)]
pub struct Dimensions {
    pub length: Option<Number>,
    pub beam: Option<Number>,
    pub from_bow: Option<Number>,
    pub from_center: Option<Number>,
}

/// Whether an optional number compares as equal to another.
pub open spec fn same_option(a: Option<Number>, b: Option<Number>) -> bool {
    match (a, b) {
        (None, None) => true,
        (Some(x), Some(y)) => x.same(y),
        _ => false,
    }
}

impl PartialEq for Dimensions {
    fn eq(&self, other: &Dimensions) -> (r: bool) {
        self.length == other.length && self.beam == other.beam && self.from_bow == other.from_bow
            && self.from_center == other.from_center
    }
}

impl vstd::std_specs::cmp::PartialEqSpecImpl for Dimensions {
    open spec fn obeys_eq_spec() -> bool {
        true
    }

    open spec fn eq_spec(&self, other: &Dimensions) -> bool {
        &&& same_option(self.length, other.length)
        &&& same_option(self.beam, other.beam)
        &&& same_option(self.from_bow, other.from_bow)
        &&& same_option(self.from_center, other.from_center)
    }
}

/// Dimensions of which nothing is known.
pub open spec fn no_dimensions() -> Dimensions {
    Dimensions { length: None, beam: None, from_bow: None, from_center: None }
}

impl Default for Dimensions {
    fn default() -> (r: Dimensions)
        ensures
            r == no_dimensions(),
    {
        Dimensions { length: None, beam: None, from_bow: None, from_center: None }
    }
}

impl Dimensions {
    /// Returns true if at least one dimension field is known.
    pub fn has_any(&self) -> (r: bool)
        ensures
            r == (*self != no_dimensions()),
    {
        self.length.is_some() || self.beam.is_some() || self.from_bow.is_some()
            || self.from_center.is_some()
    }
}

/// AIS vessel data accumulated over time.
#[derive(Clone, Debug)]
pub struct AisVessel {
    pub mmsi: String,
    pub name: Option<String>,
    pub position: Option<Position>,
    pub dimensions: Dimensions,
    pub heading: Option<Number>,
    pub cog: Option<Number>,
    pub sog: Option<Number>,
    pub status: String,
    pub last_update: u64,
}

/// A vessel, with its texts as sequences of characters.
#[verifier::ext_equal]
pub ghost struct VesselView {
    pub mmsi: Seq<char>,
    pub name: Option<Seq<char>>,
    pub position: Option<Position>,
    pub dimensions: Dimensions,
    pub heading: Option<Number>,
    pub cog: Option<Number>,
    pub sog: Option<Number>,
    pub status: Seq<char>,
    pub last_update: u64,
}

impl View for AisVessel {
    type V = VesselView;

    open spec fn view(&self) -> VesselView {
        VesselView {
            mmsi: self.mmsi@,
            name: text::optional(self.name),
            position: self.position,
            dimensions: self.dimensions,
            heading: self.heading,
            cog: self.cog,
            sog: self.sog,
            status: self.status@,
            last_update: self.last_update,
        }
    }
}

/// What clients are told of a vessel. The dimensions are there only when one of them is
/// known.
#[derive(Debug)]
pub struct AisVesselApi {
    pub mmsi: String,
    pub name: Option<String>,
    pub position: Option<Position>,
    pub dimensions: Option<Dimensions>,
    pub heading: Option<Number>,
    pub cog: Option<Number>,
    pub sog: Option<Number>,
    pub status: String,
}

/// What clients are told, with its texts as sequences of characters.
#[verifier::ext_equal]
pub ghost struct ApiView {
    pub mmsi: Seq<char>,
    pub name: Option<Seq<char>>,
    pub position: Option<Position>,
    pub dimensions: Option<Dimensions>,
    pub heading: Option<Number>,
    pub cog: Option<Number>,
    pub sog: Option<Number>,
    pub status: Seq<char>,
}

impl View for AisVesselApi {
    type V = ApiView;

    open spec fn view(&self) -> ApiView {
        ApiView {
            mmsi: self.mmsi@,
            name: text::optional(self.name),
            position: self.position,
            dimensions: self.dimensions,
            heading: self.heading,
            cog: self.cog,
            sog: self.sog,
            status: self.status@,
        }
    }
}

/// What clients are told of a vessel.
pub open spec fn shown(v: VesselView) -> ApiView {
    ApiView {
        mmsi: v.mmsi,
        name: v.name,
        position: v.position,
        dimensions: if v.dimensions != no_dimensions() {
            Some(v.dimensions)
        } else {
            None
        },
        heading: v.heading,
        cog: v.cog,
        sog: v.sog,
        status: v.status,
    }
}

/// A copy of an optional text.
fn copy_text(s: &Option<String>) -> (r: Option<String>)
    ensures
        text::optional(r) == text::optional(*s),
{
    match s {
        Some(s) => Some(s.clone()),
        None => None,
    }
}

impl AisVesselApi {
    /// What clients are told of a vessel.
    pub fn from(vessel: &AisVessel) -> (r: AisVesselApi)
        ensures
            r@ == shown(vessel@),
    {
        AisVesselApi {
            mmsi: vessel.mmsi.clone(),
            name: copy_text(&vessel.name),
            position: vessel.position,
            dimensions: if vessel.dimensions.has_any() {
                Some(vessel.dimensions)
            } else {
                None
            },
            heading: vessel.heading,
            cog: vessel.cog,
            sog: vessel.sog,
            status: vessel.status.clone(),
        }
    }
}

/// One value that Signal K reports of a vessel.
pub ghost enum Change {
    Position(Position),
    Heading(Number),
    Cog(Number),
    Sog(Number),
    Length(Number),
    Beam(Number),
    FromBow(Number),
    FromCenter(Number),
    Name(Seq<char>),
    Nothing,
}

/// The path of a value; a missing one is empty.
pub open spec fn path_of(value: Json) -> Seq<char> {
    match value.member("path"@) {
        Some(path) => match path.text() {
            Some(text) => text,
            None => ""@,
        },
        None => ""@,
    }
}

/// The content of a value; a missing one is null.
pub open spec fn content_of(value: Json) -> Json {
    match value.member("value"@) {
        Some(content) => content,
        None => Json::Null,
    }
}

/// A number that is a member of a value.
pub open spec fn number_in(value: Json, key: Seq<char>) -> Option<Number> {
    match value.member(key) {
        Some(inner) => inner.number(),
        None => None,
    }
}

/// The position in a value, when both coordinates are there.
pub open spec fn position_in(content: Json) -> Change {
    match (number_in(content, "latitude"@), number_in(content, "longitude"@)) {
        (Some(latitude), Some(longitude)) => Change::Position(Position { latitude, longitude }),
        _ => Change::Nothing,
    }
}

/// The name in a value.
pub open spec fn name_in(content: Json) -> Change {
    match content.member("name"@) {
        Some(name) => match name.text() {
            Some(name) => Change::Name(name),
            None => Change::Nothing,
        },
        None => Change::Nothing,
    }
}

/// What one entry of the `values` of an update reports. The empty path holds the name
/// and other metadata.
pub open spec fn change_of(value: Json) -> Change {
    let path = path_of(value);
    let content = content_of(value);
    let number = content.number();
    if path == "navigation.position"@ {
        position_in(content)
    } else if path == "navigation.headingTrue"@ {
        if number is Some { Change::Heading(number->0) } else { Change::Nothing }
    } else if path == "navigation.courseOverGroundTrue"@ {
        if number is Some { Change::Cog(number->0) } else { Change::Nothing }
    } else if path == "navigation.speedOverGround"@ {
        if number is Some { Change::Sog(number->0) } else { Change::Nothing }
    } else if path == "design.length"@ {
        let overall = number_in(content, "overall"@);
        if overall is Some { Change::Length(overall->0) } else { Change::Nothing }
    } else if path == "design.beam"@ {
        if number is Some { Change::Beam(number->0) } else { Change::Nothing }
    } else if path == "sensors.ais.fromBow"@ {
        if number is Some { Change::FromBow(number->0) } else { Change::Nothing }
    } else if path == "sensors.ais.fromCenter"@ {
        if number is Some { Change::FromCenter(number->0) } else { Change::Nothing }
    } else if path == ""@ {
        name_in(content)
    } else {
        Change::Nothing
    }
}

/// Whether the vessel already has what a change reports.
pub open spec fn known(v: VesselView, c: Change) -> bool {
    match c {
        Change::Position(p) => v.position is Some && v.position->0.latitude.same(p.latitude)
            && v.position->0.longitude.same(p.longitude),
        Change::Heading(n) => same_option(v.heading, Some(n)),
        Change::Cog(n) => same_option(v.cog, Some(n)),
        Change::Sog(n) => same_option(v.sog, Some(n)),
        Change::Length(n) => same_option(v.dimensions.length, Some(n)),
        Change::Beam(n) => same_option(v.dimensions.beam, Some(n)),
        Change::FromBow(n) => same_option(v.dimensions.from_bow, Some(n)),
        Change::FromCenter(n) => same_option(v.dimensions.from_center, Some(n)),
        Change::Name(s) => v.name == Some(s),
        Change::Nothing => true,
    }
}

/// The vessel with a change made.
pub open spec fn with_change(v: VesselView, c: Change) -> VesselView {
    match c {
        Change::Position(p) => VesselView { position: Some(p), ..v },
        Change::Heading(n) => VesselView { heading: Some(n), ..v },
        Change::Cog(n) => VesselView { cog: Some(n), ..v },
        Change::Sog(n) => VesselView { sog: Some(n), ..v },
        Change::Length(n) => VesselView {
            dimensions: Dimensions { length: Some(n), ..v.dimensions },
            ..v
        },
        Change::Beam(n) => VesselView {
            dimensions: Dimensions { beam: Some(n), ..v.dimensions },
            ..v
        },
        Change::FromBow(n) => VesselView {
            dimensions: Dimensions { from_bow: Some(n), ..v.dimensions },
            ..v
        },
        Change::FromCenter(n) => VesselView {
            dimensions: Dimensions { from_center: Some(n), ..v.dimensions },
            ..v
        },
        Change::Name(s) => VesselView { name: Some(s), ..v },
        Change::Nothing => v,
    }
}

/// The vessel once a change is known; the flag says whether that was news.
pub open spec fn absorbed(v: VesselView, c: Change) -> (VesselView, bool) {
    if known(v, c) {
        (v, false)
    } else {
        (with_change(v, c), true)
    }
}

/// The vessel after the values of one update, in order, and whether one was news.
pub open spec fn after_values(v: VesselView, values: Seq<Json>) -> (VesselView, bool)
    decreases values.len(),
{
    if values.len() == 0 {
        (v, false)
    } else {
        let before = after_values(v, values.drop_last());
        let last = absorbed(before.0, change_of(values.last()));
        (last.0, before.1 || last.1)
    }
}

/// The values of an update; one that holds no list of values has none.
pub open spec fn values_of(update: Json) -> Seq<Json> {
    match update.member("values"@) {
        Some(values) => match values.elements() {
            Some(elements) => elements,
            None => seq![],
        },
        None => seq![],
    }
}

/// The values of a list of updates, in order.
pub open spec fn reported(updates: Seq<Json>) -> Seq<Json>
    decreases updates.len(),
{
    if updates.len() == 0 {
        seq![]
    } else {
        reported(updates.drop_last()) + values_of(updates.last())
    }
}

/// The updates of a message; what is no list holds none.
pub open spec fn updates_of(updates: Json) -> Seq<Json> {
    match updates.elements() {
        Some(elements) => elements,
        None => seq![],
    }
}

/// The vessel after a message that came at `now`, and whether a field changed.
pub open spec fn after_message(v: VesselView, updates: Json, now: u64) -> (VesselView, bool) {
    after_values(VesselView { last_update: now, ..v }, reported(updates_of(updates)))
}

/// A vessel of which only the MMSI is known.
pub open spec fn new_vessel(mmsi: Seq<char>, now: u64) -> VesselView {
    VesselView {
        mmsi,
        name: None,
        position: None,
        dimensions: no_dimensions(),
        heading: None,
        cog: None,
        sog: None,
        status: "Active"@,
        last_update: now,
    }
}

/// Stores a number unless it is there already.
fn replace(field: &mut Option<Number>, value: Option<Number>) -> (r: bool)
    ensures
        r == (value is Some && !same_option(*old(field), value)),
        *final(field) == (if r { value } else { *old(field) }),
{
    match value {
        Some(n) => if *field != Some(n) {
            *field = Some(n);
            true
        } else {
            false
        },
        None => false,
    }
}

/// A number that is a member of a value.
fn get_number(value: &Json, key: &str) -> (r: Option<Number>)
    ensures
        r == number_in(*value, key@),
{
    match value.get(key) {
        Some(inner) => inner.as_number(),
        None => None,
    }
}

impl AisVessel {
    /// A vessel of which only the MMSI is known.
    pub fn new(mmsi: String, now: u64) -> (r: AisVessel)
        ensures
            r@ == new_vessel(mmsi@, now),
    {
        AisVessel {
            mmsi,
            name: None,
            position: None,
            dimensions: Dimensions::default(),
            heading: None,
            cog: None,
            sog: None,
            status: owned("Active"),
            last_update: now,
        }
    }

    /// Takes in a position.
    fn absorb_position(&mut self, content: &Json) -> (r: bool)
        ensures
            (final(self)@, r) == absorbed(old(self)@, position_in(*content)),
    {
        let latitude = get_number(content, "latitude");
        let longitude = get_number(content, "longitude");
        match (latitude, longitude) {
            (Some(latitude), Some(longitude)) => {
                let position = Some(Position { latitude, longitude });
                if self.position != position {
                    self.position = position;
                    true
                } else {
                    false
                }
            },
            _ => false,
        }
    }

    /// Takes in a name.
    fn absorb_name(&mut self, content: &Json) -> (r: bool)
        ensures
            (final(self)@, r) == absorbed(old(self)@, name_in(*content)),
    {
        match content.get("name") {
            Some(name) => match name.as_str() {
                Some(name) => {
                    let same = match &self.name {
                        Some(current) => same_text(current.as_str(), name),
                        None => false,
                    };
                    if same {
                        false
                    } else {
                        self.name = Some(owned(name));
                        true
                    }
                },
                None => false,
            },
            None => false,
        }
    }

    /// Takes in one value of an update.
    fn absorb(&mut self, value: &Json) -> (r: bool)
        ensures
            (final(self)@, r) == absorbed(old(self)@, change_of(*value)),
    {
        let path: &str = match value.get("path") {
            Some(path) => match path.as_str() {
                Some(text) => text,
                None => "",
            },
            None => "",
        };
        let null = Json::Null;
        let content: &Json = match value.get("value") {
            Some(content) => content,
            None => &null,
        };
        if same_text(path, "navigation.position") {
            self.absorb_position(content)
        } else if same_text(path, "navigation.headingTrue") {
            replace(&mut self.heading, content.as_number())
        } else if same_text(path, "navigation.courseOverGroundTrue") {
            replace(&mut self.cog, content.as_number())
        } else if same_text(path, "navigation.speedOverGround") {
            replace(&mut self.sog, content.as_number())
        } else if same_text(path, "design.length") {
            replace(&mut self.dimensions.length, get_number(content, "overall"))
        } else if same_text(path, "design.beam") {
            replace(&mut self.dimensions.beam, content.as_number())
        } else if same_text(path, "sensors.ais.fromBow") {
            replace(&mut self.dimensions.from_bow, content.as_number())
        } else if same_text(path, "sensors.ais.fromCenter") {
            replace(&mut self.dimensions.from_center, content.as_number())
        } else if same_text(path, "") {
            self.absorb_name(content)
        } else {
            false
        }
    }

    /// Takes in the values of one update.
    fn absorb_values(&mut self, values: &Vec<Json>) -> (r: bool)
        ensures
            (final(self)@, r) == after_values(old(self)@, values@),
    {
        let ghost before = self@;
        let mut changed = false;
        let mut i: usize = 0;
        while i < values.len()
            invariant
                i <= values@.len(),
                (self@, changed) == after_values(before, values@.take(i as int)),
            decreases values@.len() - i,
        {
            assert(values@.take(i + 1).drop_last() =~= values@.take(i as int));
            if self.absorb(&values[i]) {
                changed = true;
            }
            i += 1;
        }
        assert(values@.take(i as int) =~= values@);
        changed
    }

    /// Updates the fields of the vessel from a Signal K message that came at `now`.
    /// Returns true if any field changed.
    pub fn update_from_signalk(&mut self, updates: &Json, now: u64) -> (r: bool)
        ensures
            (final(self)@, r) == after_message(old(self)@, *updates, now),
    {
        self.last_update = now;
        let ghost before = self@;
        let mut changed = false;
        if let Some(list) = updates.as_array() {
            let mut i: usize = 0;
            while i < list.len()
                invariant
                    i <= list@.len(),
                    (self@, changed) == after_values(before, reported(list@.take(i as int))),
                decreases list@.len() - i,
            {
                assert(list@.take(i + 1).drop_last() =~= list@.take(i as int));
                proof {
                    lemma_values_in_turn(
                        before,
                        reported(list@.take(i as int)),
                        values_of(list@[i as int]),
                    );
                }
                if let Some(values) = list[i].get("values") {
                    if let Some(values) = values.as_array() {
                        if self.absorb_values(values) {
                            changed = true;
                        }
                    }
                }
                i += 1;
            }
            assert(list@.take(i as int) =~= list@);
        }
        changed
    }
}

/// One past the last of the decimal digits that begin at `i`.
pub open spec fn digits_end(s: Seq<char>, i: int) -> int
    decreases s.len() - i,
{
    if 0 <= i < s.len() && '0' <= s[i] <= '9' {
        digits_end(s, i + 1)
    } else {
        i
    }
}

/// The MMSI in a context like "vessels.urn:mrn:imo:mmsi:227334400": the digits after
/// the first "mmsi:".
pub open spec fn mmsi_in(context: Seq<char>) -> Option<Seq<char>> {
    match text::position_of(context, "mmsi:"@) {
        Some(i) => {
            let from = i + "mmsi:"@.len();
            let to = digits_end(context, from);
            if from < to {
                Some(context.subrange(from, to))
            } else {
                None
            }
        },
        None => None,
    }
}

/// A vessel that waits for its broadcast.
#[derive(Debug)]
pub struct Pending {
    pub mmsi: String,
    pub time: u64,
}

/// A vessel that waits, by the characters of its MMSI.
#[verifier::ext_equal]
pub ghost struct PendingView {
    pub mmsi: Seq<char>,
    pub time: u64,
}

impl View for Pending {
    type V = PendingView;

    open spec fn view(&self) -> PendingView {
        PendingView { mmsi: self.mmsi@, time: self.time }
    }
}

/// A vessel update for all connected clients.
#[derive(Debug)]
pub struct Broadcast {
    pub path: String,
    pub vessel: AisVesselApi,
}

/// A vessel update, with its path as characters.
#[verifier::ext_equal]
pub ghost struct BroadcastView {
    pub path: Seq<char>,
    pub vessel: ApiView,
}

impl View for Broadcast {
    type V = BroadcastView;

    open spec fn view(&self) -> BroadcastView {
        BroadcastView { path: self.path@, vessel: self.vessel@ }
    }
}

/// What clients get for a vessel.
pub open spec fn broadcast_of(v: VesselView) -> BroadcastView {
    BroadcastView { path: "vessels."@ + v.mmsi, vessel: shown(v) }
}

/// What is to be sent, and for how many vessels.
#[derive(Debug)]
pub struct Delivery {
    pub count: usize,
    pub broadcasts: Vec<Broadcast>,
}

/// Store for AIS vessels, each with an MMSI of its own.
#[derive(Debug)]
pub struct AisVesselStore {
    pub vessels: Vec<AisVessel>,
    /// Vessels whose broadcast is scheduled.
    pub pending_broadcast: Vec<Pending>,
}

/// The views of the vessels.
pub open spec fn vessels_view(vessels: Seq<AisVessel>) -> Seq<VesselView> {
    Seq::new(vessels.len(), |i: int| vessels[i]@)
}

/// The views of the scheduled broadcasts.
pub open spec fn pending_view(pending: Seq<Pending>) -> Seq<PendingView> {
    Seq::new(pending.len(), |i: int| pending[i]@)
}

/// The views of the broadcasts.
pub open spec fn broadcasts_view(broadcasts: Seq<Broadcast>) -> Seq<BroadcastView> {
    Seq::new(broadcasts.len(), |i: int| broadcasts[i]@)
}

/// The views of what clients are told.
pub open spec fn apis_view(apis: Seq<AisVesselApi>) -> Seq<ApiView> {
    Seq::new(apis.len(), |i: int| apis[i]@)
}

/// The vessels and the scheduled broadcasts.
#[verifier::ext_equal]
pub ghost struct StoreView {
    pub vessels: Seq<VesselView>,
    pub pending: Seq<PendingView>,
}

impl View for AisVesselStore {
    type V = StoreView;

    open spec fn view(&self) -> StoreView {
        StoreView {
            vessels: vessels_view(self.vessels@),
            pending: pending_view(self.pending_broadcast@),
        }
    }
}

impl StoreView {
    /// No MMSI is there twice, nor scheduled twice.
    pub open spec fn wf(self) -> bool {
        &&& forall|i: int, j: int|
            0 <= i < j < self.vessels.len() ==> #[trigger] self.vessels[i].mmsi
                != #[trigger] self.vessels[j].mmsi
        &&& forall|i: int, j: int|
            0 <= i < j < self.pending.len() ==> #[trigger] self.pending[i].mmsi
                != #[trigger] self.pending[j].mmsi
    }
}

/// Whether a vessel with the MMSI stands at `i`.
pub open spec fn vessel_at(vessels: Seq<VesselView>, mmsi: Seq<char>, i: int) -> bool {
    0 <= i < vessels.len() && vessels[i].mmsi == mmsi
}

/// The vessel with the MMSI.
pub open spec fn vessel_in(vessels: Seq<VesselView>, mmsi: Seq<char>) -> Option<VesselView> {
    if exists|i: int| vessel_at(vessels, mmsi, i) {
        Some(vessels[choose|i: int| vessel_at(vessels, mmsi, i)])
    } else {
        None
    }
}

/// The vessels with one stored in the place of the one with its MMSI, or behind the
/// others.
pub open spec fn with_vessel(vessels: Seq<VesselView>, v: VesselView) -> Seq<VesselView> {
    if exists|i: int| vessel_at(vessels, v.mmsi, i) {
        vessels.update(choose|i: int| vessel_at(vessels, v.mmsi, i), v)
    } else {
        vessels.push(v)
    }
}

/// Whether a broadcast is scheduled for the MMSI.
pub open spec fn is_pending(pending: Seq<PendingView>, mmsi: Seq<char>) -> bool {
    exists|i: int| 0 <= i < pending.len() && #[trigger] pending[i].mmsi == mmsi
}

/// The schedule with a vessel added. One that is scheduled keeps its time, so that
/// updates are coalesced.
pub open spec fn scheduled(pending: Seq<PendingView>, mmsi: Seq<char>, time: u64) -> Seq<
    PendingView,
> {
    if is_pending(pending, mmsi) {
        pending
    } else {
        pending.push(PendingView { mmsi, time })
    }
}

/// The store after a message, and whether the vessel changed. A context without an
/// MMSI changes nothing.
pub open spec fn after_update(
    store: StoreView,
    context: Seq<char>,
    updates: Json,
    now: u64,
) -> (StoreView, bool) {
    match mmsi_in(context) {
        Some(mmsi) => {
            let before = match vessel_in(store.vessels, mmsi) {
                Some(v) => v,
                None => new_vessel(mmsi, now),
            };
            let (after, changed) = after_message(before, updates, now);
            (
                StoreView {
                    vessels: with_vessel(store.vessels, after),
                    pending: if changed {
                        scheduled(store.pending, mmsi, (now + BROADCAST_DELAY) as u64)
                    } else {
                        store.pending
                    },
                },
                changed,
            )
        },
        None => (store, false),
    }
}

/// The broadcasts that are due.
pub open spec fn due(pending: Seq<PendingView>, now: u64) -> Seq<PendingView>
    decreases pending.len(),
{
    if pending.len() == 0 {
        seq![]
    } else {
        let before = due(pending.drop_last(), now);
        if pending.last().time <= now {
            before.push(pending.last())
        } else {
            before
        }
    }
}

/// The broadcasts that are not due yet.
pub open spec fn not_due(pending: Seq<PendingView>, now: u64) -> Seq<PendingView>
    decreases pending.len(),
{
    if pending.len() == 0 {
        seq![]
    } else {
        let before = not_due(pending.drop_last(), now);
        if pending.last().time <= now {
            before
        } else {
            before.push(pending.last())
        }
    }
}

/// What is sent for scheduled vessels: those that are still there.
pub open spec fn sent(pending: Seq<PendingView>, vessels: Seq<VesselView>) -> Seq<BroadcastView>
    decreases pending.len(),
{
    if pending.len() == 0 {
        seq![]
    } else {
        let before = sent(pending.drop_last(), vessels);
        match vessel_in(vessels, pending.last().mmsi) {
            Some(v) => before.push(broadcast_of(v)),
            None => before,
        }
    }
}

/// What clients are told of the active vessels.
pub open spec fn active(vessels: Seq<VesselView>) -> Seq<ApiView>
    decreases vessels.len(),
{
    if vessels.len() == 0 {
        seq![]
    } else {
        let before = active(vessels.drop_last());
        if vessels.last().status == "Active"@ {
            before.push(shown(vessels.last()))
        } else {
            before
        }
    }
}

/// Whether nothing was heard of an active vessel for too long.
pub open spec fn timed_out(v: VesselView, now: u64) -> bool {
    v.status == "Active"@ && now > v.last_update + AIS_TIMEOUT
}

/// The vessels that have not timed out.
pub open spec fn remaining(vessels: Seq<VesselView>, now: u64) -> Seq<VesselView>
    decreases vessels.len(),
{
    if vessels.len() == 0 {
        seq![]
    } else {
        let before = remaining(vessels.drop_last(), now);
        if timed_out(vessels.last(), now) {
            before
        } else {
            before.push(vessels.last())
        }
    }
}

/// What is sent for the vessels that have timed out.
pub open spec fn farewells(vessels: Seq<VesselView>, now: u64) -> Seq<BroadcastView>
    decreases vessels.len(),
{
    if vessels.len() == 0 {
        seq![]
    } else {
        let before = farewells(vessels.drop_last(), now);
        if timed_out(vessels.last(), now) {
            before.push(broadcast_of(VesselView { status: "Lost"@, ..vessels.last() }))
        } else {
            before
        }
    }
}

/// Two lists of values, one after the other, are one list.
proof fn lemma_values_in_turn(v: VesselView, a: Seq<Json>, b: Seq<Json>)
    ensures
        after_values(v, a + b) == ({
            let first = after_values(v, a);
            let second = after_values(first.0, b);
            (second.0, first.1 || second.1)
        }),
    decreases b.len(),
{
    if b.len() == 0 {
        assert(a + b =~= a);
    } else {
        assert((a + b).drop_last() =~= a + b.drop_last());
        lemma_values_in_turn(v, a, b.drop_last());
    }
}

/// A vessel keeps its MMSI.
proof fn lemma_mmsi_stays(v: VesselView, values: Seq<Json>)
    ensures
        after_values(v, values).0.mmsi == v.mmsi,
    decreases values.len(),
{
    if values.len() > 0 {
        lemma_mmsi_stays(v, values.drop_last());
    }
}

/// One past the last of the digits that begin at `i`.
fn find_digits_end(s: &[char], i: usize) -> (r: usize)
    requires
        i <= s@.len(),
    ensures
        r == digits_end(s@, i as int),
        i <= r <= s@.len(),
{
    let mut to: usize = i;
    while to < s.len() && '0' <= s[to] && s[to] <= '9'
        invariant
            i <= to <= s@.len(),
            digits_end(s@, to as int) == digits_end(s@, i as int),
        decreases s@.len() - to,
    {
        to += 1;
    }
    to
}

impl AisVesselStore {
    /// A store without vessels.
    pub fn new() -> (r: AisVesselStore)
        ensures
            r@ == (StoreView { vessels: seq![], pending: seq![] }),
            r@.wf(),
    {
        AisVesselStore { vessels: Vec::new(), pending_broadcast: Vec::new() }
    }

    /// Extracts the MMSI from a context like "vessels.urn:mrn:imo:mmsi:227334400".
    pub fn extract_mmsi(context: &str) -> (r: Option<String>)
        ensures
            text::optional(r) == mmsi_in(context@),
    {
        let chars = chars_of(context);
        let wanted = chars_of("mmsi:");
        match find(chars.as_slice(), wanted.as_slice()) {
            Some(i) => {
                assert(i + wanted.len() <= chars.len());
                let from: usize = i + wanted.len();
                let to: usize = find_digits_end(chars.as_slice(), from);
                if from < to {
                    Some(text_of(vstd::slice::slice_subrange(chars.as_slice(), from, to)))
                } else {
                    None
                }
            },
            None => None,
        }
    }

    /// The position of the vessel with the MMSI.
    fn position(&self, mmsi: &str) -> (r: Option<usize>)
        requires
            self@.wf(),
        ensures
            r is Some == vessel_in(self@.vessels, mmsi@) is Some,
            r matches Some(i) ==> {
                &&& i < self.vessels@.len()
                &&& vessel_in(self@.vessels, mmsi@) == Some(self.vessels@[i as int]@)
                &&& vessel_at(self@.vessels, mmsi@, i as int)
                &&& i == choose|k: int| vessel_at(self@.vessels, mmsi@, k)
            },
    {
        let mut i: usize = 0;
        while i < self.vessels.len()
            invariant
                i <= self.vessels@.len(),
                self@.wf(),
                forall|k: int| k < i ==> !vessel_at(self@.vessels, mmsi@, k),
            decreases self.vessels@.len() - i,
        {
            if same_text(self.vessels[i].mmsi.as_str(), mmsi) {
                proof {
                    assert(vessel_at(self@.vessels, mmsi@, i as int));
                    let k = choose|k: int| vessel_at(self@.vessels, mmsi@, k);
                    assert(vessel_at(self@.vessels, mmsi@, k));
                    if k < i {
                        assert(self@.vessels[k].mmsi != self@.vessels[i as int].mmsi);
                    } else if i < k {
                        assert(self@.vessels[i as int].mmsi != self@.vessels[k].mmsi);
                    }
                }
                return Some(i);
            }
            i += 1;
        }
        None
    }

    /// Schedules a vessel for delayed broadcast. If it is scheduled already, the time
    /// stays, to coalesce updates.
    fn schedule_broadcast(&mut self, mmsi: &str, time: u64)
        requires
            old(self)@.wf(),
        ensures
            final(self)@.wf(),
            final(self).vessels == old(self).vessels,
            final(self)@.pending == scheduled(old(self)@.pending, mmsi@, time),
    {
        let mut i: usize = 0;
        while i < self.pending_broadcast.len()
            invariant
                i <= self.pending_broadcast@.len(),
                *self == *old(self),
                self@.wf(),
                forall|k: int| 0 <= k < i ==> #[trigger] self@.pending[k].mmsi != mmsi@,
            decreases self.pending_broadcast@.len() - i,
        {
            if same_text(self.pending_broadcast[i].mmsi.as_str(), mmsi) {
                assert(self@.pending[i as int].mmsi == mmsi@);
                return ;
            }
            i += 1;
        }
        let ghost before = self@.pending;
        self.pending_broadcast.push(Pending { mmsi: owned(mmsi), time });
        assert(self@.pending =~= before.push(PendingView { mmsi: mmsi@, time }));
    }

    /// Updates vessel data from a Signal K message that came at `now`. Returns true if
    /// the vessel data changed.
    pub fn update(&mut self, context: &str, updates: &Json, now: u64) -> (r: bool)
        requires
            old(self)@.wf(),
            now + BROADCAST_DELAY <= u64::MAX,
        ensures
            final(self)@.wf(),
            (final(self)@, r) == after_update(old(self)@, context@, *updates, now),
    {
        let mmsi = match Self::extract_mmsi(context) {
            Some(mmsi) => mmsi,
            None => {
                return false;
            },
        };
        let ghost store = self@;
        let changed = match self.position(mmsi.as_str()) {
            Some(i) => {
                let changed = self.vessels[i].update_from_signalk(updates, now);
                proof {
                    let before = store.vessels[i as int];
                    let after = after_message(before, *updates, now);
                    lemma_mmsi_stays(
                        VesselView { last_update: now, ..before },
                        reported(updates_of(*updates)),
                    );
                    assert(self@.vessels =~= store.vessels.update(i as int, after.0));
                    assert(self@.vessels == with_vessel(store.vessels, after.0));
                }
                changed
            },
            None => {
                let mut vessel = AisVessel::new(mmsi.clone(), now);
                let changed = vessel.update_from_signalk(updates, now);
                proof {
                    lemma_mmsi_stays(
                        VesselView { last_update: now, ..new_vessel(mmsi@, now) },
                        reported(updates_of(*updates)),
                    );
                }
                let ghost after = vessel@;
                self.vessels.push(vessel);
                proof {
                    assert(self@.vessels =~= store.vessels.push(after));
                    assert forall|k: int| 0 <= k < store.vessels.len() implies
                        #[trigger] store.vessels[k].mmsi != mmsi@ by {
                        assert(!vessel_at(store.vessels, mmsi@, k));
                    }
                    assert(self@.vessels == with_vessel(store.vessels, after));
                }
                changed
            },
        };
        assert(self@.pending == store.pending);
        assert(self@.wf());
        if changed {
            self.schedule_broadcast(mmsi.as_str(), now + BROADCAST_DELAY);
        }
        changed
    }

    /// Flushes the scheduled broadcasts that are due, and counts the vessels that were
    /// broadcast. For a vessel that has left the store nothing is sent.
    pub fn flush_pending_broadcasts(&mut self, now: u64) -> (r: Delivery)
        requires
            old(self)@.wf(),
        ensures
            final(self)@.wf(),
            final(self).vessels == old(self).vessels,
            final(self)@.pending == not_due(old(self)@.pending, now),
            r.count == r.broadcasts@.len(),
            broadcasts_view(r.broadcasts@) == sent(
                due(old(self)@.pending, now),
                old(self)@.vessels,
            ),
    {
        let mut broadcasts: Vec<Broadcast> = Vec::new();
        let mut kept: Vec<Pending> = Vec::new();
        let mut i: usize = 0;
        assert(broadcasts_view(broadcasts@) =~= seq![]);
        assert(pending_view(kept@) =~= seq![]);
        while i < self.pending_broadcast.len()
            invariant
                i <= self.pending_broadcast@.len(),
                *self == *old(self),
                self@.wf(),
                pending_view(kept@) == not_due(self@.pending.take(i as int), now),
                broadcasts_view(broadcasts@) == sent(
                    due(self@.pending.take(i as int), now),
                    self@.vessels,
                ),
            decreases self.pending_broadcast@.len() - i,
        {
            let ghost before = self@.pending.take(i as int);
            let ghost after = self@.pending.take(i + 1);
            assert(after.drop_last() =~= before);
            let ghost kept_before = kept@;
            let ghost sent_before = broadcasts@;
            let pending = &self.pending_broadcast[i];
            assert(after.last() == pending@);
            if now >= pending.time {
                assert(due(after, now).drop_last() =~= due(before, now));
                assert(due(after, now).last() == pending@);
                if let Some(k) = self.position(pending.mmsi.as_str()) {
                    broadcasts.push(broadcast_vessel(&self.vessels[k]));
                    assert(broadcasts_view(broadcasts@) =~= broadcasts_view(sent_before).push(
                        broadcast_of(self.vessels@[k as int]@),
                    ));
                }
            } else {
                kept.push(Pending { mmsi: pending.mmsi.clone(), time: pending.time });
                assert(pending_view(kept@) =~= pending_view(kept_before).push(pending@));
            }
            i += 1;
        }
        proof {
            assert(self@.pending.take(i as int) =~= self@.pending);
            lemma_parts_of_pending(self@.pending, now);
        }
        self.pending_broadcast = kept;
        Delivery { count: broadcasts.len(), broadcasts }
    }

    /// All active vessels, for a client that connects.
    pub fn get_all_active(&self) -> (r: Vec<AisVesselApi>)
        ensures
            apis_view(r@) == active(self@.vessels),
    {
        let mut out: Vec<AisVesselApi> = Vec::new();
        let mut i: usize = 0;
        assert(apis_view(out@) =~= seq![]);
        while i < self.vessels.len()
            invariant
                i <= self.vessels@.len(),
                apis_view(out@) == active(self@.vessels.take(i as int)),
            decreases self.vessels@.len() - i,
        {
            let ghost before = out@;
            assert(self@.vessels.take(i + 1).drop_last() =~= self@.vessels.take(i as int));
            if same_text(self.vessels[i].status.as_str(), "Active") {
                out.push(AisVesselApi::from(&self.vessels[i]));
                assert(apis_view(out@) =~= apis_view(before).push(shown(self.vessels@[i as int]@)));
            }
            i += 1;
        }
        assert(self@.vessels.take(i as int) =~= self@.vessels);
        out
    }

    /// Checks for timed-out vessels. Each is marked as lost, broadcast at once and
    /// removed.
    pub fn check_timeouts(&mut self, now: u64) -> (r: Delivery)
        requires
            old(self)@.wf(),
        ensures
            final(self)@.wf(),
            final(self).pending_broadcast == old(self).pending_broadcast,
            final(self)@.vessels == remaining(old(self)@.vessels, now),
            broadcasts_view(r.broadcasts@) == farewells(old(self)@.vessels, now),
            r.count == r.broadcasts@.len(),
    {
        let ghost vessels = self@.vessels;
        let ghost mut done: int = 0;
        let mut broadcasts: Vec<Broadcast> = Vec::new();
        let mut i: usize = 0;
        assert(broadcasts_view(broadcasts@) =~= seq![]);
        assert(remaining(vessels.take(0), now) + vessels.skip(0) =~= vessels);
        while i < self.vessels.len()
            invariant
                0 <= done <= vessels.len(),
                old(self)@.wf(),
                vessels == old(self)@.vessels,
                self.pending_broadcast == old(self).pending_broadcast,
                i == remaining(vessels.take(done), now).len(),
                self.vessels@.len() == i + vessels.len() - done,
                self@.vessels == remaining(vessels.take(done), now) + vessels.skip(done),
                broadcasts_view(broadcasts@) == farewells(vessels.take(done), now),
            decreases vessels.len() - done,
        {
            let ghost sent_before = broadcasts@;
            let ghost kept = remaining(vessels.take(done), now);
            proof {
                assert(vessels.take(done + 1).drop_last() =~= vessels.take(done));
                assert(self@.vessels[i as int] == vessels.skip(done)[0]);
                assert(vessels.take(done + 1).last() == vessels[done]);
            }
            let lost = same_text(self.vessels[i].status.as_str(), "Active") && now
                > self.vessels[i].last_update && now - self.vessels[i].last_update > AIS_TIMEOUT;
            if lost {
                let ghost all = self@.vessels;
                let mut vessel = self.vessels.remove(i);
                vessel.status = owned("Lost");
                broadcasts.push(broadcast_vessel(&vessel));
                proof {
                    assert(self@.vessels =~= all.remove(i as int));
                    assert(self@.vessels =~= kept + vessels.skip(done + 1));
                    assert(broadcasts_view(broadcasts@) =~= broadcasts_view(sent_before).push(
                        broadcast_of(VesselView { status: "Lost"@, ..vessels[done] }),
                    ));
                }
            } else {
                i += 1;
                assert(self@.vessels =~= kept.push(vessels[done]) + vessels.skip(done + 1));
            }
            proof {
                done = done + 1;
            }
        }
        proof {
            assert(vessels.take(done) =~= vessels);
            assert(self@.vessels =~= remaining(vessels, now));
            lemma_remaining(vessels, now);
            assert(self@.pending == old(self)@.pending);
        }
        Delivery { count: broadcasts.len(), broadcasts }
    }
}

/// What clients get for a vessel.
fn broadcast_vessel(vessel: &AisVessel) -> (r: Broadcast)
    ensures
        r@ == broadcast_of(vessel@),
{
    let mut path = owned("vessels.");
    path.append(vessel.mmsi.as_str());
    Broadcast { path, vessel: AisVesselApi::from(vessel) }
}

/// What is due and what is not are parts of the schedule, in its order; each entry is
/// in one of them.
proof fn lemma_parts_of_pending(pending: Seq<PendingView>, now: u64)
    ensures
        due(pending, now).len() + not_due(pending, now).len() == pending.len(),
        forall|i: int|
            0 <= i < due(pending, now).len() ==> (#[trigger] due(pending, now)[i]).time <= now
                && pending.contains(due(pending, now)[i]),
        forall|i: int|
            0 <= i < not_due(pending, now).len() ==> (#[trigger] not_due(pending, now)[i]).time
                > now && pending.contains(not_due(pending, now)[i]),
        (forall|i: int, j: int|
            0 <= i < j < pending.len() ==> #[trigger] pending[i].mmsi
                != #[trigger] pending[j].mmsi) ==> forall|i: int, j: int|
            0 <= i < j < not_due(pending, now).len() ==> #[trigger] not_due(pending, now)[i].mmsi
                != #[trigger] not_due(pending, now)[j].mmsi,
    decreases pending.len(),
{
    if pending.len() > 0 {
        let front = pending.drop_last();
        lemma_parts_of_pending(front, now);
        assert forall|x: PendingView| front.contains(x) implies pending.contains(x) by {
            let k = choose|k: int| 0 <= k < front.len() && front[k] == x;
            assert(pending[k] == x);
        }
        assert(pending[pending.len() - 1] == pending.last());
        if forall|i: int, j: int|
            0 <= i < j < pending.len() ==> #[trigger] pending[i].mmsi
                != #[trigger] pending[j].mmsi {
            assert forall|i: int, j: int|
                0 <= i < j < front.len() implies #[trigger] front[i].mmsi
                != #[trigger] front[j].mmsi by {
                assert(pending[i].mmsi != pending[j].mmsi);
            }
            assert forall|i: int| 0 <= i < not_due(front, now).len() implies #[trigger] not_due(
                front,
                now,
            )[i].mmsi != pending.last().mmsi by {
                let x = not_due(front, now)[i];
                let k = choose|k: int| 0 <= k < front.len() && front[k] == x;
                assert(pending[k].mmsi != pending[pending.len() - 1].mmsi);
            }
        }
    }
}

/// The vessels that remain are some of the vessels, in their order; none has timed out,
/// and each of the others has.
proof fn lemma_remaining(vessels: Seq<VesselView>, now: u64)
    ensures
        remaining(vessels, now).len() + farewells(vessels, now).len() == vessels.len(),
        forall|i: int|
            0 <= i < remaining(vessels, now).len() ==> !timed_out(
                #[trigger] remaining(vessels, now)[i],
                now,
            ) && vessels.contains(remaining(vessels, now)[i]),
        forall|i: int|
            0 <= i < vessels.len() && !timed_out(#[trigger] vessels[i], now) ==> remaining(
                vessels,
                now,
            ).contains(vessels[i]),
        (forall|i: int, j: int|
            0 <= i < j < vessels.len() ==> #[trigger] vessels[i].mmsi
                != #[trigger] vessels[j].mmsi) ==> forall|i: int, j: int|
            0 <= i < j < remaining(vessels, now).len() ==> #[trigger] remaining(vessels, now)[i].mmsi
                != #[trigger] remaining(vessels, now)[j].mmsi,
    decreases vessels.len(),
{
    if vessels.len() > 0 {
        let front = vessels.drop_last();
        let kept = remaining(vessels, now);
        lemma_remaining(front, now);
        assert forall|x: VesselView| front.contains(x) implies vessels.contains(x) by {
            let k = choose|k: int| 0 <= k < front.len() && front[k] == x;
            assert(vessels[k] == x);
        }
        assert(vessels[vessels.len() - 1] == vessels.last());
        assert forall|i: int|
            0 <= i < vessels.len() && !timed_out(#[trigger] vessels[i], now) implies kept.contains(
            vessels[i],
        ) by {
            if i < front.len() {
                assert(front[i] == vessels[i]);
                let k = choose|k: int|
                    0 <= k < remaining(front, now).len() && remaining(front, now)[k] == front[i];
                assert(kept[k] == vessels[i]);
            } else {
                assert(kept[kept.len() - 1] == vessels[i]);
            }
        }
        if forall|i: int, j: int|
            0 <= i < j < vessels.len() ==> #[trigger] vessels[i].mmsi
                != #[trigger] vessels[j].mmsi {
            assert forall|i: int, j: int|
                0 <= i < j < front.len() implies #[trigger] front[i].mmsi
                != #[trigger] front[j].mmsi by {
                assert(vessels[i].mmsi != vessels[j].mmsi);
            }
            assert forall|i: int| 0 <= i < remaining(front, now).len() implies #[trigger] remaining(
                front,
                now,
            )[i].mmsi != vessels.last().mmsi by {
                let x = remaining(front, now)[i];
                let k = choose|k: int| 0 <= k < front.len() && front[k] == x;
                assert(vessels[k].mmsi != vessels[vessels.len() - 1].mmsi);
            }
        }
    }
}

/// What a change speaks of; `None` where it reports nothing.
pub open spec fn kind(c: Change) -> Option<int> {
    match c {
        Change::Position(_) => Some(0),
        Change::Heading(_) => Some(1),
        Change::Cog(_) => Some(2),
        Change::Sog(_) => Some(3),
        Change::Length(_) => Some(4),
        Change::Beam(_) => Some(5),
        Change::FromBow(_) => Some(6),
        Change::FromCenter(_) => Some(7),
        Change::Name(_) => Some(8),
        Change::Nothing => None,
    }
}

/// Whether the numbers of a change are numbers.
pub open spec fn is_numeric(c: Change) -> bool {
    match c {
        Change::Position(p) => !p.latitude.nan() && !p.longitude.nan(),
        Change::Heading(n) => !n.nan(),
        Change::Cog(n) => !n.nan(),
        Change::Sog(n) => !n.nan(),
        Change::Length(n) => !n.nan(),
        Change::Beam(n) => !n.nan(),
        Change::FromBow(n) => !n.nan(),
        Change::FromCenter(n) => !n.nan(),
        _ => true,
    }
}

/// Data accumulates: a change that was taken in is known, and everything else that was
/// known of the vessel still is.
pub proof fn law_data_accumulates(v: VesselView, c: Change, d: Change)
    requires
        is_numeric(c),
    ensures
        known(absorbed(v, c).0, c),
        known(v, d) && kind(d) != kind(c) ==> known(absorbed(v, c).0, d),
        absorbed(v, c).0.mmsi == v.mmsi,
        absorbed(v, c).0.status == v.status,
{
}

/// Where no field changed, the vessel is as it was.
pub proof fn law_unchanged_vessel_stays(v: VesselView, values: Seq<Json>)
    ensures
        !after_values(v, values).1 ==> after_values(v, values).0 == v,
    decreases values.len(),
{
    if values.len() > 0 {
        law_unchanged_vessel_stays(v, values.drop_last());
    }
}

/// Values that are all known change nothing.
pub proof fn law_known_values_change_nothing(v: VesselView, values: Seq<Json>)
    requires
        forall|i: int| 0 <= i < values.len() ==> known(v, change_of(#[trigger] values[i])),
    ensures
        after_values(v, values) == (v, false),
    decreases values.len(),
{
    if values.len() > 0 {
        let front = values.drop_last();
        assert forall|i: int| 0 <= i < front.len() implies known(
            v,
            change_of(#[trigger] front[i]),
        ) by {
            assert(front[i] == values[i]);
        }
        law_known_values_change_nothing(v, front);
        assert(known(v, change_of(values[values.len() - 1])));
    }
}

/// Whether the numbers of all values are numbers, as those of a JSON text always are.
pub open spec fn all_numeric(values: Seq<Json>) -> bool {
    forall|i: int| 0 <= i < values.len() ==> is_numeric(change_of(#[trigger] values[i]))
}

/// Whether no two values speak of the same thing.
pub open spec fn told_once(values: Seq<Json>) -> bool {
    forall|i: int, j: int|
        0 <= i < j < values.len() && kind(change_of(values[j])) is Some ==> kind(
            change_of(#[trigger] values[i]),
        ) != kind(change_of(#[trigger] values[j]))
}

/// Values that are told once are all known when they were taken in.
proof fn lemma_told_values_are_known(v: VesselView, values: Seq<Json>)
    requires
        all_numeric(values),
        told_once(values),
    ensures
        forall|i: int|
            0 <= i < values.len() ==> known(
                after_values(v, values).0,
                change_of(#[trigger] values[i]),
            ),
    decreases values.len(),
{
    if values.len() > 0 {
        let front = values.drop_last();
        let n = values.len() - 1;
        assert(all_numeric(front) && told_once(front)) by {
            assert forall|i: int| 0 <= i < front.len() implies is_numeric(
                change_of(#[trigger] front[i]),
            ) by {
                assert(is_numeric(change_of(values[i])));
            }
            assert forall|i: int, j: int|
                0 <= i < j < front.len() && kind(change_of(front[j])) is Some implies kind(
                change_of(#[trigger] front[i]),
            ) != kind(change_of(#[trigger] front[j])) by {
                assert(kind(change_of(values[i])) != kind(change_of(values[j])));
            }
        }
        lemma_told_values_are_known(v, front);
        let before = after_values(v, front).0;
        let last = change_of(values[n]);
        assert(is_numeric(last));
        assert forall|i: int| 0 <= i < values.len() implies known(
            after_values(v, values).0,
            change_of(#[trigger] values[i]),
        ) by {
            if i < n {
                assert(front[i] == values[i]);
                if last != Change::Nothing {
                    assert(kind(change_of(values[i])) != kind(change_of(values[n])));
                    law_data_accumulates(before, last, change_of(values[i]));
                }
            } else {
                law_data_accumulates(before, last, last);
            }
        }
    }
}

/// The same message again changes no field, if no two of its values speak of the same
/// thing.
pub proof fn law_repeated_message_changes_nothing(
    v: VesselView,
    updates: Json,
    now: u64,
    later: u64,
)
    requires
        all_numeric(reported(updates_of(updates))),
        told_once(reported(updates_of(updates))),
    ensures
        !after_message(after_message(v, updates, now).0, updates, later).1,
{
    let values = reported(updates_of(updates));
    lemma_told_values_are_known(VesselView { last_update: now, ..v }, values);
    let again = VesselView { last_update: later, ..after_message(v, updates, now).0 };
    assert forall|i: int| 0 <= i < values.len() implies known(
        again,
        change_of(#[trigger] values[i]),
    ) by {
        assert(known(after_message(v, updates, now).0, change_of(values[i])));
    }
    law_known_values_change_nothing(again, values);
}

/// An MMSI is made of digits, at least one.
pub proof fn law_mmsi_is_digits(context: Seq<char>)
    ensures
        mmsi_in(context) matches Some(mmsi) ==> mmsi.len() > 0 && forall|i: int|
            0 <= i < mmsi.len() ==> '0' <= #[trigger] mmsi[i] <= '9',
{
    if let Some(mmsi) = mmsi_in(context) {
        let from = text::position_of(context, "mmsi:"@)->0 + "mmsi:"@.len();
        lemma_digits(context, from);
    }
}

proof fn lemma_digits(s: Seq<char>, i: int)
    ensures
        i <= digits_end(s, i),
        0 <= i <= s.len() ==> digits_end(s, i) <= s.len(),
        forall|k: int| i <= k < digits_end(s, i) ==> 0 <= k < s.len() && '0' <= #[trigger] s[k]
            <= '9',
    decreases s.len() - i,
{
    if 0 <= i < s.len() && '0' <= s[i] <= '9' {
        lemma_digits(s, i + 1);
    }
}

proof fn lemma_all_digits(s: Seq<char>, i: int)
    requires
        0 <= i <= s.len(),
        forall|k: int| i <= k < s.len() ==> '0' <= #[trigger] s[k] <= '9',
    ensures
        digits_end(s, i) == s.len(),
    decreases s.len() - i,
{
    if i < s.len() {
        assert('0' <= s[i] <= '9');
        lemma_all_digits(s, i + 1);
    }
}

/// The MMSI of a vessel context is read back from it.
pub proof fn law_mmsi_reads_back(mmsi: Seq<char>)
    requires
        mmsi.len() > 0,
        forall|i: int| 0 <= i < mmsi.len() ==> '0' <= #[trigger] mmsi[i] <= '9',
    ensures
        mmsi_in("vessels.urn:mrn:imo:mmsi:"@ + mmsi) == Some(mmsi),
{
    reveal_strlit("vessels.urn:mrn:imo:mmsi:");
    reveal_strlit("mmsi:");
    let head = "vessels.urn:mrn:imo:mmsi:"@;
    let key = "mmsi:"@;
    let s = head + mmsi;
    assert(head.len() == 25);
    assert(s.subrange(20, 25) =~= key);
    assert(text::first_at(s, key, 20)) by {
        assert forall|j: int| j < 20 implies !#[trigger] text::occurs_at(s, key, j) by {
            if text::occurs_at(s, key, j) {
                assert(s.subrange(j, j + 5)[0] == key[0]);
                assert(s.subrange(j, j + 5)[1] == key[1]);
                assert(s[j] == head[j] && s[j + 1] == head[j + 1]);
            }
        }
    }
    let p = text::position_of(s, key)->0;
    assert(text::first_at(s, key, p));
    assert(p == 20);
    lemma_all_digits(s, 25);
    assert(s.subrange(25, s.len() as int) =~= mmsi);
}

/// An update keeps the store in order.
proof fn lemma_update_keeps_wf(store: StoreView, context: Seq<char>, updates: Json, now: u64)
    requires
        store.wf(),
    ensures
        after_update(store, context, updates, now).0.wf(),
{
    if let Some(own) = mmsi_in(context) {
        let before = match vessel_in(store.vessels, own) {
            Some(v) => v,
            None => new_vessel(own, now),
        };
        if vessel_in(store.vessels, own) is Some {
            assert(vessel_at(
                store.vessels,
                own,
                choose|i: int| vessel_at(store.vessels, own, i),
            ));
        }
        let v = after_message(before, updates, now).0;
        lemma_mmsi_stays(
            VesselView { last_update: now, ..before },
            reported(updates_of(updates)),
        );
        let vessels = with_vessel(store.vessels, v);
        if exists|i: int| vessel_at(store.vessels, own, i) {
            let k = choose|i: int| vessel_at(store.vessels, own, i);
            assert(vessel_at(store.vessels, own, k));
            assert forall|i: int| 0 <= i < vessels.len() implies #[trigger] vessels[i].mmsi
                == store.vessels[i].mmsi by {}
        } else {
            assert forall|i: int| 0 <= i < store.vessels.len() implies
                #[trigger] store.vessels[i].mmsi != own by {
                assert(!vessel_at(store.vessels, own, i));
            }
        }
    }
}

/// An update concerns one vessel: what it reported is stored under its MMSI, and every
/// other vessel stays.
pub proof fn law_vessels_are_separate(
    store: StoreView,
    context: Seq<char>,
    updates: Json,
    now: u64,
    mmsi: Seq<char>,
)
    requires
        store.wf(),
        mmsi_in(context) is Some,
    ensures
        ({
            let after = after_update(store, context, updates, now).0;
            let before = match vessel_in(store.vessels, mmsi) {
                Some(v) => v,
                None => new_vessel(mmsi, now),
            };
            vessel_in(after.vessels, mmsi) == if mmsi_in(context) == Some(mmsi) {
                Some(after_message(before, updates, now).0)
            } else {
                vessel_in(store.vessels, mmsi)
            }
        }),
{
    let own = mmsi_in(context)->0;
    let before = match vessel_in(store.vessels, own) {
        Some(v) => v,
        None => new_vessel(own, now),
    };
    if vessel_in(store.vessels, own) is Some {
        assert(vessel_at(
            store.vessels,
            own,
            choose|i: int| vessel_at(store.vessels, own, i),
        ));
    }
    let v = after_message(before, updates, now).0;
    lemma_mmsi_stays(
        VesselView { last_update: now, ..before },
        reported(updates_of(updates)),
    );
    assert(v.mmsi == own);
    let vessels = with_vessel(store.vessels, v);
    assert forall|i: int, j: int|
        vessel_at(store.vessels, own, i) && vessel_at(store.vessels, own, j) implies i == j by {
        if i < j {
            assert(store.vessels[i].mmsi != store.vessels[j].mmsi);
        } else if j < i {
            assert(store.vessels[j].mmsi != store.vessels[i].mmsi);
        }
    }
    assert forall|i: int, j: int|
        vessel_at(store.vessels, mmsi, i) && vessel_at(store.vessels, mmsi, j) implies i == j by {
        if i < j {
            assert(store.vessels[i].mmsi != store.vessels[j].mmsi);
        } else if j < i {
            assert(store.vessels[j].mmsi != store.vessels[i].mmsi);
        }
    }
    if exists|i: int| vessel_at(store.vessels, own, i) {
        let k = choose|i: int| vessel_at(store.vessels, own, i);
        assert(vessel_at(vessels, own, k));
    } else {
        assert(vessel_at(vessels, own, store.vessels.len() as int));
    }
    assert forall|i: int| i < store.vessels.len() implies #[trigger] vessel_at(vessels, mmsi, i)
        == vessel_at(store.vessels, mmsi, i) by {}
    if exists|i: int| vessel_at(store.vessels, mmsi, i) {
        let k = choose|i: int| vessel_at(store.vessels, mmsi, i);
        assert(vessel_at(vessels, mmsi, k));
    }
    if exists|i: int| vessel_at(vessels, mmsi, i) {
        let k = choose|i: int| vessel_at(vessels, mmsi, i);
        assert(vessel_at(vessels, mmsi, k));
        if k < store.vessels.len() {
            assert(vessel_at(store.vessels, mmsi, k));
        }
    }
}

/// The same update again changes nothing, if no two of its values speak of the same
/// thing: it reports no change, the schedule stays, and so does every vessel but for
/// when its own was last heard of.
pub proof fn law_repeated_update_changes_nothing(
    store: StoreView,
    context: Seq<char>,
    updates: Json,
    now: u64,
    later: u64,
    mmsi: Seq<char>,
)
    requires
        store.wf(),
        mmsi_in(context) is Some,
        all_numeric(reported(updates_of(updates))),
        told_once(reported(updates_of(updates))),
    ensures
        ({
            let first = after_update(store, context, updates, now).0;
            let (second, changed) = after_update(first, context, updates, later);
            &&& !changed
            &&& second.pending == first.pending
            &&& vessel_in(second.vessels, mmsi) == match vessel_in(first.vessels, mmsi) {
                Some(v) => Some(
                    if mmsi_in(context) == Some(mmsi) {
                        VesselView { last_update: later, ..v }
                    } else {
                        v
                    },
                ),
                None => None,
            }
        }),
{
    let own = mmsi_in(context)->0;
    let before = match vessel_in(store.vessels, own) {
        Some(v) => v,
        None => new_vessel(own, now),
    };
    let first = after_update(store, context, updates, now).0;
    let v = after_message(before, updates, now).0;
    lemma_update_keeps_wf(store, context, updates, now);
    law_vessels_are_separate(store, context, updates, now, own);
    law_vessels_are_separate(first, context, updates, later, mmsi);
    law_repeated_message_changes_nothing(before, updates, now, later);
    law_unchanged_vessel_stays(
        VesselView { last_update: later, ..v },
        reported(updates_of(updates)),
    );
}

/// Rapid updates are coalesced: a change schedules the vessel, unless it is scheduled
/// already; then its time stays. Without a change the schedule stays.
pub proof fn law_updates_are_coalesced(
    store: StoreView,
    context: Seq<char>,
    updates: Json,
    now: u64,
)
    requires
        mmsi_in(context) is Some,
    ensures
        ({
            let (after, changed) = after_update(store, context, updates, now);
            let mmsi = mmsi_in(context)->0;
            &&& changed ==> is_pending(after.pending, mmsi)
            &&& !changed || is_pending(store.pending, mmsi) ==> after.pending == store.pending
        }),
{
    let (after, changed) = after_update(store, context, updates, now);
    let mmsi = mmsi_in(context)->0;
    if changed && !is_pending(store.pending, mmsi) {
        assert(after.pending[store.pending.len() as int].mmsi == mmsi);
    }
}

/// A change is not broadcast before the delay is over, and from then on it is due.
pub proof fn law_broadcast_waits_for_the_delay(
    store: StoreView,
    context: Seq<char>,
    updates: Json,
    now: u64,
    later: u64,
)
    requires
        mmsi_in(context) is Some,
        !is_pending(store.pending, mmsi_in(context)->0),
        after_update(store, context, updates, now).1,
        now + BROADCAST_DELAY <= u64::MAX,
    ensures
        ({
            let after = after_update(store, context, updates, now).0;
            let entry = PendingView {
                mmsi: mmsi_in(context)->0,
                time: (now + BROADCAST_DELAY) as u64,
            };
            due(after.pending, later) == if later < now + BROADCAST_DELAY {
                due(store.pending, later)
            } else {
                due(store.pending, later).push(entry)
            }
        }),
{
    let after = after_update(store, context, updates, now).0;
    assert(after.pending.drop_last() =~= store.pending);
}

/// A broadcast is made once: after a flush nothing is due, and what was not due waits.
pub proof fn law_broadcast_is_made_once(pending: Seq<PendingView>, now: u64)
    ensures
        due(not_due(pending, now), now) == Seq::<PendingView>::empty(),
        not_due(not_due(pending, now), now) == not_due(pending, now),
    decreases pending.len(),
{
    if pending.len() > 0 {
        law_broadcast_is_made_once(pending.drop_last(), now);
        if pending.last().time > now {
            assert(not_due(pending, now).drop_last() =~= not_due(pending.drop_last(), now));
        }
    }
}

/// A vessel is lost once: after a check no active vessel is left that has timed out, and
/// a second check at that time finds none.
pub proof fn law_vessel_is_lost_once(vessels: Seq<VesselView>, now: u64)
    ensures
        forall|i: int|
            0 <= i < remaining(vessels, now).len() ==> !timed_out(
                #[trigger] remaining(vessels, now)[i],
                now,
            ),
        remaining(remaining(vessels, now), now) == remaining(vessels, now),
        farewells(remaining(vessels, now), now) == Seq::<BroadcastView>::empty(),
    decreases vessels.len(),
{
    lemma_remaining(vessels, now);
    if vessels.len() > 0 {
        law_vessel_is_lost_once(vessels.drop_last(), now);
        if !timed_out(vessels.last(), now) {
            assert(remaining(vessels, now).drop_last() =~= remaining(vessels.drop_last(), now));
        }
    }
}

/// Whether a field tells a number: the number itself, or one that compares as equal.
pub open spec fn tells(field: Option<Number>, n: Number) -> bool {
    field matches Some(told) && (told == n || told.same(n))
}

/// The dimensions that clients are told; unknown where none are.
pub open spec fn told_dimensions(api: ApiView) -> Dimensions {
    match api.dimensions {
        Some(d) => d,
        None => no_dimensions(),
    }
}

proof fn lemma_paths_differ()
    ensures
        "navigation.position"@.len() == 19 && "navigation.position"@[0] == 'n',
        "navigation.headingTrue"@.len() == 22 && "navigation.headingTrue"@[0] == 'n',
        "navigation.courseOverGroundTrue"@.len() == 31,
        "navigation.speedOverGround"@.len() == 26,
        "design.length"@.len() == 13,
        "design.beam"@.len() == 11,
        "sensors.ais.fromBow"@.len() == 19 && "sensors.ais.fromBow"@[0] == 's',
        "sensors.ais.fromCenter"@.len() == 22 && "sensors.ais.fromCenter"@[0] == 's',
        ""@.len() == 0,
{
    reveal_strlit("navigation.position");
    reveal_strlit("navigation.headingTrue");
    reveal_strlit("navigation.courseOverGroundTrue");
    reveal_strlit("navigation.speedOverGround");
    reveal_strlit("design.length");
    reveal_strlit("design.beam");
    reveal_strlit("sensors.ais.fromBow");
    reveal_strlit("sensors.ais.fromCenter");
    reveal_strlit("");
}

/// What is reported last at a path is what clients are told: a value that arrives behind
/// others is told in the field of its path, and every other field is told as before.
pub proof fn law_last_report_is_told(
    v: VesselView,
    earlier: Seq<Json>,
    value: Json,
    path: Seq<char>,
    content: Json,
)
    requires
        value.member("path"@) matches Some(p) && p.text() == Some(path),
        value.member("value"@) == Some(content),
    ensures
        ({
            let before = shown(after_values(v, earlier).0);
            let after = shown(after_values(v, earlier.push(value)).0);
            &&& after.mmsi == v.mmsi
            &&& after.status == v.status
            &&& path == "navigation.headingTrue"@ && content.number() is Some ==> tells(
                after.heading,
                content.number()->0,
            )
            &&& path != "navigation.headingTrue"@ ==> after.heading == before.heading
            &&& path == "navigation.courseOverGroundTrue"@ && content.number() is Some ==> tells(
                after.cog,
                content.number()->0,
            )
            &&& path != "navigation.courseOverGroundTrue"@ ==> after.cog == before.cog
            &&& path == "navigation.speedOverGround"@ && content.number() is Some ==> tells(
                after.sog,
                content.number()->0,
            )
            &&& path != "navigation.speedOverGround"@ ==> after.sog == before.sog
            &&& path == "design.beam"@ && content.number() is Some ==> tells(
                told_dimensions(after).beam,
                content.number()->0,
            )
            &&& path != "design.beam"@ ==> told_dimensions(after).beam == told_dimensions(
                before,
            ).beam
            &&& path == "sensors.ais.fromBow"@ && content.number() is Some ==> tells(
                told_dimensions(after).from_bow,
                content.number()->0,
            )
            &&& path != "sensors.ais.fromBow"@ ==> told_dimensions(after).from_bow == told_dimensions(
                before,
            ).from_bow
            &&& path == "sensors.ais.fromCenter"@ && content.number() is Some ==> tells(
                told_dimensions(after).from_center,
                content.number()->0,
            )
            &&& path != "sensors.ais.fromCenter"@ ==> told_dimensions(after).from_center == told_dimensions(
                before,
            ).from_center
            &&& path == "design.length"@ ==> (content.member("overall"@) matches Some(overall)
                ==> (overall.number() matches Some(n) ==> tells(
                told_dimensions(after).length,
                n,
            )))
            &&& path != "design.length"@ ==> told_dimensions(after).length == told_dimensions(
                before,
            ).length
            &&& path == "navigation.position"@ ==> (content.member("latitude"@) matches Some(lat)
                ==> (content.member("longitude"@) matches Some(lon) ==> (lat.number() matches Some(
                latitude,
            ) ==> (lon.number() matches Some(longitude) ==> {
                &&& after.position is Some
                &&& tells(Some(after.position->0.latitude), latitude)
                &&& tells(Some(after.position->0.longitude), longitude)
            }))))
            &&& path != "navigation.position"@ ==> after.position == before.position
            &&& path == ""@ ==> (content.member("name"@) matches Some(name) ==> (name.text()
                matches Some(text) ==> after.name == Some(text)))
            &&& path != ""@ ==> after.name == before.name
        }),
{
    lemma_paths_differ();
    lemma_mmsi_stays(v, earlier);
    lemma_status_stays(v, earlier);
    assert(earlier.push(value).drop_last() =~= earlier);
    assert(path_of(value) == path);
    assert(content_of(value) == content);
}

proof fn lemma_status_stays(v: VesselView, values: Seq<Json>)
    ensures
        after_values(v, values).0.status == v.status,
        after_values(v, values).0.last_update == v.last_update,
    decreases values.len(),
{
    if values.len() > 0 {
        lemma_status_stays(v, values.drop_last());
    }
}

/// A value is news exactly where it makes a difference, as long as its numbers are
/// numbers.
pub proof fn law_news_is_a_difference(v: VesselView, value: Json)
    requires
        is_numeric(change_of(value)),
    ensures
        after_values(v, seq![value]).1 <==> after_values(v, seq![value]).0 != v,
{
    assert(seq![value].drop_last() =~= Seq::<Json>::empty());
    assert(after_values(v, Seq::<Json>::empty()) == (v, false));
}

/// The updates of a message are read one behind the other, each with all of its values.
pub proof fn law_messages_are_read_in_order(first: Json, second: Json, a: Seq<Json>, b: Seq<Json>)
    requires
        first.member("values"@) matches Some(values) && values.elements() == Some(a),
        second.member("values"@) matches Some(values) && values.elements() == Some(b),
    ensures
        reported(seq![first]) == a,
        reported(seq![first, second]) == a + b,
{
    reveal_with_fuel(reported, 3);
    assert(values_of(first) == a);
    assert(values_of(second) == b);
    assert(seq![first].drop_last() =~= Seq::<Json>::empty());
    assert(seq![first].last() == first);
    assert(seq![first, second].drop_last() =~= seq![first]);
    assert(seq![first, second].last() == second);
    assert(Seq::<Json>::empty() + a =~= a);
}

/// A vessel that is heard of is noted with the time; one that is new is active, and
/// nothing but its MMSI is known before its first value.
pub proof fn law_vessel_is_heard_of(v: VesselView, updates: Json, now: u64, mmsi: Seq<char>)
    ensures
        after_message(v, updates, now).0.last_update == now,
        after_message(v, updates, now).0.status == v.status,
        after_message(v, updates, now).0.mmsi == v.mmsi,
        shown(new_vessel(mmsi, now)) == (ApiView {
            mmsi,
            name: None,
            position: None,
            dimensions: None,
            heading: None,
            cog: None,
            sog: None,
            status: "Active"@,
        }),
{
    let values = reported(updates_of(updates));
    lemma_status_stays(VesselView { last_update: now, ..v }, values);
    lemma_mmsi_stays(VesselView { last_update: now, ..v }, values);
}

/// Dimensions are told as soon as one of them is known, all that are.
pub proof fn law_dimensions_are_told(v: VesselView)
    ensures
        shown(v).dimensions is None <==> v.dimensions.length is None && v.dimensions.beam is None
            && v.dimensions.from_bow is None && v.dimensions.from_center is None,
        told_dimensions(shown(v)) == v.dimensions,
{
}

/// A client that connects is told of every active vessel, and of no other.
pub proof fn law_active_vessels_are_told(vessels: Seq<VesselView>, v: VesselView, a: ApiView)
    ensures
        vessels.contains(v) && v.status == "Active"@ ==> active(vessels).contains(shown(v)),
        active(vessels).contains(a) ==> exists|i: int|
            0 <= i < vessels.len() && (#[trigger] vessels[i]).status == "Active"@ && shown(
                vessels[i],
            ) == a,
    decreases vessels.len(),
{
    if vessels.len() > 0 {
        let front = vessels.drop_last();
        let n = vessels.len() - 1;
        law_active_vessels_are_told(front, v, a);
        if vessels.contains(v) && v.status == "Active"@ {
            let i = choose|i: int| 0 <= i < vessels.len() && vessels[i] == v;
            if i < n {
                assert(front[i] == v);
                let k = choose|k: int| 0 <= k < active(front).len() && active(front)[k] == shown(v);
                assert(active(vessels)[k] == shown(v));
            } else {
                assert(active(vessels)[active(vessels).len() - 1] == shown(v));
            }
        }
        if active(vessels).contains(a) {
            let k = choose|k: int| 0 <= k < active(vessels).len() && active(vessels)[k] == a;
            if k < active(front).len() {
                assert(active(front)[k] == a);
                let i = choose|i: int|
                    0 <= i < front.len() && (#[trigger] front[i]).status == "Active"@ && shown(
                        front[i],
                    ) == a;
                assert(vessels[i] == front[i]);
            } else {
                assert(vessels[n].status == "Active"@ && shown(vessels[n]) == a);
            }
        }
    }
}

/// A scheduled vessel waits until its time, and is due from then on.
pub proof fn law_scheduled_vessels_wait(pending: Seq<PendingView>, now: u64, p: PendingView)
    ensures
        due(pending, now).contains(p) <==> pending.contains(p) && p.time <= now,
        not_due(pending, now).contains(p) <==> pending.contains(p) && p.time > now,
    decreases pending.len(),
{
    if pending.len() > 0 {
        let front = pending.drop_last();
        law_scheduled_vessels_wait(front, now, p);
        assert(pending =~= front.push(pending.last()));
        lemma_pushed(front, pending.last(), p);
        if pending.last().time <= now {
            lemma_pushed(due(front, now), pending.last(), p);
        } else {
            lemma_pushed(not_due(front, now), pending.last(), p);
        }
    }
}

proof fn lemma_pushed<T>(s: Seq<T>, last: T, x: T)
    ensures
        s.push(last).contains(x) <==> s.contains(x) || x == last,
{
    let t = s.push(last);
    assert(t[s.len() as int] == last);
    if s.contains(x) {
        let i = choose|i: int| 0 <= i < s.len() && s[i] == x;
        assert(t[i] == x);
    }
}

/// For every vessel that is due and still there, clients are sent what is known of it
/// under its own path; and nothing else is sent.
pub proof fn law_due_vessels_are_sent(
    pending: Seq<PendingView>,
    vessels: Seq<VesselView>,
    p: PendingView,
    b: BroadcastView,
)
    ensures
        pending.contains(p) ==> (vessel_in(vessels, p.mmsi) matches Some(v) ==> sent(
            pending,
            vessels,
        ).contains(BroadcastView { path: "vessels."@ + v.mmsi, vessel: shown(v) })),
        sent(pending, vessels).contains(b) ==> exists|i: int|
            0 <= i < pending.len() && (vessel_in(vessels, (#[trigger] pending[i]).mmsi) matches Some(
                v,
            ) && b.path == "vessels."@ + v.mmsi && b.vessel == shown(v)),
    decreases pending.len(),
{
    if pending.len() > 0 {
        let front = pending.drop_last();
        let n = pending.len() - 1;
        law_due_vessels_are_sent(front, vessels, p, b);
        assert(pending =~= front.push(pending.last()));
        lemma_pushed(front, pending.last(), p);
        let last = vessel_in(vessels, pending[n].mmsi);
        if last is Some {
            lemma_pushed(sent(front, vessels), broadcast_of(last->0), b);
            if vessel_in(vessels, p.mmsi) is Some {
                lemma_pushed(
                    sent(front, vessels),
                    broadcast_of(last->0),
                    broadcast_of(vessel_in(vessels, p.mmsi)->0),
                );
            }
        }
        if sent(front, vessels).contains(b) {
            let i = choose|i: int|
                0 <= i < front.len() && (vessel_in(vessels, (#[trigger] front[i]).mmsi) matches Some(
                    v,
                ) && b.path == "vessels."@ + v.mmsi && b.vessel == shown(v));
            assert(pending[i] == front[i]);
        } else if sent(pending, vessels).contains(b) {
            assert(vessel_in(vessels, pending[n].mmsi) == last);
        }
    }
}

/// An active vessel is lost after three minutes of silence: it leaves the store, and
/// clients are told that it is lost, with all that was known of it. Every other vessel
/// stays.
pub proof fn law_silent_vessels_are_lost(vessels: Seq<VesselView>, now: u64, v: VesselView)
    requires
        vessels.contains(v),
    ensures
        v.status == "Active"@ && now - v.last_update > 180_000_000_000 ==> {
            &&& !remaining(vessels, now).contains(v)
            &&& farewells(vessels, now).contains(
                BroadcastView {
                    path: "vessels."@ + v.mmsi,
                    vessel: ApiView { status: "Lost"@, ..shown(v) },
                },
            )
        },
        v.status != "Active"@ || now - v.last_update <= 180_000_000_000 ==> remaining(
            vessels,
            now,
        ).contains(v),
    decreases vessels.len(),
{
    lemma_remaining(vessels, now);
    let front = vessels.drop_last();
    assert(vessels =~= front.push(vessels.last()));
    lemma_pushed(front, vessels.last(), v);
    let told = broadcast_of(VesselView { status: "Lost"@, ..v });
    if timed_out(v, now) {
        if front.contains(v) {
            law_silent_vessels_are_lost(front, now, v);
        }
        if timed_out(vessels.last(), now) {
            lemma_pushed(
                farewells(front, now),
                broadcast_of(VesselView { status: "Lost"@, ..vessels.last() }),
                told,
            );
        }
        if remaining(vessels, now).contains(v) {
            let i = choose|i: int|
                0 <= i < remaining(vessels, now).len() && remaining(vessels, now)[i] == v;
            assert(!timed_out(remaining(vessels, now)[i], now));
        }
    }
}

/// A change is broadcast a tenth of a second later.
pub proof fn law_change_is_scheduled(
    store: StoreView,
    context: Seq<char>,
    updates: Json,
    now: u64,
)
    requires
        mmsi_in(context) is Some,
        now + 100_000_000 <= u64::MAX,
        after_update(store, context, updates, now).1,
        !is_pending(store.pending, mmsi_in(context)->0),
    ensures
        after_update(store, context, updates, now).0.pending == store.pending.push(
            PendingView { mmsi: mmsi_in(context)->0, time: (now + 100_000_000) as u64 },
        ),
{
}

/// A vessel waits for its broadcast once it was scheduled, and only then.
pub proof fn law_scheduled_vessels_are_pending(
    pending: Seq<PendingView>,
    p: PendingView,
    mmsi: Seq<char>,
)
    ensures
        !is_pending(Seq::empty(), mmsi),
        is_pending(pending.push(p), mmsi) <==> is_pending(pending, mmsi) || p.mmsi == mmsi,
{
    let after = pending.push(p);
    assert(after[pending.len() as int] == p);
    if is_pending(pending, mmsi) {
        let i = choose|i: int| 0 <= i < pending.len() && #[trigger] pending[i].mmsi == mmsi;
        assert(after[i].mmsi == mmsi);
    }
    if is_pending(after, mmsi) {
        let i = choose|i: int| 0 <= i < after.len() && #[trigger] after[i].mmsi == mmsi;
        if i < pending.len() {
            assert(pending[i].mmsi == mmsi);
        }
    }
}

} // verus!
