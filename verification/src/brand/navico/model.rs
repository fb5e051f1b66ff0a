//! Navico radar models and HALO modes.

use vstd::prelude::*;

use crate::radar::ControlId;
use crate::text;
use crate::text::{same_text, starts_with};

verus! {

/// A radar model.
#[derive(Clone, Copy, Debug, PartialEq, Eq, Structural)]
pub enum Model {
    Unknown,
    BR24,
    Gen3,
    Gen4,
    Halo,
    Halo24,
    Halo20,
    Halo20Plus,
    Halo2000,
    Halo3000,
    Halo5000,
    Halo4000,
    Halo6000,
}

impl Model {
    /// The name of a model.
    pub open spec fn label(self) -> Seq<char> {
        match self {
            Model::Unknown => "Unknown"@,
            Model::BR24 => "BR24"@,
            Model::Gen3 => "3G"@,
            Model::Gen4 => "4G"@,
            Model::Halo => "HALO"@,
            Model::Halo24 => "HALO24"@,
            Model::Halo20 => "HALO20"@,
            Model::Halo20Plus => "HALO20+"@,
            Model::Halo2000 => "HALO2000"@,
            Model::Halo3000 => "HALO3000"@,
            Model::Halo5000 => "HALO5000"@,
            Model::Halo4000 => "HALO4000"@,
            Model::Halo6000 => "HALO6000"@,
        }
    }

    /// The name of a model.
    pub fn name(&self) -> (r: &'static str)
        ensures
            r@ == self.label(),
    {
        match self {
            Model::Unknown => "Unknown",
            Model::BR24 => "BR24",
            Model::Gen3 => "3G",
            Model::Gen4 => "4G",
            Model::Halo => "HALO",
            Model::Halo24 => "HALO24",
            Model::Halo20 => "HALO20",
            Model::Halo20Plus => "HALO20+",
            Model::Halo2000 => "HALO2000",
            Model::Halo3000 => "HALO3000",
            Model::Halo5000 => "HALO5000",
            Model::Halo4000 => "HALO4000",
            Model::Halo6000 => "HALO6000",
        }
    }

    /// The model with a name. Other names that begin with HALO stand for some
    /// HALO.
    pub open spec fn of_name(s: Seq<char>) -> Model {
        if s == "BR24"@ {
            Model::BR24
        } else if s == "3G"@ {
            Model::Gen3
        } else if s == "4G"@ {
            Model::Gen4
        } else if s == "HALO24"@ {
            Model::Halo24
        } else if s == "HALO20+"@ {
            Model::Halo20Plus
        } else if s == "HALO20"@ {
            Model::Halo20
        } else if s == "HALO2000"@ {
            Model::Halo2000
        } else if s == "HALO3000"@ {
            Model::Halo3000
        } else if s == "HALO4000"@ {
            Model::Halo4000
        } else if s == "HALO5000"@ {
            Model::Halo5000
        } else if s == "HALO6000"@ {
            Model::Halo6000
        } else if text::begins_with(s, "HALO"@) || text::begins_with(s, "Halo"@) {
            Model::Halo
        } else {
            Model::Unknown
        }
    }

    /// The model with a name.
    pub fn new(s: &str) -> (r: Model)
        ensures
            r == Model::of_name(s@),
    {
        if same_text(s, "BR24") {
            Model::BR24
        } else if same_text(s, "3G") {
            Model::Gen3
        } else if same_text(s, "4G") {
            Model::Gen4
        } else if same_text(s, "HALO24") {
            Model::Halo24
        } else if same_text(s, "HALO20+") {
            Model::Halo20Plus
        } else if same_text(s, "HALO20") {
            Model::Halo20
        } else if same_text(s, "HALO2000") {
            Model::Halo2000
        } else if same_text(s, "HALO3000") {
            Model::Halo3000
        } else if same_text(s, "HALO4000") {
            Model::Halo4000
        } else if same_text(s, "HALO5000") {
            Model::Halo5000
        } else if same_text(s, "HALO6000") {
            Model::Halo6000
        } else if starts_with(s, "HALO") || starts_with(s, "Halo") {
            Model::Halo
        } else {
            Model::Unknown
        }
    }

    /// The number of a model on the wire; 9 for an unknown one.
    pub open spec fn code(self) -> int {
        match self {
            Model::Unknown => 9,
            Model::BR24 => 10,
            Model::Gen3 => 12,
            Model::Gen4 => 13,
            Model::Halo => 14,
            Model::Halo24 => 16,
            Model::Halo20 => 17,
            Model::Halo20Plus => 18,
            Model::Halo2000 => 19,
            Model::Halo3000 => 20,
            Model::Halo5000 => 21,
            Model::Halo4000 => 22,
            Model::Halo6000 => 23,
        }
    }

    /// The model for a scanner type.
    pub fn from_scanner_type(scanner_type: u32) -> (r: Model)
        ensures
            r == Model::of_scanner_type(scanner_type as int),
    {
        match scanner_type {
            10 => Model::BR24,
            12 => Model::Gen3,
            13 => Model::Gen4,
            14 => Model::Halo,
            16 => Model::Halo24,
            17 => Model::Halo20,
            18 => Model::Halo20Plus,
            19 => Model::Halo2000,
            20 => Model::Halo3000,
            21 => Model::Halo5000,
            22 => Model::Halo4000,
            23 => Model::Halo6000,
            _ => Model::Unknown,
        }
    }

    /// The model for a scanner type.
    pub open spec fn of_scanner_type(scanner_type: int) -> Model {
        if scanner_type == 10 {
            Model::BR24
        } else if scanner_type == 12 {
            Model::Gen3
        } else if scanner_type == 13 {
            Model::Gen4
        } else if scanner_type == 14 {
            Model::Halo
        } else if scanner_type == 16 {
            Model::Halo24
        } else if scanner_type == 17 {
            Model::Halo20
        } else if scanner_type == 18 {
            Model::Halo20Plus
        } else if scanner_type == 19 {
            Model::Halo2000
        } else if scanner_type == 20 {
            Model::Halo3000
        } else if scanner_type == 21 {
            Model::Halo5000
        } else if scanner_type == 22 {
            Model::Halo4000
        } else if scanner_type == 23 {
            Model::Halo6000
        } else {
            Model::Unknown
        }
    }

    /// Whether a model is a HALO.
    pub open spec fn halo(self) -> bool {
        14 <= self.code() <= 23
    }

    /// Whether a model is a HALO.
    pub fn is_halo(&self) -> (r: bool)
        ensures
            r == self.halo(),
    {
        match self {
            Model::Unknown | Model::BR24 | Model::Gen3 | Model::Gen4 => false,
            _ => true,
        }
    }
}

/// Whether ranges that were kept under a model name are still good. Where the name
/// does not tell the model exactly, they are discarded and found out anew.
pub fn keeps_ranges(model_name: &str) -> (r: bool)
    ensures
        r == (Model::of_name(model_name@) != Model::Unknown && Model::of_name(model_name@)
            != Model::Halo),
{
    let model = Model::new(model_name);
    model != Model::Unknown && model != Model::Halo
}

/// An operating mode of a HALO radar.
#[derive(Clone, Copy, Debug, PartialEq, Eq, Structural)]
pub enum HaloMode {
    Custom,
    Harbor,
    Offshore,
    Buoy,
    Weather,
    Bird,
    BirdPlus,
}

impl HaloMode {
    /// The number of a mode.
    pub open spec fn number(self) -> int {
        match self {
            HaloMode::Custom => 0,
            HaloMode::Harbor => 1,
            HaloMode::Offshore => 2,
            HaloMode::Buoy => 3,
            HaloMode::Weather => 4,
            HaloMode::Bird => 5,
            HaloMode::BirdPlus => 6,
        }
    }

    /// The mode with a number.
    pub open spec fn of_number(n: int) -> Option<HaloMode> {
        if n == 0 {
            Some(HaloMode::Custom)
        } else if n == 1 {
            Some(HaloMode::Harbor)
        } else if n == 2 {
            Some(HaloMode::Offshore)
        } else if n == 3 {
            Some(HaloMode::Buoy)
        } else if n == 4 {
            Some(HaloMode::Weather)
        } else if n == 5 {
            Some(HaloMode::Bird)
        } else if n == 6 {
            Some(HaloMode::BirdPlus)
        } else {
            None
        }
    }

    /// The mode with a number.
    pub fn from_u8(n: u8) -> (r: Option<HaloMode>)
        ensures
            r == HaloMode::of_number(n as int),
    {
        match n {
            0 => Some(HaloMode::Custom),
            1 => Some(HaloMode::Harbor),
            2 => Some(HaloMode::Offshore),
            3 => Some(HaloMode::Buoy),
            4 => Some(HaloMode::Weather),
            5 => Some(HaloMode::Bird),
            6 => Some(HaloMode::BirdPlus),
            _ => None,
        }
    }

    /// The name of a mode.
    pub open spec fn label(self) -> Seq<char> {
        match self {
            HaloMode::Custom => "Custom"@,
            HaloMode::Harbor => "Harbor"@,
            HaloMode::Offshore => "Offshore"@,
            HaloMode::Buoy => "Buoy"@,
            HaloMode::Weather => "Weather"@,
            HaloMode::Bird => "Bird"@,
            HaloMode::BirdPlus => "Bird+"@,
        }
    }

    /// The name of a mode.
    pub fn name(&self) -> (r: &'static str)
        ensures
            r@ == self.label(),
    {
        match self {
            HaloMode::Custom => "Custom",
            HaloMode::Harbor => "Harbor",
            HaloMode::Offshore => "Offshore",
            HaloMode::Buoy => "Buoy",
            HaloMode::Weather => "Weather",
            HaloMode::Bird => "Bird",
            HaloMode::BirdPlus => "Bird+",
        }
    }
}

/// The controls that can only be set in custom mode.
pub open spec fn dynamic_allowed_controls() -> Seq<ControlId> {
    seq![
        ControlId::NoiseRejection,
        ControlId::TargetExpansion,
        ControlId::TargetSeparation,
        ControlId::LocalInterferenceRejection,
        ControlId::ScanSpeed,
    ]
}

/// A known model is recognised by its own number.
pub proof fn law_scanner_type_round_trip(m: Model)
    requires
        m != Model::Unknown,
    ensures
        Model::of_scanner_type(m.code()) == m,
{
}

/// A mode is recognised by its own number.
pub proof fn law_halo_mode_round_trip(m: HaloMode)
    ensures
        HaloMode::of_number(m.number()) == Some(m),
{
}

/// Every model name is read back as the model.
pub proof fn law_model_name_round_trip(m: Model)
    ensures
        Model::of_name(m.label()) == m,
{
    reveal_strlit("Unknown");
    reveal_strlit("BR24");
    reveal_strlit("3G");
    reveal_strlit("4G");
    reveal_strlit("HALO");
    reveal_strlit("Halo");
    reveal_strlit("HALO24");
    reveal_strlit("HALO20");
    reveal_strlit("HALO20+");
    reveal_strlit("HALO2000");
    reveal_strlit("HALO3000");
    reveal_strlit("HALO4000");
    reveal_strlit("HALO5000");
    reveal_strlit("HALO6000");
    let s = m.label();
    assert(m == Model::Halo24 ==> s[4] == '2');
    assert(m == Model::Halo2000 ==> s[4] == '2' && s[5] == '0');
    assert(m == Model::Halo5000 ==> s[4] == '5');
    assert(m == Model::Halo ==> s.subrange(0, 4) =~= "HALO"@);
    assert(m == Model::Unknown ==> s.subrange(0, 4)[0] == 'U');
    assert("HALO"@[0] == 'H' && "Halo"@[0] == 'H');
    assert("HALO24"@[5] == '4' && "HALO20"@[5] == '0');
    assert("HALO2000"@[4] == '2' && "HALO3000"@[4] == '3' && "HALO4000"@[4] == '4'
        && "HALO5000"@[4] == '5' && "HALO6000"@[4] == '6');
    assert("3G"@[0] == '3' && "4G"@[0] == '4');
}

/// The models by their numbers, and which of them are HALOs.
pub proof fn law_models_are_numbered()
    ensures
        Model::of_scanner_type(10) == Model::BR24,
        Model::of_scanner_type(12) == Model::Gen3,
        Model::of_scanner_type(13) == Model::Gen4,
        Model::of_scanner_type(14) == Model::Halo,
        Model::of_scanner_type(16) == Model::Halo24,
        Model::of_scanner_type(17) == Model::Halo20,
        Model::of_scanner_type(18) == Model::Halo20Plus,
        Model::of_scanner_type(19) == Model::Halo2000,
        Model::of_scanner_type(20) == Model::Halo3000,
        Model::of_scanner_type(21) == Model::Halo5000,
        Model::of_scanner_type(22) == Model::Halo4000,
        Model::of_scanner_type(23) == Model::Halo6000,
        forall|m: Model|
            #![trigger m.halo()]
            m.halo() <==> m != Model::Unknown && m != Model::BR24 && m != Model::Gen3 && m
                != Model::Gen4,
{
}

/// A name that begins as a HALO's is that of some HALO; one that begins otherwise is not.
pub proof fn law_names_tell_halo(s: Seq<char>)
    ensures
        Model::of_name(s).halo() <==> s.len() >= 4 && s[0] == 'H' && (s[1] == 'A' && s[2] == 'L'
            && s[3] == 'O' || s[1] == 'a' && s[2] == 'l' && s[3] == 'o'),
{
    reveal_strlit("BR24");
    reveal_strlit("3G");
    reveal_strlit("4G");
    reveal_strlit("HALO");
    reveal_strlit("Halo");
    reveal_strlit("HALO24");
    reveal_strlit("HALO20");
    reveal_strlit("HALO20+");
    reveal_strlit("HALO2000");
    reveal_strlit("HALO3000");
    reveal_strlit("HALO4000");
    reveal_strlit("HALO5000");
    reveal_strlit("HALO6000");
    assert("BR24"@[0] == 'B' && "3G"@[0] == '3' && "4G"@[0] == '4');
    assert("HALO"@[0] == 'H' && "HALO"@[1] == 'A' && "HALO"@[2] == 'L' && "HALO"@[3] == 'O');
    assert("Halo"@[0] == 'H' && "Halo"@[1] == 'a' && "Halo"@[2] == 'l' && "Halo"@[3] == 'o');
    if s.len() >= 4 {
        let head = s.subrange(0, 4);
        assert(head[0] == s[0] && head[1] == s[1] && head[2] == s[2] && head[3] == s[3]);
        if s[0] == 'H' && s[1] == 'A' && s[2] == 'L' && s[3] == 'O' {
            assert(head =~= "HALO"@);
        }
        if s[0] == 'H' && s[1] == 'a' && s[2] == 'l' && s[3] == 'o' {
            assert(head =~= "Halo"@);
        }
    }
}

} // verus!
