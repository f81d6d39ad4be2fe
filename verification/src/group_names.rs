//! FNIS alternate-animation group names.
use vstd::prelude::*;

use crate::text::{
    ascii_uppercase, lemma_seq_eq_caseless_trans, lemma_uppercase_caseless, seq_eq_caseless,
    str_eq_caseless,
};

verus! {

/// FNIS alternate-animation group identifier.
///
/// Each variant represents one animation group recognised by FNIS and maps to
/// the integer constant used in `FNIS_aa.<group>()` Papyrus calls.
///
/// | Variant        | JSON / FNIS name | `group_id` |
/// |----------------|------------------|------------|
/// | `MtIdle`       | `_mtidle`        | 0          |
/// | `OneHmIdle`    | `_1hmidle`       | 1          |
/// | `TwoHmIdle`    | `_2hmidle`       | 2          |
/// | `TwoHwIdle`    | `_2hwidle`       | 3          |
/// | `BowIdle`      | `_bowidle`       | 4          |
/// | `CBowIdle`     | `_cbowidle`      | 5          |
/// | `H2HIdle`      | `_h2hidle`       | 6          |
/// | `MagIdle`      | `_magidle`       | 7          |
/// | `SneakIdle`    | `_sneakidle`     | 8          |
/// | `StaffIdle`    | `_staffidle`     | 9          |
/// | `MagMt`        | `_magmt`         | 16         |
/// | `MagCastMt`    | `_magcastmt`     | 17         |
/// | `OneHmAtk`     | `_1hmatk`        | 19         |
/// | `H2HAtk`       | `_h2hatk`        | 33         |
/// | `H2HAtkPow`    | `_h2hatkpow`     | 34         |
/// | `MagAtk`       | `_magatk`        | 36         |
/// | `OneHmEqp`     | `_1hmeqp`        | 37         |
/// | `TwoHwEqp`     | `_2hweqp`        | 38         |
/// | `TwoHmEqp`     | `_2hmeqp`        | 39         |
/// | `AxeEqp`       | `_axeeqp`        | 40         |
/// | `BowEqp`       | `_boweqp`        | 41         |
/// | `CBowEqp`      | `_cboweqp`       | 42         |
/// | `DagEqp`       | `_dageqp`        | 43         |
/// | `H2HEqp`       | `_h2heqp`        | 44         |
/// | `MaceEqp`      | `_maceqp`        | 45         |
/// | `MagEqp`       | `_mageqp`        | 46         |
/// | `StfEqp`       | `_stfeqp`        | 47         |
/// | `Shout`        | `_shout`         | 48         |
/// | `MagCon`       | `_magcon`        | 49         |
/// | `DW`           | `_dw`            | 50         |
/// | `Jump`         | `_jump`          | 51         |
/// | `Sprint`       | `_sprint`        | 52         |
/// | `Shield`       | `_shield`        | 53         |
#[derive(Debug, Clone, Copy, PartialEq, Eq, Hash, Structural)]
pub enum AAGroupName {
    /// `_mtidle`
    MtIdle,
    /// `_1hmidle`
    OneHmIdle,
    /// `_2hmidle`
    TwoHmIdle,
    /// `_2hwidle`
    TwoHwIdle,
    /// `_bowidle`
    BowIdle,
    /// `_cbowidle`
    CBowIdle,
    /// `_h2hidle`
    H2HIdle,
    /// `_magidle`
    MagIdle,
    /// `_sneakidle`
    SneakIdle,
    /// `_staffidle`
    StaffIdle,
    /// `_magmt`
    MagMt,
    /// `_magcastmt`
    MagCastMt,
    /// `_1hmatk`
    OneHmAtk,
    /// `_h2hatk`
    H2HAtk,
    /// `_h2hatkpow`
    H2HAtkPow,
    /// `_magatk`
    MagAtk,
    /// `_1hmeqp`
    OneHmEqp,
    /// `_2hweqp`
    TwoHwEqp,
    /// `_2hmeqp`
    TwoHmEqp,
    /// `_axeeqp`
    AxeEqp,
    /// `_boweqp`
    BowEqp,
    /// `_cboweqp`
    CBowEqp,
    /// `_dageqp`
    DagEqp,
    /// `_h2heqp`
    H2HEqp,
    /// `_maceqp`
    MaceEqp,
    /// `_mageqp`
    MagEqp,
    /// `_stfeqp`
    StfEqp,
    /// `_shout`
    Shout,
    /// `_magcon`
    MagCon,
    /// `_dw`
    DW,
    /// `_jump`
    Jump,
    /// `_sprint`
    Sprint,
    /// `_shield`
    Shield,
}

/// The integer constant of a group in `FNIS_aa.<group>()` Papyrus calls.
pub open spec fn spec_group_id(g: AAGroupName) -> u64 {
    match g {
        AAGroupName::MtIdle => 0,
        AAGroupName::OneHmIdle => 1,
        AAGroupName::TwoHmIdle => 2,
        AAGroupName::TwoHwIdle => 3,
        AAGroupName::BowIdle => 4,
        AAGroupName::CBowIdle => 5,
        AAGroupName::H2HIdle => 6,
        AAGroupName::MagIdle => 7,
        AAGroupName::SneakIdle => 8,
        AAGroupName::StaffIdle => 9,
        AAGroupName::MagMt => 16,
        AAGroupName::MagCastMt => 17,
        AAGroupName::OneHmAtk => 19,
        AAGroupName::H2HAtk => 33,
        AAGroupName::H2HAtkPow => 34,
        AAGroupName::MagAtk => 36,
        AAGroupName::OneHmEqp => 37,
        AAGroupName::TwoHwEqp => 38,
        AAGroupName::TwoHmEqp => 39,
        AAGroupName::AxeEqp => 40,
        AAGroupName::BowEqp => 41,
        AAGroupName::CBowEqp => 42,
        AAGroupName::DagEqp => 43,
        AAGroupName::H2HEqp => 44,
        AAGroupName::MaceEqp => 45,
        AAGroupName::MagEqp => 46,
        AAGroupName::StfEqp => 47,
        AAGroupName::Shout => 48,
        AAGroupName::MagCon => 49,
        AAGroupName::DW => 50,
        AAGroupName::Jump => 51,
        AAGroupName::Sprint => 52,
        AAGroupName::Shield => 53,
    }
}

/// The FNIS wire string of a group, e.g. `_1hmeqp`.
pub open spec fn spec_fnis_str(g: AAGroupName) -> Seq<char> {
    match g {
        AAGroupName::MtIdle => "_mtidle"@,
        AAGroupName::OneHmIdle => "_1hmidle"@,
        AAGroupName::TwoHmIdle => "_2hmidle"@,
        AAGroupName::TwoHwIdle => "_2hwidle"@,
        AAGroupName::BowIdle => "_bowidle"@,
        AAGroupName::CBowIdle => "_cbowidle"@,
        AAGroupName::H2HIdle => "_h2hidle"@,
        AAGroupName::MagIdle => "_magidle"@,
        AAGroupName::SneakIdle => "_sneakidle"@,
        AAGroupName::StaffIdle => "_staffidle"@,
        AAGroupName::MagMt => "_magmt"@,
        AAGroupName::MagCastMt => "_magcastmt"@,
        AAGroupName::OneHmAtk => "_1hmatk"@,
        AAGroupName::H2HAtk => "_h2hatk"@,
        AAGroupName::H2HAtkPow => "_h2hatkpow"@,
        AAGroupName::MagAtk => "_magatk"@,
        AAGroupName::OneHmEqp => "_1hmeqp"@,
        AAGroupName::TwoHwEqp => "_2hweqp"@,
        AAGroupName::TwoHmEqp => "_2hmeqp"@,
        AAGroupName::AxeEqp => "_axeeqp"@,
        AAGroupName::BowEqp => "_boweqp"@,
        AAGroupName::CBowEqp => "_cboweqp"@,
        AAGroupName::DagEqp => "_dageqp"@,
        AAGroupName::H2HEqp => "_h2heqp"@,
        AAGroupName::MaceEqp => "_maceqp"@,
        AAGroupName::MagEqp => "_mageqp"@,
        AAGroupName::StfEqp => "_stfeqp"@,
        AAGroupName::Shout => "_shout"@,
        AAGroupName::MagCon => "_magcon"@,
        AAGroupName::DW => "_dw"@,
        AAGroupName::Jump => "_jump"@,
        AAGroupName::Sprint => "_sprint"@,
        AAGroupName::Shield => "_shield"@,
    }
}

/// The group whose FNIS name equals `s` ignoring ASCII case, trying the names in order.
pub open spec fn spec_parse_group(s: Seq<char>) -> Option<AAGroupName> {
    if seq_eq_caseless(s, "_mtidle"@) {
        Some(AAGroupName::MtIdle)
    } else if seq_eq_caseless(s, "_1hmidle"@) {
        Some(AAGroupName::OneHmIdle)
    } else if seq_eq_caseless(s, "_2hmidle"@) {
        Some(AAGroupName::TwoHmIdle)
    } else if seq_eq_caseless(s, "_2hwidle"@) {
        Some(AAGroupName::TwoHwIdle)
    } else if seq_eq_caseless(s, "_bowidle"@) {
        Some(AAGroupName::BowIdle)
    } else if seq_eq_caseless(s, "_cbowidle"@) {
        Some(AAGroupName::CBowIdle)
    } else if seq_eq_caseless(s, "_h2hidle"@) {
        Some(AAGroupName::H2HIdle)
    } else if seq_eq_caseless(s, "_magidle"@) {
        Some(AAGroupName::MagIdle)
    } else if seq_eq_caseless(s, "_sneakidle"@) {
        Some(AAGroupName::SneakIdle)
    } else if seq_eq_caseless(s, "_staffidle"@) {
        Some(AAGroupName::StaffIdle)
    } else if seq_eq_caseless(s, "_magmt"@) {
        Some(AAGroupName::MagMt)
    } else if seq_eq_caseless(s, "_magcastmt"@) {
        Some(AAGroupName::MagCastMt)
    } else if seq_eq_caseless(s, "_1hmatk"@) {
        Some(AAGroupName::OneHmAtk)
    } else if seq_eq_caseless(s, "_h2hatk"@) {
        Some(AAGroupName::H2HAtk)
    } else if seq_eq_caseless(s, "_h2hatkpow"@) {
        Some(AAGroupName::H2HAtkPow)
    } else if seq_eq_caseless(s, "_magatk"@) {
        Some(AAGroupName::MagAtk)
    } else if seq_eq_caseless(s, "_1hmeqp"@) {
        Some(AAGroupName::OneHmEqp)
    } else if seq_eq_caseless(s, "_2hweqp"@) {
        Some(AAGroupName::TwoHwEqp)
    } else if seq_eq_caseless(s, "_2hmeqp"@) {
        Some(AAGroupName::TwoHmEqp)
    } else if seq_eq_caseless(s, "_axeeqp"@) {
        Some(AAGroupName::AxeEqp)
    } else if seq_eq_caseless(s, "_boweqp"@) {
        Some(AAGroupName::BowEqp)
    } else if seq_eq_caseless(s, "_cboweqp"@) {
        Some(AAGroupName::CBowEqp)
    } else if seq_eq_caseless(s, "_dageqp"@) {
        Some(AAGroupName::DagEqp)
    } else if seq_eq_caseless(s, "_h2heqp"@) {
        Some(AAGroupName::H2HEqp)
    } else if seq_eq_caseless(s, "_maceqp"@) {
        Some(AAGroupName::MaceEqp)
    } else if seq_eq_caseless(s, "_mageqp"@) {
        Some(AAGroupName::MagEqp)
    } else if seq_eq_caseless(s, "_stfeqp"@) {
        Some(AAGroupName::StfEqp)
    } else if seq_eq_caseless(s, "_shout"@) {
        Some(AAGroupName::Shout)
    } else if seq_eq_caseless(s, "_magcon"@) {
        Some(AAGroupName::MagCon)
    } else if seq_eq_caseless(s, "_dw"@) {
        Some(AAGroupName::DW)
    } else if seq_eq_caseless(s, "_jump"@) {
        Some(AAGroupName::Jump)
    } else if seq_eq_caseless(s, "_sprint"@) {
        Some(AAGroupName::Sprint)
    } else if seq_eq_caseless(s, "_shield"@) {
        Some(AAGroupName::Shield)
    } else {
        None
    }
}

/// Error returned when a string does not match any known FNIS group name.
#[derive(Debug, Clone, PartialEq, Eq)]
pub struct UnknownGroupName {
    pub message: String,
}

impl AAGroupName {
    /// Returns the integer constant matching `FNIS_aa.<group>()` in Papyrus.
    pub fn group_id(self) -> (r: u64)
        ensures
            r == spec_group_id(self),
    {
        match self {
            AAGroupName::MtIdle => 0,
            AAGroupName::OneHmIdle => 1,
            AAGroupName::TwoHmIdle => 2,
            AAGroupName::TwoHwIdle => 3,
            AAGroupName::BowIdle => 4,
            AAGroupName::CBowIdle => 5,
            AAGroupName::H2HIdle => 6,
            AAGroupName::MagIdle => 7,
            AAGroupName::SneakIdle => 8,
            AAGroupName::StaffIdle => 9,
            AAGroupName::MagMt => 16,
            AAGroupName::MagCastMt => 17,
            AAGroupName::OneHmAtk => 19,
            AAGroupName::H2HAtk => 33,
            AAGroupName::H2HAtkPow => 34,
            AAGroupName::MagAtk => 36,
            AAGroupName::OneHmEqp => 37,
            AAGroupName::TwoHwEqp => 38,
            AAGroupName::TwoHmEqp => 39,
            AAGroupName::AxeEqp => 40,
            AAGroupName::BowEqp => 41,
            AAGroupName::CBowEqp => 42,
            AAGroupName::DagEqp => 43,
            AAGroupName::H2HEqp => 44,
            AAGroupName::MaceEqp => 45,
            AAGroupName::MagEqp => 46,
            AAGroupName::StfEqp => 47,
            AAGroupName::Shout => 48,
            AAGroupName::MagCon => 49,
            AAGroupName::DW => 50,
            AAGroupName::Jump => 51,
            AAGroupName::Sprint => 52,
            AAGroupName::Shield => 53,
        }
    }

    /// Returns the FNIS wire string for this group, e.g. `"_1hmeqp"`.
    pub fn as_fnis_str(self) -> (r: &'static str)
        ensures
            r@ == spec_fnis_str(self),
    {
        match self {
            AAGroupName::MtIdle => "_mtidle",
            AAGroupName::OneHmIdle => "_1hmidle",
            AAGroupName::TwoHmIdle => "_2hmidle",
            AAGroupName::TwoHwIdle => "_2hwidle",
            AAGroupName::BowIdle => "_bowidle",
            AAGroupName::CBowIdle => "_cbowidle",
            AAGroupName::H2HIdle => "_h2hidle",
            AAGroupName::MagIdle => "_magidle",
            AAGroupName::SneakIdle => "_sneakidle",
            AAGroupName::StaffIdle => "_staffidle",
            AAGroupName::MagMt => "_magmt",
            AAGroupName::MagCastMt => "_magcastmt",
            AAGroupName::OneHmAtk => "_1hmatk",
            AAGroupName::H2HAtk => "_h2hatk",
            AAGroupName::H2HAtkPow => "_h2hatkpow",
            AAGroupName::MagAtk => "_magatk",
            AAGroupName::OneHmEqp => "_1hmeqp",
            AAGroupName::TwoHwEqp => "_2hweqp",
            AAGroupName::TwoHmEqp => "_2hmeqp",
            AAGroupName::AxeEqp => "_axeeqp",
            AAGroupName::BowEqp => "_boweqp",
            AAGroupName::CBowEqp => "_cboweqp",
            AAGroupName::DagEqp => "_dageqp",
            AAGroupName::H2HEqp => "_h2heqp",
            AAGroupName::MaceEqp => "_maceqp",
            AAGroupName::MagEqp => "_mageqp",
            AAGroupName::StfEqp => "_stfeqp",
            AAGroupName::Shout => "_shout",
            AAGroupName::MagCon => "_magcon",
            AAGroupName::DW => "_dw",
            AAGroupName::Jump => "_jump",
            AAGroupName::Sprint => "_sprint",
            AAGroupName::Shield => "_shield",
        }
    }

    /// Parses an FNIS group name, ignoring ASCII case; the unknown text is returned in the error.
    pub fn from_fnis_str(s: &str) -> (r: Result<AAGroupName, UnknownGroupName>)
        ensures
            match spec_parse_group(s@) {
                Some(g) => r == Ok::<AAGroupName, UnknownGroupName>(g),
                None => r matches Err(e) && e.message@ == s@,
            },
    {
        if str_eq_caseless(s, "_mtidle") {
            return Ok(AAGroupName::MtIdle);
        }
        if str_eq_caseless(s, "_1hmidle") {
            return Ok(AAGroupName::OneHmIdle);
        }
        if str_eq_caseless(s, "_2hmidle") {
            return Ok(AAGroupName::TwoHmIdle);
        }
        if str_eq_caseless(s, "_2hwidle") {
            return Ok(AAGroupName::TwoHwIdle);
        }
        if str_eq_caseless(s, "_bowidle") {
            return Ok(AAGroupName::BowIdle);
        }
        if str_eq_caseless(s, "_cbowidle") {
            return Ok(AAGroupName::CBowIdle);
        }
        if str_eq_caseless(s, "_h2hidle") {
            return Ok(AAGroupName::H2HIdle);
        }
        if str_eq_caseless(s, "_magidle") {
            return Ok(AAGroupName::MagIdle);
        }
        if str_eq_caseless(s, "_sneakidle") {
            return Ok(AAGroupName::SneakIdle);
        }
        if str_eq_caseless(s, "_staffidle") {
            return Ok(AAGroupName::StaffIdle);
        }
        if str_eq_caseless(s, "_magmt") {
            return Ok(AAGroupName::MagMt);
        }
        if str_eq_caseless(s, "_magcastmt") {
            return Ok(AAGroupName::MagCastMt);
        }
        if str_eq_caseless(s, "_1hmatk") {
            return Ok(AAGroupName::OneHmAtk);
        }
        if str_eq_caseless(s, "_h2hatk") {
            return Ok(AAGroupName::H2HAtk);
        }
        if str_eq_caseless(s, "_h2hatkpow") {
            return Ok(AAGroupName::H2HAtkPow);
        }
        if str_eq_caseless(s, "_magatk") {
            return Ok(AAGroupName::MagAtk);
        }
        if str_eq_caseless(s, "_1hmeqp") {
            return Ok(AAGroupName::OneHmEqp);
        }
        if str_eq_caseless(s, "_2hweqp") {
            return Ok(AAGroupName::TwoHwEqp);
        }
        if str_eq_caseless(s, "_2hmeqp") {
            return Ok(AAGroupName::TwoHmEqp);
        }
        if str_eq_caseless(s, "_axeeqp") {
            return Ok(AAGroupName::AxeEqp);
        }
        if str_eq_caseless(s, "_boweqp") {
            return Ok(AAGroupName::BowEqp);
        }
        if str_eq_caseless(s, "_cboweqp") {
            return Ok(AAGroupName::CBowEqp);
        }
        if str_eq_caseless(s, "_dageqp") {
            return Ok(AAGroupName::DagEqp);
        }
        if str_eq_caseless(s, "_h2heqp") {
            return Ok(AAGroupName::H2HEqp);
        }
        if str_eq_caseless(s, "_maceqp") {
            return Ok(AAGroupName::MaceEqp);
        }
        if str_eq_caseless(s, "_mageqp") {
            return Ok(AAGroupName::MagEqp);
        }
        if str_eq_caseless(s, "_stfeqp") {
            return Ok(AAGroupName::StfEqp);
        }
        if str_eq_caseless(s, "_shout") {
            return Ok(AAGroupName::Shout);
        }
        if str_eq_caseless(s, "_magcon") {
            return Ok(AAGroupName::MagCon);
        }
        if str_eq_caseless(s, "_dw") {
            return Ok(AAGroupName::DW);
        }
        if str_eq_caseless(s, "_jump") {
            return Ok(AAGroupName::Jump);
        }
        if str_eq_caseless(s, "_sprint") {
            return Ok(AAGroupName::Sprint);
        }
        if str_eq_caseless(s, "_shield") {
            return Ok(AAGroupName::Shield);
        }
        Err(UnknownGroupName { message: s.to_owned() })
    }
}

impl std::str::FromStr for AAGroupName {
    type Err = UnknownGroupName;

    /// Parses the FNIS group name string, ignoring ASCII case (see [`AAGroupName::from_fnis_str`]).
    fn from_str(s: &str) -> (r: Result<AAGroupName, UnknownGroupName>)
        ensures
            match spec_parse_group(s@) {
                Some(g) => r == Ok::<AAGroupName, UnknownGroupName>(g),
                None => r matches Err(e) && e.message@ == s@,
            },
    {
        AAGroupName::from_fnis_str(s)
    }
}

/// The FNIS names of the groups as character sequences.
proof fn lemma_fnis_str_chars()
    ensures
        "_mtidle"@ == seq!['_', 'm', 't', 'i', 'd', 'l', 'e'],
        "_1hmidle"@ == seq!['_', '1', 'h', 'm', 'i', 'd', 'l', 'e'],
        "_2hmidle"@ == seq!['_', '2', 'h', 'm', 'i', 'd', 'l', 'e'],
        "_2hwidle"@ == seq!['_', '2', 'h', 'w', 'i', 'd', 'l', 'e'],
        "_bowidle"@ == seq!['_', 'b', 'o', 'w', 'i', 'd', 'l', 'e'],
        "_cbowidle"@ == seq!['_', 'c', 'b', 'o', 'w', 'i', 'd', 'l', 'e'],
        "_h2hidle"@ == seq!['_', 'h', '2', 'h', 'i', 'd', 'l', 'e'],
        "_magidle"@ == seq!['_', 'm', 'a', 'g', 'i', 'd', 'l', 'e'],
        "_sneakidle"@ == seq!['_', 's', 'n', 'e', 'a', 'k', 'i', 'd', 'l', 'e'],
        "_staffidle"@ == seq!['_', 's', 't', 'a', 'f', 'f', 'i', 'd', 'l', 'e'],
        "_magmt"@ == seq!['_', 'm', 'a', 'g', 'm', 't'],
        "_magcastmt"@ == seq!['_', 'm', 'a', 'g', 'c', 'a', 's', 't', 'm', 't'],
        "_1hmatk"@ == seq!['_', '1', 'h', 'm', 'a', 't', 'k'],
        "_h2hatk"@ == seq!['_', 'h', '2', 'h', 'a', 't', 'k'],
        "_h2hatkpow"@ == seq!['_', 'h', '2', 'h', 'a', 't', 'k', 'p', 'o', 'w'],
        "_magatk"@ == seq!['_', 'm', 'a', 'g', 'a', 't', 'k'],
        "_1hmeqp"@ == seq!['_', '1', 'h', 'm', 'e', 'q', 'p'],
        "_2hweqp"@ == seq!['_', '2', 'h', 'w', 'e', 'q', 'p'],
        "_2hmeqp"@ == seq!['_', '2', 'h', 'm', 'e', 'q', 'p'],
        "_axeeqp"@ == seq!['_', 'a', 'x', 'e', 'e', 'q', 'p'],
        "_boweqp"@ == seq!['_', 'b', 'o', 'w', 'e', 'q', 'p'],
        "_cboweqp"@ == seq!['_', 'c', 'b', 'o', 'w', 'e', 'q', 'p'],
        "_dageqp"@ == seq!['_', 'd', 'a', 'g', 'e', 'q', 'p'],
        "_h2heqp"@ == seq!['_', 'h', '2', 'h', 'e', 'q', 'p'],
        "_maceqp"@ == seq!['_', 'm', 'a', 'c', 'e', 'q', 'p'],
        "_mageqp"@ == seq!['_', 'm', 'a', 'g', 'e', 'q', 'p'],
        "_stfeqp"@ == seq!['_', 's', 't', 'f', 'e', 'q', 'p'],
        "_shout"@ == seq!['_', 's', 'h', 'o', 'u', 't'],
        "_magcon"@ == seq!['_', 'm', 'a', 'g', 'c', 'o', 'n'],
        "_dw"@ == seq!['_', 'd', 'w'],
        "_jump"@ == seq!['_', 'j', 'u', 'm', 'p'],
        "_sprint"@ == seq!['_', 's', 'p', 'r', 'i', 'n', 't'],
        "_shield"@ == seq!['_', 's', 'h', 'i', 'e', 'l', 'd'],
{
    reveal_strlit("_mtidle");
    assert("_mtidle"@ =~= seq!['_', 'm', 't', 'i', 'd', 'l', 'e']);
    reveal_strlit("_1hmidle");
    assert("_1hmidle"@ =~= seq!['_', '1', 'h', 'm', 'i', 'd', 'l', 'e']);
    reveal_strlit("_2hmidle");
    assert("_2hmidle"@ =~= seq!['_', '2', 'h', 'm', 'i', 'd', 'l', 'e']);
    reveal_strlit("_2hwidle");
    assert("_2hwidle"@ =~= seq!['_', '2', 'h', 'w', 'i', 'd', 'l', 'e']);
    reveal_strlit("_bowidle");
    assert("_bowidle"@ =~= seq!['_', 'b', 'o', 'w', 'i', 'd', 'l', 'e']);
    reveal_strlit("_cbowidle");
    assert("_cbowidle"@ =~= seq!['_', 'c', 'b', 'o', 'w', 'i', 'd', 'l', 'e']);
    reveal_strlit("_h2hidle");
    assert("_h2hidle"@ =~= seq!['_', 'h', '2', 'h', 'i', 'd', 'l', 'e']);
    reveal_strlit("_magidle");
    assert("_magidle"@ =~= seq!['_', 'm', 'a', 'g', 'i', 'd', 'l', 'e']);
    reveal_strlit("_sneakidle");
    assert("_sneakidle"@ =~= seq!['_', 's', 'n', 'e', 'a', 'k', 'i', 'd', 'l', 'e']);
    reveal_strlit("_staffidle");
    assert("_staffidle"@ =~= seq!['_', 's', 't', 'a', 'f', 'f', 'i', 'd', 'l', 'e']);
    reveal_strlit("_magmt");
    assert("_magmt"@ =~= seq!['_', 'm', 'a', 'g', 'm', 't']);
    reveal_strlit("_magcastmt");
    assert("_magcastmt"@ =~= seq!['_', 'm', 'a', 'g', 'c', 'a', 's', 't', 'm', 't']);
    reveal_strlit("_1hmatk");
    assert("_1hmatk"@ =~= seq!['_', '1', 'h', 'm', 'a', 't', 'k']);
    reveal_strlit("_h2hatk");
    assert("_h2hatk"@ =~= seq!['_', 'h', '2', 'h', 'a', 't', 'k']);
    reveal_strlit("_h2hatkpow");
    assert("_h2hatkpow"@ =~= seq!['_', 'h', '2', 'h', 'a', 't', 'k', 'p', 'o', 'w']);
    reveal_strlit("_magatk");
    assert("_magatk"@ =~= seq!['_', 'm', 'a', 'g', 'a', 't', 'k']);
    reveal_strlit("_1hmeqp");
    assert("_1hmeqp"@ =~= seq!['_', '1', 'h', 'm', 'e', 'q', 'p']);
    reveal_strlit("_2hweqp");
    assert("_2hweqp"@ =~= seq!['_', '2', 'h', 'w', 'e', 'q', 'p']);
    reveal_strlit("_2hmeqp");
    assert("_2hmeqp"@ =~= seq!['_', '2', 'h', 'm', 'e', 'q', 'p']);
    reveal_strlit("_axeeqp");
    assert("_axeeqp"@ =~= seq!['_', 'a', 'x', 'e', 'e', 'q', 'p']);
    reveal_strlit("_boweqp");
    assert("_boweqp"@ =~= seq!['_', 'b', 'o', 'w', 'e', 'q', 'p']);
    reveal_strlit("_cboweqp");
    assert("_cboweqp"@ =~= seq!['_', 'c', 'b', 'o', 'w', 'e', 'q', 'p']);
    reveal_strlit("_dageqp");
    assert("_dageqp"@ =~= seq!['_', 'd', 'a', 'g', 'e', 'q', 'p']);
    reveal_strlit("_h2heqp");
    assert("_h2heqp"@ =~= seq!['_', 'h', '2', 'h', 'e', 'q', 'p']);
    reveal_strlit("_maceqp");
    assert("_maceqp"@ =~= seq!['_', 'm', 'a', 'c', 'e', 'q', 'p']);
    reveal_strlit("_mageqp");
    assert("_mageqp"@ =~= seq!['_', 'm', 'a', 'g', 'e', 'q', 'p']);
    reveal_strlit("_stfeqp");
    assert("_stfeqp"@ =~= seq!['_', 's', 't', 'f', 'e', 'q', 'p']);
    reveal_strlit("_shout");
    assert("_shout"@ =~= seq!['_', 's', 'h', 'o', 'u', 't']);
    reveal_strlit("_magcon");
    assert("_magcon"@ =~= seq!['_', 'm', 'a', 'g', 'c', 'o', 'n']);
    reveal_strlit("_dw");
    assert("_dw"@ =~= seq!['_', 'd', 'w']);
    reveal_strlit("_jump");
    assert("_jump"@ =~= seq!['_', 'j', 'u', 'm', 'p']);
    reveal_strlit("_sprint");
    assert("_sprint"@ =~= seq!['_', 's', 'p', 'r', 'i', 'n', 't']);
    reveal_strlit("_shield");
    assert("_shield"@ =~= seq!['_', 's', 'h', 'i', 'e', 'l', 'd']);
}

/// Parsing the FNIS name of a group gives that group back.
pub proof fn lemma_parse_fnis_str_roundtrip(g: AAGroupName)
    ensures
        spec_parse_group(spec_fnis_str(g)) == Some(g),
{
    lemma_fnis_str_chars();
}

/// Parsing a group name ignores ASCII case: texts that agree without case parse alike.
pub proof fn lemma_parse_group_caseless(s: Seq<char>, t: Seq<char>)
    requires
        seq_eq_caseless(s, t),
    ensures
        spec_parse_group(s) == spec_parse_group(t),
{
    lemma_seq_eq_caseless_trans(s, t, "_mtidle"@);
    lemma_seq_eq_caseless_trans(s, t, "_1hmidle"@);
    lemma_seq_eq_caseless_trans(s, t, "_2hmidle"@);
    lemma_seq_eq_caseless_trans(s, t, "_2hwidle"@);
    lemma_seq_eq_caseless_trans(s, t, "_bowidle"@);
    lemma_seq_eq_caseless_trans(s, t, "_cbowidle"@);
    lemma_seq_eq_caseless_trans(s, t, "_h2hidle"@);
    lemma_seq_eq_caseless_trans(s, t, "_magidle"@);
    lemma_seq_eq_caseless_trans(s, t, "_sneakidle"@);
    lemma_seq_eq_caseless_trans(s, t, "_staffidle"@);
    lemma_seq_eq_caseless_trans(s, t, "_magmt"@);
    lemma_seq_eq_caseless_trans(s, t, "_magcastmt"@);
    lemma_seq_eq_caseless_trans(s, t, "_1hmatk"@);
    lemma_seq_eq_caseless_trans(s, t, "_h2hatk"@);
    lemma_seq_eq_caseless_trans(s, t, "_h2hatkpow"@);
    lemma_seq_eq_caseless_trans(s, t, "_magatk"@);
    lemma_seq_eq_caseless_trans(s, t, "_1hmeqp"@);
    lemma_seq_eq_caseless_trans(s, t, "_2hweqp"@);
    lemma_seq_eq_caseless_trans(s, t, "_2hmeqp"@);
    lemma_seq_eq_caseless_trans(s, t, "_axeeqp"@);
    lemma_seq_eq_caseless_trans(s, t, "_boweqp"@);
    lemma_seq_eq_caseless_trans(s, t, "_cboweqp"@);
    lemma_seq_eq_caseless_trans(s, t, "_dageqp"@);
    lemma_seq_eq_caseless_trans(s, t, "_h2heqp"@);
    lemma_seq_eq_caseless_trans(s, t, "_maceqp"@);
    lemma_seq_eq_caseless_trans(s, t, "_mageqp"@);
    lemma_seq_eq_caseless_trans(s, t, "_stfeqp"@);
    lemma_seq_eq_caseless_trans(s, t, "_shout"@);
    lemma_seq_eq_caseless_trans(s, t, "_magcon"@);
    lemma_seq_eq_caseless_trans(s, t, "_dw"@);
    lemma_seq_eq_caseless_trans(s, t, "_jump"@);
    lemma_seq_eq_caseless_trans(s, t, "_sprint"@);
    lemma_seq_eq_caseless_trans(s, t, "_shield"@);
}

/// Distinct groups have distinct `FNIS_aa` constants.
pub proof fn lemma_group_id_injective(a: AAGroupName, b: AAGroupName)
    ensures
        spec_group_id(a) == spec_group_id(b) ==> a == b,
{
}

/// Parsing the FNIS name of a group, in any ASCII case, gives the group back: the name as
/// is and in upper case both parse to it.
pub proof fn lemma_parse_fnis_str_any_case(g: AAGroupName)
    ensures
        spec_parse_group(spec_fnis_str(g)) == Some(g),
        spec_parse_group(ascii_uppercase(spec_fnis_str(g))) == Some(g),
{
    lemma_parse_fnis_str_roundtrip(g);
    lemma_uppercase_caseless(spec_fnis_str(g));
    lemma_parse_group_caseless(ascii_uppercase(spec_fnis_str(g)), spec_fnis_str(g));
}

} // verus!
