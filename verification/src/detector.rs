//! The supported keyboard models, their USB identifiers, and the detection
//! of the models that are attached.

use crate::hid::{endpoint_ids, list_endpoints};
use hidapi::HidApi;
use vstd::prelude::*;
use vstd::string::StringExecFns;

verus! {

/// The supported keyboard models. A new model is a new variant and a new
/// row in each of the lookups below.
#[derive(Debug, Clone, Copy, PartialEq, Eq, Structural)]
pub enum AkkoModel {
    Mod007b,
    Akko24GWireless,
}

/// The USB vendor id of a model.
pub open spec fn model_vid(model: AkkoModel) -> u16 {
    match model {
        AkkoModel::Mod007b => 0x3151,
        AkkoModel::Akko24GWireless => 0x3151,
    }
}

/// The USB product id of a model.
pub open spec fn model_pid(model: AkkoModel) -> u16 {
    match model {
        AkkoModel::Mod007b => 0x5009,
        AkkoModel::Akko24GWireless => 0x4011,
    }
}

/// The display name of a model.
pub open spec fn model_name(model: AkkoModel) -> Seq<char> {
    match model {
        AkkoModel::Mod007b => "MOD007B"@,
        AkkoModel::Akko24GWireless => "Akko 2.4G Wireless Keyboard"@,
    }
}

/// The model that a lower-case identifier stands for.
pub open spec fn model_named(lower: Seq<char>) -> Option<AkkoModel> {
    if lower == "mod007b"@ {
        Some(AkkoModel::Mod007b)
    } else if lower == "akko24gwireless"@ || lower == "akko 2.4g wireless keyboard"@ {
        Some(AkkoModel::Akko24GWireless)
    } else {
        None
    }
}

/// The lower-case form of a text, as `str::to_lowercase` computes it.
pub uninterp spec fn lowercase(text: Seq<char>) -> Seq<char>;

/// `str::to_lowercase` returns the lower-case equivalent of a text, by the
/// Unicode rules for lower case. The result is given a name and nothing more
/// is claimed of it.
pub assume_specification[ str::to_lowercase ](text: &str) -> (lower: String)
    ensures
        lower@ == lowercase(text@),
;

/// Whether some listed interface has the identifiers of `model`.
pub open spec fn is_attached(ids: Seq<(u16, u16)>, model: AkkoModel) -> bool {
    ids.contains((model_vid(model), model_pid(model)))
}

/// The models that have an interface among `ids`, each once, in the order of
/// the model table.
pub open spec fn models_among(ids: Seq<(u16, u16)>) -> Seq<AkkoModel> {
    (if is_attached(ids, AkkoModel::Mod007b) {
        seq![AkkoModel::Mod007b]
    } else {
        Seq::empty()
    }) + (if is_attached(ids, AkkoModel::Akko24GWireless) {
        seq![AkkoModel::Akko24GWireless]
    } else {
        Seq::empty()
    })
}

/// Whether `ids` holds the pair of `vid` and `pid`.
fn holds_id(ids: &Vec<(u16, u16)>, vid: u16, pid: u16) -> (held: bool)
    ensures
        held == ids@.contains((vid, pid)),
{
    let mut i: usize = 0;
    while i < ids.len()
        invariant
            i <= ids.len(),
            forall|j: int| 0 <= j < i ==> ids@[j] != (vid, pid),
        decreases ids.len() - i,
    {
        if ids[i].0 == vid && ids[i].1 == pid {
            assert(ids@[i as int] == (vid, pid));
            return true;
        }
        i += 1;
    }
    false
}

impl AkkoModel {
    /// The USB vendor id of this model.
    pub fn vid(&self) -> (vid: u16)
        ensures
            vid == model_vid(*self),
    {
        match self {
            AkkoModel::Mod007b => 0x3151,
            AkkoModel::Akko24GWireless => 0x3151,
        }
    }

    /// The USB product id of this model.
    pub fn pid(&self) -> (pid: u16)
        ensures
            pid == model_pid(*self),
    {
        match self {
            AkkoModel::Mod007b => 0x5009,
            AkkoModel::Akko24GWireless => 0x4011,
        }
    }

    /// The model that a lower-case identifier stands for, if any.
    pub fn from_lowercase(lower: &str) -> (model: Option<Self>)
        ensures
            model == model_named(lower@),
    {
        let given = String::from_str(lower);
        if given == String::from_str("mod007b") {
            Some(AkkoModel::Mod007b)
        } else if given == String::from_str("akko24gwireless") || given == String::from_str(
            "akko 2.4g wireless keyboard",
        ) {
            Some(AkkoModel::Akko24GWireless)
        } else {
            None
        }
    }

    /// The model that an identifier stands for, whatever its letter case.
    pub fn from_str(s: &str) -> (model: Option<Self>)
        ensures
            model == model_named(lowercase(s@)),
    {
        let lower = s.to_lowercase();
        Self::from_lowercase(lower.as_str())
    }

    /// The display name of this model.
    pub fn name(&self) -> (name: &'static str)
        ensures
            name@ == model_name(*self),
    {
        match self {
            AkkoModel::Mod007b => "MOD007B",
            AkkoModel::Akko24GWireless => "Akko 2.4G Wireless Keyboard",
        }
    }

    /// The models that have an interface among the listed identifiers.
    pub fn present_among(ids: &Vec<(u16, u16)>) -> (found: Vec<AkkoModel>)
        ensures
            found@ == models_among(ids@),
    {
        let mut found: Vec<AkkoModel> = Vec::new();
        let first = AkkoModel::Mod007b;
        if holds_id(ids, first.vid(), first.pid()) {
            found.push(first);
        }
        let second = AkkoModel::Akko24GWireless;
        if holds_id(ids, second.vid(), second.pid()) {
            found.push(second);
        }
        assert(found@ =~= models_among(ids@));
        found
    }
}

/// Detects the attached keyboards: the supported models that have at least
/// one interface in the host's list, each once, in table order. Where the
/// host's HID layer cannot be started, none is reported.
pub fn detect_akko_devices() -> (found: Vec<AkkoModel>)
    ensures
        exists|ids: Seq<(u16, u16)>| found@ == #[trigger] models_among(ids),
{
    match HidApi::new() {
        Ok(api) => {
            let endpoints = list_endpoints(&api);
            let ids = endpoint_ids(&endpoints);
            AkkoModel::present_among(&ids)
        },
        Err(_) => {
            let found: Vec<AkkoModel> = Vec::new();
            assert(found@ =~= models_among(Seq::empty()));
            found
        },
    }
}

} // verus!
