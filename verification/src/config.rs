//! The simulation configuration and how it is decoded from its text.
//!
//! The configuration is generic over the type `R` of its real-valued
//! parameters. Reading a real number from an item is left to a function
//! that the caller supplies; everything else is decided here.

use vstd::prelude::*;
use crate::items::{config_items, split_items};
use crate::text::{
    decimal, flag_literal, flag_text, flag_word, i32_literal, i32_text, lowercase, parse_flag,
    parse_i32, parse_usize, signed_decimal, usize_literal, usize_text,
};

verus! {

/// The parameters of a configuration, in the order in which its text lists
/// them.
#[derive(Clone, Copy, Debug, PartialEq, Eq, Structural)]
pub enum Field {
    NumEvents,
    ETotal,
    BeamPhotonsCut,
    PhotonPhotonCut,
    EMin,
    BeamPhotonPlaneCut,
    Alpha,
    AlphaZ,
    Gev2ToPicobarn,
    MZ0,
    GZ0,
    Sin2Weinberg,
    BranchingEpEm,
    BetaPlus,
    BetaMinus,
    NumBins,
    Impr,
    Plot,
}

/// The number of parameters that a configuration text must list.
pub const NUM_FIELDS: usize = 18;

impl Field {
    /// The place of the parameter among the items of a configuration text,
    /// counted from zero.
    pub open spec fn position(self) -> int {
        match self {
            Field::NumEvents => 0,
            Field::ETotal => 1,
            Field::BeamPhotonsCut => 2,
            Field::PhotonPhotonCut => 3,
            Field::EMin => 4,
            Field::BeamPhotonPlaneCut => 5,
            Field::Alpha => 6,
            Field::AlphaZ => 7,
            Field::Gev2ToPicobarn => 8,
            Field::MZ0 => 9,
            Field::GZ0 => 10,
            Field::Sin2Weinberg => 11,
            Field::BranchingEpEm => 12,
            Field::BetaPlus => 13,
            Field::BetaMinus => 14,
            Field::NumBins => 15,
            Field::Impr => 16,
            Field::Plot => 17,
        }
    }

    /// The name under which problems with the parameter are reported.
    pub open spec fn spec_name(self) -> &'static str {
        match self {
            Field::NumEvents => "num_events",
            Field::ETotal => "e_total",
            Field::BeamPhotonsCut => "beam_photons_cut",
            Field::PhotonPhotonCut => "photon_photon_cut",
            Field::EMin => "e_min",
            Field::BeamPhotonPlaneCut => "beam_photon_plane_cut",
            Field::Alpha => "alpha",
            Field::AlphaZ => "alpha_z",
            Field::Gev2ToPicobarn => "gev2_to_picobarn",
            Field::MZ0 => "m_z0",
            Field::GZ0 => "g_z0",
            Field::Sin2Weinberg => "sin2_weinberg",
            Field::BranchingEpEm => "branching_ep_em",
            Field::BetaPlus => "beta_plus",
            Field::BetaMinus => "beta_moins",
            Field::NumBins => "num_bins",
            Field::Impr => "impr",
            Field::Plot => "plot",
        }
    }

    /// The heading under which the parameter is displayed.
    pub open spec fn spec_label(self) -> &'static str {
        match self {
            Field::NumEvents => "ITOT           : ",
            Field::ETotal => "ETOT           : ",
            Field::BeamPhotonsCut => "oCutpar.ACUT   : ",
            Field::PhotonPhotonCut => "oCutpar.BCUT   : ",
            Field::EMin => "oCutpar.EMIN   : ",
            Field::BeamPhotonPlaneCut => "oCutpar.SINCUT : ",
            Field::Alpha => "ALPHA          : ",
            Field::AlphaZ => "ALPHAZ         : ",
            Field::Gev2ToPicobarn => "CONVERS        : ",
            Field::MZ0 => "oParam.MZ0     : ",
            Field::GZ0 => "oParam.GZ0     : ",
            Field::Sin2Weinberg => "SIN2W          : ",
            Field::BranchingEpEm => "BREPEM         : ",
            Field::BetaPlus => "BETAPLUS       : ",
            Field::BetaMinus => "BETAMOINS      : ",
            Field::NumBins => "NBIN           : ",
            Field::Impr => "oParam.IMPR    : ",
            Field::Plot => "PLOT           : ",
        }
    }

    /// The parameter at place `k`, for `k` below the number of parameters.
    pub open spec fn spec_at(k: int) -> Field {
        if k == 0 {
            Field::NumEvents
        } else if k == 1 {
            Field::ETotal
        } else if k == 2 {
            Field::BeamPhotonsCut
        } else if k == 3 {
            Field::PhotonPhotonCut
        } else if k == 4 {
            Field::EMin
        } else if k == 5 {
            Field::BeamPhotonPlaneCut
        } else if k == 6 {
            Field::Alpha
        } else if k == 7 {
            Field::AlphaZ
        } else if k == 8 {
            Field::Gev2ToPicobarn
        } else if k == 9 {
            Field::MZ0
        } else if k == 10 {
            Field::GZ0
        } else if k == 11 {
            Field::Sin2Weinberg
        } else if k == 12 {
            Field::BranchingEpEm
        } else if k == 13 {
            Field::BetaPlus
        } else if k == 14 {
            Field::BetaMinus
        } else if k == 15 {
            Field::NumBins
        } else if k == 16 {
            Field::Impr
        } else {
            Field::Plot
        }
    }

    /// The place of the parameter among the items of a configuration text.
    pub fn index(self) -> (r: usize)
        ensures
            r == self.position(),
            r < NUM_FIELDS,
    {
        match self {
            Field::NumEvents => 0,
            Field::ETotal => 1,
            Field::BeamPhotonsCut => 2,
            Field::PhotonPhotonCut => 3,
            Field::EMin => 4,
            Field::BeamPhotonPlaneCut => 5,
            Field::Alpha => 6,
            Field::AlphaZ => 7,
            Field::Gev2ToPicobarn => 8,
            Field::MZ0 => 9,
            Field::GZ0 => 10,
            Field::Sin2Weinberg => 11,
            Field::BranchingEpEm => 12,
            Field::BetaPlus => 13,
            Field::BetaMinus => 14,
            Field::NumBins => 15,
            Field::Impr => 16,
            Field::Plot => 17,
        }
    }

    /// The name under which problems with the parameter are reported.
    #[verifier::when_used_as_spec(spec_name)]
    pub fn name(self) -> (r: &'static str)
        ensures
            r == self.spec_name(),
    {
        match self {
            Field::NumEvents => "num_events",
            Field::ETotal => "e_total",
            Field::BeamPhotonsCut => "beam_photons_cut",
            Field::PhotonPhotonCut => "photon_photon_cut",
            Field::EMin => "e_min",
            Field::BeamPhotonPlaneCut => "beam_photon_plane_cut",
            Field::Alpha => "alpha",
            Field::AlphaZ => "alpha_z",
            Field::Gev2ToPicobarn => "gev2_to_picobarn",
            Field::MZ0 => "m_z0",
            Field::GZ0 => "g_z0",
            Field::Sin2Weinberg => "sin2_weinberg",
            Field::BranchingEpEm => "branching_ep_em",
            Field::BetaPlus => "beta_plus",
            Field::BetaMinus => "beta_moins",
            Field::NumBins => "num_bins",
            Field::Impr => "impr",
            Field::Plot => "plot",
        }
    }

    /// The heading under which the parameter is displayed.
    #[verifier::when_used_as_spec(spec_label)]
    pub fn label(self) -> (r: &'static str)
        ensures
            r == self.spec_label(),
    {
        match self {
            Field::NumEvents => "ITOT           : ",
            Field::ETotal => "ETOT           : ",
            Field::BeamPhotonsCut => "oCutpar.ACUT   : ",
            Field::PhotonPhotonCut => "oCutpar.BCUT   : ",
            Field::EMin => "oCutpar.EMIN   : ",
            Field::BeamPhotonPlaneCut => "oCutpar.SINCUT : ",
            Field::Alpha => "ALPHA          : ",
            Field::AlphaZ => "ALPHAZ         : ",
            Field::Gev2ToPicobarn => "CONVERS        : ",
            Field::MZ0 => "oParam.MZ0     : ",
            Field::GZ0 => "oParam.GZ0     : ",
            Field::Sin2Weinberg => "SIN2W          : ",
            Field::BranchingEpEm => "BREPEM         : ",
            Field::BetaPlus => "BETAPLUS       : ",
            Field::BetaMinus => "BETAMOINS      : ",
            Field::NumBins => "NBIN           : ",
            Field::Impr => "oParam.IMPR    : ",
            Field::Plot => "PLOT           : ",
        }
    }

    /// The parameter at place `k`.
    pub fn at(k: usize) -> (r: Field)
        requires
            k < NUM_FIELDS,
        ensures
            r == Field::spec_at(k as int),
            r.position() == k,
    {
        if k == 0 {
            Field::NumEvents
        } else if k == 1 {
            Field::ETotal
        } else if k == 2 {
            Field::BeamPhotonsCut
        } else if k == 3 {
            Field::PhotonPhotonCut
        } else if k == 4 {
            Field::EMin
        } else if k == 5 {
            Field::BeamPhotonPlaneCut
        } else if k == 6 {
            Field::Alpha
        } else if k == 7 {
            Field::AlphaZ
        } else if k == 8 {
            Field::Gev2ToPicobarn
        } else if k == 9 {
            Field::MZ0
        } else if k == 10 {
            Field::GZ0
        } else if k == 11 {
            Field::Sin2Weinberg
        } else if k == 12 {
            Field::BranchingEpEm
        } else if k == 13 {
            Field::BetaPlus
        } else if k == 14 {
            Field::BetaMinus
        } else if k == 15 {
            Field::NumBins
        } else if k == 16 {
            Field::Impr
        } else {
            Field::Plot
        }
    }
}

/// Why a configuration was turned down.
#[derive(Clone, Copy, Debug, PartialEq, Eq, Structural)]
pub enum ConfigError {
    /// The text ended before the item of this parameter.
    Missing(Field),
    /// The item of this parameter does not denote a value of its type.
    Unparsable(Field),
    /// No event is to be simulated.
    NoEvents,
    /// Plotting was asked for.
    PlottingUnsupported,
    /// The display of intermediary results was asked for.
    ResultPrintingUnsupported,
}

impl ConfigError {
    /// The words in which the problem is reported.
    pub open spec fn spec_message(self) -> Seq<char> {
        match self {
            ConfigError::Missing(field) => "Missing configuration of "@ + field.spec_name()@,
            ConfigError::Unparsable(field) => "Could not parse configuration of "@
                + field.spec_name()@,
            ConfigError::NoEvents => "Please simulate at least one event"@,
            ConfigError::PlottingUnsupported => "Plotting is not supported by this version"@,
            ConfigError::ResultPrintingUnsupported =>
                "Individual result printing is not supported. This debugging feature has a run-time performance cost even when unused. It should be implemented at compile-time instead."@,
        }
    }

    /// The words in which the problem is reported.
    pub fn message(&self) -> (r: String)
        ensures
            r@ == self.spec_message(),
    {
        match self {
            ConfigError::Missing(field) => String::from_str("Missing configuration of ").concat(
                field.name(),
            ),
            ConfigError::Unparsable(field) => String::from_str(
                "Could not parse configuration of ",
            ).concat(field.name()),
            ConfigError::NoEvents => String::from_str("Please simulate at least one event"),
            ConfigError::PlottingUnsupported => String::from_str(
                "Plotting is not supported by this version",
            ),
            ConfigError::ResultPrintingUnsupported => String::from_str(
                "Individual result printing is not supported. This debugging feature has a run-time performance cost even when unused. It should be implemented at compile-time instead.",
            ),
        }
    }
}

/// An item of a configuration text, together with the parameter that it is
/// meant for.
pub struct ConfigItem<'data> {
    pub field: Field,
    pub data: &'data str,
}

impl<'data> ConfigItem<'data> {
    /// Pairs a parameter with the item found for it.
    pub fn new(field: Field, data: &'data str) -> (r: Self)
        ensures
            r.field == field,
            r.data == data,
    {
        ConfigItem { field, data }
    }

    /// Reads the item with `read`. Where `read` finds no value in it, the
    /// item is reported as unparsable under the name of its parameter.
    pub fn parse<T, F: Fn(&str) -> Option<T>>(self, read: &F) -> (r: Result<T, ConfigError>)
        requires
            call_requires(*read, (self.data,)),
        ensures
            match r {
                Ok(v) => call_ensures(*read, (self.data,), Some(v)),
                Err(e) => e == ConfigError::Unparsable(self.field) && call_ensures(
                    *read,
                    (self.data,),
                    None::<T>,
                ),
            },
    {
        match read(self.data) {
            Some(v) => Ok(v),
            None => Err(ConfigError::Unparsable(self.field)),
        }
    }

    /// Reads the item as a flag. Besides `true` and `false`, the Fortran
    /// spellings `.true.` and `.false.` are understood, in any letter case.
    pub fn parse_bool(self) -> (r: Result<bool, ConfigError>)
        ensures
            r == match flag_literal(lowercase(self.data@), self.data@) {
                Some(b) => Ok::<bool, ConfigError>(b),
                None => Err(ConfigError::Unparsable(self.field)),
            },
    {
        match parse_flag(self.data) {
            Some(b) => Ok(b),
            None => Err(ConfigError::Unparsable(self.field)),
        }
    }
}

/// Cuts on the angles and energies of the generated photons.
pub struct EventCut<R> {
    /// Cut on the angle between the beam and the photons.
    pub beam_photons_cut: R,
    /// Cut on the angle between two photons.
    pub photon_photon_cut: R,
    /// Least energy of a photon.
    pub e_min: R,
    /// Cut on the angle between the beam and the plane of the photons.
    pub beam_photon_plane_cut: R,
}

impl<R> EventCut<R> {
    /// Gathers the four cuts.
    pub fn new(beam_photons_cut: R, photon_photon_cut: R, e_min: R, beam_photon_plane_cut: R) -> (r:
        Self)
        ensures
            r.beam_photons_cut == beam_photons_cut,
            r.photon_photon_cut == photon_photon_cut,
            r.e_min == e_min,
            r.beam_photon_plane_cut == beam_photon_plane_cut,
    {
        EventCut { beam_photons_cut, photon_photon_cut, e_min, beam_photon_plane_cut }
    }
}

/// Simulation configuration.
pub struct Configuration<R> {
    /// Number of events to be simulated.
    pub num_events: usize,
    /// Collision energy at the centre of mass (GeV).
    pub e_total: R,
    /// Cuts on the angles and energies of the generated photons.
    pub event_cut: EventCut<R>,
    /// Fine structure constant.
    pub alpha: R,
    /// Fine structure constant at the Z peak.
    pub alpha_z: R,
    /// Conversion factor from GeV^(-2) to pb.
    pub gev2_to_picobarn: R,
    /// Z boson mass (GeV).
    pub m_z0: R,
    /// Z boson width (GeV).
    pub g_z0: R,
    /// Square sine of the Weinberg angle.
    pub sin2_weinberg: R,
    /// Branching ratio from Z to e+/e-.
    pub branching_ep_em: R,
    /// Anomalous coupling beta plus.
    pub beta_plus: R,
    /// Anomalous coupling beta minus.
    pub beta_minus: R,
    /// Number of histogram bins (not used).
    pub num_bins: i32,
    /// Whether intermediary results are to be displayed (not supported).
    pub impr: bool,
    /// Whether results are to be plotted (not supported).
    pub plot: bool,
}

/// Whether `item` can be read as the value of `field`, the real numbers
/// being read by `read_real`.
pub open spec fn reads<R, F: Fn(&str) -> Option<R>>(field: Field, item: &str, read_real: F) -> bool {
    match field {
        Field::NumEvents => usize_literal(item@) is Some,
        Field::NumBins => i32_literal(item@) is Some,
        Field::Impr | Field::Plot => flag_literal(lowercase(item@), item@) is Some,
        _ => exists|v: R| call_ensures(read_real, (item,), Some(v)),
    }
}

/// Whether reading `item` as the value of `field` can fail.
pub open spec fn fails<R, F: Fn(&str) -> Option<R>>(field: Field, item: &str, read_real: F) -> bool {
    match field {
        Field::NumEvents => usize_literal(item@) is None,
        Field::NumBins => i32_literal(item@) is None,
        Field::Impr | Field::Plot => flag_literal(lowercase(item@), item@) is None,
        _ => call_ensures(read_real, (item,), None::<R>),
    }
}

/// Whether every parameter placed before `field` can be read from its item.
pub open spec fn reads_before<R, F: Fn(&str) -> Option<R>>(
    field: Field,
    items: Seq<&str>,
    read_real: F,
) -> bool {
    forall|g: Field| #[trigger]
        g.position() < field.position() ==> reads(g, items[g.position()], read_real)
}

/// Whether the texts `items` spell the words `words`, one by one.
pub open spec fn spell(items: Seq<&str>, words: Seq<Seq<char>>) -> bool {
    &&& items.len() == words.len()
    &&& forall|k: int| 0 <= k < items.len() ==> (#[trigger] items[k])@ == words[k]
}

/// The display of the first `n` parameters, given the texts of all values
/// in the order of the parameters: for each a line made of its heading and
/// the text of its value.
pub open spec fn laid_out(values: Seq<Seq<char>>, n: int) -> Seq<char>
    decreases n,
{
    if n <= 0 {
        Seq::empty()
    } else {
        laid_out(values, n - 1) + Field::spec_at(n - 1).spec_label()@ + values[n - 1] + seq!['\n']
    }
}

/// Lays out the display of a configuration from the texts of its values,
/// given in the order of the parameters.
pub fn layout(values: &Vec<String>) -> (r: String)
    requires
        values@.len() == NUM_FIELDS,
    ensures
        r@ == laid_out(Seq::new(NUM_FIELDS as nat, |k: int| values@[k]@), NUM_FIELDS as int),
{
    let ghost texts = Seq::new(NUM_FIELDS as nat, |k: int| values@[k]@);
    let mut out = String::new();
    let mut k: usize = 0;
    proof {
        reveal_strlit("\n");
        assert("\n"@ =~= seq!['\n']);
    }
    while k < NUM_FIELDS
        invariant
            k <= NUM_FIELDS,
            values@.len() == NUM_FIELDS,
            texts == Seq::new(NUM_FIELDS as nat, |k: int| values@[k]@),
            "\n"@ == seq!['\n'],
            out@ == laid_out(texts, k as int),
        decreases NUM_FIELDS - k,
    {
        let ghost before = out@;
        out.append(Field::at(k).label());
        out.append(values[k].as_str());
        out.append("\n");
        assert(out@ =~= before + Field::spec_at(k as int).spec_label()@ + texts[k as int] + seq![
            '\n',
        ]);
        k += 1;
    }
    out
}

impl<R> Configuration<R> {
    /// The texts of the values of the configuration in the order of its
    /// parameters, given those of its real numbers in `reals`.
    pub open spec fn value_texts(self, reals: Seq<String>) -> Seq<Seq<char>> {
        seq![
            decimal(self.num_events as nat),
            reals[0]@,
            reals[1]@,
            reals[2]@,
            reals[3]@,
            reals[4]@,
            reals[5]@,
            reals[6]@,
            reals[7]@,
            reals[8]@,
            reals[9]@,
            reals[10]@,
            reals[11]@,
            reals[12]@,
            reals[13]@,
            signed_decimal(self.num_bins as int),
            flag_word(self.impr),
            flag_word(self.plot),
        ]
    }

    /// Whether `reals` are texts that `show_real` may give for the real
    /// numbers of the configuration, in the order of its parameters.
    pub open spec fn shown_by<F: Fn(&R) -> String>(self, reals: Seq<String>, show_real: F) -> bool {
        &&& reals.len() == 14
        &&& call_ensures(show_real, (&self.e_total,), reals[0])
        &&& call_ensures(show_real, (&self.event_cut.beam_photons_cut,), reals[1])
        &&& call_ensures(show_real, (&self.event_cut.photon_photon_cut,), reals[2])
        &&& call_ensures(show_real, (&self.event_cut.e_min,), reals[3])
        &&& call_ensures(show_real, (&self.event_cut.beam_photon_plane_cut,), reals[4])
        &&& call_ensures(show_real, (&self.alpha,), reals[5])
        &&& call_ensures(show_real, (&self.alpha_z,), reals[6])
        &&& call_ensures(show_real, (&self.gev2_to_picobarn,), reals[7])
        &&& call_ensures(show_real, (&self.m_z0,), reals[8])
        &&& call_ensures(show_real, (&self.g_z0,), reals[9])
        &&& call_ensures(show_real, (&self.sin2_weinberg,), reals[10])
        &&& call_ensures(show_real, (&self.branching_ep_em,), reals[11])
        &&& call_ensures(show_real, (&self.beta_plus,), reals[12])
        &&& call_ensures(show_real, (&self.beta_minus,), reals[13])
    }

    /// Displays the configuration, one parameter per line under its
    /// heading. The real numbers are written by `show_real`, the integers
    /// in decimal and the flags as `true` or `false`.
    pub fn render<F: Fn(&R) -> String>(&self, show_real: &F) -> (r: String)
        requires
            forall|x: &R| call_requires(*show_real, (x,)),
        ensures
            exists|reals: Seq<String>|
                self.shown_by(reals, *show_real) && r@ == laid_out(
                    self.value_texts(reals),
                    NUM_FIELDS as int,
                ),
    {
        let mut values: Vec<String> = Vec::new();
        values.push(usize_text(self.num_events));
        values.push(show_real(&self.e_total));
        values.push(show_real(&self.event_cut.beam_photons_cut));
        values.push(show_real(&self.event_cut.photon_photon_cut));
        values.push(show_real(&self.event_cut.e_min));
        values.push(show_real(&self.event_cut.beam_photon_plane_cut));
        values.push(show_real(&self.alpha));
        values.push(show_real(&self.alpha_z));
        values.push(show_real(&self.gev2_to_picobarn));
        values.push(show_real(&self.m_z0));
        values.push(show_real(&self.g_z0));
        values.push(show_real(&self.sin2_weinberg));
        values.push(show_real(&self.branching_ep_em));
        values.push(show_real(&self.beta_plus));
        values.push(show_real(&self.beta_minus));
        values.push(i32_text(self.num_bins));
        values.push(String::from_str(flag_text(self.impr)));
        values.push(String::from_str(flag_text(self.plot)));
        let r = layout(&values);
        proof {
            let reals = values@.subrange(1, 15);
            assert(self.shown_by(reals, *show_real));
            assert(Seq::new(NUM_FIELDS as nat, |k: int| values@[k]@) =~= self.value_texts(reals));
        }
        r
    }

    /// What decoding `items` may give, the real numbers being read by
    /// `read_real`: a configuration whose every parameter is the value read
    /// from the item at its place, or the first problem met when the items
    /// are taken in order.
    pub open spec fn decoded<F: Fn(&str) -> Option<R>>(
        items: Seq<&str>,
        read_real: F,
        r: Result<Self, ConfigError>,
    ) -> bool {
        match r {
            Ok(c) => {
                &&& items.len() >= NUM_FIELDS
                &&& usize_literal(items[0]@) == Some(c.num_events)
                &&& call_ensures(read_real, (items[1],), Some(c.e_total))
                &&& call_ensures(read_real, (items[2],), Some(c.event_cut.beam_photons_cut))
                &&& call_ensures(read_real, (items[3],), Some(c.event_cut.photon_photon_cut))
                &&& call_ensures(read_real, (items[4],), Some(c.event_cut.e_min))
                &&& call_ensures(read_real, (items[5],), Some(c.event_cut.beam_photon_plane_cut))
                &&& call_ensures(read_real, (items[6],), Some(c.alpha))
                &&& call_ensures(read_real, (items[7],), Some(c.alpha_z))
                &&& call_ensures(read_real, (items[8],), Some(c.gev2_to_picobarn))
                &&& call_ensures(read_real, (items[9],), Some(c.m_z0))
                &&& call_ensures(read_real, (items[10],), Some(c.g_z0))
                &&& call_ensures(read_real, (items[11],), Some(c.sin2_weinberg))
                &&& call_ensures(read_real, (items[12],), Some(c.branching_ep_em))
                &&& call_ensures(read_real, (items[13],), Some(c.beta_plus))
                &&& call_ensures(read_real, (items[14],), Some(c.beta_minus))
                &&& i32_literal(items[15]@) == Some(c.num_bins)
                &&& flag_literal(lowercase(items[16]@), items[16]@) == Some(c.impr)
                &&& flag_literal(lowercase(items[17]@), items[17]@) == Some(c.plot)
            },
            Err(ConfigError::Missing(field)) => {
                &&& items.len() == field.position()
                &&& reads_before(field, items, read_real)
            },
            Err(ConfigError::Unparsable(field)) => {
                &&& field.position() < items.len()
                &&& reads_before(field, items, read_real)
                &&& fails(field, items[field.position()], read_real)
            },
            Err(_) => false,
        }
    }

    /// The item found for `field`, if the text went that far.
    fn item_for<'a>(items: &Vec<&'a str>, field: Field) -> (r: Result<ConfigItem<'a>, ConfigError>)
        ensures
            match r {
                Ok(item) => field.position() < items@.len() && item.field == field && item.data
                    == items@[field.position()],
                Err(e) => items@.len() <= field.position() && e == ConfigError::Missing(field),
            },
    {
        let at = field.index();
        if at < items.len() {
            Ok(ConfigItem::new(field, items[at]))
        } else {
            Err(ConfigError::Missing(field))
        }
    }

    /// Decodes a configuration from the items of its text, taken in order.
    /// Items beyond the last parameter are ignored. Nothing is checked of
    /// the values: see `validate`.
    pub fn from_items<F: Fn(&str) -> Option<R>>(items: &Vec<&str>, read_real: &F) -> (r: Result<
        Self,
        ConfigError,
    >)
        requires
            forall|s: &str| call_requires(*read_real, (s,)),
        ensures
            Self::decoded(items@, *read_real, r),
    {
        let num_events = Self::item_for(items, Field::NumEvents)?.parse(&parse_usize)?;
        let e_total = Self::item_for(items, Field::ETotal)?.parse(read_real)?;
        let beam_photons_cut = Self::item_for(items, Field::BeamPhotonsCut)?.parse(read_real)?;
        let photon_photon_cut = Self::item_for(items, Field::PhotonPhotonCut)?.parse(read_real)?;
        let e_min = Self::item_for(items, Field::EMin)?.parse(read_real)?;
        let beam_photon_plane_cut = Self::item_for(items, Field::BeamPhotonPlaneCut)?.parse(
            read_real,
        )?;
        let alpha = Self::item_for(items, Field::Alpha)?.parse(read_real)?;
        let alpha_z = Self::item_for(items, Field::AlphaZ)?.parse(read_real)?;
        let gev2_to_picobarn = Self::item_for(items, Field::Gev2ToPicobarn)?.parse(read_real)?;
        let m_z0 = Self::item_for(items, Field::MZ0)?.parse(read_real)?;
        let g_z0 = Self::item_for(items, Field::GZ0)?.parse(read_real)?;
        let sin2_weinberg = Self::item_for(items, Field::Sin2Weinberg)?.parse(read_real)?;
        let branching_ep_em = Self::item_for(items, Field::BranchingEpEm)?.parse(read_real)?;
        let beta_plus = Self::item_for(items, Field::BetaPlus)?.parse(read_real)?;
        let beta_minus = Self::item_for(items, Field::BetaMinus)?.parse(read_real)?;
        let num_bins = Self::item_for(items, Field::NumBins)?.parse(&parse_i32)?;
        let impr = Self::item_for(items, Field::Impr)?.parse_bool()?;
        let plot = Self::item_for(items, Field::Plot)?.parse_bool()?;
        Ok(
            Configuration {
                num_events,
                e_total,
                event_cut: EventCut::new(
                    beam_photons_cut,
                    photon_photon_cut,
                    e_min,
                    beam_photon_plane_cut,
                ),
                alpha,
                alpha_z,
                gev2_to_picobarn,
                m_z0,
                g_z0,
                sin2_weinberg,
                branching_ep_em,
                beta_plus,
                beta_minus,
                num_bins,
                impr,
                plot,
            },
        )
    }

    /// Decodes a configuration from its text: splits the text into its
    /// items and decodes those. Nothing is checked of the values: see
    /// `validate`.
    pub fn decode<F: Fn(&str) -> Option<R>>(text: &str, read_real: &F) -> (r: Result<
        Self,
        ConfigError,
    >)
        requires
            forall|s: &str| call_requires(*read_real, (s,)),
        ensures
            exists|items: Seq<&str>|
                spell(items, config_items(text@)) && Self::decoded(items, *read_real, r),
    {
        let items = split_items(text);
        let r = Self::from_items(&items, read_real);
        assert(spell(items@, config_items(text@)) && Self::decoded(items@, *read_real, r));
        r
    }

    /// Checks the values of a decoded configuration: at least one event
    /// must be simulated, and neither plotting nor the display of
    /// intermediary results can be had.
    pub fn validate(&self) -> (r: Result<(), ConfigError>)
        ensures
            r == (if self.num_events == 0 {
                Err::<(), ConfigError>(ConfigError::NoEvents)
            } else if self.plot {
                Err(ConfigError::PlottingUnsupported)
            } else if self.impr {
                Err(ConfigError::ResultPrintingUnsupported)
            } else {
                Ok(())
            }),
    {
        if self.num_events == 0 {
            Err(ConfigError::NoEvents)
        } else if self.plot {
            Err(ConfigError::PlottingUnsupported)
        } else if self.impr {
            Err(ConfigError::ResultPrintingUnsupported)
        } else {
            Ok(())
        }
    }
}

} // verus!
