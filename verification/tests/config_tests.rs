use cross_section::config::{ConfigError, ConfigItem, Configuration, EventCut, Field};
use cross_section::items::split_items;

const SAMPLE: &str = "\
1000000                  ITOT   : number of events
200.                     ETOT   : total energy (GeV)
0.839                    ACUT   : cut on cos(beam, photon)
0.839                    BCUT   : cut on cos(photon, photon)
10.                      EMIN   : least energy of a photon (GeV)
0.                       SINCUT : cut on sin(beam, plane of the photons)
7.29735308E-3            ALPHA
7.8125E-3                ALPHAZ
0.38937966E9             CONVERS
91.187                   MZ0
2.490                    GZ0
0.2319                   SIN2W
3.367E-2                 BREPEM
1.                       BETAPLUS
-1.5                     BETAMOINS
200                      NBIN
.FALSE.                  IMPR
.false.                  PLOT
";

fn read_real(s: &str) -> Option<f64> {
    s.parse::<f64>().ok()
}

fn show_real(x: &f64) -> String {
    format!("{}", x)
}

fn with_item(position: usize, replacement: &str) -> String {
    let mut lines: Vec<String> = SAMPLE.lines().map(|l| l.to_string()).collect();
    lines[position] = replacement.to_string();
    lines.join("\n")
}

fn first_lines(count: usize) -> String {
    let lines: Vec<&str> = SAMPLE.lines().take(count).collect();
    lines.join("\n")
}

const ALL_FIELDS: [Field; 18] = [
    Field::NumEvents,
    Field::ETotal,
    Field::BeamPhotonsCut,
    Field::PhotonPhotonCut,
    Field::EMin,
    Field::BeamPhotonPlaneCut,
    Field::Alpha,
    Field::AlphaZ,
    Field::Gev2ToPicobarn,
    Field::MZ0,
    Field::GZ0,
    Field::Sin2Weinberg,
    Field::BranchingEpEm,
    Field::BetaPlus,
    Field::BetaMinus,
    Field::NumBins,
    Field::Impr,
    Field::Plot,
];

#[test]
fn sample_is_decoded() {
    let cfg = Configuration::decode(SAMPLE, &read_real).unwrap();
    assert_eq!(cfg.num_events, 1_000_000);
    assert_eq!(cfg.e_total, 200.0);
    assert_eq!(cfg.event_cut.beam_photons_cut, 0.839);
    assert_eq!(cfg.event_cut.photon_photon_cut, 0.839);
    assert_eq!(cfg.event_cut.e_min, 10.0);
    assert_eq!(cfg.event_cut.beam_photon_plane_cut, 0.0);
    assert_eq!(cfg.alpha, 7.29735308e-3);
    assert_eq!(cfg.alpha_z, 7.8125e-3);
    assert_eq!(cfg.gev2_to_picobarn, 0.38937966e9);
    assert_eq!(cfg.m_z0, 91.187);
    assert_eq!(cfg.g_z0, 2.490);
    assert_eq!(cfg.sin2_weinberg, 0.2319);
    assert_eq!(cfg.branching_ep_em, 3.367e-2);
    assert_eq!(cfg.beta_plus, 1.0);
    assert_eq!(cfg.beta_minus, -1.5);
    assert_eq!(cfg.num_bins, 200);
    assert!(!cfg.impr);
    assert!(!cfg.plot);
    assert_eq!(cfg.validate(), Ok(()));
}

#[test]
fn from_items_decodes_the_items_in_order() {
    let items = split_items(SAMPLE);
    assert_eq!(items.len(), 18);
    let cfg = Configuration::from_items(&items, &read_real).unwrap();
    assert_eq!(cfg.num_events, 1_000_000);
    assert_eq!(cfg.beta_minus, -1.5);
    assert_eq!(cfg.num_bins, 200);
}

#[test]
fn items_beyond_the_last_parameter_are_ignored() {
    let text = format!("{}extra\nmore\n", SAMPLE);
    let cfg = Configuration::decode(&text, &read_real).unwrap();
    assert_eq!(cfg.num_events, 1_000_000);
    assert!(!cfg.plot);
}

#[test]
fn a_text_that_ends_early_misses_the_next_parameter() {
    for count in 0..18 {
        let text = first_lines(count);
        let outcome = Configuration::decode(&text, &read_real);
        assert_eq!(outcome.err(), Some(ConfigError::Missing(ALL_FIELDS[count])), "{} lines", count);
    }
}

#[test]
fn an_item_that_denotes_no_value_is_unparsable() {
    for position in 0..18 {
        let text = with_item(position, "?!");
        let outcome = Configuration::decode(&text, &read_real);
        assert_eq!(
            outcome.err(),
            Some(ConfigError::Unparsable(ALL_FIELDS[position])),
            "item {}",
            position
        );
    }
}

#[test]
fn the_first_problem_is_the_one_reported() {
    let mut lines: Vec<String> = SAMPLE.lines().take(10).map(|l| l.to_string()).collect();
    lines[3] = "oops".to_string();
    lines[7] = "oops".to_string();
    let text = lines.join("\n");
    assert_eq!(
        Configuration::decode(&text, &read_real).err(),
        Some(ConfigError::Unparsable(Field::PhotonPhotonCut))
    );
    let text = first_lines(3) + "\nbad";
    assert_eq!(
        Configuration::decode(&text, &read_real).err(),
        Some(ConfigError::Unparsable(Field::PhotonPhotonCut))
    );
}

#[test]
fn integers_must_fit_their_type() {
    let text = with_item(0, "-5");
    assert_eq!(
        Configuration::decode(&text, &read_real).err(),
        Some(ConfigError::Unparsable(Field::NumEvents))
    );
    let text = with_item(0, "1e6");
    assert_eq!(
        Configuration::decode(&text, &read_real).err(),
        Some(ConfigError::Unparsable(Field::NumEvents))
    );
    let text = with_item(15, "2147483648");
    assert_eq!(
        Configuration::decode(&text, &read_real).err(),
        Some(ConfigError::Unparsable(Field::NumBins))
    );
    let text = with_item(15, "-2147483648");
    assert_eq!(Configuration::decode(&text, &read_real).unwrap().num_bins, i32::MIN);
}

#[test]
fn flags_are_read_in_fortran_and_plain_syntax() {
    let text = with_item(16, ".TRUE.");
    assert!(Configuration::decode(&text, &read_real).unwrap().impr);
    let text = with_item(17, "true");
    assert!(Configuration::decode(&text, &read_real).unwrap().plot);
    let text = with_item(17, "TRUE");
    assert_eq!(
        Configuration::decode(&text, &read_real).err(),
        Some(ConfigError::Unparsable(Field::Plot))
    );
}

#[test]
fn a_run_needs_at_least_one_event() {
    let text = with_item(0, "0");
    let cfg = Configuration::decode(&text, &read_real).unwrap();
    assert_eq!(cfg.validate(), Err(ConfigError::NoEvents));
}

#[test]
fn plotting_is_not_supported() {
    let text = with_item(17, ".true.");
    let cfg = Configuration::decode(&text, &read_real).unwrap();
    assert_eq!(cfg.validate(), Err(ConfigError::PlottingUnsupported));
}

#[test]
fn result_printing_is_not_supported() {
    let text = with_item(16, ".true.");
    let cfg = Configuration::decode(&text, &read_real).unwrap();
    assert_eq!(cfg.validate(), Err(ConfigError::ResultPrintingUnsupported));
}

#[test]
fn checks_are_made_in_a_fixed_order() {
    let mut cfg = Configuration::decode(SAMPLE, &read_real).unwrap();
    cfg.num_events = 0;
    cfg.plot = true;
    cfg.impr = true;
    assert_eq!(cfg.validate(), Err(ConfigError::NoEvents));
    cfg.num_events = 1;
    assert_eq!(cfg.validate(), Err(ConfigError::PlottingUnsupported));
    cfg.plot = false;
    assert_eq!(cfg.validate(), Err(ConfigError::ResultPrintingUnsupported));
    cfg.impr = false;
    assert_eq!(cfg.validate(), Ok(()));
}

#[test]
fn problems_are_reported_in_words() {
    assert_eq!(
        ConfigError::Missing(Field::ETotal).message(),
        "Missing configuration of e_total"
    );
    assert_eq!(
        ConfigError::Unparsable(Field::BetaMinus).message(),
        "Could not parse configuration of beta_moins"
    );
    assert_eq!(ConfigError::NoEvents.message(), "Please simulate at least one event");
    assert_eq!(
        ConfigError::PlottingUnsupported.message(),
        "Plotting is not supported by this version"
    );
    assert_eq!(
        ConfigError::ResultPrintingUnsupported.message(),
        "Individual result printing is not supported. This debugging feature has a run-time \
         performance cost even when unused. It should be implemented at compile-time instead."
    );
}

#[test]
fn fields_know_their_place_and_name() {
    let names = [
        "num_events",
        "e_total",
        "beam_photons_cut",
        "photon_photon_cut",
        "e_min",
        "beam_photon_plane_cut",
        "alpha",
        "alpha_z",
        "gev2_to_picobarn",
        "m_z0",
        "g_z0",
        "sin2_weinberg",
        "branching_ep_em",
        "beta_plus",
        "beta_moins",
        "num_bins",
        "impr",
        "plot",
    ];
    for (k, field) in ALL_FIELDS.iter().enumerate() {
        assert_eq!(field.index(), k);
        assert_eq!(Field::at(k), *field);
        assert_eq!(field.name(), names[k]);
        assert_eq!(field.label().len(), 17);
        assert!(field.label().ends_with(": "));
    }
}

#[test]
fn config_item_reads_with_the_given_reader() {
    let item = ConfigItem::new(Field::Alpha, "0.25");
    assert_eq!(item.field, Field::Alpha);
    assert_eq!(item.data, "0.25");
    assert_eq!(item.parse(&read_real), Ok(0.25));
    let item = ConfigItem::new(Field::Alpha, "a quarter");
    assert_eq!(item.parse(&read_real), Err(ConfigError::Unparsable(Field::Alpha)));
}

#[test]
fn config_item_reads_flags() {
    assert_eq!(ConfigItem::new(Field::Impr, ".TRUE.").parse_bool(), Ok(true));
    assert_eq!(ConfigItem::new(Field::Impr, ".false.").parse_bool(), Ok(false));
    assert_eq!(ConfigItem::new(Field::Plot, "true").parse_bool(), Ok(true));
    assert_eq!(ConfigItem::new(Field::Plot, "false").parse_bool(), Ok(false));
    assert_eq!(
        ConfigItem::new(Field::Plot, "maybe").parse_bool(),
        Err(ConfigError::Unparsable(Field::Plot))
    );
    assert_eq!(
        ConfigItem::new(Field::Impr, "TRUE").parse_bool(),
        Err(ConfigError::Unparsable(Field::Impr))
    );
}

#[test]
fn event_cut_keeps_its_four_cuts() {
    let cut = EventCut::new(0.1, 0.2, 0.3, 0.4);
    assert_eq!(cut.beam_photons_cut, 0.1);
    assert_eq!(cut.photon_photon_cut, 0.2);
    assert_eq!(cut.e_min, 0.3);
    assert_eq!(cut.beam_photon_plane_cut, 0.4);
}

#[test]
fn configuration_is_displayed_line_by_line() {
    let cfg = Configuration::decode(SAMPLE, &read_real).unwrap();
    let expected = "\
ITOT           : 1000000
ETOT           : 200
oCutpar.ACUT   : 0.839
oCutpar.BCUT   : 0.839
oCutpar.EMIN   : 10
oCutpar.SINCUT : 0
ALPHA          : 0.00729735308
ALPHAZ         : 0.0078125
CONVERS        : 389379660
oParam.MZ0     : 91.187
oParam.GZ0     : 2.49
SIN2W          : 0.2319
BREPEM         : 0.03367
BETAPLUS       : 1
BETAMOINS      : -1.5
NBIN           : 200
oParam.IMPR    : false
PLOT           : false
";
    assert_eq!(cfg.render(&show_real), expected);
}

#[test]
fn display_writes_negative_integers_and_set_flags() {
    let mut cfg = Configuration::decode(SAMPLE, &read_real).unwrap();
    cfg.num_bins = -3;
    cfg.impr = true;
    cfg.plot = true;
    cfg.num_events = 0;
    let text = cfg.render(&show_real);
    assert!(text.starts_with("ITOT           : 0\n"));
    assert!(text.ends_with("NBIN           : -3\noParam.IMPR    : true\nPLOT           : true\n"));
}
