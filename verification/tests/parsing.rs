use apex_stats::Legend;
use apex_stats::SquadType;

#[test]
fn legend_names_parse() {
    assert_eq!(Ok(Legend::Bangalore), Legend::parse("bangalore"));
    assert_eq!(Ok(Legend::Bloodhound), Legend::parse("bloodhound"));
    assert_eq!(Ok(Legend::Caustic), Legend::parse("caustic"));
    assert_eq!(Ok(Legend::Gibraltar), Legend::parse("gibraltar"));
    assert_eq!(Ok(Legend::Lifeline), Legend::parse("lifeline"));
    assert_eq!(Ok(Legend::Mirage), Legend::parse("mirage"));
    assert_eq!(Ok(Legend::Octane), Legend::parse("octane"));
    assert_eq!(Ok(Legend::Pathfinder), Legend::parse("pathfinder"));
    assert_eq!(Ok(Legend::Wraith), Legend::parse("wraith"));
}

#[test]
fn legend_parsing_ignores_case_and_whitespace() {
    assert_eq!(Ok(Legend::Wraith), Legend::parse("  WRAITH "));
    assert_eq!(Ok(Legend::Bangalore), Legend::parse("BangaLORE"));
    assert_eq!(Ok(Legend::Pathfinder), Legend::parse("\tPathfinder\n"));
}

#[test]
fn trimming_covers_unicode_whitespace() {
    // No-break space, ideographic space, en quad, next line.
    assert_eq!(Ok(Legend::Wraith), Legend::parse(" wraith\u{a0}"));
    assert_eq!(Ok(Legend::Caustic), Legend::parse("\u{3000}caustic\u{2000}"));
    assert_eq!(Ok(SquadType::Solo), SquadType::parse("solo\u{a0}"));
    assert_eq!(Ok(SquadType::Duo), SquadType::parse("\u{85}duo\u{202f}"));
    // Whitespace inside a name still fails to parse.
    assert!(Legend::parse("wra\u{a0}ith").is_err());
}

#[test]
fn unknown_legend_is_an_error_carrying_the_raw_input() {
    let err = Legend::parse("Stve").expect_err("no such legend");
    assert_eq!(err.legend_name, "Stve".to_string());
    assert_eq!(err.message(), "Unknown legend Stve".to_string());
}

#[test]
fn empty_legend_input_is_an_error() {
    let err = Legend::parse("   ").expect_err("blank input names no legend");
    assert_eq!(err.legend_name, "   ".to_string());
}

#[test]
fn squad_type_names_parse() {
    assert_eq!(Ok(SquadType::Solo), SquadType::parse("solo"));
    assert_eq!(Ok(SquadType::Duo), SquadType::parse("DUO"));
    assert_eq!(Ok(SquadType::Trio), SquadType::parse(" trio "));
}

#[test]
fn unknown_squad_type_is_an_error_carrying_the_raw_input() {
    let err = SquadType::parse("quartet").expect_err("no such squad type");
    assert_eq!(err.squad_type, "quartet".to_string());
    assert_eq!(
        err.message(),
        "Unknown squad type \"quartet\". Supported types are `solo`, `duo` and `trio`."
            .to_string()
    );
}

#[test]
fn parsing_never_produces_the_unknown_squad_type() {
    // `unknown` is a stored value only: fresh input does not parse to it.
    assert!(SquadType::parse("unknown").is_err());
}

#[test]
fn stored_values_accept_the_legacy_unknown_marker() {
    assert_eq!(Ok(SquadType::Unknown), SquadType::parse_stored("unknown"));
    assert_eq!(Ok(SquadType::Unknown), SquadType::parse_stored(" UNKNOWN "));
    assert_eq!(Ok(SquadType::Trio), SquadType::parse_stored("trio"));
    let err = SquadType::parse_stored("quartet").expect_err("no such stored value");
    assert_eq!(err.squad_type, "quartet".to_string());
}

#[test]
fn canonical_names_are_lower_case() {
    assert_eq!(Legend::Wraith.name(), "wraith".to_string());
    assert_eq!(Legend::Bangalore.name(), "bangalore".to_string());
    assert_eq!(SquadType::Solo.name(), "solo".to_string());
    assert_eq!(SquadType::Unknown.name(), "unknown".to_string());
}

#[test]
fn canonical_names_parse_back() {
    let legends = [
        Legend::Bangalore,
        Legend::Bloodhound,
        Legend::Caustic,
        Legend::Gibraltar,
        Legend::Lifeline,
        Legend::Mirage,
        Legend::Octane,
        Legend::Pathfinder,
        Legend::Wraith,
    ];
    for legend in legends {
        assert_eq!(Ok(legend), Legend::parse(&legend.name()));
    }
    for squad in [SquadType::Solo, SquadType::Duo, SquadType::Trio] {
        assert_eq!(Ok(squad), SquadType::parse(&squad.name()));
    }
}
