use apex_stats::stats::Query;
use apex_stats::stats::QueryResult;
use apex_stats::Legend;
use apex_stats::Observation;
use apex_stats::SquadType;
use apex_stats::Timestamp;

fn obs(
    kills: u64,
    damage: u64,
    position: u64,
    legend: Legend,
    at_secs: i64,
    squad: SquadType,
) -> Observation {
    Observation {
        number_of_kills: kills,
        damage_dealt: damage,
        squad_position: position,
        legend,
        at: Timestamp::new(at_secs, 0),
        squad_type: squad,
        notes: String::new(),
    }
}

fn sample_data() -> Vec<Observation> {
    vec![
        obs(5, 891, 3, Legend::Bangalore, 1555970702, SquadType::Solo),
        obs(3, 520, 6, Legend::Wraith, 1555969322, SquadType::Duo),
        obs(1, 123, 18, Legend::Wraith, 1555961822, SquadType::Solo),
        obs(9, 1032, 1, Legend::Pathfinder, 1555807022, SquadType::Trio),
    ]
}

#[test]
fn unfiltered() {
    let query = Query::new();

    assert_eq!(
        Some(QueryResult {
            max_damage: 1032,
            max_kills: 9,
            total_damage: 2566,
            total_kills: 18,
            number_of_matches: 4
        }),
        query.execute(&sample_data())
    );
}

#[test]
fn only_solo_games() {
    let query = Query::new().match_squad_type(SquadType::Solo);

    assert_eq!(
        Some(QueryResult {
            max_damage: 891,
            max_kills: 5,
            total_damage: 1014,
            total_kills: 6,
            number_of_matches: 2
        }),
        query.execute(&sample_data())
    );
}

#[test]
fn only_non_solo_games() {
    let query = Query::new().match_squad_types(&vec![SquadType::Duo, SquadType::Trio]);

    assert_eq!(
        Some(QueryResult {
            max_damage: 1032,
            max_kills: 9,
            total_damage: 1552,
            total_kills: 12,
            number_of_matches: 2
        }),
        query.execute(&sample_data())
    );
}

#[test]
fn only_solo_games_with_wraith() {
    let query = Query::new()
        .match_squad_type(SquadType::Solo)
        .match_legend(Legend::Wraith);

    assert_eq!(
        Some(QueryResult {
            max_damage: 123,
            max_kills: 1,
            total_damage: 123,
            total_kills: 1,
            number_of_matches: 1
        }),
        query.execute(&sample_data())
    );
}

#[test]
fn only_games_after_and_before() {
    let query = Query::new()
        .after(Timestamp::new(1555807022 + 1, 0))
        .before(Timestamp::new(1555969322, 0));

    assert_eq!(
        Some(QueryResult {
            max_damage: 123,
            max_kills: 1,
            total_damage: 123,
            total_kills: 1,
            number_of_matches: 1
        }),
        query.execute(&sample_data())
    );
}

#[test]
fn unfiltered_counts_every_record() {
    let query = Query::new();
    let result = query.execute(&sample_data()).expect("nonempty input");
    assert_eq!(result.number_of_matches, sample_data().len() as u64);
}

#[test]
fn empty_input_yields_absent_result() {
    let query = Query::new();
    assert_eq!(None, query.execute(&Vec::new()));
}

#[test]
fn filter_matching_nothing_yields_absent_result() {
    let query = Query::new().match_legend(Legend::Octane);
    assert_eq!(None, query.execute(&sample_data()));
}

#[test]
fn empty_accepted_sets_are_no_ops() {
    let unrestricted = Query::new().execute(&sample_data());
    let empty_sets = Query::new()
        .match_legends(&Vec::new())
        .match_squad_types(&Vec::new())
        .execute(&sample_data());
    assert_eq!(unrestricted, empty_sets);
}

#[test]
fn bounds_are_exclusive() {
    // A record exactly at the `after` bound and one exactly at the
    // `before` bound are both excluded.
    let query = Query::new()
        .after(Timestamp::new(1555807022, 0))
        .before(Timestamp::new(1555970702, 0));

    assert_eq!(
        Some(QueryResult {
            max_damage: 520,
            max_kills: 3,
            total_damage: 643,
            total_kills: 4,
            number_of_matches: 2
        }),
        query.execute(&sample_data())
    );
}

#[test]
fn bound_with_nanosecond_tiebreak() {
    // Same second, larger subsecond part: strictly later, so included.
    let mut records = sample_data();
    records[3].at = Timestamp::new(1555807022, 1);
    let query = Query::new().after(Timestamp::new(1555807022, 0));
    let result = query.execute(&records).expect("all records pass");
    assert_eq!(result.number_of_matches, 4);
}

#[test]
fn duplicate_filter_values_collapse() {
    let once = Query::new().match_squad_type(SquadType::Solo);
    let twice = Query::new()
        .match_squad_type(SquadType::Solo)
        .match_squad_type(SquadType::Solo);
    assert_eq!(once.execute(&sample_data()), twice.execute(&sample_data()));
}
