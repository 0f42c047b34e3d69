use apex_stats::backend::CSVLog;
use apex_stats::backend::MemoryLog;
use apex_stats::stats::Query;
use apex_stats::Backend;
use apex_stats::Config;
use apex_stats::Legend;
use apex_stats::Observation;
use apex_stats::SquadType;
use apex_stats::Timestamp;

fn observation(kills: u64, notes: &str) -> Observation {
    Observation {
        number_of_kills: kills,
        damage_dealt: 100 * kills,
        squad_position: 5,
        legend: Legend::Lifeline,
        at: Timestamp::new(1555807022, 0),
        squad_type: SquadType::Duo,
        notes: notes.to_string(),
    }
}

#[test]
fn append_then_read_round_trips_one_record() {
    let mut store = MemoryLog::new();
    let original = observation(4, "clutch revive");

    store.record(&original).expect("in-memory append succeeds");

    let records = store.all_records().expect("in-memory read succeeds");
    assert_eq!(records.len(), 1);
    assert_eq!(records[0], original);
}

#[test]
fn reads_preserve_insertion_order() {
    let mut store = MemoryLog::new();
    store.record(&observation(1, "first")).unwrap();
    store.record(&observation(2, "second")).unwrap();
    store.record(&observation(3, "third")).unwrap();

    let records = store.all_records().unwrap();
    assert_eq!(records.len(), 3);
    assert_eq!(records[0].notes, "first".to_string());
    assert_eq!(records[1].notes, "second".to_string());
    assert_eq!(records[2].notes, "third".to_string());
}

#[test]
fn empty_store_yields_absent_result() {
    let store = MemoryLog::new();
    let records = store.all_records().unwrap();
    assert!(records.is_empty());
    assert_eq!(None, Query::new().execute(&records));
}

#[test]
fn csv_log_keeps_its_path() {
    let log = CSVLog::new("/some/path/log.csv".to_string());
    assert_eq!(log.path, "/some/path/log.csv".to_string());
}

#[test]
fn test_data_path() {
    let config = Config::new("/some/path".to_string());

    assert_eq!(config.data_path(), "/some/path/log.csv".to_string());
}

#[test]
fn data_dir_is_kept_verbatim() {
    let config = Config::new("/somewhere/else".to_string());
    assert_eq!(config.data_dir(), "/somewhere/else");
}
