use covid_daily::dataset::CountryDataset;
use covid_daily::query::run_query;
use covid_daily::query::QueryOutput;
use covid_daily::record::DailyRecord;

fn rec(date: &str, confirmed: u64, deaths: u64, recovered: u64) -> DailyRecord {
    DailyRecord { date: date.to_string(), confirmed, deaths, recovered }
}

fn expected_line(date: &str, confirmed: u64, deaths: u64, recovered: u64) -> String {
    format!(
        "{date:<dw$} \t confirmed: {confirmed:>w$} \t deaths: {deaths:>w$} \t recovered: {recovered:>w$}",
        date = date,
        dw = 20,
        confirmed = confirmed,
        w = 9,
        deaths = deaths,
        recovered = recovered,
    )
}

fn scenario_dataset() -> CountryDataset {
    let mut d = CountryDataset::new();
    let added = d.insert(
        "X".to_string(),
        vec![rec("2020-1-22", 0, 0, 0), rec("2020-1-23", 5, 1, 0)],
    );
    assert!(added);
    d
}

#[test]
fn scenario_zero_confirmed_rows_are_not_shown() {
    let d = scenario_dataset();
    match run_query(&d, &"X".to_string(), 10) {
        QueryOutput::Found(lines) => {
            assert_eq!(lines.len(), 1);
            assert_eq!(lines[0], expected_line("2020-1-23", 5, 1, 0));
        }
        QueryOutput::NotFound(_) => panic!("country X should be found"),
    }
}

#[test]
fn scenario_absent_country_lists_the_available_ones() {
    let d = scenario_dataset();
    match run_query(&d, &"Y".to_string(), 10) {
        QueryOutput::Found(_) => panic!("country Y should be absent"),
        QueryOutput::NotFound(lines) => {
            assert_eq!(
                lines,
                vec![
                    "The following countries are available:".to_string(),
                    "X".to_string()
                ]
            );
        }
    }
}

#[test]
fn scenario_last_three_of_fifteen() {
    let mut d = CountryDataset::new();
    let mut records = Vec::new();
    for day in 1..=15u64 {
        records.push(rec(&format!("2020-2-{}", day), day, 0, 0));
    }
    assert!(d.insert("Z".to_string(), records));
    match run_query(&d, &"Z".to_string(), 3) {
        QueryOutput::Found(lines) => {
            assert_eq!(
                lines,
                vec![
                    expected_line("2020-2-13", 13, 0, 0),
                    expected_line("2020-2-14", 14, 0, 0),
                    expected_line("2020-2-15", 15, 0, 0),
                ]
            );
        }
        QueryOutput::NotFound(_) => panic!("country Z should be found"),
    }
}

#[test]
fn scenario_request_larger_than_series_is_clamped() {
    let mut d = CountryDataset::new();
    assert!(d.insert(
        "Z".to_string(),
        vec![rec("2020-3-1", 7, 1, 2), rec("2020-3-2", 9, 1, 3)],
    ));
    match run_query(&d, &"Z".to_string(), 10) {
        QueryOutput::Found(lines) => {
            assert_eq!(
                lines,
                vec![
                    expected_line("2020-3-1", 7, 1, 2),
                    expected_line("2020-3-2", 9, 1, 3),
                ]
            );
        }
        QueryOutput::NotFound(_) => panic!("country Z should be found"),
    }
}

#[test]
fn missing_country_listing_keeps_insertion_order() {
    let mut d = CountryDataset::new();
    assert!(d.insert("US".to_string(), vec![rec("2020-1-22", 1, 0, 0)]));
    assert!(d.insert("Afghanistan".to_string(), Vec::new()));
    assert!(d.insert("Mexico".to_string(), Vec::new()));
    match run_query(&d, &"Narnia".to_string(), 10) {
        QueryOutput::Found(_) => panic!("Narnia should be absent"),
        QueryOutput::NotFound(lines) => {
            assert_eq!(
                lines,
                vec![
                    "The following countries are available:".to_string(),
                    "US".to_string(),
                    "Afghanistan".to_string(),
                    "Mexico".to_string(),
                ]
            );
        }
    }
}

#[test]
fn found_country_with_only_zero_confirmed_records_prints_nothing() {
    let mut d = CountryDataset::new();
    assert!(d.insert(
        "X".to_string(),
        vec![rec("2020-1-22", 0, 0, 0), rec("2020-1-23", 0, 0, 0)],
    ));
    match run_query(&d, &"X".to_string(), 10) {
        QueryOutput::Found(lines) => assert!(lines.is_empty()),
        QueryOutput::NotFound(_) => panic!("country X should be found"),
    }
}

#[test]
fn scenario_zero_requested_shows_every_filtered_record() {
    let mut d = CountryDataset::new();
    let mut records = Vec::new();
    for day in 1..=15u64 {
        records.push(rec(&format!("2020-2-{}", day), day, 0, 0));
    }
    records.push(rec("2020-2-16", 0, 0, 0));
    assert!(d.insert("Z".to_string(), records));
    match run_query(&d, &"Z".to_string(), 0) {
        QueryOutput::Found(lines) => {
            assert_eq!(lines.len(), 15);
            for (i, line) in lines.iter().enumerate() {
                let day = i as u64 + 1;
                assert_eq!(line, &expected_line(&format!("2020-2-{}", day), day, 0, 0));
            }
        }
        QueryOutput::NotFound(_) => panic!("country Z should be found"),
    }
}
