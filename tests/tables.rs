use boss_time_estimate::table::{
    gather, load_phase_fields, load_profile_fields, Category, DpsFields, LoadError,
};

#[test]
fn category_names_and_sources() {
    assert_eq!(Category::Power.name(), "power");
    assert_eq!(Category::Semi.name(), "semi");
    assert_eq!(Category::Condi.name(), "condi");
    assert_eq!(Category::Power.source(), "dps/power.csv");
    assert_eq!(Category::Semi.source(), "dps/semi.csv");
    assert_eq!(Category::Condi.source(), "dps/condi.csv");
}

#[test]
fn missing_reference_table_names_its_category() {
    for c in [Category::Power, Category::Semi, Category::Condi] {
        assert_eq!(
            load_profile_fields(c, None),
            Err(LoadError::SourceNotFound { source: c.source().to_string() })
        );
    }
}

#[test]
fn missing_phase_table() {
    assert_eq!(
        load_phase_fields("data/boss.csv", None),
        Err(LoadError::SourceNotFound { source: "data/boss.csv".to_string() })
    );
}

#[test]
fn profile_fields_skip_the_header() {
    let text = b"time,dps\n10,2\n\"20.5\",3\n";
    let rows = load_profile_fields(Category::Power, Some(&text[..])).unwrap();
    assert_eq!(
        rows,
        vec![
            DpsFields { time: "10".to_string(), dps: "2".to_string() },
            DpsFields { time: "20.5".to_string(), dps: "3".to_string() },
        ]
    );
}

#[test]
fn empty_profile_table() {
    let rows = load_profile_fields(Category::Semi, Some(&b""[..])).unwrap();
    assert!(rows.is_empty());
}

#[test]
fn short_record_is_malformed() {
    let text = b"time\n10\n";
    assert_eq!(
        load_profile_fields(Category::Condi, Some(&text[..])),
        Err(LoadError::MalformedRecord { row: 0, field: 1 })
    );
}

#[test]
fn ragged_record_names_its_row() {
    let text = b"time,dps\n10,2\n20\n";
    assert_eq!(
        load_profile_fields(Category::Power, Some(&text[..])),
        Err(LoadError::MalformedRecord { row: 1, field: 1 })
    );
}

#[test]
fn text_that_is_not_utf8_is_malformed() {
    let text = b"time,dps\n10,\xff\n";
    assert_eq!(
        load_profile_fields(Category::Power, Some(&text[..])),
        Err(LoadError::MalformedTable)
    );
}

#[test]
fn longer_records_keep_their_first_fields() {
    let text = b"time,dps\n10,2,extra\n";
    let rows = load_profile_fields(Category::Power, Some(&text[..])).unwrap();
    assert_eq!(rows, vec![DpsFields { time: "10".to_string(), dps: "2".to_string() }]);
}

#[test]
fn phase_fields_of_two_rows() {
    let text = b"phase,health,coeff,power,num\nP1,1000,1,0.5,5\nP2,2000,2,1,10\n";
    let rows = load_phase_fields("data/boss.csv", Some(&text[..])).unwrap();
    assert_eq!(rows.len(), 2);
    assert_eq!(rows[0].label, "P1");
    assert_eq!(rows[0].health, "1000");
    assert_eq!(rows[0].coeff, "1");
    assert_eq!(rows[0].power_coeff, "0.5");
    assert_eq!(rows[0].participants, "5");
    assert_eq!(rows[1].label, "P2");
    assert_eq!(rows[1].participants, "10");
}

#[test]
fn short_phase_record_is_malformed() {
    let text = b"a,b,c,d\nP1,1000,1,0.5\n";
    assert_eq!(
        load_phase_fields("data/boss.csv", Some(&text[..])),
        Err(LoadError::MalformedRecord { row: 0, field: 4 })
    );
}

#[test]
fn gather_keeps_every_value_in_place() {
    let cells = vec![vec![Some(1.0), Some(2.0)], vec![Some(3.0), Some(4.0)]];
    assert_eq!(gather(&cells, 0), Ok(vec![vec![1.0, 2.0], vec![3.0, 4.0]]));
    let none: Vec<Vec<Option<f64>>> = vec![];
    assert_eq!(gather(&none, 0), Ok(vec![]));
}

#[test]
fn gather_reports_first_malformed_field() {
    let cells = vec![
        vec![Some(1.0), Some(2.0), Some(3.0), Some(4.0)],
        vec![Some(1.0), None, Some(3.0), None],
        vec![None, None, None, None],
    ];
    assert_eq!(gather(&cells, 1), Err(LoadError::MalformedRecord { row: 1, field: 2 }));
    let parsed: Vec<Vec<Option<f64>>> = vec![vec!["1.5", "x"]
        .into_iter()
        .map(|s| s.parse().ok())
        .collect()];
    assert_eq!(gather(&parsed, 0), Err(LoadError::MalformedRecord { row: 0, field: 1 }));
}
