use georef::dataset::Dataset;
use georef::error::JobError;
use georef::job::{transform, Action, Event, Job, Stage};
use georef::json::Json;
use georef::parse::parse_document;
use georef::record::{map_row, read_field, Column, FieldKind};
use georef::table::{encode_records, tabulate};

fn table_text(dataset: Dataset, body: &str) -> String {
    String::from_utf8(transform(dataset, body).unwrap()).unwrap()
}

#[test]
fn municipality_row_scenario() {
    let body = r#"{"municipios":[{"id":"060063","nombre":"Bahía Blanca","provincia":{"nombre":"Buenos Aires"},"centroide":{"lat":-38.71,"lon":-62.27}}]}"#;
    assert_eq!(
        table_text(Dataset::Municipalities, body),
        "id,Nombre,Provincia,Lat,Lon\n060063,Bahía Blanca,Buenos Aires,-38.71,-62.27\n"
    );
}

#[test]
fn absent_centroid_gives_zero_coordinates() {
    let body = r#"{"municipios":[{"id":"1","nombre":"A","provincia":{"nombre":"P"}}]}"#;
    assert_eq!(
        table_text(Dataset::Municipalities, body),
        "id,Nombre,Provincia,Lat,Lon\n1,A,P,0,0\n"
    );
}

#[test]
fn absent_nested_text_gives_empty_field() {
    let body = r#"{"departamentos":[{"id":"2","centroide":{"lat":1.5,"lon":2}}]}"#;
    assert_eq!(
        table_text(Dataset::Departments, body),
        "id,Nombre,Provincia,Lat,Lon\n2,,,1.5,2\n"
    );
}

#[test]
fn wrongly_typed_fields_give_defaults() {
    let body = r#"{"municipios":[{"id":7,"nombre":null,"provincia":"x","centroide":{"lat":"1","lon":[]}}]}"#;
    assert_eq!(
        table_text(Dataset::Municipalities, body),
        "id,Nombre,Provincia,Lat,Lon\n,,,0,0\n"
    );
}

#[test]
fn headers_match_schemas() {
    let muni: Vec<String> = Dataset::Municipalities.header();
    assert_eq!(muni, vec!["id", "Nombre", "Provincia", "Lat", "Lon"]);
    let dept: Vec<String> = Dataset::Departments.header();
    assert_eq!(dept, vec!["id", "Nombre", "Provincia", "Lat", "Lon"]);
    let loc: Vec<String> = Dataset::Localities.header();
    assert_eq!(
        loc,
        vec!["id", "Nombre", "Categoria", "Departamento", "Municipio", "Provincia", "Lat", "Lon"]
    );
}

#[test]
fn empty_array_gives_header_only() {
    assert_eq!(
        table_text(Dataset::Localities, r#"{"localidades":[]}"#),
        "id,Nombre,Categoria,Departamento,Municipio,Provincia,Lat,Lon\n"
    );
}

#[test]
fn rows_follow_source_order() {
    let body = r#"{"municipios":[{"id":"b"},{"id":"a"},{"id":"c"}]}"#;
    assert_eq!(
        table_text(Dataset::Municipalities, body),
        "id,Nombre,Provincia,Lat,Lon\nb,,,0,0\na,,,0,0\nc,,,0,0\n"
    );
}

#[test]
fn locality_row() {
    let body = r#"{"localidades":[{"id":"9","nombre":"L","categoria":"Entidad","departamento":{"nombre":"D"},"municipio":{"nombre":"M"},"provincia":{"nombre":"P"},"centroide":{"lat":-34,"lon":-58.5}}]}"#;
    assert_eq!(
        table_text(Dataset::Localities, body),
        "id,Nombre,Categoria,Departamento,Municipio,Provincia,Lat,Lon\n9,L,Entidad,D,M,P,-34,-58.5\n"
    );
}

#[test]
fn fields_with_delimiters_are_quoted() {
    let body = r#"{"municipios":[{"id":"1","nombre":"San Martín, \"Centro\""}]}"#;
    assert_eq!(
        table_text(Dataset::Municipalities, body),
        "id,Nombre,Provincia,Lat,Lon\n1,\"San Martín, \"\"Centro\"\"\",,0,0\n"
    );
}

#[test]
fn encode_records_joins_records() {
    let records = vec![
        vec!["a".to_string(), "b".to_string()],
        vec!["c,d".to_string(), "".to_string()],
    ];
    let bytes = encode_records(&records);
    assert_eq!(String::from_utf8(bytes).unwrap(), "a,b\n\"c,d\",\n");
}

#[test]
fn same_body_gives_identical_table() {
    let body = r#"{"departamentos":[{"id":"1","nombre":"X","centroide":{"lat":1.25,"lon":-3}}]}"#;
    let first = transform(Dataset::Departments, body).unwrap();
    let second = transform(Dataset::Departments, body).unwrap();
    assert_eq!(first, second);
}

#[test]
fn malformed_body_is_a_parse_error() {
    assert_eq!(transform(Dataset::Municipalities, "<html>oops"), Err(JobError::Parse));
    assert!(parse_document("{\"a\":").is_err());
}

#[test]
fn missing_or_non_array_key_is_a_schema_error() {
    assert_eq!(transform(Dataset::Municipalities, r#"{"localidades":[]}"#), Err(JobError::Schema));
    assert_eq!(transform(Dataset::Municipalities, r#"{"municipios":{}}"#), Err(JobError::Schema));
    assert_eq!(transform(Dataset::Municipalities, r#"[1,2]"#), Err(JobError::Schema));
}

#[test]
fn json_lookup_follows_paths() {
    let doc = parse_document(r#"{"a":{"b":"x"},"n":-1.5,"t":true,"z":null}"#).unwrap();
    let path = vec!["a".to_string(), "b".to_string()];
    assert!(matches!(doc.find(&path), Some(Json::Text(s)) if s == "x"));
    assert!(matches!(doc.get(&"n".to_string()), Some(Json::Number(t)) if t == "-1.5"));
    assert!(matches!(doc.get(&"t".to_string()), Some(Json::Bool(true))));
    assert!(matches!(doc.get(&"z".to_string()), Some(Json::Null)));
    assert!(doc.get(&"q".to_string()).is_none());
    let missing = vec!["a".to_string(), "c".to_string()];
    assert!(doc.find(&missing).is_none());
}

#[test]
fn read_field_and_map_row() {
    let doc = parse_document(r#"{"id":"5","c":{"lat":3}}"#).unwrap();
    let lat = Column { name: "Lat".to_string(), path: vec!["c".to_string(), "lat".to_string()], kind: FieldKind::Number };
    let lon = Column { name: "Lon".to_string(), path: vec!["c".to_string(), "lon".to_string()], kind: FieldKind::Number };
    let id = Column { name: "id".to_string(), path: vec!["id".to_string()], kind: FieldKind::Text };
    assert_eq!(read_field(&lat, &doc), "3");
    assert_eq!(read_field(&lon, &doc), "0");
    let row = map_row(&vec![id, lat, lon], &doc);
    assert_eq!(row, vec!["5", "3", "0"]);
}

#[test]
fn tabulate_reads_the_dataset_key() {
    let doc = parse_document(r#"{"departamentos":[{"id":"4"}]}"#).unwrap();
    let bytes = tabulate(Dataset::Departments, &doc).unwrap();
    assert_eq!(String::from_utf8(bytes).unwrap(), "id,Nombre,Provincia,Lat,Lon\n4,,,0,0\n");
    assert_eq!(tabulate(Dataset::Localities, &doc), Err(JobError::Schema));
}

#[test]
fn dataset_files_and_urls() {
    assert_eq!(Dataset::Municipalities.url(), "https://apis.datos.gob.ar/georef/api/municipios?max=5000");
    assert_eq!(Dataset::Departments.raw_file(), "data/departamentos.json");
    assert_eq!(Dataset::Localities.table_file(), "data/localidades.csv");
    assert_eq!(Dataset::Localities.array_key(), "localidades");
}

#[test]
fn job_runs_to_written() {
    let mut job = Job::new(Dataset::Municipalities);
    assert!(matches!(job.start(), Action::Fetch { url } if url.ends_with("municipios?max=5000")));
    let body = r#"{"municipios":[{"id":"1"}]}"#.to_string();
    match job.handle(Event::Fetched { body: body.clone() }) {
        Action::SaveRaw { path, body: saved } => {
            assert_eq!(path, "data/municipios.json");
            assert_eq!(saved, body);
        }
        _ => panic!("expected the raw body to be saved"),
    }
    match job.handle(Event::RawSaved) {
        Action::SaveTable { path, bytes } => {
            assert_eq!(path, "data/municipios.csv");
            assert_eq!(bytes, b"id,Nombre,Provincia,Lat,Lon\n1,,,0,0\n".to_vec());
        }
        _ => panic!("expected the table to be saved"),
    }
    assert!(matches!(job.handle(Event::TableSaved), Action::Finish { outcome: Ok(()) }));
    assert!(matches!(job.stage, Stage::Written));
    assert!(matches!(job.start(), Action::Idle));
}

#[test]
fn malformed_body_is_saved_but_not_tabulated() {
    let mut job = Job::new(Dataset::Departments);
    job.start();
    let body = "not json at all".to_string();
    match job.handle(Event::Fetched { body: body.clone() }) {
        Action::SaveRaw { path, body: saved } => {
            assert_eq!(path, "data/departamentos.json");
            assert_eq!(saved, body);
        }
        _ => panic!("expected the raw body to be saved"),
    }
    assert!(matches!(job.handle(Event::RawSaved), Action::Finish { outcome: Err(JobError::Parse) }));
    assert!(matches!(job.stage, Stage::Failed { error: JobError::Parse }));
    assert!(matches!(job.handle(Event::TableSaved), Action::Idle));
}

#[test]
fn failures_end_the_job() {
    let mut fetch = Job::new(Dataset::Localities);
    fetch.start();
    assert!(matches!(fetch.handle(Event::FetchFailed), Action::Finish { outcome: Err(JobError::Network) }));

    let mut raw = Job::new(Dataset::Localities);
    raw.start();
    raw.handle(Event::Fetched { body: "{}".to_string() });
    assert!(matches!(raw.handle(Event::RawSaveFailed), Action::Finish { outcome: Err(JobError::Io) }));

    let mut schema = Job::new(Dataset::Localities);
    schema.start();
    schema.handle(Event::Fetched { body: "{}".to_string() });
    assert!(matches!(schema.handle(Event::RawSaved), Action::Finish { outcome: Err(JobError::Schema) }));

    let mut table = Job::new(Dataset::Localities);
    table.start();
    table.handle(Event::Fetched { body: r#"{"localidades":[]}"#.to_string() });
    table.handle(Event::RawSaved);
    assert!(matches!(table.handle(Event::TableSaveFailed), Action::Finish { outcome: Err(JobError::Io) }));
    assert!(matches!(table.stage, Stage::Failed { error: JobError::Io }));
}

#[test]
fn events_out_of_turn_are_ignored() {
    let mut job = Job::new(Dataset::Municipalities);
    assert!(matches!(job.handle(Event::RawSaved), Action::Idle));
    assert!(matches!(job.stage, Stage::Pending));
}

#[test]
fn error_messages_are_not_empty() {
    for e in [JobError::Network, JobError::Io, JobError::Parse, JobError::Schema] {
        assert!(!e.message().is_empty());
    }
}

#[test]
fn empty_record_and_line_breaks_are_quoted() {
    let records = vec![
        vec!["".to_string()],
        vec!["x\ry".to_string(), "p\nq".to_string(), "".to_string()],
    ];
    let bytes = encode_records(&records);
    assert_eq!(String::from_utf8(bytes).unwrap(), "\"\"\n\"x\ry\",\"p\nq\",\n");
}
