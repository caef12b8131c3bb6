use arrow_array::{Array, ArrayRef, Int32Array, RecordBatch, StringArray};
use arrow_schema::{DataType, Field, Schema};
use chrono::Datelike;
use fakelake::batch::{batch_column, batch_windows, ColumnData, EPOCH_DAYS_FROM_CE};
use fakelake::config::{Column, Config, Info, OutputType, RawColumnDef};
use fakelake::output::{
    get_corresponding_output, get_schema_from_config, ColumnSchema, OutputCsv, OutputJson,
    OutputParquet,
};
use fakelake::presence::Presence;
use fakelake::providers::constant::ConstantStringProvider;
use fakelake::providers::increment::IncrementIntegerProvider;
use fakelake::providers::provider::{Corpora, CorruptedProvider, Provider, ValueKind};
use fakelake::providers::random_date::DateProvider;
use fakelake::providers::random_number::I32Provider;
use fakelake::raw::{RawColumn, RawValue};
use fakelake::rows::{csv_header, csv_row, row_record, JsonField};
use parquet::arrow::arrow_reader::ParquetRecordBatchReaderBuilder;
use parquet::arrow::ArrowWriter;

fn plain(provider: Provider) -> CorruptedProvider {
    CorruptedProvider {
        provider,
        corrupted: 0,
    }
}

fn id_column() -> Column {
    Column {
        name: "id".to_string(),
        provider: plain(Provider::IncrementInteger(IncrementIntegerProvider {
            start: 0,
            step: 1,
        })),
        presence: Presence::AlwaysPresent,
    }
}

#[test]
fn given_get_extension() {
    let output = OutputCsv { delimiter: 5 };
    assert_eq!(output.get_extension(), ".csv");
}

#[test]
fn mod_given_get_extension() {
    let output = OutputJson { wrap_up: false };
    assert_eq!(output.get_extension(), ".json");
}

#[test]
fn parquet_extension_is_parquet() {
    let output = OutputParquet;
    assert_eq!(output.get_extension(), ".parquet");
}

#[test]
fn output_file_name_appends_extension_once() {
    let config = Config {
        columns: vec![id_column()],
        info: Some(Info {
            output_name: Some("events".to_string()),
            output_format: None,
            rows: None,
        }),
    };
    assert_eq!(config.get_output_file_name(".csv"), "events.csv");
    let config = Config {
        columns: vec![id_column()],
        info: Some(Info {
            output_name: Some("events.csv".to_string()),
            output_format: None,
            rows: None,
        }),
    };
    assert_eq!(config.get_output_file_name(".csv"), "events.csv");
    let config = Config {
        columns: vec![id_column()],
        info: None,
    };
    assert_eq!(config.get_output_file_name(".json"), "output.json");
}

#[test]
fn number_of_rows_defaults_to_a_million() {
    let config = Config {
        columns: vec![id_column()],
        info: None,
    };
    assert_eq!(config.get_number_of_rows(), 1_000_000);
    let config = Config {
        columns: vec![id_column()],
        info: Some(Info {
            output_name: None,
            output_format: None,
            rows: Some(5),
        }),
    };
    assert_eq!(config.get_number_of_rows(), 5);
}

#[test]
fn unspecified_format_falls_back_to_parquet() {
    let config = Config {
        columns: vec![id_column()],
        info: None,
    };
    assert_eq!(get_corresponding_output(&config), OutputType::Parquet());
    let config = Config {
        columns: vec![id_column()],
        info: Some(Info {
            output_name: None,
            output_format: Some(OutputType::Csv(b',')),
            rows: None,
        }),
    };
    assert_eq!(get_corresponding_output(&config), OutputType::Csv(b','));
}

#[test]
fn info_section_reads_format_and_rows() {
    let section = RawColumn {
        name: String::new(),
        params: vec![
            (
                "output_name".to_string(),
                RawValue::Str("events".to_string()),
            ),
            ("output_format".to_string(), RawValue::Str("csv".to_string())),
            ("delimiter".to_string(), RawValue::Str(";".to_string())),
            ("rows".to_string(), RawValue::Str("1_000".to_string())),
        ],
    };
    let info = Info::parse_info_section(&section);
    assert_eq!(info.output_name, Some("events".to_string()));
    assert_eq!(info.output_format, Some(OutputType::Csv(b';')));
    assert_eq!(info.rows, Some(1000));

    let section = RawColumn {
        name: String::new(),
        params: vec![
            (
                "output_format".to_string(),
                RawValue::Str("json".to_string()),
            ),
            ("wrap_up".to_string(), RawValue::Bool(true)),
            ("rows".to_string(), RawValue::Int(7)),
        ],
    };
    let info = Info::parse_info_section(&section);
    assert_eq!(info.output_name, None);
    assert_eq!(info.output_format, Some(OutputType::Json(true)));
    assert_eq!(info.rows, Some(7));
}

#[test]
fn window_plan_covers_every_row_exactly_once() {
    let windows = batch_windows(5, 2);
    assert_eq!(windows, vec![(0, 2), (2, 2), (4, 1)]);
    let windows = batch_windows(6, 2);
    assert_eq!(windows, vec![(0, 2), (2, 2), (4, 2)]);
    let windows = batch_windows(0, 65536);
    assert!(windows.is_empty());
    let windows = batch_windows(1_000_000, 65536);
    let total: u64 = windows.iter().map(|w| w.1 as u64).sum();
    assert_eq!(total, 1_000_000);
    for w in &windows {
        assert!(0 < w.1 && w.1 <= 65536);
    }
}

#[test]
fn schema_derivation_reports_names_kinds_and_nullability() {
    let config = Config {
        columns: vec![
            id_column(),
            Column {
                name: "note".to_string(),
                provider: plain(Provider::ConstantString(ConstantStringProvider {
                    data: "hello".to_string(),
                })),
                presence: Presence::SometimesPresent(500_000),
            },
        ],
        info: None,
    };
    let schema = get_schema_from_config(&config);
    assert_eq!(schema.len(), 2);
    assert_eq!(
        schema[0],
        ColumnSchema {
            name: "id".to_string(),
            kind: ValueKind::Int32,
            nullable: false
        }
    );
    assert_eq!(
        schema[1],
        ColumnSchema {
            name: "note".to_string(),
            kind: ValueKind::Str,
            nullable: true
        }
    );
}

#[test]
fn given_config_get_schema() {
    let config = Config {
        columns: vec![id_column()],
        info: Some(Info {
            output_name: None,
            output_format: None,
            rows: None,
        }),
    };
    let schema = get_schema_from_config(&config);
    assert_eq!(schema.len(), 1);
    assert_eq!(schema[0].name, "id");
}

#[test]
fn batch_column_materializes_sequential_values() {
    let column = id_column();
    match batch_column(&column, 10, 5) {
        ColumnData::Int32(cells) => {
            assert_eq!(
                cells,
                vec![Some(10), Some(11), Some(12), Some(13), Some(14)]
            );
        }
        _ => panic!(),
    }
}

#[test]
fn batch_column_of_never_present_column_is_all_null() {
    let column = Column {
        name: "ghost".to_string(),
        provider: plain(Provider::RandomI32(I32Provider { min: 0, max: 10 })),
        presence: Presence::NeverPresent,
    };
    match batch_column(&column, 0, 4) {
        ColumnData::Int32(cells) => assert_eq!(cells, vec![None, None, None, None]),
        _ => panic!(),
    }
}

#[test]
fn bounded_random_date_every_draw_is_in_range() {
    let after = chrono::NaiveDate::parse_from_str("2010-01-01", "%Y-%m-%d")
        .unwrap()
        .num_days_from_ce();
    let before = chrono::NaiveDate::parse_from_str("2010-02-01", "%Y-%m-%d")
        .unwrap()
        .num_days_from_ce();
    let provider = DateProvider {
        format: "%Y-%m-%d".to_string(),
        after,
        before,
    };
    for i in 0..1000 {
        match provider.value(i) {
            fakelake::providers::provider::Value::Date(days, _) => {
                assert!(after <= days && days < before);
            }
            _ => panic!(),
        }
    }
    // A single-element range always returns its minimum.
    let provider = DateProvider {
        format: "%Y-%m-%d".to_string(),
        after,
        before: after + 1,
    };
    for i in 0..100 {
        match provider.value(i) {
            fakelake::providers::provider::Value::Date(days, _) => assert_eq!(days, after),
            _ => panic!(),
        }
    }
}

#[test]
fn generate_columns_builds_the_whole_schema_or_refuses() {
    let corpora = Corpora {
        first_names: vec!["Ada".to_string()],
        last_names: vec!["Lovelace".to_string()],
    };
    let defs = vec![RawColumnDef {
        name: Some("id".to_string()),
        provider: Some("increment.integer".to_string()),
        column: RawColumn {
            name: "id".to_string(),
            params: vec![("start".to_string(), RawValue::Int(3))],
        },
    }];
    let columns = Column::generate_columns(&defs, &corpora).unwrap();
    assert_eq!(columns.len(), 1);
    assert_eq!(columns[0].name, "id");

    let defs = vec![RawColumnDef {
        name: Some("id".to_string()),
        provider: None,
        column: RawColumn {
            name: "id".to_string(),
            params: vec![],
        },
    }];
    assert!(Column::generate_columns(&defs, &corpora).is_err());

    let defs = vec![RawColumnDef {
        name: Some("id".to_string()),
        provider: Some("no.such.provider".to_string()),
        column: RawColumn {
            name: "id".to_string(),
            params: vec![],
        },
    }];
    assert!(Column::generate_columns(&defs, &corpora).is_err());
}

// End-to-end: delimited text.

#[test]
fn delimited_text_writes_header_then_sequential_rows() {
    let columns = vec![id_column()];
    let mut writer = csv::WriterBuilder::new()
        .delimiter(b',')
        .from_writer(Vec::new());
    let header = csv_header(&columns);
    writer.write_record(&header).unwrap();
    for i in 0..5 {
        let row = csv_row(&columns, i);
        writer.write_record(&row).unwrap();
    }
    let bytes = writer.into_inner().unwrap();
    let text = String::from_utf8(bytes).unwrap();
    assert_eq!(text, "id\n0\n1\n2\n3\n4\n");
}

// End-to-end: structured text wrapped as one array.

#[test]
fn structured_text_wrapped_as_array_lists_all_records() {
    let columns = vec![id_column()];
    let mut rows: Vec<serde_json::Value> = Vec::new();
    for i in 0..5 {
        let record = row_record(&columns, i);
        let mut object = serde_json::Map::new();
        for (name, field) in record {
            let value = match field {
                JsonField::Bool(b) => serde_json::Value::Bool(b),
                JsonField::Int(x) => serde_json::Value::Number(serde_json::Number::from(x)),
                JsonField::Str(s) => serde_json::Value::String(s),
            };
            object.insert(name, value);
        }
        rows.push(serde_json::Value::Object(object));
    }
    let text = serde_json::to_string(&serde_json::Value::Array(rows)).unwrap();
    assert_eq!(
        text,
        "[{\"id\":0},{\"id\":1},{\"id\":2},{\"id\":3},{\"id\":4}]"
    );
}

// Round trip: columnar binary, written and read back in memory.

#[test]
fn columnar_round_trip_keeps_rows_names_and_nullability() {
    let after = chrono::NaiveDate::parse_from_str("2010-01-01", "%Y-%m-%d")
        .unwrap()
        .num_days_from_ce();
    let columns = vec![
        id_column(),
        Column {
            name: "note".to_string(),
            provider: plain(Provider::ConstantString(ConstantStringProvider {
                data: "hello".to_string(),
            })),
            presence: Presence::NeverPresent,
        },
        Column {
            name: "when".to_string(),
            provider: plain(Provider::RandomDate(DateProvider {
                format: "%Y-%m-%d".to_string(),
                after,
                before: after + 30,
            })),
            presence: Presence::AlwaysPresent,
        },
    ];
    let config = Config {
        columns,
        info: None,
    };
    let rows: u32 = 25;

    let schema_fields = get_schema_from_config(&config);
    let fields: Vec<Field> = schema_fields
        .iter()
        .map(|f| {
            let data_type = match f.kind {
                ValueKind::Bool => DataType::Boolean,
                ValueKind::Int32 => DataType::Int32,
                ValueKind::Str => DataType::Utf8,
                ValueKind::Date => DataType::Date32,
                ValueKind::Timestamp => {
                    DataType::Timestamp(arrow_schema::TimeUnit::Second, None)
                }
            };
            Field::new(&f.name, data_type, f.nullable)
        })
        .collect();
    let schema = std::sync::Arc::new(Schema::new(fields));

    let mut arrays: Vec<ArrayRef> = Vec::new();
    for column in &config.columns {
        let array: ArrayRef = match batch_column(column, 0, rows) {
            ColumnData::Int32(cells) => std::sync::Arc::new(Int32Array::from(cells)),
            ColumnData::Str(cells) => std::sync::Arc::new(StringArray::from(cells)),
            ColumnData::Date(cells) => {
                std::sync::Arc::new(arrow_array::Date32Array::from(cells))
            }
            ColumnData::Bool(cells) => {
                std::sync::Arc::new(arrow_array::BooleanArray::from(cells))
            }
            ColumnData::Timestamp(cells) => {
                std::sync::Arc::new(arrow_array::TimestampSecondArray::from(cells))
            }
        };
        arrays.push(array);
    }
    let batch = RecordBatch::try_new(schema.clone(), arrays).unwrap();

    let mut buffer: Vec<u8> = Vec::new();
    let mut writer = ArrowWriter::try_new(&mut buffer, schema, None).unwrap();
    writer.write(&batch).unwrap();
    writer.close().unwrap();

    let reader = ParquetRecordBatchReaderBuilder::try_new(bytes::Bytes::from(buffer))
        .unwrap()
        .build()
        .unwrap();
    let mut read_rows: usize = 0;
    let mut read_schema: Option<arrow_schema::SchemaRef> = None;
    for batch in reader {
        let batch = batch.unwrap();
        read_rows += batch.num_rows();
        read_schema = Some(batch.schema());
    }
    assert_eq!(read_rows, rows as usize);
    let read_schema = read_schema.unwrap();
    let names: Vec<&str> = read_schema
        .fields()
        .iter()
        .map(|f| f.name().as_str())
        .collect();
    assert_eq!(names, vec!["id", "note", "when"]);
    assert!(!read_schema.field(0).is_nullable());
    assert!(read_schema.field(1).is_nullable());
    assert!(!read_schema.field(2).is_nullable());
}

#[test]
fn date_cells_are_stored_relative_to_the_epoch() {
    assert_eq!(
        chrono::NaiveDate::from_ymd_opt(1970, 1, 1)
            .unwrap()
            .num_days_from_ce(),
        EPOCH_DAYS_FROM_CE
    );
    let day = chrono::NaiveDate::parse_from_str("1970-01-11", "%Y-%m-%d")
        .unwrap()
        .num_days_from_ce();
    let column = Column {
        name: "when".to_string(),
        provider: plain(Provider::RandomDate(DateProvider {
            format: "%Y-%m-%d".to_string(),
            after: day,
            before: day + 1,
        })),
        presence: Presence::AlwaysPresent,
    };
    match batch_column(&column, 0, 3) {
        ColumnData::Date(cells) => assert_eq!(cells, vec![Some(10), Some(10), Some(10)]),
        _ => panic!(),
    }
}
