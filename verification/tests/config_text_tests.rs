use file_sharer::bytes::ByteCount;
use file_sharer::config::{UploadConfig, UploadRecord};
use file_sharer::error::Error;
use file_sharer::timestamp::{Civil, Date, Datetime, Offset, Time, Timestamp};

fn to_toml(datetime: &Datetime) -> toml::value::Datetime {
    toml::value::Datetime {
        date: datetime.date.map(|d| toml::value::Date { year: d.year, month: d.month, day: d.day }),
        time: datetime.time.map(|t| toml::value::Time {
            hour: t.hour,
            minute: t.minute,
            second: t.second,
            nanosecond: t.nanosecond,
        }),
        offset: datetime.offset.map(|o| match o {
            Offset::Z => toml::value::Offset::Z,
            Offset::Custom { hours, minutes } => toml::value::Offset::Custom { hours, minutes },
        }),
    }
}

fn stored(datetime: &toml::value::Datetime) -> Datetime {
    Datetime {
        date: datetime.date.as_ref().map(|d| Date { year: d.year, month: d.month, day: d.day }),
        time: datetime.time.as_ref().map(|t| Time {
            hour: t.hour,
            minute: t.minute,
            second: t.second,
            nanosecond: t.nanosecond,
        }),
        offset: datetime.offset.as_ref().map(|o| match o {
            toml::value::Offset::Z => Offset::Z,
            toml::value::Offset::Custom { hours, minutes } => {
                Offset::Custom { hours: *hours, minutes: *minutes }
            }
        }),
    }
}

fn written(config: &UploadConfig) -> String {
    let record = config.to_record().unwrap();
    let mut table = toml::value::Table::new();
    table.insert(String::from("name"), toml::Value::String(record.name));
    table.insert(String::from("expiry"), toml::Value::Datetime(to_toml(&record.expiry)));
    table.insert(String::from("space_quota"), toml::Value::Integer(record.space_quota as i64));
    toml::to_string(&table).unwrap()
}

fn read(text: &str) -> Result<UploadConfig, Error> {
    let table: toml::value::Table = toml::from_str(text).unwrap();
    UploadConfig::from_record(UploadRecord {
        name: String::from(table["name"].as_str().unwrap()),
        expiry: stored(table["expiry"].as_datetime().unwrap()),
        space_quota: table["space_quota"].as_integer().unwrap() as usize,
    })
}

fn noon(offset_hours: i8, offset_minutes: i8) -> Civil {
    Civil {
        year: 2030,
        month: 6,
        day: 15,
        hour: 12,
        minute: 0,
        second: 0,
        nanosecond: 0,
        offset_hours,
        offset_minutes,
        offset_seconds: 0,
    }
}

#[test]
fn configs_are_written_with_their_offset() {
    let config = UploadConfig {
        name: String::from("papers"),
        expiry: Timestamp::new(noon(2, 0)).unwrap(),
        space_quota: ByteCount(1000),
    };
    let text = written(&config);
    assert!(text.contains("expiry = 2030-06-15T12:00:00+02:00"), "{text}");
    assert!(text.contains("name = \"papers\""), "{text}");
    assert!(text.contains("space_quota = 1000"), "{text}");
}

#[test]
fn configs_read_back_from_their_text() {
    for (hours, minutes) in [(0, 0), (2, 0), (5, 45), (-8, 0), (14, 0)] {
        let config = UploadConfig {
            name: String::from("papers \"2030\""),
            expiry: Timestamp::new(noon(hours, minutes)).unwrap(),
            space_quota: ByteCount(123_456),
        };
        let back = read(&written(&config)).unwrap();
        assert_eq!(back.name, config.name);
        assert_eq!(back.expiry.civil(), config.expiry.civil());
        assert_eq!(back.space_quota, config.space_quota);
    }
}

#[test]
fn text_with_utc_is_read() {
    let config = read("name = \"x\"\nexpiry = 2030-06-15T12:00:00Z\nspace_quota = 1\n").unwrap();
    assert_eq!(config.expiry.civil(), noon(0, 0));
}

#[test]
fn text_with_a_western_offset_is_read() {
    let config = read("name = \"x\"\nexpiry = 2030-06-15T12:00:00-03:30\nspace_quota = 1\n").unwrap();
    assert_eq!(config.expiry.civil(), noon(-3, -30));
}

#[test]
fn text_without_an_offset_is_malformed() {
    let local = read("name = \"x\"\nexpiry = 2030-06-15T12:00:00\nspace_quota = 1\n");
    assert_eq!(local.unwrap_err(), Error::Malformed);
    let date_only = read("name = \"x\"\nexpiry = 2030-06-15\nspace_quota = 1\n");
    assert_eq!(date_only.unwrap_err(), Error::Malformed);
}
