use file_sharer::bytes::ByteCount;
use file_sharer::config::{ShareConfig, ShareRecord, TokenConfig, UploadConfig, UploadRecord};
use file_sharer::error::Error;
use file_sharer::path::{sanitize_path, Filename};
use file_sharer::timestamp::{Civil, Date, Datetime, Offset, Time, Timestamp};
use file_sharer::token::Token;

fn at(hour: u8) -> Timestamp {
    Timestamp::new(Civil {
        year: 2030,
        month: 6,
        day: 15,
        hour,
        minute: 0,
        second: 0,
        nanosecond: 0,
        offset_hours: 0,
        offset_minutes: 0,
        offset_seconds: 0,
    })
    .unwrap()
}

fn upload(quota: usize) -> UploadConfig {
    UploadConfig { name: String::from("papers"), expiry: at(12), space_quota: ByteCount(quota) }
}

fn stored_noon() -> Datetime {
    Datetime {
        date: Some(Date { year: 2030, month: 6, day: 15 }),
        time: Some(Time { hour: 12, minute: 0, second: 0, nanosecond: 0 }),
        offset: Some(Offset::Custom { hours: 0, minutes: 0 }),
    }
}

#[test]
fn reserve_takes_the_declared_length() {
    let left = upload(1000).reserve(false, 800).unwrap();
    assert_eq!(left.space_quota, ByteCount(200));
    assert_eq!(left.name, "papers");
    assert_eq!(left.expiry.civil(), at(12).civil());
}

#[test]
fn reserve_may_take_everything() {
    assert_eq!(upload(1000).reserve(false, 1000).unwrap().space_quota, ByteCount(0));
    assert_eq!(upload(0).reserve(false, 0).unwrap().space_quota, ByteCount(0));
}

#[test]
fn reserve_refuses_more_than_the_quota() {
    assert_eq!(upload(200).reserve(false, 300).unwrap_err(), Error::OutOfSpace);
    assert_eq!(upload(200).reserve(false, u64::MAX).unwrap_err(), Error::OutOfSpace);
}

#[test]
fn reserve_refuses_after_the_expiry_whatever_the_length() {
    assert_eq!(upload(1000).reserve(true, 0).unwrap_err(), Error::Expired);
    assert_eq!(upload(1000).reserve(true, 5000).unwrap_err(), Error::Expired);
}

#[test]
fn reserve_at_takes_requests_until_the_expiry() {
    assert!(upload(10).reserve_at(&at(11), 10).is_ok());
    assert!(upload(10).reserve_at(&at(12), 10).is_ok());
    assert_eq!(upload(10).reserve_at(&at(13), 10).unwrap_err(), Error::Expired);
}

#[test]
fn refund_gives_back_what_was_not_written() {
    assert_eq!(upload(500).refund(ByteCount(500), ByteCount(200)).space_quota, ByteCount(800));
    assert_eq!(upload(500).refund(ByteCount(500), ByteCount(0)).space_quota, ByteCount(1000));
    assert_eq!(upload(500).refund(ByteCount(500), ByteCount(500)).space_quota, ByteCount(500));
}

#[test]
fn refund_takes_nothing_where_more_was_written() {
    assert_eq!(upload(500).refund(ByteCount(100), ByteCount(300)).space_quota, ByteCount(500));
}

#[test]
fn refund_fits_sees_the_end_of_the_word() {
    assert!(upload(usize::MAX - 10).refund_fits(ByteCount(10), ByteCount(0)));
    assert!(!upload(usize::MAX - 10).refund_fits(ByteCount(11), ByteCount(0)));
    assert!(upload(usize::MAX).refund_fits(ByteCount(11), ByteCount(11)));
}

#[test]
fn uploads_without_a_name_are_named_after_their_token() {
    let token = Token::parse("203006151200_AB").unwrap();
    let bare = UploadConfig { name: String::new(), ..upload(5) };
    let named = bare.named_after(&token);
    assert_eq!(named.name, "203006151200_AB");
    assert_eq!(named.space_quota, ByteCount(5));
    assert_eq!(upload(5).named_after(&token).name, "papers");
}

#[test]
fn shares_take_files_until_their_expiry() {
    let share = ShareConfig { name: String::from("slides"), expiry: at(12) };
    assert_eq!(share.deposit_at(&at(11)), Ok(()));
    assert_eq!(share.deposit_at(&at(12)), Ok(()));
    assert_eq!(share.deposit_at(&at(13)), Err(Error::Expired));
    assert_eq!(share.deposit(false), Ok(()));
    assert_eq!(share.deposit(true), Err(Error::Expired));
}

#[test]
fn upload_records_read_back() {
    let record = upload(1234).to_record().unwrap();
    assert_eq!(record.name, "papers");
    assert_eq!(record.expiry, stored_noon());
    assert_eq!(record.space_quota, 1234);
    let config = UploadConfig::from_record(record).unwrap();
    assert_eq!(config.name, "papers");
    assert_eq!(config.expiry.civil(), at(12).civil());
    assert_eq!(config.space_quota, ByteCount(1234));
}

#[test]
fn share_records_read_back() {
    let share = ShareConfig { name: String::from("slides"), expiry: at(12) };
    let record = share.to_record().unwrap();
    assert_eq!(record.expiry, stored_noon());
    let config = ShareConfig::from_record(record).unwrap();
    assert_eq!(config.name, "slides");
    assert_eq!(config.expiry.civil(), at(12).civil());
}

#[test]
fn records_without_an_offset_are_malformed() {
    let local = Datetime { offset: None, ..stored_noon() };
    let record = UploadRecord { name: String::from("x"), expiry: local, space_quota: 1 };
    assert_eq!(UploadConfig::from_record(record).unwrap_err(), Error::Malformed);
    let record = ShareRecord { name: String::from("x"), expiry: local };
    assert_eq!(ShareConfig::from_record(record).unwrap_err(), Error::Malformed);
}

#[test]
fn configs_that_cannot_be_stored_are_malformed() {
    let early = Timestamp::new(Civil { year: -1, ..at(12).civil() }).unwrap();
    let config = UploadConfig { expiry: early, ..upload(1) };
    assert_eq!(config.to_record().unwrap_err(), Error::Malformed);
    let share = ShareConfig { name: String::new(), expiry: early };
    assert_eq!(share.to_record().unwrap_err(), Error::Malformed);
}

#[test]
fn token_places_follow_the_layout() {
    let token = Token::parse("203006151200_AB").unwrap();
    let places = TokenConfig::new("/data/uploads", &token);
    assert_eq!(places.token_directory(), "/data/uploads/203006151200_AB");
    assert_eq!(places.files_directory(), "/data/uploads/203006151200_AB/files");
    assert_eq!(places.config_file(), "/data/uploads/203006151200_AB/token.toml");
}

#[test]
fn files_are_placed_in_the_files_directory() {
    let token = Token::parse("T1").unwrap();
    let places = TokenConfig::new("shares", &token);
    let name = Filename::parse("a.txt").unwrap();
    assert_eq!(places.file(&name), "shares/T1/files/a.txt");
    let kept = sanitize_path("../../../etc/passwd");
    assert_eq!(places.upload_path(&kept), "shares/T1/files/etc/passwd");
    assert_eq!(places.upload_path(&sanitize_path("..")), "shares/T1/files/");
}

#[test]
fn clones_of_uploads_are_equal() {
    let config = upload(77);
    let copy = config.clone();
    assert_eq!(copy.name, config.name);
    assert_eq!(copy.space_quota, config.space_quota);
    assert_eq!(copy.expiry.civil(), config.expiry.civil());
}

#[test]
fn new_tokens_are_set_up_directory_first_and_config_last() {
    let token = Token::parse("T1").unwrap();
    let steps = TokenConfig::new("/srv/shares", &token).creation();
    let told: Vec<String> = steps.iter().map(|step| format!("{step:?}")).collect();
    assert_eq!(
        told,
        vec![
            "Directory(\"/srv/shares/T1\")",
            "Directory(\"/srv/shares/T1/files\")",
            "Config(\"/srv/shares/T1/token.toml\")",
        ]
    );
}
