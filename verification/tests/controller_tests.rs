use file_sharer::app_config::{parse_user_root, AppConfig};
use file_sharer::bytes::ByteCount;
use file_sharer::config::{ShareConfig, UploadConfig};
use file_sharer::content_type::content_type;
use file_sharer::controller::new_controller;
use file_sharer::error::Error;
use file_sharer::ingest::{Action, Event};
use file_sharer::listing::Entry;
use file_sharer::path::Filename;
use file_sharer::redeem::{Phase, Redemption};
use file_sharer::timestamp::{Civil, Timestamp};
use file_sharer::token::Token;

fn settings() -> AppConfig {
    AppConfig {
        files: String::from("/srv"),
        shares: String::from("shares"),
        uploads: String::from("uploads"),
        disable_admin_app: false,
        admin_port: 8000,
        user_https: false,
        user_host: String::from("localhost:8080"),
        user_port: 8080,
        user_root: String::from("/"),
        user_localhost_only: false,
    }
}

fn at(hour: u8) -> Timestamp {
    Timestamp::new(Civil {
        year: 2030,
        month: 6,
        day: 15,
        hour,
        minute: 0,
        second: 0,
        nanosecond: 0,
        offset_hours: 0,
        offset_minutes: 0,
        offset_seconds: 0,
    })
    .unwrap()
}

#[test]
fn user_roots_get_one_leading_separator() {
    assert_eq!(parse_user_root("/"), "/");
    assert_eq!(parse_user_root(""), "/");
    assert_eq!(parse_user_root("files"), "/files");
    assert_eq!(parse_user_root("/files/"), "/files");
    assert_eq!(parse_user_root("//a/b//"), "/a/b");
    assert_eq!(parse_user_root("///"), "/");
}

#[test]
fn directories_are_taken_from_the_settings() {
    let config = settings();
    assert_eq!(config.shares_directory(), "/srv/shares");
    assert_eq!(config.uploads_directory(), "/srv/uploads");
    let config = AppConfig { files: String::from("."), uploads: String::from("/var/uploads"), ..settings() };
    assert_eq!(config.shares_directory(), "./shares");
    assert_eq!(config.uploads_directory(), "/var/uploads");
}

#[test]
fn token_urls_name_scheme_host_root_category_and_token() {
    let token = Token::parse("T1").unwrap();
    assert_eq!(settings().token_url("share", &token), "http://localhost:8080/share/T1");
    let config = AppConfig { user_https: true, user_host: String::from("example.org"), user_root: String::from("/files"), ..settings() };
    assert_eq!(config.token_url("upload", &token), "https://example.org/files/upload/T1");
}

#[test]
fn content_types_go_by_the_extension() {
    let of = |name: &str| content_type(&Filename::parse(name).unwrap());
    assert_eq!(of("notes.txt"), "text/plain");
    assert_eq!(of("photo.PNG"), "image/png");
    assert_eq!(of("page.html"), "text/html");
    assert_eq!(of("paper.pdf"), "application/pdf");
    assert_eq!(of("README"), "application/octet-stream");
    assert_eq!(of("data.no-such-extension"), "application/octet-stream");
}

#[test]
fn both_sides_share_the_settings() {
    let (admin, user) = new_controller(settings());
    assert_eq!(admin.config().shares_directory(), "/srv/shares");
    assert_eq!(user.config().uploads_directory(), "/srv/uploads");
    let token = Token::parse("T1").unwrap();
    assert_eq!(admin.share_config(&token).config_file(), "/srv/shares/T1/token.toml");
    assert_eq!(admin.upload_config(&token).config_file(), "/srv/uploads/T1/token.toml");
    assert_eq!(user.share_config(&token).files_directory(), "/srv/shares/T1/files");
    assert_eq!(user.upload_config(&token).files_directory(), "/srv/uploads/T1/files");
}

#[test]
fn new_shares_keep_their_config() {
    let (admin, _) = new_controller(settings());
    let config = ShareConfig { name: String::new(), expiry: at(12) };
    let issued = admin.new_share_token(at(9), config).unwrap();
    assert!(issued.token.as_str().starts_with("203006150900_"));
    assert_eq!(issued.config.name, "");
    assert_eq!(issued.places.token_directory(), format!("/srv/shares/{}", issued.token.as_str()));
}

#[test]
fn new_uploads_without_a_name_take_the_token_as_name() {
    let (admin, _) = new_controller(settings());
    let config = UploadConfig { name: String::new(), expiry: at(12), space_quota: ByteCount(1000) };
    let issued = admin.new_upload_token(at(9), config).unwrap();
    assert_eq!(issued.config.name, issued.token.as_str());
    assert_eq!(issued.config.space_quota, ByteCount(1000));
    assert_eq!(issued.places.token_directory(), format!("/srv/uploads/{}", issued.token.as_str()));
    let config = UploadConfig { name: String::from("papers"), expiry: at(12), space_quota: ByteCount(1) };
    assert_eq!(admin.new_upload_token(at(9), config).unwrap().config.name, "papers");
}

#[test]
fn tokens_are_not_issued_in_years_before_zero() {
    let (admin, _) = new_controller(settings());
    let early = Timestamp::new(Civil { year: -1, ..at(9).civil() }).unwrap();
    let config = ShareConfig { name: String::new(), expiry: at(12) };
    assert_eq!(admin.new_share_token(early, config).unwrap_err(), Error::InvalidToken);
}

#[test]
fn shares_take_files_before_their_expiry_only() {
    let (admin, _) = new_controller(settings());
    let token = Token::parse("T1").unwrap();
    let config = ShareConfig { name: String::from("slides"), expiry: at(12) };
    assert_eq!(admin.share_files(&token, &config, &at(13)).err(), Some(Error::Expired));
    let mut session = admin.share_files(&token, &config, &at(12)).unwrap();
    session.step(Event::Begin);
    match session.step(Event::Field { file_name: Some(String::from("../a.pdf")) }) {
        Action::Create(path) => assert_eq!(path, "/srv/shares/T1/files/a.pdf"),
        other => panic!("expected a file, got {other:?}"),
    }
}

#[test]
fn uploads_start_idle_and_write_below_the_uploads_directory() {
    let (_, user) = new_controller(settings());
    let token = Token::parse("T1").unwrap();
    let (redemption, mut session) = user.upload_files(&token, 512);
    assert_eq!(redemption, Redemption { declared: 512, phase: Phase::Idle });
    session.step(Event::Begin);
    match session.step(Event::Field { file_name: Some(String::from("x/../../y")) }) {
        Action::Create(path) => assert_eq!(path, "/srv/uploads/T1/files/y"),
        other => panic!("expected a file, got {other:?}"),
    }
}

#[test]
fn shared_files_are_entries_of_the_files_directory() {
    let (_, user) = new_controller(settings());
    let token = Token::parse("T1").unwrap();
    let file = user.open_shared_file(&token, &Filename::parse("notes.txt").unwrap());
    assert_eq!(file.path, "/srv/shares/T1/files/notes.txt");
    assert_eq!(file.content_type, "text/plain");
}

#[test]
fn shares_are_shown_after_their_expiry() {
    let (_, user) = new_controller(settings());
    let config = ShareConfig { name: String::from("slides"), expiry: at(0) };
    let page = user.directory_listing(config, vec![String::from("a.pdf")]);
    assert_eq!(page.name(), "slides");
    assert_eq!(page.files().len(), 1);
}

#[test]
fn the_lists_of_both_categories_skip_and_sort() {
    let (admin, _) = new_controller(settings());
    let found = vec![
        Entry { directory: String::from("T2"), name: Some(String::from("zeta")) },
        Entry { directory: String::from("T3"), name: None },
        Entry { directory: String::from("T1"), name: Some(String::from("alpha")) },
    ];
    let uploads = admin.current_uploads(&found);
    assert_eq!(uploads.iter().map(|l| l.name.as_str()).collect::<Vec<_>>(), vec!["alpha", "zeta"]);
    let shares = admin.current_shares(&found);
    assert_eq!(shares.iter().map(|l| l.token.as_str()).collect::<Vec<_>>(), vec!["T1", "T2"]);
}

#[test]
fn errors_describe_themselves() {
    assert_eq!(Error::Expired.message(), "Token has expired");
    assert_eq!(Error::OutOfSpace.message(), "Out of Space");
    assert_eq!(Error::InvalidToken.message(), "Invalid token");
    assert_eq!(Error::Malformed.message(), "Malformed");
    assert_eq!(Error::NotFound.message(), "Not found");
    assert_eq!(Error::IoFailure.message(), "I/O failure");
}

#[test]
fn refused_file_operations_are_missing_files_or_failures() {
    assert_eq!(Error::from_io(true), Error::NotFound);
    assert_eq!(Error::from_io(false), Error::IoFailure);
}
