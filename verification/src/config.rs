//! What is kept on disk for each token: its config, the record that the
//! config file holds, and the places of both.
//!
//! ```text
//! <category>/<token>/token.toml
//! <category>/<token>/files/*
//! ```

use vstd::prelude::*;
use crate::bytes::ByteCount;
use crate::error::Error;
use crate::path::{is_normal_segment, join_path, join_paths, joined, location, slash_free};
use crate::path::{lemma_joined_run_leads_down, lemma_joined_segment_leads_in};
use crate::path::{Filename, SanitizedPath};
use crate::timestamp::{read_datetime, stored_datetime, truncated, unix_nanos};
use crate::timestamp::{Civil, Datetime, Timestamp, TimestampError};
use crate::token::{is_token_text, Token};

verus! {

/// The directory of a token that holds its files.
pub const FILES_DIRECTORY: &'static str = "files";

/// The file of a token that holds its config.
pub const TOKEN_FILENAME: &'static str = "token.toml";

/// The config of a share: a slot that takes files until its expiry and
/// serves them without limit of time.
#[derive(Debug)]
pub struct ShareConfig {
    pub name: String,
    pub expiry: Timestamp,
}

/// The config of an upload: a slot that takes files until its expiry, and
/// no more bytes than its quota. Every byte taken is gone from the quota
/// for good.
#[derive(Debug)]
pub struct UploadConfig {
    pub name: String,
    pub expiry: Timestamp,
    pub space_quota: ByteCount,
}

/// What the config file of a share holds.
#[derive(Debug)]
pub struct ShareRecord {
    pub name: String,
    pub expiry: Datetime,
}

/// What the config file of an upload holds.
#[derive(Debug)]
pub struct UploadRecord {
    pub name: String,
    pub expiry: Datetime,
    pub space_quota: usize,
}

/// A share config as plain values.
pub struct ShareConfigView {
    pub name: Seq<char>,
    pub expiry: Civil,
}

/// An upload config as plain values.
pub struct UploadConfigView {
    pub name: Seq<char>,
    pub expiry: Civil,
    pub space_quota: int,
}

impl View for ShareConfig {
    type V = ShareConfigView;

    open spec fn view(&self) -> ShareConfigView {
        ShareConfigView { name: self.name@, expiry: self.expiry@ }
    }
}

impl View for UploadConfig {
    type V = UploadConfigView;

    open spec fn view(&self) -> UploadConfigView {
        UploadConfigView {
            name: self.name@,
            expiry: self.expiry@,
            space_quota: self.space_quota@,
        }
    }
}

impl Clone for UploadConfig {
    fn clone(&self) -> (r: Self)
        ensures
            r@ == self@,
    {
        UploadConfig {
            name: self.name.clone(),
            expiry: self.expiry,
            space_quota: self.space_quota,
        }
    }
}

/// What reading the record of a share gives.
pub open spec fn read_share_record(record: ShareRecord) -> Result<ShareConfigView, Error> {
    match read_datetime(record.expiry) {
        Ok(expiry) => Ok(ShareConfigView { name: record.name@, expiry }),
        Err(_) => Err(Error::Malformed),
    }
}

/// What reading the record of an upload gives.
pub open spec fn read_upload_record(record: UploadRecord) -> Result<UploadConfigView, Error> {
    match read_datetime(record.expiry) {
        Ok(expiry) => Ok(
            UploadConfigView {
                name: record.name@,
                expiry,
                space_quota: record.space_quota as int,
            },
        ),
        Err(_) => Err(Error::Malformed),
    }
}

/// Whether `record` is what is stored for the share `config`.
pub open spec fn is_share_record_of(record: ShareRecord, config: ShareConfigView) -> bool {
    &&& record.name@ == config.name
    &&& stored_datetime(config.expiry) == Ok::<Datetime, TimestampError>(record.expiry)
}

/// Whether `record` is what is stored for the upload `config`.
pub open spec fn is_upload_record_of(record: UploadRecord, config: UploadConfigView) -> bool {
    &&& record.name@ == config.name
    &&& stored_datetime(config.expiry) == Ok::<Datetime, TimestampError>(record.expiry)
    &&& record.space_quota as int == config.space_quota
}

/// Whether a request that comes at `now` comes after `expiry`.
pub open spec fn is_expired(now: Civil, expiry: Civil) -> bool {
    unix_nanos(now) > unix_nanos(expiry)
}

/// What a request for `declared` bytes does to an upload: refused once the
/// slot has expired, refused where the quota is smaller than the request,
/// and else taken off the quota.
pub open spec fn reserved(config: UploadConfigView, expired: bool, declared: int) -> Result<
    UploadConfigView,
    Error,
> {
    if expired {
        Err(Error::Expired)
    } else if declared > config.space_quota {
        Err(Error::OutOfSpace)
    } else {
        Ok(UploadConfigView { space_quota: config.space_quota - declared, ..config })
    }
}

/// The part of a reservation that was not used: nothing where more was
/// written than was reserved.
pub open spec fn unused(reserved: int, written: int) -> int {
    if reserved >= written {
        reserved - written
    } else {
        0
    }
}

/// An upload after the unused part of a reservation has been given back.
pub open spec fn refunded(config: UploadConfigView, reserved: int, written: int)
    -> UploadConfigView {
    UploadConfigView { space_quota: config.space_quota + unused(reserved, written), ..config }
}

impl ShareConfig {
    /// The config that a record stands for. A record whose expiry is no
    /// moment with an offset is malformed.
    pub fn from_record(record: ShareRecord) -> (r: Result<ShareConfig, Error>)
        ensures
            match read_share_record(record) {
                Ok(config) => r is Ok && r->Ok_0@ == config,
                Err(e) => r == Err::<ShareConfig, Error>(e),
            },
    {
        match Timestamp::from_datetime(&record.expiry) {
            Ok(expiry) => Ok(ShareConfig { name: record.name, expiry }),
            Err(_) => Err(Error::Malformed),
        }
    }

    /// The record to store for this config. An expiry that cannot be stored
    /// makes the config malformed.
    pub fn to_record(&self) -> (r: Result<ShareRecord, Error>)
        ensures
            stored_datetime(self.expiry@) is Ok ==> r is Ok && is_share_record_of(r->Ok_0, self@),
            stored_datetime(self.expiry@) is Err ==> r == Err::<ShareRecord, Error>(
                Error::Malformed,
            ),
    {
        match self.expiry.to_datetime() {
            Ok(expiry) => Ok(ShareRecord { name: self.name.clone(), expiry }),
            Err(_) => Err(Error::Malformed),
        }
    }

    /// Whether the share still takes files, given whether its expiry has
    /// passed.
    pub fn deposit(&self, expired: bool) -> (r: Result<(), Error>)
        ensures
            expired ==> r == Err::<(), Error>(Error::Expired),
            !expired ==> r is Ok,
    {
        if expired {
            Err(Error::Expired)
        } else {
            Ok(())
        }
    }

    /// Whether the share takes files at `now`: until its expiry, and at the
    /// moment of it.
    pub fn deposit_at(&self, now: &Timestamp) -> (r: Result<(), Error>)
        ensures
            is_expired(now@, self.expiry@) ==> r == Err::<(), Error>(Error::Expired),
            !is_expired(now@, self.expiry@) ==> r is Ok,
    {
        self.deposit(now.is_after(&self.expiry))
    }
}

impl UploadConfig {
    /// The config that a record stands for. A record whose expiry is no
    /// moment with an offset is malformed.
    pub fn from_record(record: UploadRecord) -> (r: Result<UploadConfig, Error>)
        ensures
            match read_upload_record(record) {
                Ok(config) => r is Ok && r->Ok_0@ == config,
                Err(e) => r == Err::<UploadConfig, Error>(e),
            },
    {
        match Timestamp::from_datetime(&record.expiry) {
            Ok(expiry) => Ok(
                UploadConfig {
                    name: record.name,
                    expiry,
                    space_quota: ByteCount(record.space_quota),
                },
            ),
            Err(_) => Err(Error::Malformed),
        }
    }

    /// The record to store for this config. An expiry that cannot be stored
    /// makes the config malformed.
    pub fn to_record(&self) -> (r: Result<UploadRecord, Error>)
        ensures
            stored_datetime(self.expiry@) is Ok ==> r is Ok && is_upload_record_of(
                r->Ok_0,
                self@,
            ),
            stored_datetime(self.expiry@) is Err ==> r == Err::<UploadRecord, Error>(
                Error::Malformed,
            ),
    {
        match self.expiry.to_datetime() {
            Ok(expiry) => Ok(
                UploadRecord { name: self.name.clone(), expiry, space_quota: self.space_quota.0 },
            ),
            Err(_) => Err(Error::Malformed),
        }
    }

    /// The config of a new upload: one without a name is named after its
    /// token.
    pub fn named_after(self, token: &Token) -> (r: UploadConfig)
        ensures
            r@ == (UploadConfigView {
                name: if self.name@.len() == 0 {
                    token@
                } else {
                    self.name@
                },
                ..self@
            }),
    {
        if self.name.as_str().unicode_len() == 0 {
            UploadConfig {
                name: token.as_str().to_owned(),
                expiry: self.expiry,
                space_quota: self.space_quota,
            }
        } else {
            self
        }
    }

    /// Takes `declared` bytes off the quota, given whether the expiry has
    /// passed. The expiry is judged first.
    pub fn reserve(self, expired: bool, declared: u64) -> (r: Result<UploadConfig, Error>)
        ensures
            match reserved(self@, expired, declared as int) {
                Ok(config) => r is Ok && r->Ok_0@ == config,
                Err(e) => r == Err::<UploadConfig, Error>(e),
            },
    {
        if expired {
            return Err(Error::Expired);
        }
        if declared > self.space_quota.0 as u64 {
            return Err(Error::OutOfSpace);
        }
        let left = self.space_quota.0 - declared as usize;
        Ok(UploadConfig { name: self.name, expiry: self.expiry, space_quota: ByteCount(left) })
    }

    /// Takes `declared` bytes off the quota for a request that comes at
    /// `now`.
    pub fn reserve_at(self, now: &Timestamp, declared: u64) -> (r: Result<UploadConfig, Error>)
        ensures
            match reserved(self@, is_expired(now@, self.expiry@), declared as int) {
                Ok(config) => r is Ok && r->Ok_0@ == config,
                Err(e) => r == Err::<UploadConfig, Error>(e),
            },
    {
        let expired = now.is_after(&self.expiry);
        self.reserve(expired, declared)
    }

    /// Whether the unused part of a reservation can be given back without
    /// leaving the range of the machine word.
    pub fn refund_fits(&self, reserved: ByteCount, written: ByteCount) -> (r: bool)
        ensures
            r == (self.space_quota@ + unused(reserved@, written@) <= usize::MAX),
    {
        let back = reserved.saturating_sub(written);
        self.space_quota.checked_add(back).is_some()
    }

    /// Gives back the part of a reservation that was not used. Where more
    /// was written than reserved, nothing is given back and nothing more is
    /// taken.
    pub fn refund(self, reserved: ByteCount, written: ByteCount) -> (r: UploadConfig)
        requires
            self.space_quota@ + unused(reserved@, written@) <= usize::MAX,
        ensures
            r@ == refunded(self@, reserved@, written@),
    {
        let mut space_quota = self.space_quota;
        space_quota.add_assign(reserved.saturating_sub(written));
        UploadConfig { name: self.name, expiry: self.expiry, space_quota }
    }
}

/// A share that was stored reads back as it was, its expiry cut to whole
/// seconds and to an offset of whole minutes.
pub proof fn lemma_share_record_reads_back(config: ShareConfigView, record: ShareRecord)
    requires
        config.expiry.valid(),
        is_share_record_of(record, config),
    ensures
        read_share_record(record) == Ok::<ShareConfigView, Error>(
            ShareConfigView { expiry: truncated(config.expiry), ..config },
        ),
{
}

/// An upload that was stored reads back as it was, its expiry cut to whole
/// seconds and to an offset of whole minutes.
pub proof fn lemma_upload_record_reads_back(config: UploadConfigView, record: UploadRecord)
    requires
        config.expiry.valid(),
        is_upload_record_of(record, config),
    ensures
        read_upload_record(record) == Ok::<UploadConfigView, Error>(
            UploadConfigView { expiry: truncated(config.expiry), ..config },
        ),
{
}

/// A reservation followed by its refund costs what was written, and never
/// more than was reserved.
pub proof fn lemma_reserve_then_refund(config: UploadConfigView, declared: int, written: int)
    requires
        0 <= declared <= config.space_quota,
        0 <= written,
    ensures
        reserved(config, false, declared) is Ok,
        refunded(reserved(config, false, declared)->Ok_0, declared, written) == (UploadConfigView {
            space_quota: config.space_quota - if written <= declared {
                written
            } else {
                declared
            },
            ..config
        }),
        0 <= refunded(reserved(config, false, declared)->Ok_0, declared, written).space_quota
            <= config.space_quota,
{
}

/// A refund stays in the range of the machine word whenever the quota that
/// it is added to is no more than what the reservation left of an earlier
/// quota.
pub proof fn lemma_refund_fits(earlier: int, reserved: int, now: int, written: int)
    requires
        0 <= reserved <= earlier <= usize::MAX,
        0 <= now <= earlier - reserved,
        0 <= written,
    ensures
        now + unused(reserved, written) <= usize::MAX,
{
}

/// A refund gives back no more than was reserved, and takes nothing.
pub proof fn lemma_refund_bounds(config: UploadConfigView, reserved: int, written: int)
    requires
        0 <= reserved,
        0 <= written,
    ensures
        config.space_quota <= refunded(config, reserved, written).space_quota <= config.space_quota
            + reserved,
{
}

/// The places on disk of one token.
#[derive(Debug)]
pub struct TokenConfig {
    token_directory: String,
}

/// One step of setting up the places of a new token.
#[derive(Debug)]
pub enum Creation {
    /// Create the directory at this path.
    Directory(String),
    /// Write the config to the file at this path.
    Config(String),
}

/// A step of setting up as plain values.
pub enum CreationView {
    Directory(Seq<char>),
    Config(Seq<char>),
}

impl View for Creation {
    type V = CreationView;

    open spec fn view(&self) -> CreationView {
        match *self {
            Creation::Directory(path) => CreationView::Directory(path@),
            Creation::Config(path) => CreationView::Config(path@),
        }
    }
}

/// The steps that set up the places of a token, given the token's own
/// directory: the directory itself, the files directory in it, and last the
/// config file. A token whose config can be read has its files directory.
pub open spec fn creation_of(token_directory: Seq<char>) -> Seq<CreationView> {
    seq![
        CreationView::Directory(token_directory),
        CreationView::Directory(files_directory_of(token_directory)),
        CreationView::Config(config_file_of(token_directory)),
    ]
}

/// The views of a list of steps.
pub open spec fn creation_views(steps: Seq<Creation>) -> Seq<CreationView> {
    Seq::new(steps.len(), |i: int| steps[i]@)
}

impl View for TokenConfig {
    type V = Seq<char>;

    closed spec fn view(&self) -> Seq<char> {
        self.token_directory@
    }
}

/// The directory of a token's files, given the token's own directory.
pub open spec fn files_directory_of(token_directory: Seq<char>) -> Seq<char> {
    join_paths(token_directory, FILES_DIRECTORY@)
}

/// The file of a token's config, given the token's own directory.
pub open spec fn config_file_of(token_directory: Seq<char>) -> Seq<char> {
    join_paths(token_directory, TOKEN_FILENAME@)
}

impl TokenConfig {
    /// The places of `token` below the directory of its category.
    pub fn new(storage_directory: &str, token: &Token) -> (r: TokenConfig)
        ensures
            r@ == join_paths(storage_directory@, token@),
    {
        TokenConfig { token_directory: join_path(storage_directory, token.as_str()) }
    }

    /// The directory of the token.
    pub fn token_directory(&self) -> (r: &str)
        ensures
            r@ == self@,
    {
        self.token_directory.as_str()
    }

    /// The directory that holds the files of the token.
    pub fn files_directory(&self) -> (r: String)
        ensures
            r@ == files_directory_of(self@),
    {
        join_path(self.token_directory.as_str(), FILES_DIRECTORY)
    }

    /// The file that holds the config of the token.
    pub fn config_file(&self) -> (r: String)
        ensures
            r@ == config_file_of(self@),
    {
        join_path(self.token_directory.as_str(), TOKEN_FILENAME)
    }

    /// What is to be done for a new token, in this order. The steps are
    /// one unit: they are taken under the config lock, and the first that
    /// fails ends them.
    pub fn creation(&self) -> (r: Vec<Creation>)
        ensures
            creation_views(r@) == creation_of(self@),
    {
        let mut steps: Vec<Creation> = Vec::new();
        steps.push(Creation::Directory(self.token_directory.clone()));
        steps.push(Creation::Directory(self.files_directory()));
        steps.push(Creation::Config(self.config_file()));
        steps
    }

    /// The place of one file of the token, for reading.
    pub fn file(&self, name: &Filename) -> (r: String)
        ensures
            r@ == join_paths(files_directory_of(self@), name@),
            location(r@) == location(files_directory_of(self@)).push(name@),
    {
        let files = self.files_directory();
        let name = name.display();
        proof {
            lemma_joined_segment_leads_in(files@, name@);
        }
        join_path(files.as_str(), name)
    }

    /// The place for a file that comes with an upload, under the name that
    /// is kept of the one it came with. The place is the files directory of
    /// the token or lies below it.
    pub fn upload_path(&self, name: &SanitizedPath) -> (r: String)
        ensures
            r@ == join_paths(files_directory_of(self@), joined(name@)),
            location(r@) == location(files_directory_of(self@)) + name@,
    {
        let files = self.files_directory();
        let rel = name.to_string();
        proof {
            lemma_joined_run_leads_down(files@, name@);
        }
        join_path(files.as_str(), rel.as_str())
    }
}

/// A token that is not empty names one entry of a directory.
pub proof fn lemma_token_is_segment(token: Seq<char>)
    requires
        is_token_text(token),
        token.len() > 0,
    ensures
        is_normal_segment(token),
{
    assert(forall|i: int| 0 <= i < token.len() ==> token[i] != '/' && token[i] != '.');
}

/// The directory of a token that is not empty is the entry of that name in
/// the directory of its category, its files directory the entry `files` of
/// that, and its config file the entry `token.toml`.
pub proof fn lemma_token_layout(storage_directory: Seq<char>, token: Seq<char>)
    requires
        is_token_text(token),
        token.len() > 0,
    ensures
        location(join_paths(storage_directory, token)) == location(storage_directory).push(token),
        location(files_directory_of(join_paths(storage_directory, token))) == location(
            storage_directory,
        ).push(token).push(FILES_DIRECTORY@),
        location(config_file_of(join_paths(storage_directory, token))) == location(
            storage_directory,
        ).push(token).push(TOKEN_FILENAME@),
{
    let directory = join_paths(storage_directory, token);
    lemma_token_is_segment(token);
    lemma_joined_segment_leads_in(storage_directory, token);
    reveal_strlit("files");
    reveal_strlit("token.toml");
    lemma_joined_segment_leads_in(directory, FILES_DIRECTORY@);
    lemma_joined_segment_leads_in(directory, TOKEN_FILENAME@);
}

} // verus!
