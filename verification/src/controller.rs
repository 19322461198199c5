//! The two sides of the service: the administrator, who issues tokens and
//! looks at them, and the holders of tokens, who redeem them.
//!
//! Neither side touches the disk. Each says where things are and what is
//! to be done; the caller reads and writes, under one lock for all configs.

use vstd::prelude::*;
use crate::app_config::AppConfig;
use crate::config::{files_directory_of, is_expired};
use crate::config::{ShareConfig, TokenConfig, UploadConfig, UploadConfigView};
use crate::content_type::{content_type, guessed_content_type};
use crate::error::Error;
use crate::ingest::{Ingest, IngestView, Phase};
use crate::bytes::ByteCount;
use crate::listing::{entry_views, listing_of, share_listings, share_views, sorted_by_name};
use crate::listing::{upload_listings, upload_views};
use crate::listing::{Entry, ShareDirectoryListing, ShareListing, UploadListing};
use crate::path::{join_paths, location, Filename};
use crate::redeem::Redemption;
use crate::timestamp::{stamp_text, Timestamp};
use crate::token::{token_text, Token};

verus! {

/// What the administrator may do.
#[derive(Debug)]
pub struct Admin {
    config: AppConfig,
}

/// What the holder of a token may do.
#[derive(Debug)]
pub struct User {
    config: AppConfig,
}

/// A token that has just been made, with the places to create for it and
/// the config to store there.
#[derive(Debug)]
pub struct Issued<C> {
    pub token: Token,
    pub places: TokenConfig,
    pub config: C,
}

/// A file of a share that is to be served.
#[derive(Debug)]
pub struct SharedFile {
    /// Where the file is.
    pub path: String,
    /// The content type to serve it under.
    pub content_type: String,
}

/// Both sides of the service, for one set of settings.
pub fn new_controller(config: AppConfig) -> (r: (Admin, User))
    ensures
        r.0.settings() == config,
        r.1.settings() == config,
{
    let copy = config.clone();
    (Admin { config }, User { config: copy })
}

impl Admin {
    /// The settings, as a value to speak of.
    pub closed spec fn settings(&self) -> AppConfig {
        self.config
    }

    /// The directory of the shares, as the settings give it.
    pub open spec fn shares(&self) -> Seq<char> {
        join_paths(self.settings().files@, self.settings().shares@)
    }

    /// The directory of the uploads, as the settings give it.
    pub open spec fn uploads(&self) -> Seq<char> {
        join_paths(self.settings().files@, self.settings().uploads@)
    }

    /// The settings.
    pub fn config(&self) -> (r: &AppConfig)
        ensures
            *r == self.settings(),
    {
        &self.config
    }

    /// The places of a share.
    pub fn share_config(&self, token: &Token) -> (r: TokenConfig)
        ensures
            r@ == join_paths(self.shares(), token@),
    {
        let directory = self.config.shares_directory();
        TokenConfig::new(directory.as_str(), token)
    }

    /// The places of an upload.
    pub fn upload_config(&self, token: &Token) -> (r: TokenConfig)
        ensures
            r@ == join_paths(self.uploads(), token@),
    {
        let directory = self.config.uploads_directory();
        TokenConfig::new(directory.as_str(), token)
    }

    /// The list of shares, for the entries that were found in the shares
    /// directory: by name, without the entries whose config could not be
    /// read.
    pub fn current_shares(&self, entries: &Vec<Entry>) -> (r: Vec<ShareListing>)
        ensures
            share_views(r@) == listing_of(entry_views(entries@)),
            sorted_by_name(share_views(r@)),
    {
        share_listings(entries)
    }

    /// The list of uploads, for the entries that were found in the uploads
    /// directory: by name, without the entries whose config could not be
    /// read.
    pub fn current_uploads(&self, entries: &Vec<Entry>) -> (r: Vec<UploadListing>)
        ensures
            upload_views(r@) == listing_of(entry_views(entries@)),
            sorted_by_name(upload_views(r@)),
    {
        upload_listings(entries)
    }

    /// A new share: a fresh token, its places below the shares directory,
    /// and the config as it was given.
    pub fn new_share_token(&self, now: Timestamp, config: ShareConfig) -> (r: Result<
        Issued<ShareConfig>,
        Error,
    >)
        ensures
            now@.year >= 0 ==> r is Ok && r->Ok_0.config == config && r->Ok_0.places@
                == join_paths(self.shares(), r->Ok_0.token@) && exists|high: u64, low: u64|
                r->Ok_0.token@ == #[trigger] token_text(stamp_text(now@), high, low),
            now@.year < 0 ==> r is Err && r->Err_0 == Error::InvalidToken,
    {
        match Token::new(now) {
            Ok(token) => {
                let places = self.share_config(&token);
                Ok(Issued { token, places, config })
            },
            Err(e) => Err(e),
        }
    }

    /// A new upload: a fresh token, its places below the uploads
    /// directory, and the config as it was given, but that a config
    /// without a name is named after the token.
    pub fn new_upload_token(&self, now: Timestamp, config: UploadConfig) -> (r: Result<
        Issued<UploadConfig>,
        Error,
    >)
        ensures
            now@.year >= 0 ==> r is Ok && r->Ok_0.config@ == (UploadConfigView {
                name: if config.name@.len() == 0 {
                    r->Ok_0.token@
                } else {
                    config.name@
                },
                ..config@
            }) && r->Ok_0.places@ == join_paths(self.uploads(), r->Ok_0.token@) && exists|
                high: u64,
                low: u64,
            |
                r->Ok_0.token@ == #[trigger] token_text(stamp_text(now@), high, low),
            now@.year < 0 ==> r is Err && r->Err_0 == Error::InvalidToken,
    {
        match Token::new(now) {
            Ok(token) => {
                let places = self.upload_config(&token);
                let config = config.named_after(&token);
                Ok(Issued { token, places, config })
            },
            Err(e) => Err(e),
        }
    }

    /// Takes files into a share. The share takes them until its expiry;
    /// after it the request is refused and nothing is written. No quota is
    /// kept. What comes back is the ingestion to run.
    pub fn share_files(&self, token: &Token, config: &ShareConfig, now: &Timestamp) -> (r: Result<
        Ingest,
        Error,
    >)
        ensures
            is_expired(now@, config.expiry@) ==> r is Err && r->Err_0 == Error::Expired,
            !is_expired(now@, config.expiry@) ==> r is Ok && r->Ok_0@ == (IngestView {
                token_directory: join_paths(self.shares(), token@),
                total: ByteCount(0),
                phase: Phase::Idle,
            }),
    {
        match config.deposit_at(now) {
            Ok(()) => Ok(Ingest::new(self.share_config(token))),
            Err(e) => Err(e),
        }
    }
}

impl User {
    /// The settings, as a value to speak of.
    pub closed spec fn settings(&self) -> AppConfig {
        self.config
    }

    /// The directory of the shares, as the settings give it.
    pub open spec fn shares(&self) -> Seq<char> {
        join_paths(self.settings().files@, self.settings().shares@)
    }

    /// The directory of the uploads, as the settings give it.
    pub open spec fn uploads(&self) -> Seq<char> {
        join_paths(self.settings().files@, self.settings().uploads@)
    }

    /// The settings.
    pub fn config(&self) -> (r: &AppConfig)
        ensures
            *r == self.settings(),
    {
        &self.config
    }

    /// The places of a share.
    pub fn share_config(&self, token: &Token) -> (r: TokenConfig)
        ensures
            r@ == join_paths(self.shares(), token@),
    {
        let directory = self.config.shares_directory();
        TokenConfig::new(directory.as_str(), token)
    }

    /// The places of an upload.
    pub fn upload_config(&self, token: &Token) -> (r: TokenConfig)
        ensures
            r@ == join_paths(self.uploads(), token@),
    {
        let directory = self.config.uploads_directory();
        TokenConfig::new(directory.as_str(), token)
    }

    /// Starts the redemption of an upload token by a request that declares
    /// `content_length` bytes: the redemption to run, and the ingestion to
    /// run when the redemption asks for the files.
    pub fn upload_files(&self, token: &Token, content_length: u64) -> (r: (Redemption, Ingest))
        ensures
            r.0 == Redemption::new_spec(content_length),
            r.1@ == (IngestView {
                token_directory: join_paths(self.uploads(), token@),
                total: ByteCount(0),
                phase: Phase::Idle,
            }),
    {
        (Redemption::new(content_length), Ingest::new(self.upload_config(token)))
    }

    /// The page of a share, for the config that was read and the files
    /// that were found. A share is shown whether or not it has expired.
    pub fn directory_listing(&self, config: ShareConfig, files: Vec<String>) -> (r:
        ShareDirectoryListing)
        ensures
            r.name_view() == config.name@,
            r.files_view() == files@,
    {
        ShareDirectoryListing::new(config.name, files)
    }

    /// One file of a share: where it is, which is an entry of the files
    /// directory of the share, and the content type that its name suggests.
    pub fn open_shared_file(&self, token: &Token, filename: &Filename) -> (r: SharedFile)
        ensures
            r.path@ == join_paths(files_directory_of(join_paths(self.shares(), token@)), filename@),
            location(r.path@) == location(
                files_directory_of(join_paths(self.shares(), token@)),
            ).push(filename@),
            r.content_type@ == guessed_content_type(filename@),
    {
        let places = self.share_config(token);
        SharedFile { path: places.file(filename), content_type: content_type(filename) }
    }
}

} // verus!
