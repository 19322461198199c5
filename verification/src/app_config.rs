//! The settings of the service: where it stores, and under which address
//! the holders of tokens reach it.

use vstd::prelude::*;
use crate::path::{join_path, join_paths};
use crate::text::chars_of;
use crate::token::Token;

verus! {

/// The settings of the service.
#[derive(Debug)]
pub struct AppConfig {
    /// Where to store files.
    pub files: String,
    /// Where to store shares, relative to `files`.
    pub shares: String,
    /// Where to store uploads, relative to `files`.
    pub uploads: String,
    /// Whether the pages for the administrator are switched off.
    pub disable_admin_app: bool,
    /// The port of the pages for the administrator.
    pub admin_port: u16,
    /// Whether links to the pages for holders of tokens use https.
    pub user_https: bool,
    /// The host of the pages for holders of tokens, with its port where
    /// that is not the default.
    pub user_host: String,
    /// The port of the pages for holders of tokens.
    pub user_port: u16,
    /// The root path of the pages for holders of tokens.
    pub user_root: String,
    /// Whether the pages for holders of tokens are served to this machine
    /// only.
    pub user_localhost_only: bool,
}

impl Clone for AppConfig {
    fn clone(&self) -> (r: Self)
        ensures
            r == *self,
    {
        AppConfig {
            files: self.files.clone(),
            shares: self.shares.clone(),
            uploads: self.uploads.clone(),
            disable_admin_app: self.disable_admin_app,
            admin_port: self.admin_port,
            user_https: self.user_https,
            user_host: self.user_host.clone(),
            user_port: self.user_port,
            user_root: self.user_root.clone(),
            user_localhost_only: self.user_localhost_only,
        }
    }
}

/// The text without the separators at its start.
pub open spec fn without_leading_slashes(text: Seq<char>) -> Seq<char>
    decreases text.len(),
{
    if text.len() > 0 && text[0] == '/' {
        without_leading_slashes(text.drop_first())
    } else {
        text
    }
}

/// The text without the separators at its end.
pub open spec fn without_trailing_slashes(text: Seq<char>) -> Seq<char>
    decreases text.len(),
{
    if text.len() > 0 && text.last() == '/' {
        without_trailing_slashes(text.drop_last())
    } else {
        text
    }
}

/// A root path as the service uses it: one separator, and then the given
/// path without the separators at its start and at its end.
pub open spec fn user_root_of(path: Seq<char>) -> Seq<char> {
    seq!['/'] + without_trailing_slashes(without_leading_slashes(path))
}

/// The address of the page of a token: scheme, host, root path, category
/// and token. The root path `/` adds nothing.
pub open spec fn token_url_of(
    https: bool,
    host: Seq<char>,
    root: Seq<char>,
    category: Seq<char>,
    token: Seq<char>,
) -> Seq<char> {
    let scheme = if https {
        "https"@
    } else {
        "http"@
    };
    let path = if root == seq!['/'] {
        Seq::<char>::empty()
    } else {
        root
    };
    scheme + "://"@ + host + path + seq!['/'] + category + seq!['/'] + token
}

proof fn lemma_without_leading(text: Seq<char>, start: int)
    requires
        0 <= start <= text.len(),
        forall|k: int| 0 <= k < start ==> text[k] == '/',
        start < text.len() ==> text[start] != '/',
    ensures
        without_leading_slashes(text) == text.subrange(start, text.len() as int),
    decreases start,
{
    if start > 0 {
        let rest = text.drop_first();
        lemma_without_leading(rest, start - 1);
        assert(rest.subrange(start - 1, rest.len() as int) =~= text.subrange(
            start,
            text.len() as int,
        ));
    }
}

proof fn lemma_without_trailing(text: Seq<char>, end: int)
    requires
        0 <= end <= text.len(),
        forall|k: int| end <= k < text.len() ==> text[k] == '/',
        end > 0 ==> text[end - 1] != '/',
    ensures
        without_trailing_slashes(text) == text.subrange(0, end),
    decreases text.len() - end,
{
    if end < text.len() {
        lemma_without_trailing(text.drop_last(), end);
    }
}

/// Brings a root path into the form that the service uses.
pub fn parse_user_root(path: &str) -> (r: String)
    ensures
        r@ == user_root_of(path@),
{
    let chars = chars_of(path);
    let n = chars.len();
    let mut start: usize = 0;
    while start < n && chars[start] == '/'
        invariant
            start <= n,
            n == chars@.len(),
            forall|k: int| 0 <= k < start ==> chars@[k] == '/',
        decreases n - start,
    {
        start = start + 1;
    }
    let mut end: usize = n;
    while end > start && chars[end - 1] == '/'
        invariant
            start <= end <= n,
            n == chars@.len(),
            forall|k: int| end <= k < n ==> chars@[k] == '/',
        decreases end,
    {
        end = end - 1;
    }
    proof {
        let rest = path@.subrange(start as int, n as int);
        lemma_without_leading(path@, start as int);
        lemma_without_trailing(rest, end - start);
        reveal_strlit("/");
    }
    let mut out = String::new();
    out.append("/");
    out.append(path.substring_char(start, end));
    out
}

impl AppConfig {
    /// The directory of the shares.
    pub fn shares_directory(&self) -> (r: String)
        ensures
            r@ == join_paths(self.files@, self.shares@),
    {
        join_path(self.files.as_str(), self.shares.as_str())
    }

    /// The directory of the uploads.
    pub fn uploads_directory(&self) -> (r: String)
        ensures
            r@ == join_paths(self.files@, self.uploads@),
    {
        join_path(self.files.as_str(), self.uploads.as_str())
    }

    /// The address under which the holder of `token` reaches its page.
    pub fn token_url(&self, category: &str, token: &Token) -> (r: String)
        ensures
            r@ == token_url_of(self.user_https, self.user_host@, self.user_root@, category@, token@),
    {
        proof {
            reveal_strlit("/");
        }
        let mut out = String::new();
        if self.user_https {
            out.append("https");
        } else {
            out.append("http");
        }
        out.append("://");
        out.append(self.user_host.as_str());
        let root = self.user_root.as_str();
        let bare = root.unicode_len() == 1 && root.get_char(0) == '/';
        if !bare {
            out.append(root);
        }
        out.append("/");
        out.append(category);
        out.append("/");
        out.append(token.as_str());
        proof {
            assert(bare == (self.user_root@ =~= seq!['/']));
            assert(out@ =~= token_url_of(
                self.user_https,
                self.user_host@,
                self.user_root@,
                category@,
                token@,
            ));
        }
        out
    }
}

} // verus!
