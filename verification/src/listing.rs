//! The lists that the pages show: the tokens of a category by name, and
//! the files of a share.

use vstd::prelude::*;
use vstd::utf8::encode_utf8;
use crate::token::{is_token_text, Token};

verus! {

/// One share in the list of shares.
#[derive(Debug)]
pub struct ShareListing {
    pub name: String,
    pub token: Token,
}

/// One upload in the list of uploads.
#[derive(Debug)]
pub struct UploadListing {
    pub name: String,
    pub token: Token,
}

/// One entry of the directory of a category, as it was found: the name of
/// the entry, and the name in its config, where the config could be read.
#[derive(Debug)]
pub struct Entry {
    pub directory: String,
    pub name: Option<String>,
}

/// A line of a list as plain values.
pub struct ListingView {
    pub name: Seq<char>,
    pub token: Seq<char>,
}

/// An entry as plain values.
pub struct EntryView {
    pub directory: Seq<char>,
    pub name: Option<Seq<char>>,
}

impl View for ShareListing {
    type V = ListingView;

    open spec fn view(&self) -> ListingView {
        ListingView { name: self.name@, token: self.token@ }
    }
}

impl View for UploadListing {
    type V = ListingView;

    open spec fn view(&self) -> ListingView {
        ListingView { name: self.name@, token: self.token@ }
    }
}

impl View for Entry {
    type V = EntryView;

    open spec fn view(&self) -> EntryView {
        EntryView {
            directory: self.directory@,
            name: match self.name {
                Some(name) => Some(name@),
                None => None,
            },
        }
    }
}

/// The views of a list of entries.
pub open spec fn entry_views(entries: Seq<Entry>) -> Seq<EntryView> {
    Seq::new(entries.len(), |i: int| entries[i]@)
}

/// The views of a list of shares.
pub open spec fn share_views(list: Seq<ShareListing>) -> Seq<ListingView> {
    Seq::new(list.len(), |i: int| list[i]@)
}

/// The views of a list of uploads.
pub open spec fn upload_views(list: Seq<UploadListing>) -> Seq<ListingView> {
    Seq::new(list.len(), |i: int| list[i]@)
}

/// Whether `a` is before `b`, or equal to it, from the place `from` on:
/// the first byte in which they differ decides, and where there is none,
/// the shorter is first.
pub open spec fn bytes_le_from(a: Seq<u8>, b: Seq<u8>, from: int) -> bool
    decreases a.len() - from,
{
    if from >= a.len() {
        true
    } else if from >= b.len() {
        false
    } else if a[from] != b[from] {
        a[from] < b[from]
    } else {
        bytes_le_from(a, b, from + 1)
    }
}

/// The order of names: that of their bytes in UTF-8.
pub open spec fn name_le(a: Seq<char>, b: Seq<char>) -> bool {
    bytes_le_from(encode_utf8(a), encode_utf8(b), 0)
}

/// Each line's name is before those of the lines after it, or equal.
pub open spec fn sorted_by_name(list: Seq<ListingView>) -> bool {
    forall|i: int, j: int| 0 <= i < j < list.len() ==> name_le(list[i].name, list[j].name)
}

/// What an entry gives to the list: a line, where its directory is named
/// like a token and its config could be read.
pub open spec fn listed(entry: EntryView) -> Option<ListingView> {
    if entry.name is Some && is_token_text(entry.directory) {
        Some(ListingView { name: entry.name->Some_0, token: entry.directory })
    } else {
        None
    }
}

/// A line put into a list that is in order: behind every line whose name
/// is before its own or equal to it.
pub open spec fn inserted(list: Seq<ListingView>, line: ListingView) -> Seq<ListingView>
    decreases list.len(),
{
    if list.len() == 0 || name_le(list.last().name, line.name) {
        list.push(line)
    } else {
        inserted(list.drop_last(), line).push(list.last())
    }
}

/// The list for the entries of a directory: one line for each entry that
/// gives one, in the order of the names, and lines of one name in the
/// order in which their entries were found.
pub open spec fn listing_of(entries: Seq<EntryView>) -> Seq<ListingView>
    decreases entries.len(),
{
    if entries.len() == 0 {
        Seq::empty()
    } else {
        let before = listing_of(entries.drop_last());
        match listed(entries.last()) {
            Some(line) => inserted(before, line),
            None => before,
        }
    }
}

/// The lines that the entries give, in the order of the entries.
pub open spec fn lines_of(entries: Seq<EntryView>) -> Seq<ListingView>
    decreases entries.len(),
{
    if entries.len() == 0 {
        Seq::empty()
    } else {
        let before = lines_of(entries.drop_last());
        match listed(entries.last()) {
            Some(line) => before.push(line),
            None => before,
        }
    }
}

/// Of two runs of bytes, one is before the other or equal to it.
pub proof fn lemma_bytes_le_total(a: Seq<u8>, b: Seq<u8>, from: int)
    requires
        0 <= from,
    ensures
        bytes_le_from(a, b, from) || bytes_le_from(b, a, from),
    decreases a.len() - from,
{
    if from < a.len() && from < b.len() && a[from] == b[from] {
        lemma_bytes_le_total(a, b, from + 1);
    }
}

/// What is before something that is before a third is before the third.
pub proof fn lemma_bytes_le_transitive(a: Seq<u8>, b: Seq<u8>, c: Seq<u8>, from: int)
    requires
        0 <= from,
        bytes_le_from(a, b, from),
        bytes_le_from(b, c, from),
    ensures
        bytes_le_from(a, c, from),
    decreases a.len() - from,
{
    if from < a.len() && a[from] == b[from] && b[from] == c[from] {
        lemma_bytes_le_transitive(a, b, c, from + 1);
    }
}

/// Putting a line into a list is putting it at one place of the list: the
/// place behind the last line whose name is before its own or equal to it.
pub proof fn lemma_inserted_at(list: Seq<ListingView>, line: ListingView, at: int)
    requires
        0 <= at <= list.len(),
        at > 0 ==> name_le(list[at - 1].name, line.name),
        forall|k: int| at <= k < list.len() ==> !name_le(#[trigger] list[k].name, line.name),
    ensures
        inserted(list, line) == list.insert(at, line),
    decreases list.len() - at,
{
    if at < list.len() {
        lemma_inserted_at(list.drop_last(), line, at);
    }
}

/// A line put into a list in order leaves the list in order, and the list
/// holds the line and what it held.
pub proof fn lemma_inserted_sorted(list: Seq<ListingView>, line: ListingView)
    requires
        sorted_by_name(list),
    ensures
        sorted_by_name(inserted(list, line)),
        inserted(list, line).to_multiset() == list.to_multiset().insert(line),
        inserted(list, line).len() == list.len() + 1,
    decreases list.len(),
{
    broadcast use vstd::seq_lib::to_multiset_build;

    if list.len() == 0 || name_le(list.last().name, line.name) {
        let after = list.push(line);
        assert forall|i: int, j: int| 0 <= i < j < after.len() implies name_le(
            after[i].name,
            after[j].name,
        ) by {
            if j == list.len() {
                if i < list.len() - 1 {
                    assert(name_le(list[i].name, list[list.len() - 1].name));
                    lemma_bytes_le_transitive(
                        encode_utf8(list[i].name),
                        encode_utf8(list.last().name),
                        encode_utf8(line.name),
                        0,
                    );
                }
            }
        }
    } else {
        let shorter = list.drop_last();
        let last = list.last();
        lemma_inserted_sorted(shorter, line);
        let middle = inserted(shorter, line);
        let after = middle.push(last);
        lemma_bytes_le_total(encode_utf8(last.name), encode_utf8(line.name), 0);
        // Every line of `middle` is `line` or a line of `shorter`.
        assert forall|i: int| 0 <= i < middle.len() implies name_le(
            #[trigger] middle[i].name,
            last.name,
        ) by {
            assert(middle.to_multiset().count(middle[i]) > 0) by {
                middle.to_multiset_ensures();
                assert(middle.contains(middle[i]));
            }
            if middle[i] != line {
                assert(shorter.to_multiset().count(middle[i]) > 0);
                shorter.to_multiset_ensures();
                assert(shorter.contains(middle[i]));
                let k = choose|k: int| 0 <= k < shorter.len() && shorter[k] == middle[i];
                assert(name_le(list[k].name, list[list.len() - 1].name));
            }
        }
        assert(list =~= shorter.push(last));
        assert(after.to_multiset() =~= list.to_multiset().insert(line));
    }
}

/// The list for a directory is in order by name, and holds exactly the
/// lines that the entries give, each as often as it is given.
pub proof fn lemma_listing_sorted(entries: Seq<EntryView>)
    ensures
        sorted_by_name(listing_of(entries)),
        listing_of(entries).to_multiset() == lines_of(entries).to_multiset(),
        listing_of(entries).len() == lines_of(entries).len(),
    decreases entries.len(),
{
    broadcast use vstd::seq_lib::to_multiset_build;

    if entries.len() > 0 {
        lemma_listing_sorted(entries.drop_last());
        if listed(entries.last()) is Some {
            lemma_inserted_sorted(listing_of(entries.drop_last()), listed(entries.last())->Some_0);
        }
    }
}

/// An entry whose config could not be read, or whose directory is not
/// named like a token, changes nothing: the list is that of the other
/// entries.
pub proof fn lemma_unreadable_entry_is_skipped(entries: Seq<EntryView>, at: int)
    requires
        0 <= at < entries.len(),
        listed(entries[at]) is None,
    ensures
        listing_of(entries) == listing_of(entries.remove(at)),
    decreases entries.len(),
{
    if at < entries.len() - 1 {
        lemma_unreadable_entry_is_skipped(entries.drop_last(), at);
        assert(entries.remove(at).drop_last() =~= entries.drop_last().remove(at));
    }
}

/// Whether the name `a` is before the name `b`, or equal to it.
pub fn name_before(a: &str, b: &str) -> (r: bool)
    ensures
        r == name_le(a@, b@),
{
    let x = a.as_bytes();
    let y = b.as_bytes();
    let mut i: usize = 0;
    while i < x.len() && i < y.len() && x[i] == y[i]
        invariant
            i <= x@.len(),
            i <= y@.len(),
            x@ == encode_utf8(a@),
            y@ == encode_utf8(b@),
            bytes_le_from(x@, y@, 0) == bytes_le_from(x@, y@, i as int),
        decreases x@.len() - i,
    {
        i = i + 1;
    }
    if i >= x.len() {
        true
    } else if i >= y.len() {
        false
    } else {
        x[i] < y[i]
    }
}

/// A line of a list, before it is known which list.
struct Line {
    name: String,
    token: Token,
}

impl View for Line {
    type V = ListingView;

    closed spec fn view(&self) -> ListingView {
        ListingView { name: self.name@, token: self.token@ }
    }
}

spec fn line_views(list: Seq<Line>) -> Seq<ListingView> {
    Seq::new(list.len(), |i: int| list[i]@)
}

/// The lines for the entries of a directory, in order.
fn lines(entries: &Vec<Entry>) -> (r: Vec<Line>)
    ensures
        line_views(r@) == listing_of(entry_views(entries@)),
{
    let mut out: Vec<Line> = Vec::new();
    let n = entries.len();
    let mut i: usize = 0;
    while i < n
        invariant
            i <= n,
            n == entries@.len(),
            line_views(out@) == listing_of(entry_views(entries@).take(i as int)),
        decreases n - i,
    {
        let entry = &entries[i];
        proof {
            let upto = entry_views(entries@).take(i + 1);
            assert(upto.drop_last() =~= entry_views(entries@).take(i as int));
        }
        match &entry.name {
            Some(name) => match Token::parse(entry.directory.as_str()) {
                Ok(token) => {
                    let line = Line { name: name.clone(), token };
                    let ghost before = line_views(out@);
                    let mut at: usize = out.len();
                    while at > 0 && !name_before(out[at - 1].name.as_str(), line.name.as_str())
                        invariant
                            at <= out@.len(),
                            forall|k: int|
                                at <= k < out@.len() ==> !name_le(
                                    #[trigger] line_views(out@)[k].name,
                                    line@.name,
                                ),
                        decreases at,
                    {
                        at = at - 1;
                    }
                    proof {
                        lemma_inserted_at(before, line@, at as int);
                    }
                    out.insert(at, line);
                },
                Err(_) => {},
            },
            None => {},
        }
        i = i + 1;
    }
    proof {
        assert(entry_views(entries@).take(n as int) =~= entry_views(entries@));
    }
    out
}

/// The list of shares for the entries of the shares directory. Entries
/// that give no line are passed over.
pub fn share_listings(entries: &Vec<Entry>) -> (r: Vec<ShareListing>)
    ensures
        share_views(r@) == listing_of(entry_views(entries@)),
        sorted_by_name(share_views(r@)),
        share_views(r@).to_multiset() == lines_of(entry_views(entries@)).to_multiset(),
{
    let found = lines(entries);
    let mut out: Vec<ShareListing> = Vec::new();
    let n = found.len();
    let mut i: usize = 0;
    while i < n
        invariant
            i <= n,
            n == found@.len(),
            out@.len() == i,
            forall|k: int| 0 <= k < i ==> (#[trigger] out@[k])@ == line_views(found@)[k],
        decreases n - i,
    {
        let line = &found[i];
        out.push(ShareListing { name: line.name.clone(), token: line.token.clone() });
        i = i + 1;
    }
    proof {
        lemma_listing_sorted(entry_views(entries@));
    }
    out
}

/// The list of uploads for the entries of the uploads directory. Entries
/// that give no line are passed over.
pub fn upload_listings(entries: &Vec<Entry>) -> (r: Vec<UploadListing>)
    ensures
        upload_views(r@) == listing_of(entry_views(entries@)),
        sorted_by_name(upload_views(r@)),
        upload_views(r@).to_multiset() == lines_of(entry_views(entries@)).to_multiset(),
{
    let found = lines(entries);
    let mut out: Vec<UploadListing> = Vec::new();
    let n = found.len();
    let mut i: usize = 0;
    while i < n
        invariant
            i <= n,
            n == found@.len(),
            out@.len() == i,
            forall|k: int| 0 <= k < i ==> (#[trigger] out@[k])@ == line_views(found@)[k],
        decreases n - i,
    {
        let line = &found[i];
        out.push(UploadListing { name: line.name.clone(), token: line.token.clone() });
        i = i + 1;
    }
    proof {
        lemma_listing_sorted(entry_views(entries@));
    }
    out
}

/// The page of one share: its name and the names of its files.
#[derive(Debug)]
pub struct ShareDirectoryListing {
    name: String,
    files: Vec<String>,
}

impl ShareDirectoryListing {
    /// The page of the share called `name`, with these files.
    pub fn new(name: String, files: Vec<String>) -> (r: ShareDirectoryListing)
        ensures
            r.name_view() == name@,
            r.files_view() == files@,
    {
        ShareDirectoryListing { name, files }
    }

    /// The name of the share, as text.
    pub closed spec fn name_view(&self) -> Seq<char> {
        self.name@
    }

    /// The names of the files.
    pub closed spec fn files_view(&self) -> Seq<String> {
        self.files@
    }

    /// The name of the share.
    pub fn name(&self) -> (r: &str)
        ensures
            r@ == self.name_view(),
    {
        self.name.as_str()
    }

    /// The names of the files, in the order in which they were found.
    pub fn files(&self) -> (r: &Vec<String>)
        ensures
            r@ == self.files_view(),
    {
        &self.files
    }
}

} // verus!
