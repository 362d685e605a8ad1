//! Uploaded snapshots: where an incoming file is put, what it is called, and
//! the location under which it is handed to recovery.
//!
//! Receiving an upload has two phases with separate failures. The file is first
//! persisted under the snapshot root, in the directory of its collection, under
//! the caller's file name or a freshly generated one; the persisted path then
//! becomes a `file` URL. Only with that location in hand is the executor asked
//! to recover. Moving the file is the driver's work: it is handed in as a
//! function from the target to the absolute path of the persisted file.

use vstd::prelude::*;
use vstd::string::StringExecFns;
use crate::outcome::{LocalError, LocalErrorView};

verus! {

/// Whether `c` is a digit or one of the letters `a` to `f`.
pub open spec fn is_lower_hex(c: char) -> bool {
    ('0' <= c && c <= '9') || ('a' <= c && c <= 'f')
}

/// Whether `s` is the hyphenated lower-case text of a random (version 4)
/// UUID: 32 hexadecimal digits in groups of 8, 4, 4, 4 and 12, the third group
/// starting with `4` and the fourth with one of `8`, `9`, `a`, `b`.
pub open spec fn is_random_uuid_text(s: Seq<char>) -> bool {
    &&& s.len() == 36
    &&& forall|i: int|
        0 <= i < 36 ==> if i == 8 || i == 13 || i == 18 || i == 23 {
            #[trigger] s[i] == '-'
        } else {
            is_lower_hex(s[i])
        }
    &&& s[14] == '4'
    &&& (s[19] == '8' || s[19] == '9' || s[19] == 'a' || s[19] == 'b')
}

/// `uuid::Uuid::new_v4` followed by `to_string`: draws a random UUID from the
/// operating system's generator and writes it out. Nothing is claimed of which
/// one comes out, only of its shape. The call panics if the operating system
/// cannot supply random bytes.
#[verifier::external_body]
fn random_uuid_text() -> (name: String)
    ensures
        is_random_uuid_text(name@),
{
    uuid::Uuid::new_v4().to_string()
}

/// The text of the `file` URL that `Url::from_file_path` makes of a path, or
/// `None` where it makes none.
pub uninterp spec fn file_url(path: Seq<char>) -> Option<Seq<char>>;

/// `Url::from_file_path`, with the URL given as its text: `None` where the
/// path cannot be made into a `file` URL, which is the case if it is not
/// absolute.
#[verifier::external_body]
fn file_url_of_path(path: &str) -> (url: Option<String>)
    ensures
        text_view(url) == file_url(path@),
{
    match reqwest::Url::from_file_path(path) {
        Ok(url) => Some(String::from(url)),
        Err(_) => None,
    }
}

/// The view of an optional text.
pub open spec fn text_view(text: Option<String>) -> Option<Seq<char>> {
    match text {
        Some(t) => Some(t@),
        None => None,
    }
}

/// The file name under which an upload is persisted: the caller's, if one was
/// supplied, else the generated one.
pub open spec fn chosen_file_name(supplied: Option<Seq<char>>, generated: Seq<char>) -> Seq<char> {
    match supplied {
        Some(name) => name,
        None => generated,
    }
}

/// Picks the caller's file name if there is one, else the generated name.
pub fn file_name_or(supplied: Option<String>, generated: String) -> (name: String)
    ensures
        name@ == chosen_file_name(text_view(supplied), generated@),
{
    match supplied {
        Some(name) => name,
        None => generated,
    }
}

/// The file name for an upload: the caller's if one was supplied, else the
/// text of a fresh random UUID.
pub fn upload_file_name(supplied: Option<String>) -> (name: String)
    ensures
        supplied matches Some(n) ==> name@ == n@,
        supplied is None ==> is_random_uuid_text(name@),
{
    let generated = random_uuid_text();
    file_name_or(supplied, generated)
}

/// Where an uploaded file is to be persisted: `root/collection/file_name`.
#[derive(Clone, Debug, PartialEq, Eq)]
pub struct SnapshotTarget {
    /// The executor's snapshot root.
    pub root: String,
    /// The directory below the root: the collection's name.
    pub collection: String,
    /// The file's name in that directory.
    pub file_name: String,
}

/// Mathematical model of a [`SnapshotTarget`].
pub struct SnapshotTargetView {
    pub root: Seq<char>,
    pub collection: Seq<char>,
    pub file_name: Seq<char>,
}

impl View for SnapshotTarget {
    type V = SnapshotTargetView;

    open spec fn view(&self) -> SnapshotTargetView {
        SnapshotTargetView {
            root: self.root@,
            collection: self.collection@,
            file_name: self.file_name@,
        }
    }
}

/// The target of an upload into `collection_name` under the given file name.
pub fn snapshot_target(snapshots_path: &str, collection_name: &str, file_name: String) -> (target:
    SnapshotTarget)
    ensures
        target@ == (SnapshotTargetView {
            root: snapshots_path@,
            collection: collection_name@,
            file_name: file_name@,
        }),
{
    SnapshotTarget {
        root: snapshots_path.to_owned(),
        collection: collection_name.to_owned(),
        file_name,
    }
}

/// A resolvable reference to a snapshot artifact: the text of a URL.
#[derive(Clone, Debug, PartialEq, Eq)]
pub struct SnapshotLocation {
    pub url: String,
}

impl View for SnapshotLocation {
    type V = Seq<char>;

    open spec fn view(&self) -> Seq<char> {
        self.url@
    }
}

impl SnapshotLocation {
    /// The URL's text.
    pub fn as_str(&self) -> (text: &str)
        ensures
            text@ == self@,
    {
        self.url.as_str()
    }
}

/// The message of the failure to make a URL of `path`.
pub open spec fn conversion_failure(path: Seq<char>) -> Seq<char> {
    "Failed to convert path to URL: "@ + path
}

/// What an attempt to save an upload comes to, given how persisting went
/// (the absolute path, or the file system's error message) and the URL text
/// for each path.
pub open spec fn saved_location(
    persisted: Result<Seq<char>, Seq<char>>,
    url: spec_fn(Seq<char>) -> Option<Seq<char>>,
) -> Result<Seq<char>, LocalErrorView> {
    match persisted {
        Err(message) => Err(LocalErrorView::IOFailure(message)),
        Ok(path) => match url(path) {
            Some(text) => Ok(text),
            None => Err(LocalErrorView::IOFailure(conversion_failure(path))),
        },
    }
}

/// The view of a result of persisting.
pub open spec fn persisted_view(persisted: Result<String, String>) -> Result<
    Seq<char>,
    Seq<char>,
> {
    match persisted {
        Ok(path) => Ok(path@),
        Err(message) => Err(message@),
    }
}

/// The view of a result of saving.
pub open spec fn saved_view(saved: Result<SnapshotLocation, LocalError>) -> Result<
    Seq<char>,
    LocalErrorView,
> {
    match saved {
        Ok(location) => Ok(location@),
        Err(e) => Err(e@),
    }
}

/// The location of a file persisted at `path`, given the URL text made of that
/// path: the URL, or an I/O failure that names the path where there is none.
pub fn location_of(path: &str, url: Option<String>) -> (saved: Result<
    SnapshotLocation,
    LocalError,
>)
    ensures
        saved_view(saved) == saved_location(Ok(path@), |p: Seq<char>| text_view(url)),
{
    match url {
        Some(text) => Ok(SnapshotLocation { url: text }),
        None => {
            let message = "Failed to convert path to URL: ".to_owned().concat(path);
            Err(LocalError::IOFailure(message))
        },
    }
}

/// The location of a file persisted at the absolute path `path`: its `file`
/// URL, or an I/O failure where the path has none.
pub fn snapshot_location(path: &str) -> (saved: Result<SnapshotLocation, LocalError>)
    ensures
        saved_view(saved) == saved_location(Ok(path@), |p: Seq<char>| file_url(p)),
{
    let url = file_url_of_path(path);
    location_of(path, url)
}

/// Saves an uploaded snapshot and says where it can be recovered from.
///
/// The file goes to `snapshots_path/collection_name/` under the caller's file
/// name, or under a fresh random UUID where the caller gave none. `persist`
/// moves the file there and returns the canonical absolute path of the result,
/// or the file system's error message. A failure to persist, or a path of
/// which no URL can be made, is an I/O failure.
pub fn do_save_uploaded_snapshot<F: FnOnce(SnapshotTarget) -> Result<String, String>>(
    snapshots_path: &str,
    collection_name: &str,
    file_name: Option<String>,
    persist: F,
) -> (saved: Result<SnapshotLocation, LocalError>)
    requires
        forall|target: SnapshotTarget| persist.requires((target,)),
    ensures
        exists|target: SnapshotTarget, persisted: Result<String, String>|
            {
                &&& target@.root == snapshots_path@
                &&& target@.collection == collection_name@
                &&& file_name matches Some(n) ==> target@.file_name == n@
                &&& file_name is None ==> is_random_uuid_text(target@.file_name)
                &&& #[trigger] persist.ensures((target,), persisted)
                &&& saved_view(saved) == saved_location(
                    persisted_view(persisted),
                    |p: Seq<char>| file_url(p),
                )
            },
{
    let name = upload_file_name(file_name);
    let target = snapshot_target(snapshots_path, collection_name, name);
    let ghost handed = target;
    let persisted = persist(target);
    let saved = match &persisted {
        Ok(path) => snapshot_location(path.as_str()),
        Err(message) => Err(LocalError::IOFailure(message.clone())),
    };
    assert(persist.ensures((handed,), persisted));
    saved
}

} // verus!
