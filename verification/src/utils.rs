use crate::error::{ErrorModel, PluginError};
use crate::hqnow::{is_success, is_success_status, status_line, status_text};
use crate::json::{copy_items, models, JsonValue};
use crate::text::{join, texts};
use vstd::prelude::*;

verus! {

/// What `Path::join` makes of a path and a further path, both as text, by
/// the rules of the platform the library is built for.
pub uninterp spec fn joined_path(base: Seq<char>, part: Seq<char>) -> Seq<char>;

/// What `Path::parent` gives for a path, as text.
pub uninterp spec fn parent_path(path: Seq<char>) -> Option<Seq<char>>;

/// What `Url::parse` and `Url::path_segments` find in an address: the
/// segments of its path in order, none where the address has no such path,
/// or the message of the error where the text is no address.
pub uninterp spec fn address_segments(address: Seq<char>) -> Result<
    Option<Seq<Seq<char>>>,
    Seq<char>,
>;

/// Calls `Path::join` on two texts and gives the result back as text. The
/// contract only names the result.
#[verifier::external_body]
pub(crate) fn path_join(base: &str, part: &str) -> (r: String)
    ensures
        r@ == joined_path(base@, part@),
{
    std::path::Path::new(base).join(part).to_string_lossy().into_owned()
}

/// Calls `Path::parent` on a text and gives the result back as text. The
/// contract only names the result.
#[verifier::external_body]
pub(crate) fn path_parent(path: &str) -> (r: Option<String>)
    ensures
        match r {
            Some(parent) => parent_path(path@) == Some(parent@),
            None => parent_path(path@) is None,
        },
{
    std::path::Path::new(path).parent().map(|p| p.to_string_lossy().into_owned())
}

/// Calls `Url::parse` of the `url` crate and hands out the `path_segments`
/// of what it reads, each as a text of its own; the error's `Display` gives
/// the message. The contract only names the outcome.
#[verifier::external_body]
fn path_segments_of(address: &str) -> (r: Result<Option<Vec<String>>, String>)
    ensures
        match r {
            Ok(Some(parts)) => address_segments(address@) == Ok::<
                Option<Seq<Seq<char>>>,
                Seq<char>,
            >(Some(texts(parts@))),
            Ok(None) => address_segments(address@) == Ok::<Option<Seq<Seq<char>>>, Seq<char>>(
                None,
            ),
            Err(e) => address_segments(address@) == Err::<Option<Seq<Seq<char>>>, Seq<char>>(e@),
        },
{
    match url::Url::parse(address) {
        Ok(u) => Ok(u.path_segments().map(|parts| parts.map(|p| p.to_owned()).collect())),
        Err(e) => Err(e.to_string()),
    }
}

/// The file name that the segments of a path give: the last of them, and
/// none where there is no segment.
pub open spec fn file_name_of(segments: Seq<Seq<char>>) -> Option<Seq<char>> {
    if segments.len() > 0 {
        Some(segments.last())
    } else {
        None
    }
}

/// The path that `parts` make when each is joined to those before it.
pub open spec fn joined_all(parts: Seq<Seq<char>>) -> Seq<char>
    decreases parts.len(),
{
    if parts.len() == 0 {
        Seq::empty()
    } else {
        joined_path(joined_all(parts.drop_last()), parts.last())
    }
}

/// Where a download is stored below `dest_dir`, given the segments of the
/// path of its address: under the last segment. Without a segment there is
/// no file name to store it under.
pub open spec fn target_of(segments: Option<Seq<Seq<char>>>, dest_dir: Seq<char>) -> Result<
    Seq<char>,
    ErrorModel,
> {
    match segments {
        Some(parts) => match file_name_of(parts) {
            Some(name) => Ok(joined_path(dest_dir, name)),
            None => Err(ErrorModel::Parse("Could not extract filename from URL"@)),
        },
        None => Err(ErrorModel::Parse("Could not extract filename from URL"@)),
    }
}

/// Where a download from `address` is stored below `dest_dir`, or why it
/// cannot be stored: the text is no address, or the address has no path
/// to take a file name from.
pub open spec fn download_path(address: Seq<char>, dest_dir: Seq<char>) -> Result<
    Seq<char>,
    ErrorModel,
> {
    match address_segments(address) {
        Ok(segments) => target_of(segments, dest_dir),
        Err(e) => Err(ErrorModel::Parse(e)),
    }
}

/// Helpers for paths and files.
pub struct FileUtils;

impl FileUtils {
    /// The path that `components` make when each is joined to those before
    /// it.
    pub fn join_path(components: &[String]) -> (r: String)
        ensures
            r@ == joined_all(texts(components@)),
    {
        let mut path = String::new();
        let mut i: usize = 0;
        assert(texts(components@).take(0) =~= Seq::<Seq<char>>::empty());
        while i < components.len()
            invariant
                i <= components.len(),
                path@ == joined_all(texts(components@).take(i as int)),
            decreases components.len() - i,
        {
            proof {
                let next = texts(components@).take(i + 1);
                assert(next.drop_last() =~= texts(components@).take(i as int));
                assert(next.last() == components@[i as int]@);
            }
            path = path_join(path.as_str(), components[i].as_str());
            i += 1;
        }
        assert(texts(components@).take(components.len() as int) =~= texts(components@));
        path
    }

    /// The directory that holds `path`, if it has one.
    pub fn get_parent_dir(path: &str) -> (r: Option<String>)
        ensures
            match r {
                Some(parent) => parent_path(path@) == Some(parent@),
                None => parent_path(path@) is None,
            },
    {
        path_parent(path)
    }

    /// Checks the status of the answer to a download.
    pub fn check_download(status: u16) -> (r: Result<(), PluginError>)
        ensures
            match r {
                Ok(_) => status_failure("Failed to download file: HTTP "@, status) is None,
                Err(e) => status_failure("Failed to download file: HTTP "@, status) == Some(e@),
            },
    {
        check_status("Failed to download file: HTTP ", status)
    }

    /// The file name that the segments of a path give: the last of them.
    pub fn file_name(segments: &Vec<String>) -> (r: Option<&str>)
        ensures
            match r {
                Some(name) => file_name_of(texts(segments@)) == Some(name@),
                None => file_name_of(texts(segments@)) is None,
            },
    {
        if segments.len() > 0 {
            Some(segments[segments.len() - 1].as_str())
        } else {
            None
        }
    }

    /// Where a download is stored below `dest_dir`, given the segments of
    /// the path of its address, if it has such a path: under the last
    /// segment.
    pub fn target(segments: &Option<Vec<String>>, dest_dir: &str) -> (r: Result<
        String,
        PluginError,
    >)
        ensures
            match r {
                Ok(path) => target_of(
                    match segments {
                        Some(parts) => Some(texts(parts@)),
                        None => None,
                    },
                    dest_dir@,
                ) == Ok::<Seq<char>, ErrorModel>(path@),
                Err(e) => target_of(
                    match segments {
                        Some(parts) => Some(texts(parts@)),
                        None => None,
                    },
                    dest_dir@,
                ) == Err::<Seq<char>, ErrorModel>(e@),
            },
    {
        let name = match segments {
            Some(parts) => FileUtils::file_name(parts),
            None => None,
        };
        match name {
            Some(name) => Ok(path_join(dest_dir, name)),
            None => Err(PluginError::Parse("Could not extract filename from URL".to_owned())),
        }
    }

    /// Where a download from `address` is stored below `dest_dir`: under the
    /// last segment of the path of the address. An address without such a
    /// segment, or a text that is no address, is an error.
    pub fn download_target(address: &str, dest_dir: &str) -> (r: Result<String, PluginError>)
        ensures
            match r {
                Ok(path) => download_path(address@, dest_dir@) == Ok::<Seq<char>, ErrorModel>(path@),
                Err(e) => download_path(address@, dest_dir@) == Err::<Seq<char>, ErrorModel>(e@),
            },
    {
        match path_segments_of(address) {
            Ok(segments) => FileUtils::target(&segments, dest_dir),
            Err(e) => Err(PluginError::Parse(e)),
        }
    }
}

/// The address of `endpoint` below `base`.
pub open spec fn endpoint_address(base: Seq<char>, endpoint: Seq<char>) -> Seq<char> {
    base + "/"@ + endpoint
}

/// The address that tells of the latest release of the repository `repo`.
pub open spec fn latest_release_address(base: Seq<char>, repo: Seq<char>) -> Seq<char> {
    base + "/repos/"@ + repo + "/releases/latest"@
}

/// What a request that was answered with `status` amounts to: nothing to
/// report for a status that tells of success, else a failure of the
/// network that names the status behind `label`.
pub open spec fn status_failure(label: Seq<char>, status: u16) -> Option<ErrorModel> {
    if is_success(status) {
        None
    } else {
        Some(ErrorModel::Network(label + status_line(status)))
    }
}

/// Checks the status of an answer: an error that names the status behind
/// `label`, unless the status tells of success.
pub fn check_status(label: &str, status: u16) -> (r: Result<(), PluginError>)
    ensures
        match r {
            Ok(_) => status_failure(label@, status) is None,
            Err(e) => status_failure(label@, status) == Some(e@),
        },
{
    if is_success_status(status) {
        Ok(())
    } else {
        let line = status_text(status);
        Err(PluginError::Network(join(label, line.as_str())))
    }
}

/// The addresses of the interface of the code hosting service.
pub struct GitHubApi {
    base_url: String,
}

impl GitHubApi {
    /// The address below which the interface lies.
    pub closed spec fn base(&self) -> Seq<char> {
        self.base_url@
    }

    pub fn new() -> (r: Self)
        ensures
            r.base() == "https://api.github.com"@,
    {
        GitHubApi { base_url: "https://api.github.com".to_owned() }
    }

    /// The address that tells of the latest release of `repo`.
    pub fn latest_release_address(&self, repo: &str) -> (r: String)
        ensures
            r@ == latest_release_address(self.base(), repo@),
    {
        join(
            join(join(self.base_url.as_str(), "/repos/").as_str(), repo).as_str(),
            "/releases/latest",
        )
    }

    /// The address of `endpoint`.
    pub fn address(&self, endpoint: &str) -> (r: String)
        ensures
            r@ == endpoint_address(self.base(), endpoint@),
    {
        join(join(self.base_url.as_str(), "/").as_str(), endpoint)
    }

    /// Checks the status of an answer of this interface.
    pub fn check(status: u16) -> (r: Result<(), PluginError>)
        ensures
            match r {
                Ok(_) => status_failure("GitHub API request failed: HTTP "@, status) is None,
                Err(e) => status_failure("GitHub API request failed: HTTP "@, status) == Some(e@),
            },
    {
        check_status("GitHub API request failed: HTTP ", status)
    }
}

/// The addresses of the interface of the plugin catalogue.
pub struct ComicUniverseApi {
    base_url: String,
}

impl ComicUniverseApi {
    /// The address below which the interface lies.
    pub closed spec fn base(&self) -> Seq<char> {
        self.base_url@
    }

    pub fn new() -> (r: Self)
        ensures
            r.base() == "https://api.comic-universe.app"@,
    {
        ComicUniverseApi { base_url: "https://api.comic-universe.app".to_owned() }
    }

    /// The address of `endpoint`.
    pub fn address(&self, endpoint: &str) -> (r: String)
        ensures
            r@ == endpoint_address(self.base(), endpoint@),
    {
        join(join(self.base_url.as_str(), "/").as_str(), endpoint)
    }

    /// Checks the status of an answer of this interface.
    pub fn check(status: u16) -> (r: Result<(), PluginError>)
        ensures
            match r {
                Ok(_) => status_failure("Comic Universe API request failed: HTTP "@, status)
                    is None,
                Err(e) => status_failure("Comic Universe API request failed: HTTP "@, status)
                    == Some(e@),
            },
    {
        check_status("Comic Universe API request failed: HTTP ", status)
    }

    /// The plugins that the catalogue lists: the elements of the answer,
    /// which has to be an array.
    pub fn plugin_list(response: &JsonValue) -> (r: Result<Vec<JsonValue>, PluginError>)
        ensures
            match r {
                Ok(items) => response@.items() == Some(models(items@)),
                Err(e) => response@.items() is None && e@ == ErrorModel::Parse(
                    "Invalid response format from plugins API"@,
                ),
            },
    {
        match response.as_array() {
            Some(items) => Ok(copy_items(items)),
            None => Err(PluginError::Parse("Invalid response format from plugins API".to_owned())),
        }
    }
}

} // verus!
