use vstd::prelude::*;
use vstd::string::StringExecFns;
use crate::error::PipeError;
use crate::name::{sanitize_pipe_name, sanitized};
use crate::text::same_text;

verus! {

/// What the resolver reads of a parsed URL: its host and its path segments
/// (absent for a URL that cannot be a base).
pub struct UrlParts {
    pub host: Option<String>,
    pub segments: Option<Vec<String>>,
}

/// The mathematical content of a [`UrlParts`].
pub struct UrlPartsView {
    pub host: Option<Seq<char>>,
    pub segments: Option<Seq<Seq<char>>>,
}

/// The characters of each string.
pub open spec fn texts(v: Seq<String>) -> Seq<Seq<char>> {
    v.map_values(|x: String| x@)
}

impl View for UrlParts {
    type V = UrlPartsView;

    open spec fn view(&self) -> UrlPartsView {
        UrlPartsView {
            host: match self.host {
                Some(h) => Some(h@),
                None => None,
            },
            segments: match self.segments {
                Some(v) => Some(texts(v@)),
                None => None,
            },
        }
    }
}

/// A folder of a repository on the hosting service, at a given branch.
pub struct FolderRef {
    pub owner: String,
    pub repo: String,
    pub branch: String,
    pub subpath: String,
}

/// The mathematical content of a [`FolderRef`].
pub struct FolderRefView {
    pub owner: Seq<char>,
    pub repo: Seq<char>,
    pub branch: Seq<char>,
    pub subpath: Seq<char>,
}

impl View for FolderRef {
    type V = FolderRefView;

    open spec fn view(&self) -> FolderRefView {
        FolderRefView {
            owner: self.owner@,
            repo: self.repo@,
            branch: self.branch@,
            subpath: self.subpath@,
        }
    }
}

/// Where a pipe is acquired from.
pub enum Source {
    /// A folder of a repository on the hosting service.
    Remote(FolderRef),
    /// A path on the local filesystem.
    Local,
}

/// The parts of `s` when it parses as an absolute URL.
pub uninterp spec fn parsed_url(s: Seq<char>) -> Option<UrlPartsView>;

/// The last component of `s` read as a filesystem path.
pub uninterp spec fn path_file_name(s: Seq<char>) -> Option<Seq<char>>;

/// The pieces of `s` joined with `/`.
pub open spec fn join_slash(s: Seq<Seq<char>>) -> Seq<char>
    decreases s.len(),
{
    if s.len() == 0 {
        Seq::empty()
    } else if s.len() == 1 {
        s[0]
    } else {
        join_slash(s.drop_last()) + seq!['/'] + s.last()
    }
}

/// The host of the supported hosting service.
pub open spec fn service_host() -> Seq<char> {
    "github.com"@
}

/// The folder that a URL's parts name: host `github.com`, at least five path
/// segments, the third of them `tree`; the rest after the branch is the subpath.
pub open spec fn folder_ref_spec(u: UrlPartsView) -> Option<FolderRefView> {
    match u.segments {
        Some(segs) => if u.host == Some(service_host()) && segs.len() >= 5 && segs[2]
            == "tree"@ {
            Some(
                FolderRefView {
                    owner: segs[0],
                    repo: segs[1],
                    branch: segs[3],
                    subpath: join_slash(segs.subrange(4, segs.len() as int)),
                },
            )
        } else {
            None
        },
        None => None,
    }
}

/// The content-listing endpoint of a folder.
pub open spec fn listing_url_spec(f: FolderRefView) -> Seq<char> {
    "https://api.github.com/repos/"@ + f.owner + "/"@ + f.repo + "/contents/"@ + f.subpath
        + "?ref="@ + f.branch
}

/// How a source string is resolved, given what it parses to as a URL:
/// `None` for a local path, the folder for a folder reference.
pub open spec fn resolved(p: Option<UrlPartsView>) -> Result<Option<FolderRefView>, PipeError> {
    match p {
        None => Ok(None),
        Some(u) => if u.host == Some(service_host()) {
            match folder_ref_spec(u) {
                Some(f) => Ok(Some(f)),
                None => Err(PipeError::InvalidUrlFormat),
            }
        } else {
            Err(PipeError::UnsupportedSource)
        },
    }
}

/// The mathematical content of a [`Source`].
pub open spec fn source_view(s: Source) -> Option<FolderRefView> {
    match s {
        Source::Remote(f) => Some(f@),
        Source::Local => None,
    }
}

/// Relies on url::Url::parse for whether `s` is an absolute URL, and on
/// Url::host_str and Url::path_segments for its host and path segments.
#[verifier::external_body]
fn parse_url(s: &str) -> (r: Option<UrlParts>)
    ensures
        match r {
            Some(p) => parsed_url(s@) == Some(p@),
            None => parsed_url(s@) is None,
        },
{
    url::Url::parse(s).ok().map(|u| UrlParts {
        host: u.host_str().map(|h| h.to_string()),
        segments: u.path_segments().map(|p| p.map(|x| x.to_string()).collect()),
    })
}

/// Relies on std::path::Path::file_name: the last component of a path, if any.
#[verifier::external_body]
fn file_name(s: &str) -> (r: Option<String>)
    ensures
        match r {
            Some(n) => path_file_name(s@) == Some(n@),
            None => path_file_name(s@) is None,
        },
{
    std::path::Path::new(s).file_name().and_then(|n| n.to_str()).map(|n| n.to_string())
}

/// Joins `segs[from..]` with `/`.
fn join_from(segs: &Vec<String>, from: usize) -> (r: String)
    requires
        from < segs@.len(),
    ensures
        r@ == join_slash(texts(segs@).subrange(from as int, segs@.len() as int)),
{
    let n = segs.len();
    let mut acc = segs[from].clone();
    let mut k: usize = from + 1;
    proof {
        assert(texts(segs@).subrange(from as int, k as int) =~= seq![segs@[from as int]@]);
    }
    while k < segs.len()
        invariant
            from < k <= segs@.len(),
            acc@ == join_slash(texts(segs@).subrange(from as int, k as int)),
        decreases segs@.len() - k,
    {
        acc.append("/");
        acc.append(segs[k].as_str());
        proof {
            let s = texts(segs@).subrange(from as int, k + 1);
            assert(s.drop_last() =~= texts(segs@).subrange(from as int, k as int));
            reveal_strlit("/");
        }
        k = k + 1;
    }
    acc
}

/// Reads owner, repository, branch and subpath out of a folder-reference URL.
pub fn folder_ref_of(parts: &UrlParts) -> (r: Result<FolderRef, PipeError>)
    ensures
        match folder_ref_spec(parts@) {
            Some(f) => r is Ok && r->Ok_0@ == f,
            None => r == Err::<FolderRef, PipeError>(PipeError::InvalidUrlFormat),
        },
{
    let on_service = match &parts.host {
        Some(h) => same_text(h.as_str(), "github.com"),
        None => false,
    };
    match &parts.segments {
        Some(segs) => {
            if on_service && segs.len() >= 5 && same_text(segs[2].as_str(), "tree") {
                Ok(
                    FolderRef {
                        owner: segs[0].clone(),
                        repo: segs[1].clone(),
                        branch: segs[3].clone(),
                        subpath: join_from(segs, 4),
                    },
                )
            } else {
                Err(PipeError::InvalidUrlFormat)
            }
        },
        None => Err(PipeError::InvalidUrlFormat),
    }
}

/// The content-listing endpoint of a folder on the hosting service.
pub fn listing_url(f: &FolderRef) -> (r: String)
    ensures
        r@ == listing_url_spec(f@),
{
    let mut r = String::from_str("https://api.github.com/repos/");
    r.append(f.owner.as_str());
    r.append("/");
    r.append(f.repo.as_str());
    r.append("/contents/");
    r.append(f.subpath.as_str());
    r.append("?ref=");
    r.append(f.branch.as_str());
    r
}

/// The content-listing endpoint for a folder-reference URL.
pub fn get_raw_github_url(url: &str) -> (r: Result<String, PipeError>)
    ensures
        match parsed_url(url@) {
            Some(u) => match folder_ref_spec(u) {
                Some(f) => r is Ok && r->Ok_0@ == listing_url_spec(f),
                None => r == Err::<String, PipeError>(PipeError::InvalidUrlFormat),
            },
            None => r == Err::<String, PipeError>(PipeError::InvalidUrlFormat),
        },
{
    match parse_url(url) {
        Some(parts) => match folder_ref_of(&parts) {
            Ok(f) => Ok(listing_url(&f)),
            Err(e) => Err(e),
        },
        None => Err(PipeError::InvalidUrlFormat),
    }
}

/// Decides where a source comes from, given what it parses to as a URL: a
/// string that is no URL is a local path; a URL on the hosting service must
/// be a folder reference; any other URL is refused.
pub fn resolve_source(parsed: Option<UrlParts>) -> (r: Result<Source, PipeError>)
    ensures
        match resolved(
            match parsed {
                Some(p) => Some(p@),
                None => None,
            },
        ) {
            Ok(s) => r is Ok && source_view(r->Ok_0) == s,
            Err(e) => r == Err::<Source, PipeError>(e),
        },
{
    match parsed {
        None => Ok(Source::Local),
        Some(parts) => {
            let on_service = match &parts.host {
                Some(h) => same_text(h.as_str(), "github.com"),
                None => false,
            };
            if on_service {
                match folder_ref_of(&parts) {
                    Ok(f) => Ok(Source::Remote(f)),
                    Err(e) => Err(e),
                }
            } else {
                Err(PipeError::UnsupportedSource)
            }
        },
    }
}

/// Decides where the source string `source` comes from.
pub fn classify_source(source: &str) -> (r: Result<Source, PipeError>)
    ensures
        match resolved(parsed_url(source@)) {
            Ok(s) => r is Ok && source_view(r->Ok_0) == s,
            Err(e) => r == Err::<Source, PipeError>(e),
        },
{
    resolve_source(parse_url(source))
}

/// A local source must exist and be a directory.
pub fn check_local_source(exists: bool, is_dir: bool) -> (r: Result<(), PipeError>)
    ensures
        r == (if exists && is_dir {
            Ok::<(), PipeError>(())
        } else {
            Err(PipeError::InvalidSource)
        }),
{
    if exists && is_dir {
        Ok(())
    } else {
        Err(PipeError::InvalidSource)
    }
}

/// The directory name under `pipes/` for a source: its last path component,
/// sanitized.
pub fn pipe_dir_name(source: &str) -> (r: Result<String, PipeError>)
    ensures
        match path_file_name(source@) {
            Some(n) => r is Ok && r->Ok_0@ == sanitized(n),
            None => r == Err::<String, PipeError>(PipeError::InvalidSource),
        },
{
    match file_name(source) {
        Some(n) => Ok(sanitize_pipe_name(n.as_str())),
        None => Err(PipeError::InvalidSource),
    }
}

} // verus!
