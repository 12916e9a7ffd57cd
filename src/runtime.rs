use vstd::prelude::*;
use vstd::string::StringExecFns;

verus! {

/// The platform the runtime is looked for on.
#[derive(Debug, Clone, Copy, PartialEq, Eq, Structural)]
pub enum Platform {
    Linux,
    MacOs,
    Windows,
    Other,
}

/// A place where the runtime executable may be found.
#[derive(Debug, Clone, Copy, PartialEq, Eq, Structural)]
pub enum SearchPlace {
    /// A lookup through the process `PATH`.
    SystemPath,
    /// The current working directory.
    WorkingDir,
    /// The directory of the running program's executable.
    ExeDir,
    /// The resources directory beside the executable's directory.
    ExeResources,
    /// The `lib` subdirectory of the executable's directory.
    ExeLib,
}

/// The places to look in, in order, on a platform.
pub open spec fn search_order_spec(p: Platform) -> Seq<SearchPlace> {
    let common = seq![SearchPlace::SystemPath, SearchPlace::WorkingDir, SearchPlace::ExeDir];
    match p {
        Platform::MacOs => common.push(SearchPlace::ExeResources),
        Platform::Linux => common.push(SearchPlace::ExeLib),
        _ => common,
    }
}

/// The runtime executable's file name on a platform.
pub open spec fn executable_name_spec(p: Platform) -> Seq<char> {
    if p == Platform::Windows {
        "deno.exe"@
    } else {
        "deno"@
    }
}

/// The directory, relative to the executable's directory, that a place
/// stands for; none for the places that are not below it.
pub open spec fn relative_dir_spec(place: SearchPlace) -> Option<Seq<char>> {
    match place {
        SearchPlace::ExeDir => Some("."@),
        SearchPlace::ExeResources => Some("../Resources"@),
        SearchPlace::ExeLib => Some("lib"@),
        _ => None,
    }
}

/// The places to look for the runtime in, in the order they are tried.
pub fn runtime_search_order(p: Platform) -> (r: Vec<SearchPlace>)
    ensures
        r@ == search_order_spec(p),
{
    let mut r: Vec<SearchPlace> = Vec::new();
    r.push(SearchPlace::SystemPath);
    r.push(SearchPlace::WorkingDir);
    r.push(SearchPlace::ExeDir);
    match p {
        Platform::MacOs => r.push(SearchPlace::ExeResources),
        Platform::Linux => r.push(SearchPlace::ExeLib),
        _ => {},
    }
    assert(r@ =~= search_order_spec(p));
    r
}

/// The runtime executable's file name.
pub fn runtime_executable_name(p: Platform) -> (r: String)
    ensures
        r@ == executable_name_spec(p),
{
    match p {
        Platform::Windows => String::from_str("deno.exe"),
        _ => String::from_str("deno"),
    }
}

/// The directory below the executable's directory that a place stands for.
pub fn relative_dir(place: SearchPlace) -> (r: Option<String>)
    ensures
        match r {
            Some(d) => relative_dir_spec(place) == Some(d@),
            None => relative_dir_spec(place) is None,
        },
{
    match place {
        SearchPlace::ExeDir => Some(String::from_str(".")),
        SearchPlace::ExeResources => Some(String::from_str("../Resources")),
        SearchPlace::ExeLib => Some(String::from_str("lib")),
        _ => None,
    }
}

} // verus!
