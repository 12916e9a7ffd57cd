use screenpipe_pipes::entry::{copy_action, find_pipe_file, is_entry_file, is_hidden_file, EntryAction};
use screenpipe_pipes::launch::{
    exit_outcome, pipe_env, runtime_args, spawn_error, stderr_severity, Severity, Step,
    StreamEvent, Supervisor,
};
use screenpipe_pipes::listing::{plan_listing, plan_remote_download, ListingItem};
use screenpipe_pipes::name::sanitize_pipe_name;
use screenpipe_pipes::runtime::{
    relative_dir, runtime_executable_name, runtime_search_order, Platform,
    SearchPlace,
};
use screenpipe_pipes::source::{
    check_local_source, classify_source, folder_ref_of, get_raw_github_url, listing_url,
    pipe_dir_name, resolve_source, Source, UrlParts,
};
use screenpipe_pipes::PipeError;

fn strings(v: &[&str]) -> Vec<String> {
    v.iter().map(|s| s.to_string()).collect()
}

#[test]
fn sanitize_replaces_and_strips_suffix() {
    assert_eq!(sanitize_pipe_name("my pipe!name-ref-main"), "my-pipe-name");
}

#[test]
fn sanitize_keeps_safe_names() {
    assert_eq!(sanitize_pipe_name("pipe_Name-01"), "pipe_Name-01");
    let once = sanitize_pipe_name("a b/c.d");
    assert_eq!(once, "a-b-c-d");
    assert_eq!(sanitize_pipe_name(&once), once);
}

#[test]
fn sanitize_output_is_safe() {
    let r = sanitize_pipe_name("héllo wörld/ß?*");
    assert!(r.chars().all(|c| c.is_ascii_alphanumeric() || c == '_' || c == '-'));
    assert_eq!(r, "h-llo-w-rld----");
}

#[test]
fn sanitize_slash_suffix_becomes_dash() {
    assert_eq!(sanitize_pipe_name("x-ref-main/"), "x-ref-main-");
    assert_eq!(sanitize_pipe_name(""), "");
}

#[test]
fn folder_reference_is_decomposed() {
    let parts = UrlParts {
        host: Some("github.com".to_string()),
        segments: Some(strings(&["owner", "repo", "tree", "main", "sub", "dir"])),
    };
    let f = folder_ref_of(&parts).unwrap();
    assert_eq!(f.owner, "owner");
    assert_eq!(f.repo, "repo");
    assert_eq!(f.branch, "main");
    assert_eq!(f.subpath, "sub/dir");
    assert_eq!(
        listing_url(&f),
        "https://api.github.com/repos/owner/repo/contents/sub/dir?ref=main"
    );
}

#[test]
fn short_folder_reference_is_refused() {
    let parts = UrlParts {
        host: Some("github.com".to_string()),
        segments: Some(strings(&["owner", "repo", "tree"])),
    };
    assert!(matches!(folder_ref_of(&parts), Err(PipeError::InvalidUrlFormat)));
    assert_eq!(
        get_raw_github_url("https://github.com/owner/repo/tree"),
        Err(PipeError::InvalidUrlFormat)
    );
}

#[test]
fn raw_url_from_real_url() {
    assert_eq!(
        get_raw_github_url("https://github.com/owner/repo/tree/main/sub/dir"),
        Ok("https://api.github.com/repos/owner/repo/contents/sub/dir?ref=main".to_string())
    );
    assert_eq!(
        get_raw_github_url("https://github.com/owner/repo/blob/main/sub/dir"),
        Err(PipeError::InvalidUrlFormat)
    );
    assert_eq!(
        get_raw_github_url("https://example.com/owner/repo/tree/main/sub"),
        Err(PipeError::InvalidUrlFormat)
    );
    assert_eq!(get_raw_github_url("not a url"), Err(PipeError::InvalidUrlFormat));
}

#[test]
fn sources_are_classified() {
    match classify_source("https://github.com/o/r/tree/dev/pipes/x").unwrap() {
        Source::Remote(f) => {
            assert_eq!(f.owner, "o");
            assert_eq!(f.branch, "dev");
            assert_eq!(f.subpath, "pipes/x");
        }
        Source::Local => panic!("expected a remote source"),
    }
    assert!(matches!(classify_source("/home/me/pipes/x"), Ok(Source::Local)));
    assert!(matches!(
        classify_source("https://gitlab.com/o/r/tree/main/x"),
        Err(PipeError::UnsupportedSource)
    ));
    assert!(matches!(
        classify_source("https://github.com/o/r"),
        Err(PipeError::InvalidUrlFormat)
    ));
    assert!(matches!(resolve_source(None), Ok(Source::Local)));
}

#[test]
fn local_source_checks() {
    assert_eq!(check_local_source(true, true), Ok(()));
    assert_eq!(check_local_source(false, false), Err(PipeError::InvalidSource));
    assert_eq!(check_local_source(true, false), Err(PipeError::InvalidSource));
}

#[test]
fn pipe_dir_names() {
    assert_eq!(
        pipe_dir_name("https://github.com/o/r/tree/main/pipes/my pipe").unwrap(),
        "my-pipe"
    );
    assert_eq!(pipe_dir_name("/tmp/local.pipe").unwrap(), "local-pipe");
    assert_eq!(pipe_dir_name("/tmp/.."), Err(PipeError::InvalidSource));
}

#[test]
fn directory_copy_skips_hidden() {
    assert_eq!(copy_action(".secret", false), EntryAction::Skip);
    assert_eq!(copy_action("a.txt", false), EntryAction::Copy);
    assert_eq!(copy_action("sub", true), EntryAction::Descend);
    assert_eq!(copy_action(".git", true), EntryAction::Skip);
    assert_eq!(copy_action("Thumbs.db", false), EntryAction::Skip);
    assert!(is_hidden_file(".env"));
    assert!(!is_hidden_file("b.txt"));
    assert!(!is_hidden_file(""));
}

#[test]
fn listing_object_is_refused() {
    let body = br#"{"message": "API rate limit exceeded"}"#;
    assert!(matches!(plan_remote_download(body), Err(PipeError::InvalidApiResponse)));
    assert!(matches!(plan_remote_download(b"not json"), Err(PipeError::InvalidApiResponse)));
}

#[test]
fn listing_skips_hidden_entries() {
    let body = br#"[
        {"name": ".hidden", "download_url": "https://raw.example/.hidden"},
        {"name": "pipe.ts", "download_url": "https://raw.example/pipe.ts"}
    ]"#;
    let files = plan_remote_download(body).unwrap();
    assert_eq!(files.len(), 1);
    assert_eq!(files[0].name, "pipe.ts");
    assert_eq!(files[0].download_url, "https://raw.example/pipe.ts");
}

#[test]
fn listing_shape_errors() {
    let body = br#"[{"download_url": "https://raw.example/x"}]"#;
    assert!(matches!(plan_remote_download(body), Err(PipeError::InvalidApiResponse)));
    let body = br#"[{"name": "sub", "download_url": null}, {"name": "a.js", "download_url": "u"}]"#;
    let files = plan_remote_download(body).unwrap();
    assert_eq!(files.len(), 1);
    assert_eq!(files[0].name, "a.js");
    let items = vec![ListingItem { name: Some("Thumbs.db".to_string()), download_url: Some("u".to_string()) }];
    assert_eq!(plan_listing(&items).unwrap().len(), 0);
}

#[test]
fn entry_file_first_encountered() {
    let names = strings(&["deno.json", "pipe.ts", "pipe.js"]);
    assert_eq!(find_pipe_file(&names), Ok(1));
    let names = strings(&["pipe.js", "pipe.ts"]);
    assert_eq!(find_pipe_file(&names), Ok(0));
    assert!(is_entry_file("pipe.ts"));
    assert!(!is_entry_file("Pipe.ts"));
}

#[test]
fn entry_file_missing() {
    let names = strings(&["readme.md", ".pipe.js", "pipe.jsx"]);
    assert_eq!(find_pipe_file(&names), Err(PipeError::NoEntryFile));
    assert_eq!(find_pipe_file(&Vec::new()), Err(PipeError::NoEntryFile));
}

#[test]
fn environment_is_extended() {
    let inherited = vec![("HOME".to_string(), "/home/me".to_string())];
    let env = pipe_env(inherited, "/ws", "p1", "/ws/pipes/p1/pipe.ts", "/ws/pipes/p1");
    let want: Vec<(String, String)> = vec![
        ("HOME".to_string(), "/home/me".to_string()),
        ("SCREENPIPE_DIR".to_string(), "/ws".to_string()),
        ("PIPE_ID".to_string(), "p1".to_string()),
        ("PIPE_FILE".to_string(), "/ws/pipes/p1/pipe.ts".to_string()),
        ("PIPE_DIR".to_string(), "/ws/pipes/p1".to_string()),
    ];
    assert_eq!(env, want);
}

#[test]
fn runtime_arguments() {
    assert_eq!(
        runtime_args("/p/deno.json", "/p/pipe.ts"),
        strings(&[
            "run",
            "--config",
            "/p/deno.json",
            "--allow-read",
            "--allow-write",
            "--allow-net",
            "--allow-env",
            "--reload",
            "/p/pipe.ts"
        ])
    );
}

#[test]
fn spawn_errors() {
    assert_eq!(spawn_error(true), PipeError::RuntimeNotFound);
    assert_eq!(spawn_error(false), PipeError::SpawnFailed);
}

#[test]
fn stderr_lines_are_classified() {
    assert_eq!(stderr_severity("Download https://deno.land/std/mod.ts"), Severity::Info);
    assert_eq!(stderr_severity("error: Uncaught Error"), Severity::Error);
    assert_eq!(stderr_severity("download lowercase"), Severity::Error);
    assert_eq!(stderr_severity(""), Severity::Error);
}

#[test]
fn exit_codes() {
    assert_eq!(exit_outcome(Some(0)), Ok(()));
    assert_eq!(exit_outcome(Some(2)), Err(PipeError::NonZeroExit(Some(2))));
    assert_eq!(exit_outcome(None), Err(PipeError::NonZeroExit(None)));
}

fn done(step: &Step) -> Option<Result<(), PipeError>> {
    match step {
        Step::Done(r) => Some(*r),
        _ => None,
    }
}

#[test]
fn supervisor_waits_for_drains() {
    let mut s = Supervisor::new();
    match s.step(StreamEvent::StdoutLine("hello".to_string())) {
        Step::Log(Severity::Info, l) => assert_eq!(l, "hello"),
        _ => panic!("expected an info line"),
    }
    assert!(done(&s.step(StreamEvent::Exited(Some(0)))).is_none());
    match s.step(StreamEvent::StderrLine("oops".to_string())) {
        Step::Log(Severity::Error, l) => assert_eq!(l, "oops"),
        _ => panic!("expected an error line"),
    }
    assert!(done(&s.step(StreamEvent::StdoutClosed)).is_none());
    assert_eq!(done(&s.step(StreamEvent::StderrClosed)), Some(Ok(())));
    assert!(done(&s.step(StreamEvent::StderrClosed)).is_none());
}

#[test]
fn supervisor_reports_exit_status() {
    let mut s = Supervisor::new();
    assert!(done(&s.step(StreamEvent::StdoutClosed)).is_none());
    assert!(done(&s.step(StreamEvent::StderrClosed)).is_none());
    assert_eq!(
        done(&s.step(StreamEvent::Exited(Some(2)))),
        Some(Err(PipeError::NonZeroExit(Some(2))))
    );
}

#[test]
fn runtime_search() {
    assert_eq!(
        runtime_search_order(Platform::Linux),
        vec![SearchPlace::SystemPath, SearchPlace::WorkingDir, SearchPlace::ExeDir, SearchPlace::ExeLib]
    );
    assert_eq!(
        runtime_search_order(Platform::MacOs),
        vec![
            SearchPlace::SystemPath,
            SearchPlace::WorkingDir,
            SearchPlace::ExeDir,
            SearchPlace::ExeResources
        ]
    );
    assert_eq!(runtime_search_order(Platform::Windows).len(), 3);
    assert_eq!(runtime_executable_name(Platform::Windows), "deno.exe");
    assert_eq!(runtime_executable_name(Platform::Linux), "deno");
    assert_eq!(relative_dir(SearchPlace::ExeResources).unwrap(), "../Resources");
    assert_eq!(relative_dir(SearchPlace::SystemPath), None);
}
