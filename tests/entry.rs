use llvmenv::builder::{BuildType, Builder};
use llvmenv::entry::{find_entry, parse_entries, Entry, EntryError, EntrySetting, Tool};
use llvmenv::lifecycle::{Fetch, Protocol};
use llvmenv::paths::{join, Layout};

fn empty_setting() -> EntrySetting {
    EntrySetting {
        url: None,
        path: None,
        tools: Default::default(),
        option: Default::default(),
        builder: Default::default(),
        build_type: Default::default(),
        target: Default::default(),
    }
}

fn url_setting(url: &str) -> EntrySetting {
    let mut s = empty_setting();
    s.url = Some(url.to_string());
    s
}

fn path_setting(path: &str) -> EntrySetting {
    let mut s = empty_setting();
    s.path = Some(path.to_string());
    s
}

fn layout() -> Layout {
    Layout {
        cache_root: "/home/u/.cache/llvmenv".to_string(),
        data_root: "/home/u/.local/share/llvmenv".to_string(),
    }
}

fn tool(name: &str, url: &str, rel: Option<&str>) -> Tool {
    Tool {
        name: name.to_string(),
        url: url.to_string(),
        branch: None,
        relative_path: rel.map(|r| r.to_string()),
    }
}

#[test]
fn test_parse_setting() {
    let setting = EntrySetting {
        url: None,
        path: None,
        tools: Default::default(),
        option: Default::default(),
        builder: Default::default(),
        build_type: Default::default(),
        target: Default::default(),
    };
    assert!(Entry::parse_setting("no_entry", setting).is_err());

    let setting = EntrySetting {
        url: Some("http://llvm.org/svn/llvm-project/llvm/trunk".into()),
        path: Some("~/.config/llvmenv".into()),
        tools: Default::default(),
        option: Default::default(),
        builder: Default::default(),
        build_type: Default::default(),
        target: Default::default(),
    };
    assert!(Entry::parse_setting("duplicated", setting).is_err());
}

#[test]
fn both_sources_conflict() {
    let mut s = url_setting("https://example.test/llvm.git");
    s.path = Some("/src/llvm".to_string());
    let r = Entry::parse_setting("both", s);
    assert!(matches!(r, Err(EntryError::ConflictingSource)));
}

#[test]
fn no_source_is_missing() {
    let r = Entry::parse_setting("none", empty_setting());
    match r {
        Err(EntryError::MissingSource(n)) => assert_eq!(n, "none"),
        other => panic!("unexpected: {:?}", other),
    }
}

#[test]
fn path_gives_local_with_its_path_as_source() {
    let e = Entry::parse_setting("mine", path_setting("/src/llvm-local")).unwrap();
    assert!(matches!(e, Entry::Local { .. }));
    assert_eq!(e.name(), "mine");
    assert_eq!(e.src_dir(&layout()), "/src/llvm-local");
}

#[test]
fn url_gives_remote_under_cache() {
    let l = layout();
    let a = Entry::parse_setting("trunk", url_setting("https://example.test/a.git")).unwrap();
    let b = Entry::parse_setting("trunk", url_setting("svn://other.test/b")).unwrap();
    assert!(matches!(a, Entry::Remote { .. }));
    assert_eq!(a.src_dir(&l), "/home/u/.cache/llvmenv/trunk");
    assert_eq!(b.src_dir(&l), "/home/u/.cache/llvmenv/trunk");
}

#[test]
fn build_dir_and_prefix_for_both_kinds() {
    let l = layout();
    let r = Entry::parse_setting("r", url_setting("https://example.test/r.git")).unwrap();
    let p = Entry::parse_setting("p", path_setting("/work/p/")).unwrap();
    assert_eq!(r.build_dir(&l), "/home/u/.cache/llvmenv/r/build");
    assert_eq!(r.prefix(&l), "/home/u/.local/share/llvmenv/r");
    assert_eq!(p.build_dir(&l), "/work/p/build");
    assert_eq!(p.prefix(&l), "/home/u/.local/share/llvmenv/p");
}

#[test]
fn path_join_rules() {
    assert_eq!(join("a", "b"), "a/b");
    assert_eq!(join("a/", "b"), "a/b");
    assert_eq!(join("", "b"), "b");
    assert_eq!(join("a", "/abs"), "/abs");
}

#[test]
fn targets_joined_in_order() {
    let mut s = url_setting("https://example.test/llvm.git");
    s.target = vec!["x86".to_string(), "arm".to_string()];
    let e = Entry::parse_setting("t", s).unwrap();
    let args = e.configure_args(&layout());
    let flags: Vec<&String> = args.iter().filter(|a| a.starts_with("-DLLVM_TARGETS_TO_BUILD=")).collect();
    assert_eq!(flags.len(), 1);
    assert_eq!(flags[0], "-DLLVM_TARGETS_TO_BUILD=x86;arm");
}

#[test]
fn no_targets_no_flag() {
    let e = Entry::parse_setting("t", url_setting("https://example.test/llvm.git")).unwrap();
    let args = e.configure_args(&layout());
    assert!(!args.iter().any(|a| a.starts_with("-DLLVM_TARGETS_TO_BUILD")));
}

#[test]
fn options_each_once() {
    let mut s = url_setting("https://example.test/llvm.git");
    s.option = vec![("A".to_string(), "1".to_string()), ("B".to_string(), "2".to_string())];
    let e = Entry::parse_setting("o", s).unwrap();
    let args = e.configure_args(&layout());
    assert_eq!(args.iter().filter(|a| *a == "-DA=1").count(), 1);
    assert_eq!(args.iter().filter(|a| *a == "-DB=2").count(), 1);
}

#[test]
fn configure_args_exact() {
    let mut s = path_setting("/src/llvm");
    s.builder = Builder::Ninja;
    s.build_type = BuildType::Debug;
    s.option = vec![("LLVM_ENABLE_ASSERTIONS".to_string(), "ON".to_string())];
    let e = Entry::parse_setting("dev", s).unwrap();
    let args = e.configure_args(&layout());
    assert_eq!(
        args,
        vec![
            "-G",
            "Ninja",
            "-H/src/llvm",
            "-B/src/llvm/build",
            "-DCMAKE_INSTALL_PREFIX=/home/u/.local/share/llvmenv/dev",
            "-DCMAKE_BUILD_TYPE=Debug",
            "-DLLVM_ENABLE_ASSERTIONS=ON",
        ]
    );
}

#[test]
fn default_configure_uses_platform_and_release() {
    let e = Entry::parse_setting("d", url_setting("https://example.test/llvm.git")).unwrap();
    let args = e.configure_args(&layout());
    assert_eq!(args[0], "-H/home/u/.cache/llvmenv/d");
    assert_eq!(args[3], "-DCMAKE_BUILD_TYPE=Release");
    assert_eq!(args.len(), 4);
}

#[test]
fn builder_flags() {
    assert_eq!(Builder::Makefile.build_option(4), vec!["--", "-j", "4"]);
    assert_eq!(Builder::Ninja.build_option(12), vec!["--", "-j", "12"]);
    assert!(Builder::Platform.build_option(4).is_empty());
    assert!(Builder::VisualStudio.build_option(4).is_empty());
    assert!(Builder::Platform.option().is_empty());
    assert_eq!(Builder::Makefile.option(), vec!["-G", "Unix Makefiles"]);
    assert_eq!(Builder::VisualStudio.option(), vec!["-G", "Visual Studio 15 2017"]);
    assert!(matches!(Builder::default(), Builder::Platform));
    assert!(matches!(BuildType::default(), BuildType::Release));
}

#[test]
fn build_args_with_jobs() {
    let mut s = url_setting("https://example.test/llvm.git");
    s.builder = Builder::Makefile;
    let e = Entry::parse_setting("m", s).unwrap();
    assert_eq!(
        e.build_args(&layout(), 4),
        vec!["--build", "/home/u/.cache/llvmenv/m/build", "--target", "install", "--", "-j", "4"]
    );
}

#[test]
fn tool_paths() {
    assert_eq!(tool("clang", "u", None).rel_path(), "tools/clang");
    assert_eq!(tool("rt", "u", Some("projects/compiler-rt")).rel_path(), "projects/compiler-rt");
}

fn remote_with_tools() -> Entry {
    let mut s = url_setting("https://example.test/llvm.git");
    s.tools = vec![
        tool("clang", "https://example.test/clang.git", None),
        tool("rt", "https://example.test/rt.git", Some("projects/compiler-rt")),
    ];
    Entry::parse_setting("full", s).unwrap()
}

#[test]
fn fresh_checkout_fetches_everything() {
    let l = layout();
    let e = remote_with_tools();
    let mut fetched: Vec<Fetch> = Vec::new();
    let mut step = 0;
    while !e.checkout_done(step) {
        if let Some(f) = e.checkout_step(&l, step, false).unwrap() {
            assert_eq!(f.dest, e.checkout_target(&l, step));
            fetched.push(f);
        }
        step += 1;
    }
    assert_eq!(step, 3);
    assert_eq!(fetched[0].url, "https://example.test/llvm.git");
    assert_eq!(fetched[0].dest, "/home/u/.cache/llvmenv/full");
    assert_eq!(fetched[1].dest, "/home/u/.cache/llvmenv/full/tools/clang");
    assert_eq!(fetched[2].url, "https://example.test/rt.git");
    assert_eq!(fetched[2].dest, "/home/u/.cache/llvmenv/full/projects/compiler-rt");
}

#[test]
fn second_checkout_fetches_nothing() {
    let l = layout();
    let e = remote_with_tools();
    let mut step = 0;
    while !e.checkout_done(step) {
        assert!(e.checkout_step(&l, step, true).unwrap().is_none());
        step += 1;
    }
}

#[test]
fn local_checkout() {
    let l = layout();
    let e = Entry::parse_setting("loc", path_setting("/no/such/dir")).unwrap();
    assert!(!e.checkout_done(0));
    assert!(e.checkout_done(1));
    match e.checkout_step(&l, 0, false) {
        Err(EntryError::NotADirectory(p)) => assert_eq!(p, "/no/such/dir"),
        other => panic!("unexpected: {:?}", other),
    }
    assert!(e.checkout_step(&l, 0, true).unwrap().is_none());
}

#[test]
fn local_with_tools_is_flagged() {
    let mut s = path_setting("/src/llvm");
    s.tools = vec![tool("clang", "u", None)];
    let e = Entry::parse_setting("loc", s).unwrap();
    assert!(e.ignores_tools());
    assert!(!remote_with_tools().ignores_tools());
}

#[test]
fn update_targets_remote_and_local() {
    let l = layout();
    let u = remote_with_tools().update_targets(&l);
    assert_eq!(u.len(), 3);
    assert_eq!(u[0].dest, "/home/u/.cache/llvmenv/full");
    assert_eq!(u[1].url, "https://example.test/clang.git");
    assert_eq!(u[2].dest, "/home/u/.cache/llvmenv/full/projects/compiler-rt");
    let loc = Entry::parse_setting("loc", path_setting("/src")).unwrap();
    assert!(loc.update_targets(&l).is_empty());
}

#[test]
fn catalog_scenario_foo() {
    let l = layout();
    let entries = parse_entries(vec![("foo".to_string(), url_setting("https://example.test/foo.git"))]).unwrap();
    let e = find_entry(entries, "foo").unwrap();
    assert!(matches!(e, Entry::Remote { .. }));
    let mut fetched = Vec::new();
    let mut step = 0;
    while !e.checkout_done(step) {
        if let Some(f) = e.checkout_step(&l, step, false).unwrap() {
            fetched.push(f);
        }
        step += 1;
    }
    assert_eq!(fetched.len(), 1);
    assert_eq!(fetched[0].url, "https://example.test/foo.git");
    assert_eq!(fetched[0].dest, "/home/u/.cache/llvmenv/foo");
}

#[test]
fn catalog_fails_fast_and_lookup_misses() {
    let r = parse_entries(vec![
        ("ok".to_string(), url_setting("https://example.test/a.git")),
        ("bad".to_string(), empty_setting()),
        ("worse".to_string(), {
            let mut s = url_setting("u");
            s.path = Some("p".to_string());
            s
        }),
    ]);
    match r {
        Err(EntryError::MissingSource(n)) => assert_eq!(n, "bad"),
        other => panic!("unexpected: {:?}", other.map(|v| v.len())),
    }
    let entries = parse_entries(vec![
        ("a".to_string(), path_setting("/a")),
        ("b".to_string(), path_setting("/b")),
    ])
    .unwrap();
    assert_eq!(entries.len(), 2);
    match find_entry(entries, "c") {
        Err(EntryError::NotFound(n)) => assert_eq!(n, "c"),
        other => panic!("unexpected: {:?}", other),
    }
    assert!(parse_entries(Vec::new()).unwrap().is_empty());
}

#[test]
fn protocol_by_url() {
    let f = |u: &str| Fetch { url: u.to_string(), dest: "/d".to_string() }.protocol();
    assert_eq!(f("https://example.test/llvm.git"), Protocol::Git);
    assert_eq!(f("http://llvm.org/svn/llvm-project/llvm/trunk"), Protocol::Svn);
    assert_eq!(f(".git"), Protocol::Git);
    assert_eq!(f("git"), Protocol::Svn);
}
