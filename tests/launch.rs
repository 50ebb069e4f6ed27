use copper_lib::asset_index::{doublehash, AssetIndex, Entry};
use copper_lib::config::Config;
use copper_lib::directories::Paths;
use copper_lib::freshness::{document_source, is_fresh, DocumentSource, InvalidTimestamp};
use copper_lib::instance::{generate_classpath, Instance};
use copper_lib::profile::{
    Argument, Arguments, Classifiers, Download, Downloads, JavaVersion, Library, LibraryDownloads,
    NewArguments, Profile, Rule, RuleAction, RuleItem, RuleItemFeatures, RuleItemOs, RuleValue,
};
use copper_lib::rules::{Arch, Host, HostOs};
use copper_lib::sync::{
    asset_jobs, join_outcomes, library_jobs, native_download, needs_download, should_extract,
};
use copper_lib::version_manifest::{self, LatestVersions, VersionManifest};

fn linux() -> Host {
    Host { os: HostOs::Linux, arch: Arch::X64 }
}

fn download(url: &str, sha1: &str, path: Option<&str>) -> Download {
    Download {
        id: None,
        path: path.map(|p| p.to_string()),
        sha1: sha1.to_string(),
        size: 1,
        total_size: None,
        url: url.to_string(),
    }
}

fn paths() -> Paths {
    Paths::under("copper".to_string(), &"/c".to_string(), &"/f".to_string())
}

fn profile(arguments: Arguments, libraries: Vec<Library>) -> Profile {
    Profile {
        arguments,
        asset_index: Download { id: Some("1.19".to_string()), ..download("http://x/index", "ih", None) },
        assets: "1.19".to_string(),
        compliance_level: 0,
        downloads: Downloads {
            client: download("http://x/client.jar", "ch", None),
            client_mappings: None,
            server: None,
            server_mappings: None,
        },
        id: "1.19.2".to_string(),
        java_version: JavaVersion::default(),
        libraries,
        logging: None,
        main_class: "net.minecraft.client.main.Main".to_string(),
        minimum_launcher_version: 21,
        release_time: "2022-08-05T11:57:05+00:00".to_string(),
        time: "2022-08-05T11:57:05+00:00".to_string(),
        version_type: "release".to_string(),
    }
}

fn windows_only_library() -> Library {
    Library {
        downloads: LibraryDownloads {
            artifact: Some(download("http://x/win.jar", "wh", Some("org/win.jar"))),
            classifiers: None,
        },
        name: "org:win:1".to_string(),
        rules: Some(vec![RuleItem {
            action: RuleAction::Allow,
            features: None,
            os: Some(RuleItemOs { arch: None, name: Some("windows".to_string()), version: None }),
        }]),
    }
}

fn plain_library() -> Library {
    Library {
        downloads: LibraryDownloads {
            artifact: Some(download("http://x/a.jar", "ah", Some("org/a.jar"))),
            classifiers: Some(Classifiers {
                natives_linux: Some(download("http://x/a-linux.jar", "lh", Some("org/a-linux.jar"))),
                natives_macos: None,
                natives_windows: Some(download("http://x/a-win.jar", "nh", Some("org/a-win.jar"))),
                sources: None,
            }),
        },
        name: "org:a:1".to_string(),
        rules: None,
    }
}

fn empty_index() -> AssetIndex {
    AssetIndex { objects: vec![] }
}

#[test]
fn java_version_default() {
    let j = JavaVersion::default();
    assert_eq!(j.component, "java-runtime-beta");
    assert_eq!(j.major_version, 17);
}

#[test]
fn config_new_has_no_mods() {
    let c = Config::new("1.19.2".to_string(), "main".to_string());
    assert_eq!(c.id, "1.19.2");
    assert_eq!(c.name, "main");
    assert!(c.mods.is_empty());
}

#[test]
fn paths_layout() {
    let p = paths();
    assert_eq!(p.cache, "/c/copper");
    assert_eq!(p.config, "/f/copper");
    assert_eq!(p.instances, "/f/copper/instances");
    assert_eq!(p.assets, "/c/copper/assets");
    assert_eq!(p.asset_indexes, "/c/copper/assets/indexes");
    assert_eq!(p.natives, "/c/copper/natives");
    assert_eq!(p.libraries, "/c/copper/libraries");
    assert_eq!(p.versions, "/c/copper/versions");
}

#[test]
fn freshness_boundary() {
    assert!(is_fresh(1001, 1000));
    assert!(!is_fresh(1000, 1000));
    assert!(!is_fresh(999, 1000));
    assert!(is_fresh(0, -5));
}

#[test]
fn document_source_by_timestamp() {
    let t = "2021-01-01T00:00:00+00:00";
    assert_eq!(document_source(None, t), Ok(DocumentSource::Network));
    assert_eq!(document_source(Some(1609459200001), t), Ok(DocumentSource::Cache));
    assert_eq!(document_source(Some(1609459200000), t), Ok(DocumentSource::Network));
    assert_eq!(document_source(Some(5), "yesterday"), Err(InvalidTimestamp));
    assert_eq!(document_source(Some(1609459200001), "2021-01-01T01:00:00+01:00"), Ok(DocumentSource::Cache));
}

#[test]
fn classpath_of_active_libraries() {
    let p = profile(Arguments::OldArguments(String::new()), vec![plain_library(), windows_only_library()]);
    let cp = generate_classpath(&p, &paths(), &"/v/client.jar".to_string(), &linux());
    assert_eq!(cp, "/c/copper/libraries/org/a.jar:/v/client.jar");
}

#[test]
fn inactive_library_is_neither_on_classpath_nor_downloaded() {
    let p = profile(Arguments::OldArguments(String::new()), vec![windows_only_library()]);
    let inst = Instance::new(&"main".to_string(), &paths(), p, empty_index(), linux());
    assert_eq!(inst.classpath, "/c/copper/versions/1.19.2/client.jar");
    let jobs = library_jobs(&inst.profile.libraries, &inst.dir.libraries, &inst.host);
    assert!(jobs.is_empty());
    let all = inst.required_jobs().unwrap();
    assert_eq!(all.len(), 1);
    assert_eq!(all[0].url, "http://x/client.jar");
}

#[test]
fn library_jobs_pick_host_natives() {
    let libs = vec![plain_library()];
    let jobs = library_jobs(&libs, &"/l".to_string(), &linux());
    assert_eq!(jobs.len(), 2);
    assert_eq!(jobs[0].path, "/l/org/a.jar");
    assert!(!jobs[0].natives);
    assert_eq!(jobs[1].url, "http://x/a-linux.jar");
    assert_eq!(jobs[1].path, "/l/org/a-linux.jar");
    assert!(jobs[1].natives);
    let mac = Host { os: HostOs::Osx, arch: Arch::X64 };
    assert_eq!(library_jobs(&libs, &"/l".to_string(), &mac).len(), 1);
    let c = plain_library().downloads.classifiers.unwrap();
    assert_eq!(native_download(&c, HostOs::Windows).unwrap().sha1, "nh");
    assert!(native_download(&c, HostOs::Osx).is_none());
}

#[test]
fn instance_paths() {
    let p = profile(Arguments::OldArguments(String::new()), vec![]);
    let inst = Instance::new(&"main".to_string(), &paths(), p, empty_index(), linux());
    assert_eq!(inst.path, "/f/copper/instances/main");
    assert_eq!(inst.jar_path, "/c/copper/versions/1.19.2/client.jar");
    assert_eq!(inst.natives_dir, "/c/copper/versions/1.19.2/natives");
    assert_eq!(inst.assets_dir, "/c/copper/assets");
    let job = inst.client_job();
    assert_eq!(job.sha1, "ch");
    assert_eq!(job.path, "/c/copper/versions/1.19.2/client.jar");
    let idx = inst.asset_index_job().unwrap();
    assert_eq!(idx.path, "/c/copper/assets/indexes/1.19.json");
}

#[test]
fn legacy_arguments_are_split_and_expanded() {
    let p = profile(
        Arguments::OldArguments("--version ${version_name} --assetsDir ${assets_root} --x".to_string()),
        vec![],
    );
    let inst = Instance::new(&"main".to_string(), &paths(), p, empty_index(), linux());
    let game = inst.parse_game_arguments(false, false);
    assert_eq!(game, vec!["--version", "1.19.2", "--assetsDir", "/c/copper/assets", "--x"]);
    let jvm = inst.parse_jvm_arguments();
    assert_eq!(
        jvm,
        vec!["-Djava.library.path=/c/copper/versions/1.19.2/natives", "net.minecraft.client.main.Main"]
    );
    let all = inst.parse_arguments(false, false);
    assert_eq!(all.len(), 9);
    assert_eq!(all[1], "-cp");
    assert_eq!(all[2], "/c/copper/versions/1.19.2/client.jar");
    assert_eq!(all[3], "net.minecraft.client.main.Main");
    assert_eq!(all[4], "--version");
}

#[test]
fn structured_arguments_follow_rules() {
    let demo_rule = Rule {
        rules: vec![RuleItem {
            action: RuleAction::Allow,
            features: Some(RuleItemFeatures { is_demo_user: Some(true), has_custom_resolution: None }),
            os: None,
        }],
        value: RuleValue::String("--demo".to_string()),
    };
    let linux_rule = Rule {
        rules: vec![RuleItem {
            action: RuleAction::Allow,
            features: None,
            os: Some(RuleItemOs { arch: None, name: Some("linux".to_string()), version: None }),
        }],
        value: RuleValue::Vec(vec!["-Xss1M".to_string(), "-Dname=${launcher_name}".to_string()]),
    };
    let args = Arguments::NewArguments(NewArguments {
        game: vec![
            Argument::String("--username".to_string()),
            Argument::String("${version_type}".to_string()),
            Argument::Rule(demo_rule),
        ],
        jvm: vec![Argument::Rule(linux_rule), Argument::String("-cp".to_string()), Argument::String("${classpath}".to_string())],
    });
    let inst = Instance::new(&"main".to_string(), &paths(), profile(args, vec![]), empty_index(), linux());
    assert_eq!(inst.parse_game_arguments(false, false), vec!["--username", "release"]);
    assert_eq!(inst.parse_game_arguments(true, false), vec!["--username", "release", "--demo"]);
    let all = inst.parse_arguments(false, false);
    assert_eq!(
        all,
        vec![
            "-Xss1M",
            "-Dname=Copper Launcher",
            "-cp",
            "/c/copper/versions/1.19.2/client.jar",
            "net.minecraft.client.main.Main",
            "--username",
            "release",
        ]
    );
    let mut extra = vec!["a".to_string()];
    inst.parse_argument(&mut extra, "${launcher_version}-${assets_index_name}-${game_directory}");
    assert_eq!(extra, vec!["a", "v0.1.0-1.19-/f/copper/instances/main"]);
    inst.add_other_jvm_arguments(&mut extra);
    assert_eq!(extra[2], "net.minecraft.client.main.Main");
    let mut more: Vec<String> = Vec::new();
    inst.parse_arguments_vec(&mut more, &vec![Argument::String("${natives_directory}".to_string())], false, false);
    assert_eq!(more, vec!["/c/copper/versions/1.19.2/natives"]);
}

#[test]
fn one_asset_is_one_download_at_its_doublehash_path() {
    let hash = "abc1234567890abcdef1234567890abcdef12345".to_string();
    let index = AssetIndex { objects: vec![("minecraft/sounds/a.ogg".to_string(), Entry { hash: hash.clone(), size: 3 })] };
    let jobs = asset_jobs(&index.objects, &"/c/copper/assets/objects".to_string()).unwrap();
    assert_eq!(jobs.len(), 1);
    assert_eq!(jobs[0].url, format!("https://resources.download.minecraft.net/ab/{}", hash));
    assert_eq!(jobs[0].path, format!("/c/copper/assets/objects/ab/{}", hash));
    assert_eq!(jobs[0].sha1, hash);
    let p = profile(Arguments::OldArguments(String::new()), vec![]);
    let inst = Instance::new(&"main".to_string(), &paths(), p, index, linux());
    let all = inst.required_jobs().unwrap();
    assert_eq!(all.len(), 2);
    assert_eq!(all[1].path, format!("/c/copper/assets/objects/ab/{}", hash));
}

#[test]
fn java_program_follows_major_version() {
    let mut p = profile(Arguments::OldArguments(String::new()), vec![]);
    let inst = Instance::new(&"main".to_string(), &paths(), p.clone(), empty_index(), linux());
    assert_eq!(inst.java_command(), "java");
    p.java_version.major_version = 8;
    let inst = Instance::new(&"main".to_string(), &paths(), p, empty_index(), linux());
    assert_eq!(inst.java_command(), "java8");
}

#[test]
fn asset_paths_are_checked_for_repeats() {
    let e = |h: &str| Entry { hash: h.to_string(), size: 1 };
    assert!(empty_index().has_unique_paths());
    let ok = AssetIndex { objects: vec![("a".to_string(), e("aa")), ("b".to_string(), e("aa"))] };
    assert!(ok.has_unique_paths());
    let twice = AssetIndex {
        objects: vec![("a".to_string(), e("aa")), ("b".to_string(), e("bb")), ("a".to_string(), e("cc"))],
    };
    assert!(!twice.has_unique_paths());
}

#[test]
fn short_asset_hash_is_an_error() {
    let objects = vec![("a".to_string(), Entry { hash: "x".to_string(), size: 1 })];
    assert_eq!(asset_jobs(&objects, &"/o".to_string()).unwrap_err(), "x");
    assert_eq!(doublehash(&"x".to_string()), None);
    assert_eq!(doublehash(&"abcd".to_string()), Some("ab/abcd".to_string()));
}

#[test]
fn only_host_natives_are_extracted_once() {
    assert!(should_extract("libfoo.so", HostOs::Linux, false));
    assert!(!should_extract("readme.txt", HostOs::Linux, false));
    assert!(!should_extract("libbar.dylib", HostOs::Linux, false));
    assert!(!should_extract("libfoo.so", HostOs::Linux, true));
    assert!(should_extract("libbar.dylib", HostOs::Osx, false));
    assert!(should_extract("dir/lwjgl.dll", HostOs::Windows, false));
    assert!(!should_extract("META-INF/", HostOs::Linux, false));
    assert!(!should_extract(".so", HostOs::Linux, false));
}

#[test]
fn artifacts_are_validated_by_hash() {
    let expected = "a9993e364706816aba3e25717850c26c9cd0d89d".to_string();
    assert!(needs_download(&expected, &None));
    assert!(!needs_download(&expected, &Some(b"abc".to_vec())));
    assert!(needs_download(&expected, &Some(b"abd".to_vec())));
}

#[test]
fn outcomes_join_into_one_result() {
    assert_eq!(join_outcomes(&vec![]), Ok(()));
    assert_eq!(join_outcomes(&vec![None, None]), Ok(()));
    assert_eq!(
        join_outcomes(&vec![None, Some("net".to_string()), None, Some("zip".to_string())]),
        Err(vec![1, 3])
    );
}

#[test]
fn manifest_lookup_takes_the_last_entry() {
    let entry = |id: &str, url: &str| version_manifest::Entry {
        id: id.to_string(),
        version_type: "release".to_string(),
        url: url.to_string(),
        time: "t".to_string(),
        release_time: "t".to_string(),
    };
    let m = VersionManifest {
        latest: LatestVersions { release: "1.19".to_string(), snapshot: "22w".to_string() },
        versions: vec![entry("1.19", "a"), entry("1.18", "b"), entry("1.19", "c")],
    };
    assert_eq!(m.get(&"1.19".to_string()).unwrap().url, "c");
    assert_eq!(m.get(&"1.18".to_string()).unwrap().url, "b");
    assert!(m.get(&"1.7".to_string()).is_none());
}
