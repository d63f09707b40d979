use validator_lab::deploy_method::DeployMethod;
use validator_lab::environment::{EnvironmentConfig, NamespaceCheck};
use validator_lab::release::{check_flags, BuildConfig, ConfigError, FlagCheck};
use validator_lab::repository::{inspect_repository, RepositoryError};
use validator_lab::session::{Action, Event, PrepareError, RemoveOutcome, Stage};
use validator_lab::text::{download_url, join_path, same_text};
use validator_lab::version::{note_for, VersionRecord};

fn config(method: &str, do_build: bool, debug: bool, channel: &str) -> BuildConfig {
    BuildConfig::new(method, do_build, debug, "/work/solana", channel.to_string()).unwrap()
}

#[test]
fn canonical_names_parse_to_their_methods() {
    assert_eq!(DeployMethod::from_name("local"), Some(DeployMethod::Local));
    assert_eq!(DeployMethod::from_name("tar"), Some(DeployMethod::Tar));
    assert_eq!(DeployMethod::from_name("skip"), Some(DeployMethod::Skip));
    for name in ["local", "tar", "skip"] {
        let m = DeployMethod::from_name(name).unwrap();
        assert_eq!(m.to_string(), name);
        assert_eq!(m.as_str(), name);
    }
}

#[test]
fn other_names_do_not_parse() {
    for name in ["", "Local", "TAR", "skip ", "build", "loca"] {
        assert_eq!(DeployMethod::from_name(name), None);
    }
}

#[test]
fn construction_follows_the_method_name() {
    for (name, method) in [
        ("local", DeployMethod::Local),
        ("tar", DeployMethod::Tar),
        ("skip", DeployMethod::Skip),
    ] {
        let c = BuildConfig::new(name, true, false, "/work/solana", "stable".to_string()).unwrap();
        assert_eq!(c.deploy_method(), method);
        assert!(c.do_build());
        assert!(!c.debug_build());
        assert_eq!(c.root_path(), "/work/solana");
        assert_eq!(c.release_channel(), "stable");
    }
    for name in ["", "remote", "Skip"] {
        let r = BuildConfig::new(name, false, false, "/work/solana", String::new());
        assert!(matches!(r, Err(ConfigError::InvalidDeployMethod)));
    }
}

#[test]
fn build_path_depends_on_method() {
    assert_eq!(config("local", false, false, "").build_path(), "/work/solana/farf/bin");
    assert_eq!(config("skip", false, false, "").build_path(), "/work/solana/farf/bin");
    assert_eq!(config("tar", false, false, "").build_path(), "/work/solana/solana-release/bin");
    let c = BuildConfig::new("tar", false, false, "/work/solana/", String::new()).unwrap();
    assert_eq!(c.build_path(), "/work/solana/solana-release/bin");
}

#[test]
fn join_path_adds_one_separator() {
    assert_eq!(join_path("/a/b", "c/d"), "/a/b/c/d");
    assert_eq!(join_path("/a/b/", "c"), "/a/b/c");
    assert_eq!(join_path("", "c"), "c");
    assert!(same_text("abc", "abc"));
    assert!(!same_text("abc", "abd"));
}

#[test]
fn flag_rules() {
    assert_eq!(check_flags(DeployMethod::Local, true, ""), Ok(FlagCheck::Accepted));
    assert_eq!(check_flags(DeployMethod::Local, false, "stable"), Err(ConfigError::MissingLocalPath));
    assert_eq!(check_flags(DeployMethod::Tar, false, ""), Err(ConfigError::MissingReleaseChannel));
    assert_eq!(check_flags(DeployMethod::Tar, false, "stable"), Ok(FlagCheck::Accepted));
    assert_eq!(check_flags(DeployMethod::Tar, true, "stable"), Ok(FlagCheck::LocalPathIgnored));
    assert_eq!(check_flags(DeployMethod::Skip, true, ""), Ok(FlagCheck::LocalPathIgnored));
    assert_eq!(check_flags(DeployMethod::Skip, false, ""), Ok(FlagCheck::Accepted));
}

#[test]
fn note_is_tagged_commit_or_branch() {
    let commit = "0123456789abcdef0123456789abcdef01234567";
    let other = "fedcba9876543210fedcba9876543210fedcba98".to_string();
    let targets = vec![other.clone(), commit.to_string()];
    assert_eq!(note_for("main", commit, &targets), commit);
    assert_eq!(note_for("main", commit, &vec![other]), "main");
    assert_eq!(note_for("main", commit, &vec![]), "main");
}

#[test]
fn version_file_text_is_exact() {
    let record = VersionRecord { note: "main".to_string(), commit: "abc123".to_string() };
    assert_eq!(record.file_content(), "channel: devbuild main\ncommit: abc123");
}

#[test]
fn stable_download_url() {
    assert_eq!(
        download_url("stable"),
        "https://release.solana.com/stable/solana-release-x86_64-unknown-linux-gnu.tar.bz2"
    );
}

#[test]
fn local_without_build_does_nothing() {
    let (stage, action) = config("local", false, true, "").prepare();
    assert_eq!(stage, Stage::Finished);
    assert!(matches!(action, Action::Finish(Ok(()))));
    let (stage, action) = config("local", false, false, "").setup_local_deploy();
    assert_eq!(stage, Stage::Finished);
    assert!(matches!(action, Action::Finish(Ok(()))));
}

#[test]
fn local_build_runs_script_then_writes_version() {
    let c = config("local", true, false, "");
    let (stage, action) = c.prepare();
    assert_eq!(stage, Stage::Building);
    match action {
        Action::RunBuildScript { program, args } => {
            assert_eq!(program, "/work/solana/scripts/cargo-install-all.sh");
            assert_eq!(args, vec!["/work/solana/farf".to_string(), "--validator-only".to_string()]);
        }
        other => panic!("unexpected {:?}", other),
    }
    let (stage, action) = c.resume(stage, Event::ScriptExited { success: true });
    assert_eq!(stage, Stage::Inspecting);
    assert!(matches!(&action, Action::InspectRepository { root } if root == "/work/solana"));
    let record = VersionRecord { note: "main".to_string(), commit: "abc123".to_string() };
    let (stage, action) = c.resume(stage, Event::Inspected(Ok(record)));
    assert_eq!(stage, Stage::WritingVersion);
    match action {
        Action::WriteVersionFile { path, content } => {
            assert_eq!(path, "/work/solana/farf/version.yml");
            assert_eq!(content, "channel: devbuild main\ncommit: abc123");
        }
        other => panic!("unexpected {:?}", other),
    }
    let (stage, action) = c.resume(stage, Event::Written { ok: true });
    assert_eq!(stage, Stage::Finished);
    assert!(matches!(action, Action::Finish(Ok(()))));
}

#[test]
fn debug_build_passes_debug_flag() {
    match config("local", true, true, "").build() {
        Action::RunBuildScript { args, .. } => assert_eq!(
            args,
            vec!["/work/solana/farf".to_string(), "--debug".to_string(), "--validator-only".to_string()]
        ),
        other => panic!("unexpected {:?}", other),
    }
}

#[test]
fn local_build_failures() {
    let c = config("local", true, false, "");
    let (_, a) = c.resume(Stage::Building, Event::SpawnFailed);
    assert!(matches!(a, Action::Finish(Err(PrepareError::SpawnFailed))));
    let (_, a) = c.resume(Stage::Building, Event::ScriptExited { success: false });
    assert!(matches!(a, Action::Finish(Err(PrepareError::BuildFailed))));
    let (_, a) = c.resume(Stage::Inspecting, Event::Inspected(Err(RepositoryError::NoHead)));
    assert!(matches!(a, Action::Finish(Err(PrepareError::Repository(RepositoryError::NoHead)))));
    let (s, a) = c.resume(Stage::WritingVersion, Event::Written { ok: false });
    assert_eq!(s, Stage::Finished);
    assert!(matches!(&a, Action::Finish(Err(PrepareError::Io { path })) if path == "/work/solana/farf/version.yml"));
}

#[test]
fn tar_with_channel_removes_downloads_extracts() {
    let c = config("tar", false, false, "stable");
    let (stage, action) = c.prepare();
    assert_eq!(stage, Stage::RemovingArchive);
    assert!(matches!(&action, Action::RemoveStaleArchive { path } if path == "/work/solana/solana-release.tar.bz2"));
    let (stage, action) = c.resume(stage, Event::Removed(RemoveOutcome::NotFound));
    assert_eq!(stage, Stage::Downloading);
    match &action {
        Action::Download { url, dest } => {
            assert_eq!(url, "https://release.solana.com/stable/solana-release-x86_64-unknown-linux-gnu.tar.bz2");
            assert_eq!(dest, "/work/solana/solana-release.tar.bz2");
        }
        other => panic!("unexpected {:?}", other),
    }
    let (stage, action) = c.resume(stage, Event::Downloaded { ok: true });
    assert_eq!(stage, Stage::Extracting);
    assert!(matches!(&action, Action::Extract { archive, dest }
        if archive == "/work/solana/solana-release.tar.bz2" && dest == "/work/solana/solana-release"));
    let (stage, action) = c.resume(stage, Event::Extracted { ok: true });
    assert_eq!(stage, Stage::ShowingVersion);
    assert!(matches!(&action, Action::ShowVersionFile { path } if path == "/work/solana/solana-release/version.yml"));
    let (stage, action) = c.resume(stage, Event::Shown);
    assert_eq!(stage, Stage::Finished);
    assert!(matches!(action, Action::Finish(Ok(()))));
}

#[test]
fn tar_removal_and_download_failures() {
    let c = config("tar", false, false, "stable");
    let (s, a) = c.resume(Stage::RemovingArchive, Event::Removed(RemoveOutcome::Removed));
    assert_eq!(s, Stage::Downloading);
    assert!(matches!(a, Action::Download { .. }));
    let (_, a) = c.resume(Stage::RemovingArchive, Event::Removed(RemoveOutcome::Failed));
    assert!(matches!(&a, Action::Finish(Err(PrepareError::Io { path })) if path == "/work/solana/solana-release.tar.bz2"));
    let (_, a) = c.resume(Stage::Downloading, Event::Downloaded { ok: false });
    assert!(matches!(&a, Action::Finish(Err(PrepareError::Download { url }))
        if url == "https://release.solana.com/stable/solana-release-x86_64-unknown-linux-gnu.tar.bz2"));
    let (_, a) = c.resume(Stage::Extracting, Event::Extracted { ok: false });
    assert!(matches!(a, Action::Finish(Err(PrepareError::Extraction { channel_set: true, .. }))));
    assert!(matches!(c.download_release_from_channel(), Action::Download { .. }));
}

#[test]
fn tar_without_channel_extracts_staged_archive() {
    let c = config("tar", false, false, "");
    let (stage, action) = c.setup_tar_deploy();
    assert_eq!(stage, Stage::Extracting);
    assert!(matches!(action, Action::Extract { .. }));
    let (stage, action) = c.resume(stage, Event::Extracted { ok: false });
    assert_eq!(stage, Stage::Finished);
    match action {
        Action::Finish(Err(PrepareError::Extraction { archive, dest, channel_set })) => {
            assert_eq!(archive, "/work/solana/solana-release.tar.bz2");
            assert_eq!(dest, "/work/solana/solana-release");
            assert!(!channel_set);
        }
        other => panic!("unexpected {:?}", other),
    }
}

#[test]
fn skip_is_not_implemented() {
    let (stage, action) = config("skip", true, false, "stable").prepare();
    assert_eq!(stage, Stage::Finished);
    assert!(matches!(action, Action::Finish(Err(PrepareError::NotImplemented))));
}

#[test]
fn each_method_stays_in_its_own_part() {
    let local = config("local", true, false, "stable");
    let (_, a) = local.prepare();
    assert!(matches!(a, Action::RunBuildScript { .. }));
    let tar = config("tar", true, false, "stable");
    let (_, a) = tar.prepare();
    assert!(matches!(a, Action::RemoveStaleArchive { .. }));
    let (_, a) = tar.resume(Stage::Finished, Event::Shown);
    assert!(matches!(a, Action::Finish(Err(PrepareError::OutOfOrder))));
    let (_, a) = local.resume(Stage::Building, Event::Shown);
    assert!(matches!(a, Action::Finish(Err(PrepareError::OutOfOrder))));
}

#[test]
fn namespace_must_exist() {
    assert!(NamespaceCheck::Exists.allows_prepare());
    assert!(!NamespaceCheck::Missing.allows_prepare());
    assert!(!NamespaceCheck::Failed.allows_prepare());
    let env = EnvironmentConfig { namespace: "default" };
    assert_eq!(env.clone().namespace, "default");
}

#[test]
fn missing_repository_is_reported() {
    let r = inspect_repository("/nonexistent/validator_lab/checkout");
    assert!(matches!(r, Err(RepositoryError::NotARepository)));
}

fn commit_on_main(path: &str) -> (git2::Repository, git2::Oid) {
    let repo = git2::Repository::init(path).unwrap();
    repo.set_head("refs/heads/main").unwrap();
    let oid = {
        let sig = git2::Signature::now("tester", "tester@example.com").unwrap();
        let tree_id = repo.index().unwrap().write_tree().unwrap();
        let tree = repo.find_tree(tree_id).unwrap();
        let parent = repo.head().ok().and_then(|h| h.peel_to_commit().ok());
        let parents: Vec<&git2::Commit> = parent.iter().collect();
        repo.commit(Some("HEAD"), &sig, &sig, "snapshot", &tree, &parents).unwrap()
    };
    (repo, oid)
}

#[test]
fn tagged_checkout_notes_commit_id() {
    let path = "/tmp/validator_lab_tagged_checkout";
    let (repo, oid) = commit_on_main(path);
    let object = repo.find_object(oid, None).unwrap();
    repo.tag_lightweight("v1.0.0", &object, true).unwrap();
    let record = inspect_repository(path).unwrap();
    assert_eq!(record.commit, oid.to_string());
    assert_eq!(record.commit.len(), 40);
    assert_eq!(record.note, oid.to_string());
}

#[test]
fn untagged_checkout_notes_branch() {
    let path = "/tmp/validator_lab_untagged_checkout";
    let (_repo, oid) = commit_on_main(path);
    let record = inspect_repository(path).unwrap();
    assert_eq!(record.commit, oid.to_string());
    assert_eq!(record.note, "main");
}
