use vstd::prelude::*;
use crate::deploy_method::DeployMethod;
use crate::release::{BuildConfig, BuildConfigView};
use crate::repository::RepositoryError;
use crate::text::{download_url, join_path, path_join, release_url};
use crate::version::{version_text, VersionRecord};

verus! {

/// Why a release preparation failed.
#[derive(Debug, Clone)]
pub enum PrepareError {
    /// The build script could not be started.
    SpawnFailed,
    /// The build script exited with a failure status.
    BuildFailed,
    /// The version record could not be derived from the checkout.
    Repository(RepositoryError),
    /// A file at `path` could not be written or removed.
    Io { path: String },
    /// The archive at `url` could not be downloaded.
    Download { url: String },
    /// The archive at `archive` could not be extracted into `dest`;
    /// `channel_set` tells a missing staged archive (no channel) from a bad
    /// download.
    Extraction { archive: String, dest: String, channel_set: bool },
    /// The `skip` method has no defined behaviour yet.
    NotImplemented,
    /// An event that does not answer the pending action.
    OutOfOrder,
}

/// Where a preparation stands: which action's outcome it waits for.
#[derive(Debug, Clone, Copy, PartialEq, Eq, Structural)]
pub enum Stage {
    Building,
    Inspecting,
    WritingVersion,
    RemovingArchive,
    Downloading,
    Extracting,
    ShowingVersion,
    Finished,
}

/// The work that the caller performs next on behalf of a preparation.
#[derive(Debug)]
pub enum Action {
    /// Run `program` with `args` and wait for it to exit.
    RunBuildScript { program: String, args: Vec<String> },
    /// Derive the version record of the checkout at `root`.
    InspectRepository { root: String },
    /// Write `content` to `path`, replacing what is there.
    WriteVersionFile { path: String, content: String },
    /// Delete the file at `path`; its absence is no failure.
    RemoveStaleArchive { path: String },
    /// Download `url` into the file `dest`.
    Download { url: String, dest: String },
    /// Extract the archive `archive` into the directory `dest`.
    Extract { archive: String, dest: String },
    /// Show the version file at `path`, for diagnostics only.
    ShowVersionFile { path: String },
    /// The preparation is over, with this outcome.
    Finish(Result<(), PrepareError>),
}

/// How a stale archive removal went.
#[derive(Debug, Clone, Copy, PartialEq, Eq, Structural)]
pub enum RemoveOutcome {
    Removed,
    NotFound,
    Failed,
}

/// The outcome of the last action, handed back by the caller.
#[derive(Debug)]
pub enum Event {
    SpawnFailed,
    ScriptExited { success: bool },
    Inspected(Result<VersionRecord, RepositoryError>),
    Written { ok: bool },
    Removed(RemoveOutcome),
    Downloaded { ok: bool },
    Extracted { ok: bool },
    Shown,
}

pub open spec fn install_script(root: Seq<char>) -> Seq<char> {
    path_join(root, "scripts/cargo-install-all.sh"@)
}

pub open spec fn install_dir(root: Seq<char>) -> Seq<char> {
    path_join(root, "farf"@)
}

pub open spec fn version_file(root: Seq<char>) -> Seq<char> {
    path_join(root, "farf/version.yml"@)
}

pub open spec fn archive_file(root: Seq<char>) -> Seq<char> {
    path_join(root, "solana-release.tar.bz2"@)
}

pub open spec fn extract_dir(root: Seq<char>) -> Seq<char> {
    path_join(root, "solana-release"@)
}

/// The build script's arguments: the install directory, `--debug` for a
/// debug build, and `--validator-only`.
pub open spec fn build_args(root: Seq<char>, debug: bool) -> Seq<Seq<char>> {
    if debug {
        seq![install_dir(root), "--debug"@, "--validator-only"@]
    } else {
        seq![install_dir(root), "--validator-only"@]
    }
}

pub open spec fn texts(v: Seq<String>) -> Seq<Seq<char>> {
    v.map_values(|s: String| s@)
}

pub open spec fn is_build_run(c: BuildConfigView, a: Action) -> bool {
    a matches Action::RunBuildScript { program, args } && program@ == install_script(c.root)
        && texts(args@) == build_args(c.root, c.debug_build)
}

pub open spec fn is_inspect(c: BuildConfigView, a: Action) -> bool {
    a matches Action::InspectRepository { root } && root@ == c.root
}

pub open spec fn is_version_write(c: BuildConfigView, record: VersionRecord, a: Action) -> bool {
    a matches Action::WriteVersionFile { path, content } && path@ == version_file(c.root)
        && content@ == version_text(record.note@, record.commit@)
}

pub open spec fn is_remove(c: BuildConfigView, a: Action) -> bool {
    a matches Action::RemoveStaleArchive { path } && path@ == archive_file(c.root)
}

pub open spec fn is_download(c: BuildConfigView, a: Action) -> bool {
    a matches Action::Download { url, dest } && url@ == release_url(c.channel)
        && dest@ == archive_file(c.root)
}

pub open spec fn is_extract(c: BuildConfigView, a: Action) -> bool {
    a matches Action::Extract { archive, dest } && archive@ == archive_file(c.root)
        && dest@ == extract_dir(c.root)
}

pub open spec fn is_show(c: BuildConfigView, a: Action) -> bool {
    a matches Action::ShowVersionFile { path } && path@ == path_join(extract_dir(c.root), "version.yml"@)
}

pub open spec fn is_success(a: Action) -> bool {
    a matches Action::Finish(Ok(_))
}

pub open spec fn is_failure(a: Action, e: PrepareError) -> bool {
    a matches Action::Finish(Err(f)) && f == e
}

pub open spec fn is_io_failure(a: Action, p: Seq<char>) -> bool {
    a matches Action::Finish(Err(PrepareError::Io { path })) && path@ == p
}

pub open spec fn is_download_failure(c: BuildConfigView, a: Action) -> bool {
    a matches Action::Finish(Err(PrepareError::Download { url })) && url@ == release_url(c.channel)
}

pub open spec fn is_extraction_failure(c: BuildConfigView, a: Action) -> bool {
    a matches Action::Finish(Err(PrepareError::Extraction { archive, dest, channel_set }))
        && archive@ == archive_file(c.root) && dest@ == extract_dir(c.root)
        && channel_set == (c.channel.len() > 0)
}

/// The first step of a local deployment: the build script is run, unless
/// building is switched off, in which case the preparation succeeds at once.
pub open spec fn local_start(c: BuildConfigView, s: Stage, a: Action) -> bool {
    if c.do_build {
        s == Stage::Building && is_build_run(c, a)
    } else {
        s == Stage::Finished && is_success(a)
    }
}

/// The first step of an archive deployment: with a channel, the stale
/// archive is removed before a download; without one, the staged archive
/// is extracted.
pub open spec fn tar_start(c: BuildConfigView, s: Stage, a: Action) -> bool {
    if c.channel.len() > 0 {
        s == Stage::RemovingArchive && is_remove(c, a)
    } else {
        s == Stage::Extracting && is_extract(c, a)
    }
}

/// The first step of a preparation, chosen by the deploy method alone.
pub open spec fn starts(c: BuildConfigView, s: Stage, a: Action) -> bool {
    match c.method {
        DeployMethod::Local => local_start(c, s, a),
        DeployMethod::Tar => tar_start(c, s, a),
        DeployMethod::Skip => s == Stage::Finished && is_failure(a, PrepareError::NotImplemented),
    }
}

/// One step of a preparation: from `stage`, on `event`, to `next` with `a`.
pub open spec fn steps(c: BuildConfigView, stage: Stage, event: Event, next: Stage, a: Action) -> bool {
    match (stage, event) {
        (Stage::Building, Event::SpawnFailed) =>
            next == Stage::Finished && is_failure(a, PrepareError::SpawnFailed),
        (Stage::Building, Event::ScriptExited { success }) => if success {
            next == Stage::Inspecting && is_inspect(c, a)
        } else {
            next == Stage::Finished && is_failure(a, PrepareError::BuildFailed)
        },
        (Stage::Inspecting, Event::Inspected(result)) => match result {
            Ok(record) => next == Stage::WritingVersion && is_version_write(c, record, a),
            Err(e) => next == Stage::Finished && is_failure(a, PrepareError::Repository(e)),
        },
        (Stage::WritingVersion, Event::Written { ok }) => next == Stage::Finished && if ok {
            is_success(a)
        } else {
            is_io_failure(a, version_file(c.root))
        },
        (Stage::RemovingArchive, Event::Removed(outcome)) => if outcome == RemoveOutcome::Failed {
            next == Stage::Finished && is_io_failure(a, archive_file(c.root))
        } else {
            next == Stage::Downloading && is_download(c, a)
        },
        (Stage::Downloading, Event::Downloaded { ok }) => if ok {
            next == Stage::Extracting && is_extract(c, a)
        } else {
            next == Stage::Finished && is_download_failure(c, a)
        },
        (Stage::Extracting, Event::Extracted { ok }) => if ok {
            next == Stage::ShowingVersion && is_show(c, a)
        } else {
            next == Stage::Finished && is_extraction_failure(c, a)
        },
        (Stage::ShowingVersion, Event::Shown) => next == Stage::Finished && is_success(a),
        _ => next == Stage::Finished && is_failure(a, PrepareError::OutOfOrder),
    }
}

impl BuildConfig {
    /// Starts the preparation: exactly one of the local build, the archive
    /// fetch and the `skip` stub is entered, by the deploy method.
    pub fn prepare(&self) -> (r: (Stage, Action))
        ensures
            starts(self@, r.0, r.1),
    {
        match self.deploy_method() {
            DeployMethod::Local => self.setup_local_deploy(),
            DeployMethod::Tar => self.setup_tar_deploy(),
            DeployMethod::Skip => (Stage::Finished, Action::Finish(Err(PrepareError::NotImplemented))),
        }
    }

    /// The first step of a local deployment.
    pub fn setup_local_deploy(&self) -> (r: (Stage, Action))
        ensures
            local_start(self@, r.0, r.1),
    {
        if self.do_build() {
            (Stage::Building, self.build())
        } else {
            (Stage::Finished, Action::Finish(Ok(())))
        }
    }

    /// The first step of an archive deployment.
    pub fn setup_tar_deploy(&self) -> (r: (Stage, Action))
        ensures
            tar_start(self@, r.0, r.1),
    {
        if self.release_channel().unicode_len() > 0 {
            (Stage::RemovingArchive, Action::RemoveStaleArchive { path: self.archive_path() })
        } else {
            (Stage::Extracting, self.extract_archive())
        }
    }

    /// The build script run: `<root>/scripts/cargo-install-all.sh` with the
    /// install directory, `--debug` for a debug build, and
    /// `--validator-only`.
    pub fn build(&self) -> (r: Action)
        ensures
            is_build_run(self@, r),
    {
        let root = self.root_path();
        let program = join_path(root, "scripts/cargo-install-all.sh");
        let mut args: Vec<String> = Vec::new();
        args.push(join_path(root, "farf"));
        if self.debug_build() {
            args.push(String::from_str("--debug"));
        }
        args.push(String::from_str("--validator-only"));
        proof {
            assert(texts(args@) =~= build_args(self@.root, self@.debug_build));
        }
        Action::RunBuildScript { program, args }
    }

    /// The download of the channel's archive over the staged archive path.
    pub fn download_release_from_channel(&self) -> (r: Action)
        ensures
            is_download(self@, r),
    {
        Action::Download { url: download_url(self.release_channel()), dest: self.archive_path() }
    }

    fn archive_path(&self) -> (r: String)
        ensures
            r@ == archive_file(self@.root),
    {
        join_path(self.root_path(), "solana-release.tar.bz2")
    }

    fn extract_archive(&self) -> (r: Action)
        ensures
            is_extract(self@, r),
    {
        Action::Extract { archive: self.archive_path(), dest: join_path(self.root_path(), "solana-release") }
    }

    /// Advances the preparation from `stage` by the outcome `event` of its
    /// pending action. An event that does not answer that action ends the
    /// preparation with `OutOfOrder`.
    pub fn resume(&self, stage: Stage, event: Event) -> (r: (Stage, Action))
        ensures
            steps(self@, stage, event, r.0, r.1),
    {
        let root = self.root_path();
        match (stage, event) {
            (Stage::Building, Event::SpawnFailed) =>
                (Stage::Finished, Action::Finish(Err(PrepareError::SpawnFailed))),
            (Stage::Building, Event::ScriptExited { success }) => if success {
                (Stage::Inspecting, Action::InspectRepository { root: String::from_str(root) })
            } else {
                (Stage::Finished, Action::Finish(Err(PrepareError::BuildFailed)))
            },
            (Stage::Inspecting, Event::Inspected(result)) => match result {
                Ok(record) => (Stage::WritingVersion, Action::WriteVersionFile {
                    path: join_path(root, "farf/version.yml"),
                    content: record.file_content(),
                }),
                Err(e) => (Stage::Finished, Action::Finish(Err(PrepareError::Repository(e)))),
            },
            (Stage::WritingVersion, Event::Written { ok }) => if ok {
                (Stage::Finished, Action::Finish(Ok(())))
            } else {
                (Stage::Finished, Action::Finish(Err(PrepareError::Io { path: join_path(root, "farf/version.yml") })))
            },
            (Stage::RemovingArchive, Event::Removed(outcome)) => match outcome {
                RemoveOutcome::Failed =>
                    (Stage::Finished, Action::Finish(Err(PrepareError::Io { path: self.archive_path() }))),
                _ => (Stage::Downloading, self.download_release_from_channel()),
            },
            (Stage::Downloading, Event::Downloaded { ok }) => if ok {
                (Stage::Extracting, self.extract_archive())
            } else {
                (Stage::Finished, Action::Finish(Err(PrepareError::Download { url: download_url(self.release_channel()) })))
            },
            (Stage::Extracting, Event::Extracted { ok }) => if ok {
                let dir = join_path(root, "solana-release");
                (Stage::ShowingVersion, Action::ShowVersionFile { path: join_path(dir.as_str(), "version.yml") })
            } else {
                (Stage::Finished, Action::Finish(Err(PrepareError::Extraction {
                    archive: self.archive_path(),
                    dest: join_path(root, "solana-release"),
                    channel_set: self.release_channel().unicode_len() > 0,
                })))
            },
            (Stage::ShowingVersion, Event::Shown) => (Stage::Finished, Action::Finish(Ok(()))),
            _ => (Stage::Finished, Action::Finish(Err(PrepareError::OutOfOrder))),
        }
    }
}

} // verus!
