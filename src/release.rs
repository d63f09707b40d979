use vstd::prelude::*;
use crate::deploy_method::{method_named, DeployMethod};
use crate::text::{join_path, path_join};

verus! {

/// Why a configuration was refused.
#[derive(Debug, Clone, Copy, PartialEq, Eq, Structural)]
pub enum ConfigError {
    /// The deploy method is none of `local`, `tar`, `skip`.
    InvalidDeployMethod,
    /// The `local` method was asked for without a local source path.
    MissingLocalPath,
    /// The `tar` method was asked for without a release channel.
    MissingReleaseChannel,
}

/// What became of the companion flags of a deploy method that were accepted.
#[derive(Debug, Clone, Copy, PartialEq, Eq, Structural)]
pub enum FlagCheck {
    Accepted,
    /// A local source path was given to a method other than `local`: it is
    /// ignored, and the caller warns.
    LocalPathIgnored,
}

/// The outcome of the companion-flag rules: `local` needs a local path,
/// `tar` needs a release channel, and a local path given to another method
/// is only worth a warning.
pub open spec fn flag_check(method: DeployMethod, has_local_path: bool, channel: Seq<char>) -> Result<FlagCheck, ConfigError> {
    match method {
        DeployMethod::Local => if has_local_path {
            Ok(FlagCheck::Accepted)
        } else {
            Err(ConfigError::MissingLocalPath)
        },
        _ => if method == DeployMethod::Tar && channel.len() == 0 {
            Err(ConfigError::MissingReleaseChannel)
        } else if has_local_path {
            Ok(FlagCheck::LocalPathIgnored)
        } else {
            Ok(FlagCheck::Accepted)
        },
    }
}

/// Checks the flags that a deploy method needs beside it.
pub fn check_flags(method: DeployMethod, has_local_path: bool, release_channel: &str) -> (r: Result<FlagCheck, ConfigError>)
    ensures
        r == flag_check(method, has_local_path, release_channel@),
{
    match method {
        DeployMethod::Local => if has_local_path {
            Ok(FlagCheck::Accepted)
        } else {
            Err(ConfigError::MissingLocalPath)
        },
        _ => if method == DeployMethod::Tar && release_channel.unicode_len() == 0 {
            Err(ConfigError::MissingReleaseChannel)
        } else if has_local_path {
            Ok(FlagCheck::LocalPathIgnored)
        } else {
            Ok(FlagCheck::Accepted)
        },
    }
}

/// The directory, relative to the workspace root, where a method leaves the
/// validator binaries.
pub open spec fn build_dir(m: DeployMethod) -> Seq<char> {
    match m {
        DeployMethod::Tar => "solana-release/bin"@,
        _ => "farf/bin"@,
    }
}

/// What a `BuildConfig` holds, as plain values.
pub struct BuildConfigView {
    pub method: DeployMethod,
    pub do_build: bool,
    pub debug_build: bool,
    pub build_path: Seq<char>,
    pub root: Seq<char>,
    pub channel: Seq<char>,
}

/// The settings of one release preparation. Fixed once built: the deploy
/// method in particular never changes.
#[derive(Debug, Clone)]
pub struct BuildConfig {
    deploy_method: DeployMethod,
    do_build: bool,
    debug_build: bool,
    build_path: String,
    solana_root_path: String,
    release_channel: String,
}

impl View for BuildConfig {
    type V = BuildConfigView;

    closed spec fn view(&self) -> BuildConfigView {
        BuildConfigView {
            method: self.deploy_method,
            do_build: self.do_build,
            debug_build: self.debug_build,
            build_path: self.build_path@,
            root: self.solana_root_path@,
            channel: self.release_channel@,
        }
    }
}

impl BuildConfig {
    /// Builds a configuration. Fails with `InvalidDeployMethod` exactly when
    /// `deploy_method` is none of the canonical method names; otherwise keeps
    /// the arguments and derives the binaries' directory under the root.
    /// Nothing outside the value is touched.
    pub fn new(
        deploy_method: &str,
        do_build: bool,
        debug_build: bool,
        solana_root_path: &str,
        release_channel: String,
    ) -> (r: Result<BuildConfig, ConfigError>)
        ensures
            method_named(deploy_method@) is None ==> r == Err::<BuildConfig, ConfigError>(
                ConfigError::InvalidDeployMethod,
            ),
            method_named(deploy_method@) matches Some(m) ==> r matches Ok(c) && c@ == (BuildConfigView {
                method: m,
                do_build,
                debug_build,
                build_path: path_join(solana_root_path@, build_dir(m)),
                root: solana_root_path@,
                channel: release_channel@,
            }),
    {
        let method = match DeployMethod::from_name(deploy_method) {
            Some(m) => m,
            None => return Err(ConfigError::InvalidDeployMethod),
        };
        let build_path = match method {
            DeployMethod::Tar => join_path(solana_root_path, "solana-release/bin"),
            _ => join_path(solana_root_path, "farf/bin"),
        };
        Ok(BuildConfig {
            deploy_method: method,
            do_build,
            debug_build,
            build_path,
            solana_root_path: String::from_str(solana_root_path),
            release_channel,
        })
    }

    pub fn deploy_method(&self) -> (r: DeployMethod)
        ensures
            r == self@.method,
    {
        self.deploy_method
    }

    pub fn do_build(&self) -> (r: bool)
        ensures
            r == self@.do_build,
    {
        self.do_build
    }

    pub fn debug_build(&self) -> (r: bool)
        ensures
            r == self@.debug_build,
    {
        self.debug_build
    }

    pub fn build_path(&self) -> (r: &str)
        ensures
            r@ == self@.build_path,
    {
        self.build_path.as_str()
    }

    pub fn root_path(&self) -> (r: &str)
        ensures
            r@ == self@.root,
    {
        self.solana_root_path.as_str()
    }

    pub fn release_channel(&self) -> (r: &str)
        ensures
            r@ == self@.channel,
    {
        self.release_channel.as_str()
    }
}

} // verus!
