use vstd::prelude::*;
use crate::version::{derived_note, note_for, VersionRecord};

verus! {

#[verifier::external_type_specification]
#[verifier::external_body]
pub struct ExRepository(git2::Repository);

#[verifier::external_type_specification]
#[verifier::external_body]
pub struct ExGitError(git2::Error);

/// Why a version record could not be derived from a repository.
#[derive(Debug, Clone, Copy, PartialEq, Eq, Structural)]
pub enum RepositoryError {
    /// No repository could be opened at the root.
    NotARepository,
    /// `HEAD` did not resolve to an object.
    NoHead,
    /// The current branch has no usable short name.
    DetachedOrUnnamed,
    /// The tags could not be listed, or one of them did not resolve.
    TagLookup,
}

/// Relies on git2::Repository::open: opens the repository at `path`. What
/// it finds depends on the disk, so nothing is promised of the outcome.
#[verifier::external_body]
fn open_repository(path: &str) -> (r: Result<git2::Repository, git2::Error>) {
    git2::Repository::open(path)
}

/// Relies on git2::Repository::revparse_single and Object::id, and on Oid's
/// Display, which writes the object id as 40 hexadecimal digits
/// (git_oid_tostr with GIT_OID_HEXSZ).
#[verifier::external_body]
fn resolve_id(repo: &git2::Repository, spec: &str) -> (r: Result<String, git2::Error>)
    ensures
        r matches Ok(id) ==> id@.len() == 40,
{
    repo.revparse_single(spec).map(|object| object.id().to_string())
}

/// Relies on git2::Repository::head and Reference::shorthand: the short
/// name of the reference that `HEAD` points to, `None` where it is not
/// valid UTF-8.
#[verifier::external_body]
fn head_shorthand(repo: &git2::Repository) -> (r: Result<Option<String>, git2::Error>) {
    repo.head().map(|head| head.shorthand().map(String::from))
}

/// Relies on git2::Repository::tag_names with no pattern: the names of all
/// tags, in the store's order, `None` for a name that is not valid UTF-8.
#[verifier::external_body]
fn tag_names(repo: &git2::Repository) -> (r: Result<Vec<Option<String>>, git2::Error>) {
    repo.tag_names(None).map(|names| names.iter().map(|n| n.map(String::from)).collect())
}

/// Derives the version record of the checkout at `root`: the commit that
/// `HEAD` resolves to, and as note the id of that commit where a tag points
/// at it, else the current branch's short name. Tags are resolved in the
/// store's order up to the first that points at the commit; names that are
/// not valid UTF-8 are passed over.
pub fn inspect_repository(root: &str) -> (r: Result<VersionRecord, RepositoryError>)
    ensures
        r matches Ok(record) ==> {
            &&& record.commit@.len() == 40
            &&& record.note@.len() > 0
        },
{
    let repo = match open_repository(root) {
        Ok(repo) => repo,
        Err(_) => return Err(RepositoryError::NotARepository),
    };
    let commit = match resolve_id(&repo, "HEAD") {
        Ok(id) => id,
        Err(_) => return Err(RepositoryError::NoHead),
    };
    let branch = match head_shorthand(&repo) {
        Ok(Some(name)) => name,
        _ => return Err(RepositoryError::DetachedOrUnnamed),
    };
    if branch.as_str().unicode_len() == 0 {
        return Err(RepositoryError::DetachedOrUnnamed);
    }
    let names = match tag_names(&repo) {
        Ok(names) => names,
        Err(_) => return Err(RepositoryError::TagLookup),
    };
    let mut targets: Vec<String> = Vec::new();
    let mut i: usize = 0;
    let mut found = false;
    while i < names.len() && !found
        invariant
            i <= names.len(),
        decreases names.len() - i,
    {
        if let Some(name) = &names[i] {
            match resolve_id(&repo, name.as_str()) {
                Ok(id) => {
                    found = crate::text::same_text(id.as_str(), commit.as_str());
                    targets.push(id);
                },
                Err(_) => return Err(RepositoryError::TagLookup),
            }
        }
        i = i + 1;
    }
    let note = note_for(branch.as_str(), commit.as_str(), &targets);
    Ok(VersionRecord { note, commit })
}

} // verus!
