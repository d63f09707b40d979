use vstd::prelude::*;

verus! {

/// The version stamp of a set of binaries: a channel note (a branch name or
/// the id of a tagged commit) and the commit id.
#[derive(Debug, Clone)]
pub struct VersionRecord {
    pub note: String,
    pub commit: String,
}

/// The text of a version file: two lines, with nothing after the commit.
pub open spec fn version_text(note: Seq<char>, commit: Seq<char>) -> Seq<char> {
    "channel: devbuild "@ + note + "\ncommit: "@ + commit
}

/// Whether some tag target among `targets` is the commit `commit`.
pub open spec fn tagged(commit: Seq<char>, targets: Seq<String>) -> bool {
    exists|i: int| 0 <= i < targets.len() && #[trigger] targets[i]@ == commit
}

/// The note of a build of `commit` on branch `branch`, where `targets` are
/// the objects that the repository's tags resolve to: the id of the tagged
/// commit where a tag points at it, else the branch name.
pub open spec fn derived_note(branch: Seq<char>, commit: Seq<char>, targets: Seq<String>) -> Seq<char> {
    if tagged(commit, targets) {
        commit
    } else {
        branch
    }
}

impl VersionRecord {
    /// The text that the version file of this record holds.
    pub fn file_content(&self) -> (r: String)
        ensures
            r@ == version_text(self.note@, self.commit@),
    {
        let mut out = String::from_str("channel: devbuild ");
        out.append(self.note.as_str());
        out.append("\ncommit: ");
        out.append(self.commit.as_str());
        out
    }
}

/// Chooses the note of a build: the first tag target equal to `commit`
/// wins, and its id (which is `commit`) becomes the note; with no such
/// target the note is `branch`.
pub fn note_for(branch: &str, commit: &str, targets: &Vec<String>) -> (r: String)
    ensures
        r@ == derived_note(branch@, commit@, targets@),
{
    let mut i: usize = 0;
    while i < targets.len()
        invariant
            i <= targets.len(),
            forall|j: int| 0 <= j < i ==> #[trigger] targets@[j]@ != commit@,
        decreases targets.len() - i,
    {
        let target = &targets[i];
        if crate::text::same_text(target.as_str(), commit) {
            return target.clone();
        }
        i = i + 1;
    }
    String::from_str(branch)
}

} // verus!
