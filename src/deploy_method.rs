use vstd::prelude::*;
use crate::text::same_text;

verus! {

/// The strategy used to obtain validator binaries.
#[derive(Debug, Clone, Copy, PartialEq, Eq, Structural)]
pub enum DeployMethod {
    Local,
    Tar,
    Skip,
}

/// The canonical lowercase name of each method: the one table that both
/// parsing and display follow.
pub open spec fn method_name(m: DeployMethod) -> Seq<char> {
    match m {
        DeployMethod::Local => "local"@,
        DeployMethod::Tar => "tar"@,
        DeployMethod::Skip => "skip"@,
    }
}

/// The method whose canonical name is `s`, if there is one.
pub open spec fn method_named(s: Seq<char>) -> Option<DeployMethod> {
    if s == method_name(DeployMethod::Local) {
        Some(DeployMethod::Local)
    } else if s == method_name(DeployMethod::Tar) {
        Some(DeployMethod::Tar)
    } else if s == method_name(DeployMethod::Skip) {
        Some(DeployMethod::Skip)
    } else {
        None
    }
}

/// The three canonical names are pairwise distinct.
pub proof fn lemma_method_names_distinct()
    ensures
        method_name(DeployMethod::Local) != method_name(DeployMethod::Tar),
        method_name(DeployMethod::Local) != method_name(DeployMethod::Skip),
        method_name(DeployMethod::Tar) != method_name(DeployMethod::Skip),
{
    reveal_strlit("local");
    reveal_strlit("tar");
    reveal_strlit("skip");
    assert(method_name(DeployMethod::Local).len() != method_name(DeployMethod::Tar).len());
    assert(method_name(DeployMethod::Tar).len() != method_name(DeployMethod::Skip).len());
    assert(method_name(DeployMethod::Local)[0] != method_name(DeployMethod::Skip)[0]);
}

/// Parsing a method's name gives the method back, and a string parses to a
/// method exactly when it is that method's name.
pub proof fn lemma_name_round_trip(m: DeployMethod, s: Seq<char>)
    ensures
        method_named(method_name(m)) == Some(m),
        method_named(s) == Some(m) <==> s == method_name(m),
{
    lemma_method_names_distinct();
}

impl DeployMethod {
    /// The canonical name of this method.
    pub fn as_str(&self) -> (r: &'static str)
        ensures
            r@ == method_name(*self),
    {
        match self {
            DeployMethod::Local => "local",
            DeployMethod::Tar => "tar",
            DeployMethod::Skip => "skip",
        }
    }

    /// The canonical name of this method, owned.
    pub fn to_string(&self) -> (r: String)
        ensures
            r@ == method_name(*self),
    {
        String::from_str(self.as_str())
    }

    /// The method named `s`, or `None` where `s` is none of the three
    /// canonical names.
    pub fn from_name(s: &str) -> (r: Option<DeployMethod>)
        ensures
            r == method_named(s@),
    {
        if same_text(s, "local") {
            Some(DeployMethod::Local)
        } else if same_text(s, "tar") {
            Some(DeployMethod::Tar)
        } else if same_text(s, "skip") {
            Some(DeployMethod::Skip)
        } else {
            None
        }
    }
}

} // verus!
