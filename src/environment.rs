use vstd::prelude::*;

verus! {

/// Where the test cluster lives.
#[derive(Clone, Debug)]
pub struct EnvironmentConfig<'a> {
    pub namespace: &'a str,
}

/// The answer of the cluster to "does this namespace exist".
#[derive(Debug, Clone, Copy, PartialEq, Eq, Structural)]
pub enum NamespaceCheck {
    Exists,
    Missing,
    Failed,
}

impl NamespaceCheck {
    /// A preparation starts only once the namespace is known to exist.
    pub fn allows_prepare(&self) -> (r: bool)
        ensures
            r == (*self == NamespaceCheck::Exists),
    {
        match self {
            NamespaceCheck::Exists => true,
            _ => false,
        }
    }
}

} // verus!
