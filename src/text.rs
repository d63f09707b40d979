use vstd::prelude::*;

verus! {

/// Whether two strings hold the same characters.
pub fn same_text(a: &str, b: &str) -> (r: bool)
    ensures
        r == (a@ == b@),
{
    String::from_str(a) == String::from_str(b)
}

/// `rel` appended to the directory `root` as a path component: nothing is
/// added before it when `root` is empty or already ends in a separator.
pub open spec fn path_join(root: Seq<char>, rel: Seq<char>) -> Seq<char> {
    if root.len() == 0 {
        rel
    } else if root.last() == '/' {
        root + rel
    } else {
        root + "/"@ + rel
    }
}

/// The relative path `rel` placed under the directory `root`.
pub fn join_path(root: &str, rel: &str) -> (r: String)
    ensures
        r@ == path_join(root@, rel@),
{
    let n = root.unicode_len();
    if n == 0 {
        return String::from_str(rel);
    }
    let mut out = String::from_str(root);
    if root.get_char(n - 1) != '/' {
        out.append("/");
    }
    out.append(rel);
    out
}

/// The address from which the release archive of `channel` is downloaded.
pub open spec fn release_url(channel: Seq<char>) -> Seq<char> {
    "https://release.solana.com/"@ + channel + "/solana-release-x86_64-unknown-linux-gnu.tar.bz2"@
}

/// Builds the download address of the release archive of `channel`.
pub fn download_url(channel: &str) -> (r: String)
    ensures
        r@ == release_url(channel@),
{
    let mut url = String::from_str("https://release.solana.com/");
    url.append(channel);
    url.append("/solana-release-x86_64-unknown-linux-gnu.tar.bz2");
    url
}

} // verus!
