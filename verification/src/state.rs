//! Workspace state: the one cross-call shared record — the currently active
//! root folder — plus the update metadata the menu layer shows.
use vstd::prelude::*;
use vstd::string::{StrSliceExecFns, StringExecFns};

verus! {

/// The process-wide application state: the active workspace root, if any.
/// Persistence and locking live with the caller; this is the record itself
/// and the reads and writes on it.
#[derive(Clone, Debug)]
pub struct AppState {
    pub workspace: Option<String>,
}

impl Default for AppState {
    /// A fresh state has no workspace selected.
    fn default() -> (r: Self)
        ensures
            r.workspace is None,
    {
        AppState { workspace: None }
    }
}

/// The active workspace root, or the error shown when none is set.
pub fn get_workspace_root(state: &AppState) -> (r: Result<String, String>)
    ensures
        match state.workspace {
            Some(w) => r matches Ok(s) && s@ == w@,
            None => r matches Err(m) && m@ == "No workspace set"@,
        },
{
    match &state.workspace {
        Some(w) => Ok(w.clone()),
        None => Err(String::from_str("No workspace set")),
    }
}

/// Record a chosen folder as the workspace root.
pub fn set_workspace(state: &mut AppState, path: String)
    ensures
        final(state).workspace == Some(path),
{
    state.workspace = Some(path);
}

/// Lexicographic greater-than on character sequences, comparing code points
/// position by position; a proper prefix is smaller.
pub open spec fn lex_gt_from(a: Seq<char>, b: Seq<char>, i: int) -> bool
    decreases a.len() - i,
    when 0 <= i
{
    if i >= b.len() {
        i < a.len()
    } else if i >= a.len() {
        false
    } else if a[i] == b[i] {
        lex_gt_from(a, b, i + 1)
    } else {
        a[i] as u32 > b[i] as u32
    }
}

/// Whether `a` orders strictly after `b`.
pub open spec fn lex_gt(a: Seq<char>, b: Seq<char>) -> bool {
    lex_gt_from(a, b, 0)
}

/// What an available update offers, next to what is running.
#[derive(Clone, Debug)]
pub struct UpdateMetadata {
    pub version: String,
    pub current_version: String,
}

impl UpdateMetadata {
    /// Whether the offered version string orders after the running one; only
    /// then is the download entry added to the menu.
    pub fn is_newer(&self) -> (r: bool)
        ensures
            r == lex_gt(self.version@, self.current_version@),
    {
        let a: &str = self.version.as_str();
        let b: &str = self.current_version.as_str();
        let an: usize = a.unicode_len();
        let bn: usize = b.unicode_len();
        let mut i: usize = 0;
        loop
            invariant
                a@ == self.version@,
                b@ == self.current_version@,
                an == a@.len(),
                bn == b@.len(),
                0 <= i <= an,
                i <= bn,
                lex_gt(a@, b@) == lex_gt_from(a@, b@, i as int),
            ensures
                lex_gt(a@, b@) == (an > bn),
            decreases an - i,
        {
            if i >= an || i >= bn {
                proof {
                    assert(lex_gt_from(a@, b@, i as int) == (an > bn));
                }
                break ;
            }
            let ca = a.get_char(i);
            let cb = b.get_char(i);
            if ca != cb {
                return (ca as u32) > (cb as u32);
            }
            i = i + 1;
        }
        an > bn
    }
}

} // verus!
