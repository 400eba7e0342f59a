//! The write-once startup path list.
//!
//! The scanner's result is captured into process-wide state exactly once,
//! before the GUI event loop starts; every later capture attempt is a silent
//! no-op, and the frontend may fetch the list any number of times. This
//! module holds that single-assignment slot and proves the capture and fetch
//! semantics; the program around the library keeps one instance of it alive
//! for the process lifetime.

use vstd::prelude::*;

verus! {

/// What a capture attempt leaves in the slot: the first capture fills it,
/// every later one leaves it as it was.
pub open spec fn captured(
    slot: Option<Seq<Seq<char>>>,
    paths: Seq<Seq<char>>,
) -> Option<Seq<Seq<char>>> {
    if slot is None {
        Some(paths)
    } else {
        slot
    }
}

/// What a fetch returns: the captured list, or the empty sequence while
/// nothing has been captured.
pub open spec fn fetched(slot: Option<Seq<Seq<char>>>) -> Seq<Seq<char>> {
    match slot {
        Some(paths) => paths,
        None => Seq::empty(),
    }
}

/// The single-assignment slot for the startup path list.
pub struct StartupPaths {
    paths: Option<Vec<String>>,
}

impl View for StartupPaths {
    type V = Option<Seq<Seq<char>>>;

    closed spec fn view(&self) -> Option<Seq<Seq<char>>> {
        match self.paths {
            Some(paths) => Some(paths.deep_view()),
            None => None,
        }
    }
}

impl StartupPaths {
    /// An empty slot: nothing captured yet.
    pub fn new() -> (s: Self)
        ensures
            s@ is None,
    {
        StartupPaths { paths: None }
    }

    /// Capture the scanner's result. The first call fills the slot; any
    /// later call changes nothing and reports no error.
    pub fn capture(&mut self, paths: Vec<String>)
        ensures
            final(self)@ == captured(old(self)@, paths.deep_view()),
    {
        if self.paths.is_none() {
            self.paths = Some(paths);
        }
    }

    /// Fetch the captured startup path list, or the empty list while the
    /// scanner has not run. Never an error.
    pub fn get_cli_pdf_paths(&self) -> (r: Vec<String>)
        ensures
            r.deep_view() == fetched(self@),
    {
        match &self.paths {
            Some(paths) => clone_paths(paths),
            None => Vec::new(),
        }
    }
}

/// Clone a list of paths, keeping every element's characters.
fn clone_paths(paths: &Vec<String>) -> (r: Vec<String>)
    ensures
        r.deep_view() == paths.deep_view(),
{
    let mut r: Vec<String> = Vec::new();
    let mut i: usize = 0;
    while i < paths.len()
        invariant
            i <= paths@.len(),
            r.deep_view() =~= paths.deep_view().take(i as int),
        decreases paths@.len() - i,
    {
        let ghost prev = r.deep_view();
        r.push(paths[i].clone());
        proof {
            assert(r.deep_view() =~= prev.push(paths.deep_view()[i as int]));
            assert(prev.push(paths.deep_view()[i as int]) =~= paths.deep_view().take(i + 1));
        }
        i += 1;
    }
    proof {
        assert(paths.deep_view().take(paths@.len() as int) =~= paths.deep_view());
    }
    r
}

/// A capture that follows another changes nothing: whatever the slot held
/// after the first capture, a second capture — of any list — leaves it, so
/// the result of the first call stands.
pub proof fn lemma_capture_idempotent(
    slot: Option<Seq<Seq<char>>>,
    first: Seq<Seq<char>>,
    second: Seq<Seq<char>>,
)
    ensures
        captured(captured(slot, first), second) == captured(slot, first),
{
}

/// What the first capture into an empty slot stores is exactly what a fetch
/// then returns.
pub proof fn lemma_first_capture_fetched(paths: Seq<Seq<char>>)
    ensures
        fetched(captured(None, paths)) == paths,
{
}

/// A fetch before any capture returns the empty sequence, never an error.
pub proof fn lemma_fetch_before_capture()
    ensures
        fetched(None) =~= Seq::<Seq<char>>::empty(),
{
}

} // verus!
