//! The tree walker's bookkeeping: the stack of paths still to visit, the
//! decision taken for each visited path, and the diagnostics for the
//! per-entry failures that traversal tolerates.
//!
//! The walker itself performs no filesystem access. The surrounding program
//! pops a pending path, asks the filesystem about it, and hands the answer
//! back: the kind of the entry through [`classify`], a directory listing
//! through [`Walker::found_entries`], or nothing at all when the entry
//! vanished or was unreadable, in which case only a diagnostic is emitted
//! and the rest of the pending work is untouched.

use vstd::multiset::Multiset;
use vstd::prelude::*;
use vstd::seq_lib::group_seq_lib_default;
use vstd::string::StringExecFns;

use crate::policy::is_prefix_of;
use crate::policy::lemma_excluded_prefix_never_scanned;
use crate::policy::should_scan;
use crate::policy::spec_should_scan;

verus! {

broadcast use group_seq_lib_default;

/// What a pending path turned out to be.
pub enum EntryKind {
    /// A regular file.
    File,
    /// A directory.
    Dir,
    /// Anything else: special files, broken symlinks, vanished entries.
    Other,
}

/// The walker's decision for a visited path.
pub enum WalkStep {
    /// Canonicalize the path and enqueue it for hashing.
    Hash(String),
    /// List the directory and feed the entries back to the walker.
    Descend(String),
    /// Silently ignore the entry.
    Ignore,
}

/// Decides what traversal does with a path of the given kind: a regular
/// file is hashed, a directory is descended into, anything else is
/// silently ignored.
pub fn classify(path: String, kind: EntryKind) -> (s: WalkStep)
    ensures
        kind is File ==> s == WalkStep::Hash(path),
        kind is Dir ==> s == WalkStep::Descend(path),
        kind is Other ==> s == WalkStep::Ignore,
{
    match kind {
        EntryKind::File => WalkStep::Hash(path),
        EntryKind::Dir => WalkStep::Descend(path),
        EntryKind::Other => WalkStep::Ignore,
    }
}

/// The entries of one directory listing that the skip policy lets through.
pub open spec fn scanned_entries(entries: Seq<Seq<char>>) -> Seq<Seq<char>> {
    entries.filter(|p: Seq<char>| spec_should_scan(p))
}

/// From one directory listing the walker takes up exactly the entries that
/// pass the skip policy — each as often as it occurs in the listing, no
/// omissions — and never an excluded one.
pub proof fn lemma_scanned_entries_exact(entries: Seq<Seq<char>>)
    ensures
        forall|p: Seq<char>|
            spec_should_scan(p) ==> #[trigger] scanned_entries(entries).to_multiset().count(p)
                == entries.to_multiset().count(p),
        forall|p: Seq<char>|
            !spec_should_scan(p) ==> #[trigger] scanned_entries(entries).to_multiset().count(p)
                == 0,
    decreases entries.len(),
{
    broadcast use vstd::seq_lib::group_to_multiset_ensures;

    reveal(Seq::filter);
    if entries.len() == 0 {
        assert(entries.to_multiset() =~= Multiset::empty());
        assert(scanned_entries(entries).to_multiset() =~= Multiset::empty());
    } else {
        let head = entries.drop_last();
        let last = entries.last();
        lemma_scanned_entries_exact(head);
        assert(entries =~= head.push(last));
        assert(entries.to_multiset() == head.to_multiset().insert(last));
        if spec_should_scan(last) {
            assert(scanned_entries(entries) == scanned_entries(head).push(last));
            assert(scanned_entries(entries).to_multiset() == scanned_entries(
                head,
            ).to_multiset().insert(last));
        } else {
            assert(scanned_entries(entries) == scanned_entries(head));
        }
    }
}

/// A path under an excluded prefix is never taken up from a directory
/// listing, however often it occurs there — so it is never visited,
/// never canonicalized, and never handed to the work queue.
pub proof fn lemma_excluded_never_taken(entries: Seq<Seq<char>>, p: Seq<char>)
    requires
        is_prefix_of("/dev/"@, p) || is_prefix_of("/proc/"@, p) || is_prefix_of("/sys/"@, p),
    ensures
        scanned_entries(entries).to_multiset().count(p) == 0,
{
    lemma_excluded_prefix_never_scanned(p);
    lemma_scanned_entries_exact(entries);
}

/// The traversal state: the stack of paths discovered but not yet visited.
/// Its view is the sequence of those paths, bottom of the stack first.
pub struct Walker {
    pending: Vec<String>,
}

impl View for Walker {
    type V = Seq<Seq<char>>;

    closed spec fn view(&self) -> Seq<Seq<char>> {
        self.pending.deep_view()
    }
}

impl Walker {
    /// Starts a traversal at the given root: the root itself is the one
    /// pending path.
    pub fn new(root: String) -> (w: Walker)
        ensures
            w@ == seq![root@],
    {
        let mut pending: Vec<String> = Vec::new();
        pending.push(root);
        let w = Walker { pending };
        proof {
            assert(w@ =~= seq![root@]);
        }
        w
    }

    /// Whether any discovered path still waits to be visited.
    pub fn has_pending(&self) -> (r: bool)
        ensures
            r == (self@.len() > 0),
    {
        self.pending.len() != 0
    }

    /// Takes the next path to visit, if any: the most recently discovered
    /// one leaves the stack; the rest stay untouched. Returns `None` exactly
    /// when traversal is complete.
    pub fn next_path(&mut self) -> (r: Option<String>)
        ensures
            old(self)@.len() == 0 ==> r is None && final(self)@ == old(self)@,
            old(self)@.len() > 0 ==> (r matches Some(p) && p@ == old(self)@.last()
                && final(self)@ == old(self)@.drop_last()),
    {
        let r = self.pending.pop();
        proof {
            if old(self)@.len() == 0 {
                assert(self@ =~= old(self)@);
            } else {
                assert(self@ =~= old(self)@.drop_last());
            }
        }
        r
    }

    /// Feeds one directory listing to the walker: exactly the entries that
    /// pass the skip policy become pending, in listing order, after the work
    /// already pending; an excluded entry is neither traversed nor
    /// canonicalized.
    pub fn found_entries(&mut self, entries: Vec<String>)
        ensures
            final(self)@ == old(self)@ + scanned_entries(entries.deep_view()),
    {
        let ghost dv = entries.deep_view();
        let mut i: usize = 0;
        while i < entries.len()
            invariant
                i <= entries.len(),
                dv == entries.deep_view(),
                dv.len() == entries.len(),
                self@ == old(self)@ + scanned_entries(dv.take(i as int)),
            decreases entries.len() - i,
        {
            let ghost prev = self@;
            proof {
                reveal(Seq::filter);
                assert(dv.take(i + 1).drop_last() =~= dv.take(i as int));
                assert(dv.take(i + 1).last() == dv[i as int]);
            }
            let e = entries[i].clone();
            proof {
                assert(e@ == dv[i as int]);
            }
            if should_scan(e.as_str()) {
                self.pending.push(e);
                proof {
                    reveal(Seq::filter);
                    assert(scanned_entries(dv.take(i + 1)) == scanned_entries(
                        dv.take(i as int),
                    ).push(dv[i as int]));
                    assert(self@ =~= prev.push(dv[i as int]));
                    assert(self@ =~= old(self)@ + scanned_entries(dv.take(i + 1)));
                }
            } else {
                proof {
                    reveal(Seq::filter);
                    assert(scanned_entries(dv.take(i + 1)) == scanned_entries(dv.take(i as int)));
                    assert(self@ =~= old(self)@ + scanned_entries(dv.take(i + 1)));
                }
            }
            i += 1;
        }
        proof {
            assert(dv.take(entries.len() as int) =~= dv);
        }
    }
}

/// The diagnostic for a path whose metadata could not be read: traversal
/// skips only that entry.
pub fn scan_failure_line(path: &str, err: &str) -> (r: String)
    ensures
        r@ == "Failed to scan "@ + path@ + ". "@ + err@,
{
    let mut r = String::from_str("Failed to scan ");
    r.append(path);
    r.append(". ");
    r.append(err);
    r
}

/// The diagnostic for a directory whose listing failed: traversal skips
/// only that subtree.
pub fn read_dir_failure_line(path: &str, err: &str) -> (r: String)
    ensures
        r@ == "Failed to read "@ + path@ + ". "@ + err@,
{
    let mut r = String::from_str("Failed to read ");
    r.append(path);
    r.append(". ");
    r.append(err);
    r
}

/// The diagnostic for a discovered file that could not be handed to the
/// work queue.
pub fn send_failure_line(path: &str, err: &str) -> (r: String)
    ensures
        r@ == "Failed to send filename "@ + path@ + ". "@ + err@,
{
    let mut r = String::from_str("Failed to send filename ");
    r.append(path);
    r.append(". ");
    r.append(err);
    r
}

} // verus!
