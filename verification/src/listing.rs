//! The compute half of the directory lister.
//!
//! The filesystem edge reads a directory and classifies each direct child;
//! this module turns that raw outcome into the listing a pane stores: the
//! regular files, in the order they were handed in, and the empty listing
//! whenever the directory could not be read at all. The lister never fails
//! its caller.

use vstd::prelude::*;

verus! {

/// What the filesystem said one directory child is.
#[derive(Clone, Copy, Debug, PartialEq, Eq, Structural)]
pub enum ChildKind {
    /// A regular file.
    RegularFile,
    /// Something else that could be classified: a directory, symlink, pipe, ...
    Other,
    /// The child's metadata could not be read.
    Unknown,
}

/// One direct child of a directory, as the filesystem edge hands it in:
/// its path and what it was classified as.
#[derive(Clone, Debug, PartialEq)]
pub struct DirChild {
    pub path: String,
    pub kind: ChildKind,
}

/// Ghost view of a [`DirChild`].
#[verifier::ext_equal]
pub ghost struct DirChildV {
    pub path: Seq<char>,
    pub kind: ChildKind,
}

impl View for DirChild {
    type V = DirChildV;

    open spec fn view(&self) -> DirChildV {
        DirChildV { path: self.path@, kind: self.kind }
    }
}

impl DeepView for DirChild {
    type V = DirChildV;

    open spec fn deep_view(&self) -> DirChildV {
        self@
    }
}

/// The paths of the regular files among the children, in their given
/// order. A child whose metadata could not be read is excluded, never a
/// reason to fail.
pub open spec fn spec_selected_files(children: Seq<DirChildV>) -> Seq<Seq<char>>
    decreases children.len(),
{
    if children.len() == 0 {
        Seq::empty()
    } else {
        let rest = spec_selected_files(children.drop_last());
        if children.last().kind is RegularFile {
            rest.push(children.last().path)
        } else {
            rest
        }
    }
}

/// What a directory listing yields: the regular files among the children
/// when the directory could be opened, and the empty listing when it could
/// not (`None`).
pub open spec fn spec_listing(outcome: Option<Seq<DirChildV>>) -> Seq<Seq<char>> {
    match outcome {
        Option::Some(children) => spec_selected_files(children),
        Option::None => Seq::empty(),
    }
}

/// Keep the regular files among the children, in order.
pub fn select_files(children: Vec<DirChild>) -> (r: Vec<String>)
    ensures
        r.deep_view() == spec_selected_files(children.deep_view()),
{
    let ghost cv = children.deep_view();
    let mut out: Vec<String> = Vec::new();
    let mut i: usize = 0;
    proof {
        assert(out.deep_view() =~= spec_selected_files(cv.take(0)));
    }
    while i < children.len()
        invariant
            i <= children.len(),
            cv == children.deep_view(),
            out.deep_view() == spec_selected_files(cv.take(i as int)),
        decreases children.len() - i,
    {
        let child = &children[i];
        proof {
            assert(cv.take(i + 1).drop_last() =~= cv.take(i as int));
            assert(cv.take(i + 1).last() == child@);
        }
        match child.kind {
            ChildKind::RegularFile => {
                let ghost before = out.deep_view();
                out.push(child.path.clone());
                proof {
                    assert(out.deep_view() =~= before.push(child.path@));
                }
            },
            _ => {},
        }
        i = i + 1;
    }
    proof {
        assert(cv.take(i as int) =~= cv);
    }
    out
}

/// Turn a raw read of a directory into the listing a pane stores. An
/// unreadable directory (`None`) yields the empty listing; the call never
/// fails.
pub fn listed_files(outcome: Option<Vec<DirChild>>) -> (r: Vec<String>)
    ensures
        r.deep_view() == spec_listing(outcome.deep_view()),
{
    match outcome {
        Option::Some(children) => select_files(children),
        Option::None => {
            let out: Vec<String> = Vec::new();
            proof {
                assert(out.deep_view() =~= Seq::<Seq<char>>::empty());
            }
            out
        },
    }
}

} // verus!
