//! File and directory pickers: what the system is asked for, and how its
//! answer becomes the dialog's output.
use vstd::prelude::*;

use crate::{Error, Result};
use std::path::Path;

verus! {

/// A borrowed file-system path.
#[verifier::external_type_specification]
#[verifier::external_body]
pub struct ExPath(std::path::Path);

/// Pick one existing file.
pub struct OpenSingleFile<'a> {
    pub dir: Option<&'a Path>,
    pub filter: Option<&'a [&'a str]>,
}

/// Pick one or more existing files.
pub struct OpenMultipleFile<'a> {
    pub dir: Option<&'a Path>,
    pub filter: Option<&'a [&'a str]>,
}

/// Pick one existing directory.
pub struct OpenSingleDir<'a> {
    pub dir: Option<&'a Path>,
}

/// Choose where to save a file.
pub struct SaveFile<'a> {
    pub dir: Option<&'a Path>,
    pub name: &'a str,
}

/// What an open dialog selects.
#[derive(PartialEq, Eq, Structural, Clone, Copy, Debug)]
pub enum OpenDialogTarget {
    File,
    Directory,
}

/// Option bit: only folders can be picked.
pub const FOS_PICKFOLDERS: u32 = 0x20;

/// Option bit: several items can be picked.
pub const FOS_ALLOWMULTISELECT: u32 = 0x200;

/// Option bit: the path must exist.
pub const FOS_PATHMUSTEXIST: u32 = 0x800;

/// Option bit: the file must exist.
pub const FOS_FILEMUSTEXIST: u32 = 0x1000;

/// What an open dialog is asked to show.
pub struct OpenDialogParams<'a> {
    pub dir: Option<&'a Path>,
    pub filter: Option<&'a [&'a str]>,
    pub multiple: bool,
    pub target: OpenDialogTarget,
}

/// The system's answer to an open dialog, with `P` for a path.
pub enum OpenOutcome<P> {
    /// The user picked `first`, and `all` is every item picked, in order.
    Picked { first: P, all: Vec<P> },
    /// The user closed the dialog without picking.
    Cancelled,
    /// The picked item has no file-system path.
    UnsupportedPath,
    /// A system call failed; `method` names it.
    Failed { method: String },
}

/// The option word of an open dialog: the path and the file must exist, with
/// multiple selection and folder picking added as asked.
pub open spec fn options_spec(multiple: bool, target: OpenDialogTarget) -> u32 {
    FOS_PATHMUSTEXIST | FOS_FILEMUSTEXIST | (if multiple {
        FOS_ALLOWMULTISELECT
    } else {
        0u32
    }) | (if target == OpenDialogTarget::Directory {
        FOS_PICKFOLDERS
    } else {
        0u32
    })
}

/// The filter pattern for the extensions `exts`: `*.` before each, `;` between them.
pub open spec fn pattern_spec(exts: Seq<Seq<char>>) -> Seq<char>
    decreases exts.len(),
{
    if exts.len() == 0 {
        Seq::empty()
    } else if exts.len() == 1 {
        seq!['*', '.'] + exts[0]
    } else {
        pattern_spec(exts.drop_last()) + seq![';', '*', '.'] + exts.last()
    }
}

/// The error that an open dialog's failure becomes.
pub open spec fn failure_spec<P>(o: OpenOutcome<P>) -> Option<Error> {
    match o {
        OpenOutcome::Failed { method } => Some(Error::ImplementationError(method)),
        OpenOutcome::UnsupportedPath => Some(Error::UnexpectedOutput(UNSUPPORTED_PATH)),
        _ => None,
    }
}

/// The text of the error for a picked item without a file-system path.
pub const UNSUPPORTED_PATH: &'static str = "the selected item has no file-system path";

/// The filter pattern for the extensions `exts`, as in `*.png;*.jpg`.
pub fn file_types_pattern(exts: &[&str]) -> (r: String)
    ensures
        r@ == pattern_spec(exts@.map_values(|e: &str| e@)),
{
    let ghost views = exts@.map_values(|e: &str| e@);
    let mut r = String::new();
    let mut i: usize = 0;
    proof {
        assert(views.take(0) =~= Seq::<Seq<char>>::empty());
    }
    while i < exts.len()
        invariant
            0 <= i <= exts@.len(),
            views == exts@.map_values(|e: &str| e@),
            r@ == pattern_spec(views.take(i as int)),
        decreases exts@.len() - i,
    {
        let ghost before = r@;
        proof {
            reveal_strlit("*.");
            reveal_strlit(";*.");
            assert("*."@ =~= seq!['*', '.']);
            assert(";*."@ =~= seq![';', '*', '.']);
        }
        if i == 0 {
            r.append("*.");
        } else {
            r.append(";*.");
        }
        r.append(exts[i]);
        proof {
            assert(views.take(i + 1).drop_last() =~= views.take(i as int));
            assert(views.take(i + 1).last() == exts@[i as int]@);
            if i == 0 {
                assert(views.take(1)[0] == exts@[0]@);
                assert(before =~= Seq::<char>::empty());
                assert(r@ =~= seq!['*', '.'] + exts@[0]@);
            } else {
                assert(r@ =~= before + seq![';', '*', '.'] + exts@[i as int]@);
            }
        }
        i = i + 1;
    }
    proof {
        assert(views.take(exts@.len() as int) =~= views);
    }
    r
}

impl<'a> OpenSingleFile<'a> {
    /// The request: one file, under `dir`, with the extensions of `filter`.
    pub fn params(&self) -> (r: OpenDialogParams<'a>)
        ensures
            r.dir == self.dir,
            r.filter == self.filter,
            !r.multiple,
            r.target == OpenDialogTarget::File,
    {
        OpenDialogParams { dir: self.dir, filter: self.filter, multiple: false, target: OpenDialogTarget::File }
    }

    /// The dialog's output: the file picked, if any.
    pub fn output<P>(o: OpenOutcome<P>) -> (r: Result<Option<P>>)
        ensures
            o matches OpenOutcome::Picked { first, .. } ==> r == Ok::<Option<P>, Error>(Some(first)),
            o is Cancelled ==> r == Ok::<Option<P>, Error>(None),
            failure_spec(o) matches Some(e) ==> r == Err::<Option<P>, Error>(e),
    {
        pick_one(o)
    }
}

impl<'a> OpenMultipleFile<'a> {
    /// The request: several files, under `dir`, with the extensions of `filter`.
    pub fn params(&self) -> (r: OpenDialogParams<'a>)
        ensures
            r.dir == self.dir,
            r.filter == self.filter,
            r.multiple,
            r.target == OpenDialogTarget::File,
    {
        OpenDialogParams { dir: self.dir, filter: self.filter, multiple: true, target: OpenDialogTarget::File }
    }

    /// The dialog's output: every file picked, none if the user cancelled.
    pub fn output<P>(o: OpenOutcome<P>) -> (r: Result<Vec<P>>)
        ensures
            o matches OpenOutcome::Picked { all, .. } ==> (r matches Ok(v) && v@ == all@),
            o is Cancelled ==> (r matches Ok(v) && v@.len() == 0),
            failure_spec(o) matches Some(e) ==> r == Err::<Vec<P>, Error>(e),
    {
        match o {
            OpenOutcome::Picked { first: _, all } => Ok(all),
            OpenOutcome::Cancelled => Ok(Vec::new()),
            OpenOutcome::UnsupportedPath => Err(Error::UnexpectedOutput(UNSUPPORTED_PATH)),
            OpenOutcome::Failed { method } => Err(Error::ImplementationError(method)),
        }
    }
}

impl<'a> OpenSingleDir<'a> {
    /// The request: one directory, under `dir`, with no filter.
    pub fn params(&self) -> (r: OpenDialogParams<'a>)
        ensures
            r.dir == self.dir,
            r.filter is None,
            !r.multiple,
            r.target == OpenDialogTarget::Directory,
    {
        OpenDialogParams { dir: self.dir, filter: None, multiple: false, target: OpenDialogTarget::Directory }
    }

    /// The dialog's output: the directory picked, if any.
    pub fn output<P>(o: OpenOutcome<P>) -> (r: Result<Option<P>>)
        ensures
            o matches OpenOutcome::Picked { first, .. } ==> r == Ok::<Option<P>, Error>(Some(first)),
            o is Cancelled ==> r == Ok::<Option<P>, Error>(None),
            failure_spec(o) matches Some(e) ==> r == Err::<Option<P>, Error>(e),
    {
        pick_one(o)
    }
}

/// The first item picked, none if the user cancelled.
fn pick_one<P>(o: OpenOutcome<P>) -> (r: Result<Option<P>>)
    ensures
        o matches OpenOutcome::Picked { first, .. } ==> r == Ok::<Option<P>, Error>(Some(first)),
        o is Cancelled ==> r == Ok::<Option<P>, Error>(None),
        failure_spec(o) matches Some(e) ==> r == Err::<Option<P>, Error>(e),
{
    match o {
        OpenOutcome::Picked { first, all: _ } => Ok(Some(first)),
        OpenOutcome::Cancelled => Ok(None),
        OpenOutcome::UnsupportedPath => Err(Error::UnexpectedOutput(UNSUPPORTED_PATH)),
        OpenOutcome::Failed { method } => Err(Error::ImplementationError(method)),
    }
}

impl<'a> OpenDialogParams<'a> {
    /// The option word handed to the system.
    pub fn options(&self) -> (r: u32)
        ensures
            r == options_spec(self.multiple, self.target),
    {
        let multiple: u32 = if self.multiple {
            FOS_ALLOWMULTISELECT
        } else {
            0u32
        };
        let folders: u32 = if self.target == OpenDialogTarget::Directory {
            FOS_PICKFOLDERS
        } else {
            0u32
        };
        FOS_PATHMUSTEXIST | FOS_FILEMUSTEXIST | multiple | folders
    }

    /// The filter pattern, if the request has a filter.
    pub fn file_types(&self) -> (r: Option<String>)
        ensures
            self.filter matches Some(f) ==> (r matches Some(p) && p@ == pattern_spec(
                f@.map_values(|e: &str| e@),
            )),
            self.filter is None ==> r is None,
    {
        match self.filter {
            Some(f) => Some(file_types_pattern(f)),
            None => None,
        }
    }
}

} // verus!
