use vstd::prelude::*;
use crate::error::PipelineError;

verus! {

/// One entry of a directory listing: its path, and whether it is itself a directory.
pub struct ListedEntry {
    pub path: String,
    pub is_dir: bool,
}

/// The paths of the entries that are not directories, in listing order.
pub open spec fn regular_paths(entries: Seq<ListedEntry>) -> Seq<Seq<char>>
    decreases entries.len(),
{
    if entries.len() == 0 {
        Seq::empty()
    } else if entries.last().is_dir {
        regular_paths(entries.drop_last())
    } else {
        regular_paths(entries.drop_last()).push(entries.last().path@)
    }
}

/// The sample files of a directory, given whether its path names a directory
/// and its listing: the entries that are not directories, in listing order.
/// Fails with `InvalidPath` when the path is no directory and with
/// `NoValidFiles` when no such entry is left.
pub fn get_files(path_is_dir: bool, entries: &Vec<ListedEntry>) -> (r: Result<
    Vec<String>,
    PipelineError,
>)
    ensures
        !path_is_dir ==> r == Err::<Vec<String>, PipelineError>(PipelineError::InvalidPath),
        path_is_dir && regular_paths(entries@).len() == 0 ==> r == Err::<Vec<String>, PipelineError>(
            PipelineError::NoValidFiles,
        ),
        path_is_dir && regular_paths(entries@).len() > 0 ==> (r matches Ok(files) && files@.len()
            == regular_paths(entries@).len() && forall|i: int|
            0 <= i < files@.len() ==> (#[trigger] files@[i])@ == regular_paths(entries@)[i]),
{
    if !path_is_dir {
        return Err(PipelineError::InvalidPath);
    }
    let mut files: Vec<String> = Vec::new();
    let mut i: usize = 0;
    while i < entries.len()
        invariant
            0 <= i <= entries@.len(),
            files@.len() == regular_paths(entries@.subrange(0, i as int)).len(),
            forall|k: int|
                0 <= k < files@.len() ==> (#[trigger] files@[k])@ == regular_paths(
                    entries@.subrange(0, i as int),
                )[k],
        decreases entries@.len() - i,
    {
        assert(entries@.subrange(0, i + 1).drop_last() =~= entries@.subrange(0, i as int));
        if !entries[i].is_dir {
            files.push(entries[i].path.clone());
        }
        i = i + 1;
    }
    assert(entries@.subrange(0, entries@.len() as int) =~= entries@);
    if files.len() == 0 {
        return Err(PipelineError::NoValidFiles);
    }
    Ok(files)
}

} // verus!
