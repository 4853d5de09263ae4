use vstd::prelude::*;
use vstd::string::StringExecFns;
use crate::text::{decimal, decimal_string};

verus! {

/// What `std::path::Path::parent` gives for a path.
pub uninterp spec fn parent_of(p: Seq<char>) -> Option<Seq<char>>;

/// What `std::path::Path::file_name` gives for a path.
pub uninterp spec fn file_name_of(p: Seq<char>) -> Option<Seq<char>>;

/// What `std::path::Path::join` gives for a base path and a path to add to it.
pub uninterp spec fn joined(base: Seq<char>, part: Seq<char>) -> Seq<char>;

/// The text of an optional path.
pub open spec fn opt_text(o: Option<String>) -> Option<Seq<char>> {
    match o {
        Some(s) => Some(s@),
        None => None,
    }
}

/// Relies on `std::path::Path::parent`: the path without its last component,
/// `None` for a path that ends in a root or a prefix, or that is empty.
#[verifier::external_body]
fn path_parent(p: &str) -> (r: Option<String>)
    ensures
        opt_text(r) == parent_of(p@),
        p@.len() == 0 ==> r is None,
{
    match std::path::Path::new(p).parent() {
        Some(q) => Some(q.to_string_lossy().into_owned()),
        None => None,
    }
}

/// Relies on `std::path::Path::file_name`: the last component of a path, if
/// it names a file or a directory.
#[verifier::external_body]
fn path_file_name(p: &str) -> (r: Option<String>)
    ensures
        opt_text(r) == file_name_of(p@),
{
    match std::path::Path::new(p).file_name() {
        Some(n) => Some(n.to_string_lossy().into_owned()),
        None => None,
    }
}

/// Relies on `std::path::Path::join`: `part` added to `base` as a further
/// component.
#[verifier::external_body]
fn path_join(base: &str, part: &str) -> (r: String)
    ensures
        r@ == joined(base@, part@),
{
    std::path::Path::new(base).join(part).to_string_lossy().into_owned()
}

/// Why a file of a batch cannot be copied.
#[derive(Debug, PartialEq, Eq)]
pub enum CopyError {
    /// The source path has no parent directory.
    NoParent(String),
    /// The source path has no file name.
    NoFileName(String),
}

/// The name of the directory that receives batch `i`: the output prefix,
/// an underscore and the batch index in decimal.
pub open spec fn dir_label(output: Seq<char>, i: nat) -> Seq<char> {
    output + seq!['_'] + decimal(i)
}

/// The directory that receives `file` when it is copied in batch `i`: the
/// label `<output>_<i>` joined onto the directory that holds the file itself,
/// so that each batch lands beside its sources rather than in one tree.
pub open spec fn dest_dir_of(file: Seq<char>, output: Seq<char>, i: nat) -> Option<Seq<char>> {
    match parent_of(file) {
        Some(parent) => Some(joined(parent, dir_label(output, i))),
        None => None,
    }
}

/// Builds `<output>_<chunk_num>`.
pub fn dir_name(output: &str, chunk_num: usize) -> (r: String)
    ensures
        r@ == dir_label(output@, chunk_num as nat),
{
    proof {
        reveal_strlit("_");
    }
    let r = String::from_str(output).concat("_");
    let digits = decimal_string(chunk_num);
    r.concat(digits.as_str())
}

/// The directory to create and copy `file` into for batch `chunk_num`, or
/// `NoParent` where the path has no parent.
pub fn dest_dir(file: &str, output: &str, chunk_num: usize) -> (r: Result<String, CopyError>)
    ensures
        r is Err <==> parent_of(file@) is None,
        r matches Err(e) ==> (e matches CopyError::NoParent(p) && p@ == file@),
        r matches Ok(d) ==> Some(d@) == dest_dir_of(file@, output@, chunk_num as nat),
        file@.len() == 0 ==> r is Err,
{
    match path_parent(file) {
        Some(parent) => {
            let label = dir_name(output, chunk_num);
            Ok(path_join(parent.as_str(), label.as_str()))
        },
        None => Err(CopyError::NoParent(String::from_str(file))),
    }
}

/// The path that `file` is copied to inside the directory `dir`: the file's
/// own name joined onto `dir`, or `NoFileName` where the path has no name.
pub fn dest_file(file: &str, dir: &str) -> (r: Result<String, CopyError>)
    ensures
        r is Err <==> file_name_of(file@) is None,
        r matches Err(e) ==> (e matches CopyError::NoFileName(p) && p@ == file@),
        r matches Ok(d) ==> (file_name_of(file@) matches Some(name) && d@ == joined(dir@, name)),
{
    match path_file_name(file) {
        Some(name) => Ok(path_join(dir, name.as_str())),
        None => Err(CopyError::NoFileName(String::from_str(file))),
    }
}

/// For a file with a parent directory, the destination directory of batch
/// `i` is exactly that parent joined with `<output>_<i>`, the index written
/// in decimal; a file without a parent has no destination.
pub proof fn lemma_dest_dir_shape(file: Seq<char>, output: Seq<char>, i: nat)
    ensures
        parent_of(file) is None ==> dest_dir_of(file, output, i) is None,
        parent_of(file) matches Some(parent) ==> dest_dir_of(file, output, i) == Some(
            joined(parent, output + seq!['_'] + decimal(i)),
        ),
{
}

} // verus!
