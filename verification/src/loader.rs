//! The module loader's path policy and its fallback rule.
//!
//! When a script imports a module, the loader first tries the file
//! `<name>.wren`; failing that it treats the name as a directory and tries
//! `<name>/module.wren`; and if neither yields source it reports the module
//! absent.  Reading files is the embedder's business — this module decides
//! which paths to try and which result to hand the runtime.

use vstd::prelude::*;
use vstd::utf8::encode_utf8;

verus! {

/// The bytes of `".wren"`.
pub open spec fn file_suffix() -> Seq<u8> {
    seq![46u8, 119u8, 114u8, 101u8, 110u8]
}

/// The bytes of `"/module.wren"`.
pub open spec fn dir_suffix() -> Seq<u8> {
    seq![47u8, 109u8, 111u8, 100u8, 117u8, 108u8, 101u8, 46u8, 119u8, 114u8, 101u8, 110u8]
}

/// The path tried first for a module: `<name>.wren`.
pub open spec fn module_file_spec(name: Seq<char>) -> Seq<u8> {
    encode_utf8(name) + file_suffix()
}

/// The fallback path: `<name>/module.wren`.
pub open spec fn module_dir_file_spec(name: Seq<char>) -> Seq<u8> {
    encode_utf8(name) + dir_suffix()
}

/// Builds the path tried first for module `name`.
pub fn module_file_path(name: &str) -> (path: Vec<u8>)
    ensures
        path@ == module_file_spec(name@),
{
    let mut path = vstd::slice::slice_to_vec(name.as_bytes());
    path.push(46);
    path.push(119);
    path.push(114);
    path.push(101);
    path.push(110);
    proof {
        assert(path@ =~= module_file_spec(name@));
    }
    path
}

/// Builds the fallback path for module `name`.
pub fn module_dir_file_path(name: &str) -> (path: Vec<u8>)
    ensures
        path@ == module_dir_file_spec(name@),
{
    let mut path = vstd::slice::slice_to_vec(name.as_bytes());
    path.push(47);
    path.push(109);
    path.push(111);
    path.push(100);
    path.push(117);
    path.push(108);
    path.push(101);
    path.push(46);
    path.push(119);
    path.push(114);
    path.push(101);
    path.push(110);
    proof {
        assert(path@ =~= module_dir_file_spec(name@));
    }
    path
}

/// Picks what the loader reports: the first path's contents when that file
/// could be read — even empty source counts — otherwise the fallback's, and
/// absent when neither was readable.
pub fn choose_module_source(primary: Option<String>, fallback: Option<String>) -> (source: Option<
    String,
>)
    ensures
        primary is Some ==> source == primary,
        primary is None ==> source == fallback,
{
    match primary {
        Some(text) => Some(text),
        None => fallback,
    }
}

} // verus!
