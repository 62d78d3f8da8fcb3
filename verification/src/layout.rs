//! Where things lie on disk, relative to the project directory: the libraries
//! root, each library's header directory, and the directory that receives the
//! generated files. Paths are built here as text; nothing in this module
//! touches the file system.

use vstd::prelude::*;
use vstd::string::*;

verus! {

/// Name of the directory from which the generator must be started.
pub const PROJECT_DIRECTORY_NAME: &'static str = "binding-generator";

/// Directory that receives the generated files.
pub const BINDING_DIR: &'static str = "../xlib-sys/src/generated_bindings";

/// Directory with one subdirectory per C library.
pub const C_LIBRARIES_DIR: &'static str = "../modules";

/// Name of the header directory inside a library's directory.
pub const HEADER_DIR_NAME: &'static str = "include";

/// `base` extended by `component`, with `/` as the separator.
///
/// An absolute `component` replaces `base`; otherwise one separator is placed
/// between the two unless `base` is empty or already ends in one.
pub open spec fn joined(base: Seq<char>, component: Seq<char>) -> Seq<char> {
    if component.len() > 0 && component[0] == '/' {
        component
    } else if base.len() == 0 || base.last() == '/' {
        base + component
    } else {
        base.push('/') + component
    }
}

/// Path of the header `fragment` of the library in `library`, below the
/// libraries root, before it is resolved to an absolute path.
pub open spec fn header_location(library: Seq<char>, fragment: Seq<char>) -> Seq<char> {
    joined(joined(joined(C_LIBRARIES_DIR@, library), HEADER_DIR_NAME@), fragment)
}

/// Extends `base` by `component`.
pub fn join(base: &str, component: &str) -> (path: String)
    ensures
        path@ == joined(base@, component@),
{
    let base_len: usize = base.unicode_len();
    if component.unicode_len() > 0 && component.get_char(0) == '/' {
        String::from_str(component)
    } else if base_len == 0 || base.get_char(base_len - 1) == '/' {
        let mut path = String::from_str(base);
        path.append(component);
        path
    } else {
        let mut path = String::from_str(base);
        proof {
            reveal_strlit("/");
        }
        path.append("/");
        assert(path@ == base@.push('/'));
        path.append(component);
        path
    }
}

/// Whether a directory of this name is the project directory.
pub fn in_project_directory(directory_name: &str) -> (yes: bool)
    ensures
        yes == (directory_name@ == PROJECT_DIRECTORY_NAME@),
{
    String::from_str(directory_name) == String::from_str(PROJECT_DIRECTORY_NAME)
}

/// Path of a header below the libraries root, not yet resolved.
pub fn header_path(library_dir_name: &str, include_path: &str) -> (path: String)
    ensures
        path@ == header_location(library_dir_name@, include_path@),
{
    let library = join(C_LIBRARIES_DIR, library_dir_name);
    let headers = join(library.as_str(), HEADER_DIR_NAME);
    join(headers.as_str(), include_path)
}

/// Path of the generated file called `output_file_name`.
pub fn output_path(output_file_name: &str) -> (path: String)
    ensures
        path@ == joined(BINDING_DIR@, output_file_name@),
{
    join(BINDING_DIR, output_file_name)
}

} // verus!
