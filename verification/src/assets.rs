//! Asset path construction. The host finds the asset root (an environment
//! lookup it performs itself) and the library forms the file path of a
//! named asset under it.

use vstd::prelude::*;

use vstd::string::StringExecFns;

verus! {

/// The path of the texture file `name` under the asset root directory.
pub fn get_texture_file_path(root: &str, name: &str) -> (r: String)
    ensures
        r@ == root@ + "/"@ + name@,
{
    let mut path = String::from_str(root);
    path.append("/");
    path.append(name);
    path
}

} // verus!
