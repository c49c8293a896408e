//! The command dispatcher's argument rewriting: the template argument list
//! becomes the final one by substituting the workspace file's path for the
//! placeholder, or by appending the path when no placeholder is configured.
//! The policy is all-or-nothing per run: the placeholder's presence alone
//! decides between substitution and appending, whether or not any argument
//! actually holds the placeholder's text.

use crate::bytes::copy_bytes;
use crate::replace::replace_all;
use crate::replace::replace_bytes;
use vstd::prelude::*;

verus! {

/// The final argument list. With a placeholder, every occurrence of it in
/// every argument becomes `path` and the list keeps its length; without one,
/// the arguments are kept unchanged and `path` is appended as one extra
/// final argument, however many arguments there are — none included.
pub fn rewrite_args(
    arguments: &Vec<Vec<u8>>,
    placeholder: &Option<Vec<u8>>,
    path: &Vec<u8>,
) -> (out: Vec<Vec<u8>>)
    ensures
        placeholder matches Some(pat) ==> (out@.len() == arguments@.len() && (forall|i: int|
            0 <= i < arguments@.len() ==> out@[i]@ == replace_all(arguments@[i]@, pat@, path@))),
        placeholder is None ==> (out@.len() == arguments@.len() + 1 && (forall|i: int|
            0 <= i < arguments@.len() ==> out@[i]@ == arguments@[i]@) && out@[arguments@.len() as int]@
            == path@),
{
    let mut out: Vec<Vec<u8>> = Vec::new();
    match placeholder {
        Some(pat) => {
            let mut i: usize = 0;
            while i < arguments.len()
                invariant
                    i <= arguments@.len(),
                    out@.len() == i,
                    forall|k: int|
                        0 <= k < i ==> out@[k]@ == replace_all(arguments@[k]@, pat@, path@),
                decreases arguments@.len() - i,
            {
                out.push(replace_bytes(&arguments[i], pat, path));
                i = i + 1;
            }
        },
        None => {
            let mut i: usize = 0;
            while i < arguments.len()
                invariant
                    i <= arguments@.len(),
                    out@.len() == i,
                    forall|k: int| 0 <= k < i ==> out@[k]@ == arguments@[k]@,
                decreases arguments@.len() - i,
            {
                out.push(copy_bytes(&arguments[i]));
                i = i + 1;
            }
            out.push(copy_bytes(path));
        },
    }
    out
}

} // verus!
