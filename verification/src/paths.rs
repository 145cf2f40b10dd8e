//! Where the local files are: the names below the configuration root.

use vstd::prelude::*;

verus! {

/// The directory of the input method, below the configuration root.
pub const RIME_DIR: &'static str = "Rime";

/// The local user dictionary, in [`RIME_DIR`]. It is only ever appended to.
pub const FILE_NAME: &'static str = "flypy_user.txt";

/// The backup of the local user dictionary, beside it. It is made once.
pub const BACK_FILE: &'static str = "flypy_user.txt.back";

} // verus!
