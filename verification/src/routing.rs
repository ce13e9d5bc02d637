//! Routing of dynamically announced source pads: the first accepted
//! track's pad feeds the video depayloading branch, the second the
//! audio branch, and any other name is a logic error surfaced loudly.

use vstd::prelude::*;

verus! {

/// The downstream depayloading branch an announced pad is linked into.
#[derive(Clone, Copy, Debug, PartialEq, Eq, Structural)]
pub enum DepayBranch {
    Video,
    Audio,
}

/// An announced pad whose name fits neither expected assignment; by
/// design unreachable, so the caller fails loudly on it.
#[derive(Clone, Debug, PartialEq, Eq)]
pub struct RouteError {
    pub input: String,
}

/// Whether two strings are equal.
pub(crate) fn str_eq(a: &str, b: &str) -> (r: bool)
    ensures
        r == (a@ == b@),
{
    let an = a.unicode_len();
    let bn = b.unicode_len();
    if an != bn {
        return false;
    }
    let mut i: usize = 0;
    while i < an
        invariant
            an == a@.len(),
            bn == b@.len(),
            an == bn,
            i <= an,
            forall|j: int| 0 <= j < i ==> a@[j] == b@[j],
        decreases an - i,
    {
        if a.get_char(i) != b.get_char(i) {
            return false;
        }
        i = i + 1;
    }
    proof {
        assert(a@ =~= b@);
    }
    true
}

/// Routes a newly announced source pad by its assigned name: the first
/// accepted track's pad to the video branch, the second to the audio
/// branch. Any other name is refused with an error naming it.
pub fn route_pad(name: &str) -> (r: Result<DepayBranch, RouteError>)
    ensures
        name@ == "src_0"@ ==> r == Ok::<DepayBranch, RouteError>(DepayBranch::Video),
        name@ == "src_1"@ ==> r == Ok::<DepayBranch, RouteError>(DepayBranch::Audio),
        match r {
            Ok(b) => (name@ == "src_0"@ || name@ == "src_1"@),
            Err(e) => name@ != "src_0"@ && name@ != "src_1"@ && e.input@ == name@,
        },
{
    proof {
        reveal_strlit("src_0");
        reveal_strlit("src_1");
        assert("src_0"@[4] == '0');
        assert("src_1"@[4] == '1');
        assert("src_0"@ != "src_1"@);
    }
    if str_eq(name, "src_0") {
        Ok(DepayBranch::Video)
    } else if str_eq(name, "src_1") {
        Ok(DepayBranch::Audio)
    } else {
        Err(RouteError { input: name.to_owned() })
    }
}

} // verus!
