//! Pipeline configuration.
use vstd::prelude::*;

verus! {

/// The source dialect a pipeline's trees come from.
#[derive(Clone, Copy, Debug, PartialEq, Eq, Structural)]
pub enum Syntax {
    Es,
    Ts,
}

/// The default source dialect.
pub fn syntax() -> (s: Syntax)
    ensures
        s == Syntax::Es,
{
    Syntax::Es
}

} // verus!
