//! The target language-level version: the feature baseline the generated
//! plain-language code must remain compatible with.

use vstd::prelude::*;

verus! {

/// The language-level baseline the compiler backend lowers to.
#[derive(Clone, Copy, PartialEq, Eq, Structural, Debug)]
pub enum TargetVersion {
    Es3,
    Es5,
    Es2016,
    Es2020,
    Es2021,
    Es2022,
}

/// The textual name the compiler backend expects for a target version.
///
/// The two newest levels alias to the representation of `Es2020`: a known
/// approximation of this configuration surface, kept deliberately.
pub open spec fn spec_target_text(t: TargetVersion) -> Seq<char> {
    match t {
        TargetVersion::Es3 => "es3"@,
        TargetVersion::Es5 => "es5"@,
        TargetVersion::Es2016 => "es2016"@,
        TargetVersion::Es2020 => "es2020"@,
        TargetVersion::Es2021 => "es2020"@,
        TargetVersion::Es2022 => "es2020"@,
    }
}

impl TargetVersion {
    /// The name written into the backend's `target` option.
    pub fn as_str(&self) -> (r: &str)
        ensures
            r@ == spec_target_text(*self),
    {
        match self {
            TargetVersion::Es3 => "es3",
            TargetVersion::Es5 => "es5",
            TargetVersion::Es2016 => "es2016",
            TargetVersion::Es2020 => "es2020",
            TargetVersion::Es2021 => "es2020",
            TargetVersion::Es2022 => "es2020",
        }
    }
}

} // verus!
