//! The server platform an installation runs.
use vstd::prelude::*;
use crate::text::{lower_of, lowercase, same_text};

verus! {

/// Server software that can be installed.
#[derive(Clone, Copy, Debug, PartialEq, Eq, Structural)]
pub enum Platform {
    Paper,
    Fabric,
}

/// The platform named by an already lower-cased text; anything but
/// `fabric` means the default platform.
pub open spec fn platform_named(name: Seq<char>) -> Platform {
    if name == "fabric"@ {
        Platform::Fabric
    } else {
        Platform::Paper
    }
}

impl Platform {
    /// Reads the platform from user input, ignoring case. Without input,
    /// or with an unknown name, the default platform is used.
    pub fn with(name: Option<&str>) -> (r: Platform)
        ensures
            name is None ==> r == Platform::Paper,
            name matches Some(n) ==> r == platform_named(lower_of(n@)),
    {
        match name {
            Some(n) => {
                let lower = lowercase(n);
                Self::from_lowercase(lower.as_str())
            },
            None => Platform::Paper,
        }
    }

    pub fn from_lowercase(name: &str) -> (r: Platform)
        ensures
            r == platform_named(name@),
    {
        if same_text(name, "fabric") {
            Platform::Fabric
        } else {
            Platform::Paper
        }
    }
}

} // verus!
