use vstd::prelude::*;

use crate::text::{decimal, decimal_string, views};

verus! {

/// The CMake generator to configure with.
#[derive(Debug, Clone, Copy, PartialEq, Eq, Structural)]
pub enum Builder {
    /// The generator CMake picks for the platform.
    Platform,
    Makefile,
    Ninja,
    VisualStudio,
}

impl Builder {
    /// The generator flags for the configure step.
    pub open spec fn option_spec(self) -> Seq<Seq<char>> {
        match self {
            Builder::Platform => seq![],
            Builder::Makefile => seq!["-G"@, "Unix Makefiles"@],
            Builder::Ninja => seq!["-G"@, "Ninja"@],
            Builder::VisualStudio => seq!["-G"@, "Visual Studio 15 2017"@],
        }
    }

    /// The flags that ask the build step for `nproc` parallel jobs: passed
    /// through to make or ninja, none where the build driver decides.
    pub open spec fn build_option_spec(self, nproc: nat) -> Seq<Seq<char>> {
        match self {
            Builder::Platform | Builder::VisualStudio => seq![],
            Builder::Makefile | Builder::Ninja => seq!["--"@, "-j"@, decimal(nproc)],
        }
    }

    pub fn option(&self) -> (r: Vec<String>)
        ensures
            views(r@) == self.option_spec(),
    {
        let mut v: Vec<String> = Vec::new();
        match self {
            Builder::Platform => {},
            Builder::Makefile => {
                v.push(String::from_str("-G"));
                v.push(String::from_str("Unix Makefiles"));
            },
            Builder::Ninja => {
                v.push(String::from_str("-G"));
                v.push(String::from_str("Ninja"));
            },
            Builder::VisualStudio => {
                v.push(String::from_str("-G"));
                v.push(String::from_str("Visual Studio 15 2017"));
            },
        }
        assert(views(v@) =~= self.option_spec());
        v
    }

    pub fn build_option(&self, nproc: usize) -> (r: Vec<String>)
        ensures
            views(r@) == self.build_option_spec(nproc as nat),
    {
        let mut v: Vec<String> = Vec::new();
        match self {
            Builder::Platform | Builder::VisualStudio => {},
            Builder::Makefile | Builder::Ninja => {
                v.push(String::from_str("--"));
                v.push(String::from_str("-j"));
                v.push(decimal_string(nproc));
            },
        }
        assert(views(v@) =~= self.build_option_spec(nproc as nat));
        v
    }
}

impl Default for Builder {
    fn default() -> (r: Self)
        ensures
            r == Builder::Platform,
    {
        Builder::Platform
    }
}

/// The CMake build type.
#[derive(Debug, Clone, Copy, PartialEq, Eq, Structural)]
pub enum BuildType {
    Debug,
    Release,
}

impl BuildType {
    /// The value given to `CMAKE_BUILD_TYPE`.
    pub open spec fn name_spec(self) -> Seq<char> {
        match self {
            BuildType::Debug => "Debug"@,
            BuildType::Release => "Release"@,
        }
    }

    pub fn name(&self) -> (r: &'static str)
        ensures
            r@ == self.name_spec(),
    {
        match self {
            BuildType::Debug => "Debug",
            BuildType::Release => "Release",
        }
    }
}

impl Default for BuildType {
    fn default() -> (r: Self)
        ensures
            r == BuildType::Release,
    {
        BuildType::Release
    }
}

} // verus!
