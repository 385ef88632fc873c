//! Resource location: computes the filesystem path of the companion service
//! executable from the build mode, the running platform and the location of
//! the currently running executable. Pure: no filesystem access, no
//! existence check.

use vstd::prelude::*;

verus! {

/// Whether the application runs from a development checkout or from its
/// installed, packaged form.
#[derive(Clone, Copy, Debug, PartialEq, Eq, Structural)]
pub enum Mode {
    Development,
    Packaged,
}

/// The packaging convention of the running platform.
#[derive(Clone, Copy, Debug, PartialEq, Eq, Structural)]
pub enum Platform {
    /// Bundle-style installs: the executable sits two directories below the
    /// bundle root, and resources live under `Resources/` beside its parent.
    Bundle,
    /// Flat installs: a `resources/` directory sits next to the executable.
    Flat,
    /// No standard convention: resources are looked up relative to the
    /// current working directory.
    Portable,
}

/// A filesystem path as a list of components, with a flag telling whether it
/// is anchored at the filesystem root.
pub struct ResourcePath {
    pub absolute: bool,
    pub parts: Vec<String>,
}

impl View for ResourcePath {
    type V = Seq<Seq<char>>;

    open spec fn view(&self) -> Seq<Seq<char>> {
        self.parts@.map_values(|s: String| s@)
    }
}

/// The component list that `resolve` returns.
pub open spec fn spec_resolve_parts(
    mode: Mode,
    platform: Platform,
    exe: Seq<Seq<char>>,
    name: Seq<char>,
) -> Seq<Seq<char>> {
    match mode {
        Mode::Development => seq![
            ".."@,
            ".."@,
            "backend"@,
            "dist"@,
            name,
        ],
        Mode::Packaged => match platform {
            Platform::Bundle => exe.take(exe.len() - 2).push("Resources"@).push(name),
            Platform::Flat => exe.take(exe.len() - 1).push("resources"@).push(name),
            Platform::Portable => seq!["resources"@, name],
        },
    }
}

/// Whether the path that `resolve` returns is anchored at the root.
pub open spec fn spec_resolve_absolute(mode: Mode, platform: Platform, exe_absolute: bool) -> bool {
    match mode {
        Mode::Development => false,
        Mode::Packaged => match platform {
            Platform::Bundle => exe_absolute,
            Platform::Flat => exe_absolute,
            Platform::Portable => false,
        },
    }
}

/// How many trailing components of the executable's own path must exist for
/// the packaged-mode walk up to the bundle root. Fewer components than this
/// is a broken build, not a runtime condition, so `resolve` requires it.
pub open spec fn spec_required_depth(mode: Mode, platform: Platform) -> int {
    match mode {
        Mode::Development => 0,
        Mode::Packaged => match platform {
            Platform::Bundle => 2,
            Platform::Flat => 1,
            Platform::Portable => 0,
        },
    }
}

/// Computes the path of the service executable named `name`.
///
/// In development mode the result is a fixed location in the project's build
/// output directory, independent of platform. In packaged mode the result is
/// derived from the running executable's own location by the platform's
/// packaging convention, or, where the platform has none, from the current
/// working directory.
pub fn resolve(mode: Mode, platform: Platform, exe: &ResourcePath, name: &str) -> (r: ResourcePath)
    requires
        exe@.len() >= spec_required_depth(mode, platform),
    ensures
        r@ == spec_resolve_parts(mode, platform, exe@, name@),
        r.absolute == spec_resolve_absolute(mode, platform, exe.absolute),
{
    match mode {
        Mode::Development => {
            let mut parts: Vec<String> = Vec::new();
            parts.push(String::from_str(".."));
            parts.push(String::from_str(".."));
            parts.push(String::from_str("backend"));
            parts.push(String::from_str("dist"));
            parts.push(String::from_str(name));
            let r = ResourcePath { absolute: false, parts };
            proof {
                assert(r@ =~= spec_resolve_parts(mode, platform, exe@, name@));
            }
            r
        },
        Mode::Packaged => match platform {
            Platform::Bundle => {
                let mut parts = copy_prefix(&exe.parts, exe.parts.len() - 2);
                parts.push(String::from_str("Resources"));
                parts.push(String::from_str(name));
                let r = ResourcePath { absolute: exe.absolute, parts };
                proof {
                    assert(r@ =~= spec_resolve_parts(mode, platform, exe@, name@));
                }
                r
            },
            Platform::Flat => {
                let mut parts = copy_prefix(&exe.parts, exe.parts.len() - 1);
                parts.push(String::from_str("resources"));
                parts.push(String::from_str(name));
                let r = ResourcePath { absolute: exe.absolute, parts };
                proof {
                    assert(r@ =~= spec_resolve_parts(mode, platform, exe@, name@));
                }
                r
            },
            Platform::Portable => {
                let mut parts: Vec<String> = Vec::new();
                parts.push(String::from_str("resources"));
                parts.push(String::from_str(name));
                let r = ResourcePath { absolute: false, parts };
                proof {
                    assert(r@ =~= spec_resolve_parts(mode, platform, exe@, name@));
                }
                r
            },
        },
    }
}

/// The first `n` components of `parts`, as fresh strings.
fn copy_prefix(parts: &Vec<String>, n: usize) -> (r: Vec<String>)
    requires
        n <= parts@.len(),
    ensures
        r@.len() == n,
        forall|j: int| 0 <= j < n ==> r@[j]@ == parts@[j]@,
{
    let mut r: Vec<String> = Vec::new();
    let mut i: usize = 0;
    while i < n
        invariant
            i <= n,
            n <= parts@.len(),
            r@.len() == i,
            forall|j: int| 0 <= j < i ==> r@[j]@ == parts@[j]@,
        decreases n - i,
    {
        r.push(parts[i].clone());
        i = i + 1;
    }
    r
}

/// Path resolution is deterministic: the resolved path is a function of the
/// mode, the platform, the executable's location and the resource name
/// alone, so equal inputs always give equal results.
pub proof fn lemma_resolve_deterministic(
    mode: Mode,
    platform: Platform,
    exe1: Seq<Seq<char>>,
    exe2: Seq<Seq<char>>,
    abs1: bool,
    abs2: bool,
    name1: Seq<char>,
    name2: Seq<char>,
)
    requires
        exe1 == exe2,
        abs1 == abs2,
        name1 == name2,
    ensures
        spec_resolve_parts(mode, platform, exe1, name1) == spec_resolve_parts(
            mode,
            platform,
            exe2,
            name2,
        ),
        spec_resolve_absolute(mode, platform, abs1) == spec_resolve_absolute(
            mode,
            platform,
            abs2,
        ),
{
}

} // verus!
