use vstd::prelude::*;

use crate::config::{opt_view, ConfigModel};
use crate::error::{strings_view, ErrorKind, ErrorModel};
use crate::path::{join_path, spec_join};

verus! {

/// The parts of the process environment that the resolution reads, taken as
/// plain values so that the resolution itself reads nothing ambient.
#[derive(Debug)]
pub struct Environment {
    /// The package manager's root directory (`VCPKG_ROOT`).
    pub vcpkg_root: Option<String>,
    /// The directory of the package being built (`CARGO_MANIFEST_DIR`).
    pub manifest_dir: Option<String>,
    /// A triplet that overrides the default (`VCPKG_TARGET_TRIPLET`).
    pub target_triplet: Option<String>,
    /// The ambient default triplet (`VCPKG_DEFAULT_TRIPLET`).
    pub default_triplet: Option<String>,
    /// The current working directory, when it could be read.
    pub current_dir: Option<String>,
}

/// What an `Environment` holds, as plain values.
pub ghost struct EnvironmentModel {
    pub vcpkg_root: Option<Seq<char>>,
    pub manifest_dir: Option<Seq<char>>,
    pub target_triplet: Option<Seq<char>>,
    pub default_triplet: Option<Seq<char>>,
    pub current_dir: Option<Seq<char>>,
}

impl View for Environment {
    type V = EnvironmentModel;

    open spec fn view(&self) -> EnvironmentModel {
        EnvironmentModel {
            vcpkg_root: opt_view(self.vcpkg_root),
            manifest_dir: opt_view(self.manifest_dir),
            target_triplet: opt_view(self.target_triplet),
            default_triplet: opt_view(self.default_triplet),
            current_dir: opt_view(self.current_dir),
        }
    }
}

/// Where a package was found, and the directories derived from it.
#[derive(Debug)]
pub struct Location {
    /// The package name, which is also the name of the library to link.
    pub name: String,
    /// The selected install root.
    pub root: String,
    /// The selected triplet.
    pub triplet: String,
    /// `root/triplet/lib`.
    pub lib_dir: String,
    /// `root/triplet/bin`.
    pub bin_dir: String,
    /// The header directory under `root/triplet`.
    pub header_dir: String,
}

/// What a `Location` holds, as plain values.
pub ghost struct LocationModel {
    pub name: Seq<char>,
    pub root: Seq<char>,
    pub triplet: Seq<char>,
    pub lib_dir: Seq<char>,
    pub bin_dir: Seq<char>,
    pub header_dir: Seq<char>,
}

impl View for Location {
    type V = LocationModel;

    open spec fn view(&self) -> LocationModel {
        LocationModel {
            name: self.name@,
            root: self.root@,
            triplet: self.triplet@,
            lib_dir: self.lib_dir@,
            bin_dir: self.bin_dir@,
            header_dir: self.header_dir@,
        }
    }
}

/// The lines that tell the build to link the library `name`, where to search
/// for it, and where its headers are.
pub open spec fn spec_directives(loc: LocationModel) -> Seq<Seq<char>> {
    seq![
        "cargo:rustc-link-lib="@ + loc.name,
        "cargo:rustc-link-search=native="@ + loc.lib_dir,
        "cargo:include="@ + loc.header_dir,
    ]
}

impl Location {
    /// The build directives for this location, one line each: link the
    /// library named after the package, search the library directory, and
    /// expose the header directory.
    pub fn directives(&self) -> (r: Vec<String>)
        ensures
            strings_view(r@) == spec_directives(self@),
    {
        let mut r: Vec<String> = Vec::new();
        r.push(String::from_str("cargo:rustc-link-lib=").concat(self.name.as_str()));
        r.push(String::from_str("cargo:rustc-link-search=native=").concat(self.lib_dir.as_str()));
        r.push(String::from_str("cargo:include=").concat(self.header_dir.as_str()));
        assert(strings_view(r@) =~= spec_directives(self@));
        r
    }
}

/// The sequence holding the value of `o`, if any.
pub open spec fn option_seq(o: Option<Seq<char>>) -> Seq<Seq<char>> {
    match o {
        Some(s) => seq![s],
        None => Seq::empty(),
    }
}

/// `dir/sub`, when `dir` is known.
pub open spec fn join_opt(dir: Option<Seq<char>>, sub: Seq<char>) -> Option<Seq<char>> {
    match dir {
        Some(d) => Some(spec_join(d, sub)),
        None => None,
    }
}

/// The candidate install roots, highest priority first: the explicit install
/// tree, the package manager's root joined with `installed`, the root named
/// by the environment, `vcpkg_installed` under the current directory, and
/// the manifest directory. Unknown candidates are left out.
pub open spec fn root_candidates(c: ConfigModel, e: EnvironmentModel) -> Seq<Seq<char>> {
    option_seq(c.vcpkg_tree_root) + option_seq(join_opt(c.vcpkg_root, "installed"@))
        + option_seq(e.vcpkg_root) + option_seq(join_opt(e.current_dir, "vcpkg_installed"@))
        + option_seq(e.manifest_dir)
}

/// The first of `cands` that is among the existing directories `dirs`.
pub open spec fn first_listed(cands: Seq<Seq<char>>, dirs: Seq<Seq<char>>) -> Option<Seq<char>>
    decreases cands.len(),
{
    if cands.len() == 0 {
        None
    } else if dirs.contains(cands[0]) {
        Some(cands[0])
    } else {
        first_listed(cands.drop_first(), dirs)
    }
}

/// The selected install root: the first candidate that is an existing
/// directory.
pub open spec fn spec_root(c: ConfigModel, e: EnvironmentModel, dirs: Seq<Seq<char>>) -> Option<
    Seq<char>,
> {
    first_listed(root_candidates(c, e), dirs)
}

/// The selected triplet: the configured one, else the environment's
/// override, else the environment's default.
pub open spec fn spec_triplet(c: ConfigModel, e: EnvironmentModel) -> Option<Seq<char>> {
    match c.vcpkg_target {
        Some(t) => Some(t),
        None => match e.target_triplet {
            Some(t) => Some(t),
            None => e.default_triplet,
        },
    }
}

/// The names consulted for a triplet beside the configuration.
pub open spec fn triplet_sources() -> Seq<Seq<char>> {
    seq!["VCPKG_TARGET_TRIPLET"@, "VCPKG_DEFAULT_TRIPLET"@]
}

/// The layout of package `name` installed under `root` for `triplet`.
pub open spec fn spec_layout(name: Seq<char>, root: Seq<char>, triplet: Seq<char>) -> LocationModel {
    let base = spec_join(root, triplet);
    LocationModel {
        name,
        root,
        triplet,
        lib_dir: spec_join(base, "lib"@),
        bin_dir: spec_join(base, "bin"@),
        header_dir: spec_join(base, "include"@),
    }
}

/// The outcome of the whole resolution: the root is selected first, then the
/// triplet, and the layout is derived from both.
pub open spec fn spec_locate(c: ConfigModel, e: EnvironmentModel, dirs: Seq<Seq<char>>) -> Result<
    LocationModel,
    ErrorModel,
> {
    match spec_root(c, e, dirs) {
        None => Err(ErrorModel { kind: ErrorKind::RootNotFound, tried: root_candidates(c, e) }),
        Some(root) => match spec_triplet(c, e) {
            None => Err(
                ErrorModel { kind: ErrorKind::TripletNotDetermined, tried: triplet_sources() },
            ),
            Some(t) => Ok(spec_layout(c.name, root, t)),
        },
    }
}

/// Derives the library, binary and header directories of package `name`
/// installed under `root` for `triplet`.
pub fn layout(name: &str, root: &str, triplet: &str) -> (r: Location)
    ensures
        r@ == spec_layout(name@, root@, triplet@),
{
    let base = join_path(root, triplet);
    Location {
        name: name.to_owned(),
        root: root.to_owned(),
        triplet: triplet.to_owned(),
        lib_dir: join_path(base.as_str(), "lib"),
        bin_dir: join_path(base.as_str(), "bin"),
        header_dir: join_path(base.as_str(), "include"),
    }
}

/// True when `p` is one of `dirs`.
pub fn is_listed(dirs: &Vec<String>, p: &String) -> (r: bool)
    ensures
        r == strings_view(dirs@).contains(p@),
{
    let mut i: usize = 0;
    while i < dirs.len()
        invariant
            i <= dirs@.len(),
            forall|j: int| 0 <= j < i ==> dirs@[j]@ != p@,
        decreases dirs@.len() - i,
    {
        if dirs[i] == *p {
            assert(strings_view(dirs@)[i as int] == p@);
            return true;
        }
        i = i + 1;
    }
    assert(!strings_view(dirs@).contains(p@)) by {
        if strings_view(dirs@).contains(p@) {
            let k = choose|k: int| 0 <= k < strings_view(dirs@).len() && strings_view(dirs@)[k] == p@;
            assert(dirs@[k]@ == p@);
        }
    }
    false
}

/// The first of `cands` that is one of `dirs`.
pub fn first_existing(cands: &Vec<String>, dirs: &Vec<String>) -> (r: Option<String>)
    ensures
        opt_view(r) == first_listed(strings_view(cands@), strings_view(dirs@)),
{
    let ghost all = strings_view(cands@);
    let ghost d = strings_view(dirs@);
    let mut i: usize = 0;
    assert(all.subrange(0, all.len() as int) =~= all);
    while i < cands.len()
        invariant
            i <= cands@.len(),
            all == strings_view(cands@),
            d == strings_view(dirs@),
            first_listed(all, d) == first_listed(all.subrange(i as int, all.len() as int), d),
        decreases cands@.len() - i,
    {
        let ghost rest = all.subrange(i as int, all.len() as int);
        assert(rest[0] == cands@[i as int]@);
        assert(rest.drop_first() =~= all.subrange(i + 1, all.len() as int));
        if is_listed(dirs, &cands[i]) {
            return Some(cands[i].clone());
        }
        i = i + 1;
    }
    assert(all.subrange(i as int, all.len() as int) =~= Seq::<Seq<char>>::empty());
    None
}

} // verus!
