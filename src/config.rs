use vstd::prelude::*;

use crate::error::{strings_view, Error, ErrorKind, ErrorModel};
use crate::path::join_path;
use crate::resolve::{
    first_existing, join_opt, layout, option_seq, root_candidates, spec_locate, spec_root,
    spec_triplet, triplet_sources, Environment, Location, LocationModel,
};

verus! {

/// What a `Config` holds, as plain values.
pub ghost struct ConfigModel {
    pub name: Seq<char>,
    pub target: Option<Seq<char>>,
    pub host: Option<Seq<char>>,
    pub out_dir: Option<Seq<char>>,
    pub static_crt: Option<bool>,
    pub vcpkg_target: Option<Seq<char>>,
    pub vcpkg_host: Option<Seq<char>>,
    pub vcpkg_root: Option<Seq<char>>,
    pub vcpkg_tree_root: Option<Seq<char>>,
}

/// The view of an optional string.
pub open spec fn opt_view(o: Option<String>) -> Option<Seq<char>> {
    match o {
        Some(s) => Some(s@),
        None => None,
    }
}

/// Settings for locating one package, built by chained calls and consumed by
/// `locate`.
#[derive(Debug)]
pub struct Config {
    name: String,
    target: Option<String>,
    host: Option<String>,
    out_dir: Option<String>,
    static_crt: Option<bool>,
    vcpkg_target: Option<String>,
    vcpkg_host: Option<String>,
    vcpkg_root: Option<String>,
    vcpkg_tree_root: Option<String>,
}

impl View for Config {
    type V = ConfigModel;

    closed spec fn view(&self) -> ConfigModel {
        ConfigModel {
            name: self.name@,
            target: opt_view(self.target),
            host: opt_view(self.host),
            out_dir: opt_view(self.out_dir),
            static_crt: self.static_crt,
            vcpkg_target: opt_view(self.vcpkg_target),
            vcpkg_host: opt_view(self.vcpkg_host),
            vcpkg_root: opt_view(self.vcpkg_root),
            vcpkg_tree_root: opt_view(self.vcpkg_tree_root),
        }
    }
}

impl Config {
    /// A configuration for the package `name`, with every other setting unset.
    pub fn new(name: &str) -> (r: Config)
        ensures
            r@ == (ConfigModel {
                name: name@,
                target: None,
                host: None,
                out_dir: None,
                static_crt: None,
                vcpkg_target: None,
                vcpkg_host: None,
                vcpkg_root: None,
                vcpkg_tree_root: None,
            }),
    {
        Config {
            name: name.to_owned(),
            target: None,
            host: None,
            out_dir: None,
            static_crt: None,
            vcpkg_target: None,
            vcpkg_host: None,
            vcpkg_root: None,
            vcpkg_tree_root: None,
        }
    }

    /// Sets the platform the build targets.
    pub fn target(self, target: &str) -> (r: Config)
        ensures
            r@ == (ConfigModel { target: Some(target@), ..self@ }),
    {
        Config { target: Some(target.to_owned()), ..self }
    }

    /// Sets the platform the build runs on.
    pub fn host(self, host: &str) -> (r: Config)
        ensures
            r@ == (ConfigModel { host: Some(host@), ..self@ }),
    {
        Config { host: Some(host.to_owned()), ..self }
    }

    /// Sets the output directory of the build.
    pub fn out_dir(self, path: &str) -> (r: Config)
        ensures
            r@ == (ConfigModel { out_dir: Some(path@), ..self@ }),
    {
        Config { out_dir: Some(path.to_owned()), ..self }
    }

    /// Sets the package manager's root directory; its `installed`
    /// subdirectory is then a candidate install root.
    pub fn vcpkg_root(self, path: &str) -> (r: Config)
        ensures
            r@ == (ConfigModel { vcpkg_root: Some(path@), ..self@ }),
    {
        Config { vcpkg_root: Some(path.to_owned()), ..self }
    }

    /// Sets the triplet of the host.
    pub fn vcpkg_host(self, triplet: &str) -> (r: Config)
        ensures
            r@ == (ConfigModel { vcpkg_host: Some(triplet@), ..self@ }),
    {
        Config { vcpkg_host: Some(triplet.to_owned()), ..self }
    }

    /// Sets the triplet of the target, which takes precedence over
    /// the environment's.
    pub fn vcpkg_target(self, triplet: &str) -> (r: Config)
        ensures
            r@ == (ConfigModel { vcpkg_target: Some(triplet@), ..self@ }),
    {
        Config { vcpkg_target: Some(triplet.to_owned()), ..self }
    }

    /// Sets the install root itself, the candidate of highest
    /// priority.
    pub fn vcpkg_tree_root(self, path: &str) -> (r: Config)
        ensures
            r@ == (ConfigModel { vcpkg_tree_root: Some(path@), ..self@ }),
    {
        Config { vcpkg_tree_root: Some(path.to_owned()), ..self }
    }

    /// Sets whether the C runtime is linked statically.
    pub fn static_crt(self, is_static: bool) -> (r: Config)
        ensures
            r@ == (ConfigModel { static_crt: Some(is_static), ..self@ }),
    {
        Config { static_crt: Some(is_static), ..self }
    }

    /// The candidate install roots for this configuration in `env`, highest
    /// priority first.
    pub fn root_candidates(&self, env: &Environment) -> (r: Vec<String>)
        ensures
            strings_view(r@) == root_candidates(self@, env@),
    {
        let mut r: Vec<String> = Vec::new();
        let ghost c = self@;
        let ghost e = env@;
        if let Some(t) = &self.vcpkg_tree_root {
            r.push(t.clone());
        }
        assert(strings_view(r@) =~= option_seq(c.vcpkg_tree_root));
        let ghost before = strings_view(r@);
        if let Some(v) = &self.vcpkg_root {
            r.push(join_path(v.as_str(), "installed"));
        }
        assert(strings_view(r@) =~= before + option_seq(join_opt(c.vcpkg_root, "installed"@)));
        let ghost before = strings_view(r@);
        if let Some(v) = &env.vcpkg_root {
            r.push(v.clone());
        }
        assert(strings_view(r@) =~= before + option_seq(e.vcpkg_root));
        let ghost before = strings_view(r@);
        if let Some(d) = &env.current_dir {
            r.push(join_path(d.as_str(), "vcpkg_installed"));
        }
        assert(strings_view(r@) =~= before + option_seq(join_opt(e.current_dir, "vcpkg_installed"@)));
        let ghost before = strings_view(r@);
        if let Some(m) = &env.manifest_dir {
            r.push(m.clone());
        }
        assert(strings_view(r@) =~= before + option_seq(e.manifest_dir));
        r
    }

    /// The install root: the first candidate that is one of the existing
    /// directories `dirs`.
    pub fn resolve_root(&self, env: &Environment, dirs: &Vec<String>) -> (r: Option<String>)
        ensures
            opt_view(r) == spec_root(self@, env@, strings_view(dirs@)),
    {
        let cands = self.root_candidates(env);
        first_existing(&cands, dirs)
    }

    /// The triplet: the configured one, else the environment's override,
    /// else the environment's default.
    pub fn resolve_triplet(&self, env: &Environment) -> (r: Option<String>)
        ensures
            opt_view(r) == spec_triplet(self@, env@),
    {
        match &self.vcpkg_target {
            Some(t) => Some(t.clone()),
            None => match &env.target_triplet {
                Some(t) => Some(t.clone()),
                None => match &env.default_triplet {
                    Some(t) => Some(t.clone()),
                    None => None,
                },
            },
        }
    }

    /// Locates the package: selects the install root among the existing
    /// directories `dirs`, then the triplet, and derives the directories to
    /// link against and to take headers from.
    pub fn locate(self, env: &Environment, dirs: &Vec<String>) -> (r: Result<Location, Error>)
        ensures
            match r {
                Ok(loc) => spec_locate(self@, env@, strings_view(dirs@)) == Ok::<_, ErrorModel>(loc@),
                Err(e) => spec_locate(self@, env@, strings_view(dirs@)) == Err::<LocationModel, _>(e@),
            },
    {
        let root = match self.resolve_root(env, dirs) {
            Some(root) => root,
            None => {
                return Err(Error::new(ErrorKind::RootNotFound, self.root_candidates(env)));
            },
        };
        let triplet = match self.resolve_triplet(env) {
            Some(t) => t,
            None => {
                let mut tried: Vec<String> = Vec::new();
                tried.push(String::from_str("VCPKG_TARGET_TRIPLET"));
                tried.push(String::from_str("VCPKG_DEFAULT_TRIPLET"));
                assert(strings_view(tried@) =~= triplet_sources());
                return Err(Error::new(ErrorKind::TripletNotDetermined, tried));
            },
        };
        Ok(layout(self.name.as_str(), root.as_str(), triplet.as_str()))
    }
}

} // verus!
