use vstd::prelude::*;

use crate::config::ConfigModel;
use crate::error::ErrorKind;
use crate::path::{separator, spec_join};
use crate::resolve::{
    first_listed, join_opt, option_seq, root_candidates, spec_layout, spec_locate, spec_root,
    spec_triplet, EnvironmentModel,
};

verus! {

/// True when the candidate `o` is known and is one of the existing
/// directories `dirs`.
pub open spec fn selects(o: Option<Seq<char>>, dirs: Seq<Seq<char>>) -> bool {
    o is Some && dirs.contains(o->0)
}

/// A known candidate placed first is taken when it exists, and passed over
/// otherwise.
proof fn lemma_first_listed_front(o: Option<Seq<char>>, rest: Seq<Seq<char>>, dirs: Seq<Seq<char>>)
    ensures
        first_listed(option_seq(o) + rest, dirs) == (if selects(o, dirs) {
            o
        } else {
            first_listed(rest, dirs)
        }),
{
    if o is Some {
        let all = option_seq(o) + rest;
        assert(all[0] == o->0);
        assert(all.drop_first() =~= rest);
    } else {
        assert(option_seq(o) + rest =~= rest);
    }
}

/// The install root follows the priority order, each candidate being taken
/// only when it exists and no candidate before it does: the explicit install
/// tree, then the package manager's root with `installed` appended, then the
/// root named by the environment, then `vcpkg_installed` under the current
/// directory, then the manifest directory. When none exists there is no root.
pub proof fn law_root_priority(c: ConfigModel, e: EnvironmentModel, dirs: Seq<Seq<char>>)
    ensures
        ({
            let tree = c.vcpkg_tree_root;
            let installed = join_opt(c.vcpkg_root, "installed"@);
            let ambient = e.vcpkg_root;
            let local = join_opt(e.current_dir, "vcpkg_installed"@);
            let manifest = e.manifest_dir;
            let root = spec_root(c, e, dirs);
            &&& selects(tree, dirs) ==> root == tree
            &&& !selects(tree, dirs) && selects(installed, dirs) ==> root == installed
            &&& !selects(tree, dirs) && !selects(installed, dirs) && selects(ambient, dirs)
                ==> root == ambient
            &&& !selects(tree, dirs) && !selects(installed, dirs) && !selects(ambient, dirs)
                && selects(local, dirs) ==> root == local
            &&& !selects(tree, dirs) && !selects(installed, dirs) && !selects(ambient, dirs)
                && !selects(local, dirs) && selects(manifest, dirs) ==> root == manifest
            &&& !selects(tree, dirs) && !selects(installed, dirs) && !selects(ambient, dirs)
                && !selects(local, dirs) && !selects(manifest, dirs) ==> root is None
        }),
{
    let tree = c.vcpkg_tree_root;
    let installed = join_opt(c.vcpkg_root, "installed"@);
    let ambient = e.vcpkg_root;
    let local = join_opt(e.current_dir, "vcpkg_installed"@);
    let manifest = e.manifest_dir;
    let s5 = option_seq(manifest);
    let s4 = option_seq(local) + s5;
    let s3 = option_seq(ambient) + s4;
    let s2 = option_seq(installed) + s3;
    let s1 = option_seq(tree) + s2;
    assert(root_candidates(c, e) =~= s1);
    lemma_first_listed_front(tree, s2, dirs);
    lemma_first_listed_front(installed, s3, dirs);
    lemma_first_listed_front(ambient, s4, dirs);
    lemma_first_listed_front(local, s5, dirs);
    lemma_first_listed_front(manifest, Seq::empty(), dirs);
    assert(s5 =~= option_seq(manifest) + Seq::<Seq<char>>::empty());
}

/// An explicit install tree that exists is the root, whatever else the
/// configuration and the environment say; the whole resolution then uses it
/// whenever a triplet is known.
pub proof fn law_explicit_tree_root_wins(c: ConfigModel, e: EnvironmentModel, dirs: Seq<Seq<char>>)
    requires
        c.vcpkg_tree_root is Some,
        dirs.contains(c.vcpkg_tree_root->0),
    ensures
        spec_root(c, e, dirs) == c.vcpkg_tree_root,
        spec_triplet(c, e) is Some ==> spec_locate(c, e, dirs) is Ok && spec_locate(
            c,
            e,
            dirs,
        )->Ok_0.root == c.vcpkg_tree_root->0,
{
    law_root_priority(c, e, dirs);
}

/// With nothing configured, no relevant environment variable set and no
/// `vcpkg_installed` directory under the current directory, the resolution
/// fails with an error saying that no install root was found.
pub proof fn law_nothing_found_fails(c: ConfigModel, e: EnvironmentModel, dirs: Seq<Seq<char>>)
    requires
        c.vcpkg_tree_root is None,
        c.vcpkg_root is None,
        c.vcpkg_target is None,
        e.vcpkg_root is None,
        e.manifest_dir is None,
        e.target_triplet is None,
        e.default_triplet is None,
        !selects(join_opt(e.current_dir, "vcpkg_installed"@), dirs),
    ensures
        spec_locate(c, e, dirs) is Err,
        spec_locate(c, e, dirs)->Err_0.kind == ErrorKind::RootNotFound,
{
    law_root_priority(c, e, dirs);
}

/// The configured triplet wins over both environment variables; the
/// environment's override wins over its default.
pub proof fn law_triplet_priority(c: ConfigModel, e: EnvironmentModel)
    ensures
        c.vcpkg_target is Some ==> spec_triplet(c, e) == c.vcpkg_target,
        c.vcpkg_target is None && e.target_triplet is Some ==> spec_triplet(c, e)
            == e.target_triplet,
        c.vcpkg_target is None && e.target_triplet is None ==> spec_triplet(c, e)
            == e.default_triplet,
{
}

/// For a root `R` and a triplet `T` written without stray separators, the
/// derived directories are exactly `R/T/lib`, `R/T/bin` and `R/T/include`.
pub proof fn law_layout_paths(name: Seq<char>, root: Seq<char>, triplet: Seq<char>)
    requires
        root.len() > 0,
        root.last() != separator(),
        triplet.len() > 0,
        triplet[0] != separator(),
        triplet.last() != separator(),
    ensures
        ({
            let base = root + seq![separator()] + triplet + seq![separator()];
            let loc = spec_layout(name, root, triplet);
            &&& loc.lib_dir == base + "lib"@
            &&& loc.bin_dir == base + "bin"@
            &&& loc.header_dir == base + "include"@
        }),
{
    reveal_strlit("lib");
    reveal_strlit("bin");
    reveal_strlit("include");
    let joined = root + seq![separator()] + triplet;
    assert(spec_join(root, triplet) == joined);
    assert(joined.last() == triplet.last());
    assert(spec_join(joined, "lib"@) =~= joined + seq![separator()] + "lib"@);
    assert(spec_join(joined, "bin"@) =~= joined + seq![separator()] + "bin"@);
    assert(spec_join(joined, "include"@) =~= joined + seq![separator()] + "include"@);
}

} // verus!
