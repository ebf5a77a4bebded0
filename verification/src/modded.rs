//! Mod-loader manifests and the merge that reconciles a loader's partial
//! manifest with the vanilla manifest it extends.

use vstd::prelude::*;
use crate::manifest::{Argument, ArgumentType, Library, VersionInfo, VersionType, UtcTime};
use crate::strings::{chars_replace_all, chars_to_string, replace_all, str_to_chars};

verus! {

/// Placeholder token that loader manifests write where the base game
/// version id belongs; the merge substitutes the base manifest's id for it.
pub const DUMMY_REPLACE_STRING: &'static str = "${modrinth.gameVersion}";

/// A data variable with one value per installation side.
#[derive(Debug, Clone, PartialEq, Eq)]
pub struct SidedDataEntry {
    /// Value on the client.
    pub client: String,
    /// Value on the server.
    pub server: String,
}

/// A post-install transformation step of a loader installer.
#[derive(Debug, Clone, PartialEq, Eq)]
pub struct Processor {
    /// Maven coordinate of the processor's jar.
    pub jar: String,
    /// Maven coordinates that must be on the processor's classpath.
    pub classpath: Vec<String>,
    /// Arguments of the processor.
    pub args: Vec<String>,
    /// Output mapping; keys and values may be data variables.
    pub outputs: Option<Vec<(String, String)>>,
    /// Which sides the processor runs on: client, server or extract.
    pub sides: Option<Vec<String>>,
}

/// A loader's partial launch manifest, extending a base manifest.
#[derive(Debug, Clone, PartialEq, Eq)]
pub struct PartialVersionInfo {
    /// Identifier of the version.
    pub id: String,
    /// Identifier of the version this partial manifest extends.
    pub inherits_from: String,
    /// When the version was released.
    pub release_time: UtcTime,
    /// When the version's files were last updated.
    pub time: UtcTime,
    /// The main class launched, when the loader overrides it.
    pub main_class: Option<String>,
    /// Arguments handed to the game, in the legacy single-string form.
    pub minecraft_arguments: Option<String>,
    /// Arguments handed to the game or the JVM, by category.
    pub arguments: Option<Vec<(ArgumentType, Vec<Argument>)>>,
    /// The libraries the version depends on.
    pub libraries: Vec<Library>,
    /// Release lifecycle class.
    pub type_: VersionType,
    /// Loader data variables.
    pub data: Option<Vec<(String, SidedDataEntry)>>,
    /// Loader post-install processors.
    pub processors: Option<Vec<Processor>>,
}

/// Catalog of the versions a mod loader supports.
#[derive(Debug, Clone, PartialEq, Eq)]
pub struct Manifest {
    /// The game versions the loader supports.
    pub game_versions: Vec<Version>,
}

/// One game version in a loader's catalog.
#[derive(Debug, Clone, PartialEq, Eq)]
pub struct Version {
    /// Identifier of the game version.
    pub id: String,
    /// Whether the game version is stable.
    pub stable: bool,
    /// The loader versions available for this game version.
    pub loaders: Vec<LoaderVersion>,
}

/// One version of a mod loader.
#[derive(Debug, Clone, PartialEq, Eq)]
pub struct LoaderVersion {
    /// Identifier of the loader version.
    pub id: String,
    /// Where this version's manifest lives.
    pub url: String,
    /// Whether the loader version is stable.
    pub stable: bool,
}

/// Index of the last `':'` of `s`, or `-1` when there is none.
pub open spec fn last_colon(s: Seq<char>) -> int
    decreases s.len(),
{
    if s.len() == 0 {
        -1
    } else if s.last() == ':' {
        s.len() - 1
    } else {
        last_colon(s.drop_last())
    }
}

/// The `groupId:artifactId` part of a Maven coordinate: everything before
/// the last `':'`. This prefix, not the full coordinate, is a library's
/// identity for merging: it is version-insensitive.
pub open spec fn artifact_prefix(name: Seq<char>) -> Option<Seq<char>> {
    if last_colon(name) >= 0 {
        Some(name.take(last_colon(name)))
    } else {
        None
    }
}

/// Whether a base library named `base_name` is superseded: some partial
/// library shares its `groupId:artifactId` prefix and is classpath-included.
pub open spec fn classpath_supersedes(base_name: Seq<char>, partials: Seq<Library>) -> bool {
    &&& artifact_prefix(base_name) is Some
    &&& exists|j: int|
        0 <= j < partials.len() && (#[trigger] partials[j]).include_in_classpath
            && artifact_prefix(partials[j].name@) == artifact_prefix(base_name)
}

/// The base libraries surviving the merge, in their original order: those
/// not superseded by a classpath-included partial library.
pub open spec fn kept_libraries(base: Seq<Library>, partials: Seq<Library>) -> Seq<Library>
    decreases base.len(),
{
    if base.len() == 0 {
        Seq::empty()
    } else {
        kept_libraries(base.drop_last(), partials) + (if classpath_supersedes(
            base.last().name@,
            partials,
        ) {
            Seq::empty()
        } else {
            seq![base.last()]
        })
    }
}

/// Whether `a` is `b` with the placeholder token of its name substituted by
/// `id`, all other fields unchanged.
pub open spec fn renamed_from(a: Library, b: Library, id: Seq<char>) -> bool {
    &&& a.name@ == replace_all(b.name@, DUMMY_REPLACE_STRING@, id)
    &&& a.downloads == b.downloads
    &&& a.extract == b.extract
    &&& a.url == b.url
    &&& a.natives == b.natives
    &&& a.rules == b.rules
    &&& a.checksums == b.checksums
    &&& a.include_in_classpath == b.include_in_classpath
    &&& a.downloadable == b.downloadable
}

/// All arguments filed under category `k`, in order.
pub open spec fn args_for(m: Seq<(ArgumentType, Vec<Argument>)>, k: ArgumentType) -> Seq<
    Argument,
>
    decreases m.len(),
{
    if m.len() == 0 {
        Seq::empty()
    } else {
        args_for(m.drop_last(), k) + (if m.last().0 == k {
            m.last().1@
        } else {
            Seq::empty()
        })
    }
}

/// Whether category `k` is present at all.
pub open spec fn has_key(m: Seq<(ArgumentType, Vec<Argument>)>, k: ArgumentType) -> bool {
    exists|i: int| 0 <= i < m.len() && (#[trigger] m[i]).0 == k
}

/// Whether no category occurs twice: the map invariant of an argument list.
pub open spec fn distinct_categories(m: Seq<(ArgumentType, Vec<Argument>)>) -> bool {
    forall|i: int, j: int| 0 <= i < j < m.len() ==> (#[trigger] m[i]).0 != (#[trigger] m[j]).0
}

/// An absent category contributes no arguments.
pub proof fn lemma_args_for_no_key(m: Seq<(ArgumentType, Vec<Argument>)>, k: ArgumentType)
    requires
        !has_key(m, k),
    ensures
        args_for(m, k) == Seq::<Argument>::empty(),
    decreases m.len(),
{
    if m.len() > 0 {
        assert(m[m.len() - 1].0 != k);
        assert(!has_key(m.drop_last(), k)) by {
            if has_key(m.drop_last(), k) {
                let i = choose|i: int|
                    0 <= i < m.drop_last().len() && (#[trigger] m.drop_last()[i]).0 == k;
                assert(m[i].0 == k);
            }
        }
        lemma_args_for_no_key(m.drop_last(), k);
        assert(args_for(m, k) =~= Seq::<Argument>::empty());
    }
}

/// The `groupId:artifactId` prefix of a coordinate held in characters.
fn artifact_prefix_x(v: &Vec<char>) -> (r: Option<Vec<char>>)
    ensures
        r is Some <==> artifact_prefix(v@) is Some,
        r matches Some(p) ==> artifact_prefix(v@) == Some(p@),
{
    let n = v.len();
    let mut found: bool = false;
    let mut at: usize = 0;
    let mut i: usize = 0;
    while i < n
        invariant
            i <= n,
            n == v@.len(),
            found ==> at < i && last_colon(v@.take(i as int)) == at as int,
            !found ==> last_colon(v@.take(i as int)) == -1,
        decreases n - i,
    {
        proof {
            assert(v@.take(i + 1).drop_last() =~= v@.take(i as int));
        }
        if v[i] == ':' {
            found = true;
            at = i;
        }
        i = i + 1;
    }
    proof {
        assert(v@.take(n as int) =~= v@);
    }
    if found {
        let mut p: Vec<char> = Vec::new();
        let mut k: usize = 0;
        while k < at
            invariant
                k <= at <= v@.len(),
                p@ == v@.take(at as int).take(k as int),
            decreases at - k,
        {
            p.push(v[k]);
            k = k + 1;
            assert(p@ =~= v@.take(at as int).take(k as int));
        }
        assert(v@.take(at as int).take(at as int) =~= v@.take(at as int));
        Some(p)
    } else {
        None
    }
}

/// Whether `lib` is superseded by a classpath-included partial library with
/// the same `groupId:artifactId` prefix.
fn lib_superseded(lib: &Library, partials: &Vec<Library>) -> (r: bool)
    ensures
        r == classpath_supersedes(lib.name@, partials@),
{
    let name_chars = str_to_chars(lib.name.as_str());
    let prefix = artifact_prefix_x(&name_chars);
    match prefix {
        None => false,
        Some(p) => {
            let n = partials.len();
            let mut j: usize = 0;
            while j < n
                invariant
                    j <= n,
                    n == partials@.len(),
                    artifact_prefix(lib.name@) == Some(p@),
                    forall|k: int|
                        0 <= k < j ==> !((#[trigger] partials@[k]).include_in_classpath
                            && artifact_prefix(partials@[k].name@) == artifact_prefix(
                            lib.name@,
                        )),
                decreases n - j,
            {
                if partials[j].include_in_classpath {
                    let other_chars = str_to_chars(partials[j].name.as_str());
                    let other_prefix = artifact_prefix_x(&other_chars);
                    match other_prefix {
                        Some(q) => {
                            if crate::strings::chars_eq(&p, &q) {
                                assert(artifact_prefix(partials@[j as int].name@)
                                    == artifact_prefix(lib.name@));
                                return true;
                            }
                        },
                        None => {},
                    }
                }
                j = j + 1;
            }
            false
        },
    }
}

/// Splits an argument map into its game and JVM argument lists, noting
/// which categories were present at all.
fn split_args(m: Vec<(ArgumentType, Vec<Argument>)>) -> (r: (
    Vec<Argument>,
    Vec<Argument>,
    bool,
    bool,
))
    ensures
        r.0@ == args_for(m@, ArgumentType::Game),
        r.1@ == args_for(m@, ArgumentType::Jvm),
        r.2 == has_key(m@, ArgumentType::Game),
        r.3 == has_key(m@, ArgumentType::Jvm),
{
    let ghost orig = m@;
    let mut m = m;
    let initial_len = m.len();
    assert(orig.len() == initial_len);
    let mut game: Vec<Argument> = Vec::new();
    let mut jvm: Vec<Argument> = Vec::new();
    let mut has_game: bool = false;
    let mut has_jvm: bool = false;
    let mut c: usize = 0;
    while m.len() > 0
        invariant
            orig.len() == initial_len,
            c + m@.len() == orig.len(),
            m@ =~= orig.skip(c as int),
            game@ == args_for(orig.take(c as int), ArgumentType::Game),
            jvm@ == args_for(orig.take(c as int), ArgumentType::Jvm),
            has_game == has_key(orig.take(c as int), ArgumentType::Game),
            has_jvm == has_key(orig.take(c as int), ArgumentType::Jvm),
        decreases m@.len(),
    {
        proof {
            assert(orig.take(c + 1).drop_last() =~= orig.take(c as int));
            assert(orig.take(c + 1).last() == orig[c as int]);
            assert(m@[0] == orig[c as int]);
        }
        let (k, mut v) = m.remove(0);
        proof {
            assert(orig.skip(c as int).remove(0) =~= orig.skip(c + 1));
        }
        match k {
            ArgumentType::Game => {
                has_game = true;
                game.append(&mut v);
                proof {
                    assert(has_key(orig.take(c + 1), ArgumentType::Game)) by {
                        assert(orig.take(c + 1)[c as int].0 == ArgumentType::Game);
                    }
                }
            },
            ArgumentType::Jvm => {
                has_jvm = true;
                jvm.append(&mut v);
                proof {
                    assert(has_key(orig.take(c + 1), ArgumentType::Jvm)) by {
                        assert(orig.take(c + 1)[c as int].0 == ArgumentType::Jvm);
                    }
                }
            },
        }
        proof {
            if !has_key(orig.take(c as int), ArgumentType::Game) && orig[c as int].0
                != ArgumentType::Game {
                assert(!has_key(orig.take(c + 1), ArgumentType::Game)) by {
                    assert(forall|i: int|
                        0 <= i < c ==> (#[trigger] orig.take(c + 1)[i]) == orig.take(
                            c as int,
                        )[i]);
                }
            }
            if !has_key(orig.take(c as int), ArgumentType::Jvm) && orig[c as int].0
                != ArgumentType::Jvm {
                assert(!has_key(orig.take(c + 1), ArgumentType::Jvm)) by {
                    assert(forall|i: int|
                        0 <= i < c ==> (#[trigger] orig.take(c + 1)[i]) == orig.take(
                            c as int,
                        )[i]);
                }
            }
        }
        c = c + 1;
    }
    proof {
        assert(orig.take(orig.len() as int) =~= orig);
    }
    (game, jvm, has_game, has_jvm)
}

/// Merges two argument maps: for each category, the base arguments come
/// first, then the partial ones, preserving per-category order; a category
/// is present in the result exactly when either side had it, and at most
/// once.
fn merge_argument_maps(
    base: Vec<(ArgumentType, Vec<Argument>)>,
    partial: Vec<(ArgumentType, Vec<Argument>)>,
) -> (r: Vec<(ArgumentType, Vec<Argument>)>)
    ensures
        distinct_categories(r@),
        args_for(r@, ArgumentType::Game) == args_for(base@, ArgumentType::Game) + args_for(
            partial@,
            ArgumentType::Game,
        ),
        args_for(r@, ArgumentType::Jvm) == args_for(base@, ArgumentType::Jvm) + args_for(
            partial@,
            ArgumentType::Jvm,
        ),
        has_key(r@, ArgumentType::Game) == (has_key(base@, ArgumentType::Game) || has_key(
            partial@,
            ArgumentType::Game,
        )),
        has_key(r@, ArgumentType::Jvm) == (has_key(base@, ArgumentType::Jvm) || has_key(
            partial@,
            ArgumentType::Jvm,
        )),
{
    let (mut bg, mut bj, bhg, bhj) = split_args(base);
    let (mut pg, mut pj, phg, phj) = split_args(partial);
    bg.append(&mut pg);
    bj.append(&mut pj);
    let mut r: Vec<(ArgumentType, Vec<Argument>)> = Vec::new();
    let ghost game_all = bg@;
    let ghost jvm_all = bj@;
    if bhg || phg {
        r.push((ArgumentType::Game, bg));
    }
    if bhj || phj {
        r.push((ArgumentType::Jvm, bj));
    }
    proof {
        reveal_with_fuel(args_for, 3);
        if r@.len() == 2 {
            assert(r@.drop_last() =~= seq![r@[0]]);
            assert(seq![r@[0]].drop_last() =~= Seq::<(ArgumentType, Vec<Argument>)>::empty());
        } else if r@.len() == 1 {
            assert(r@.drop_last() =~= Seq::<(ArgumentType, Vec<Argument>)>::empty());
        }
        assert(args_for(r@, ArgumentType::Game) =~= (if bhg || phg {
            game_all
        } else {
            Seq::<Argument>::empty()
        }));
        assert(args_for(r@, ArgumentType::Jvm) =~= (if bhj || phj {
            jvm_all
        } else {
            Seq::<Argument>::empty()
        }));
        if !(bhg || phg) {
            lemma_args_for_no_key(base@, ArgumentType::Game);
            lemma_args_for_no_key(partial@, ArgumentType::Game);
            assert(args_for(base@, ArgumentType::Game) + args_for(partial@, ArgumentType::Game)
                =~= Seq::<Argument>::empty());
        }
        if !(bhj || phj) {
            lemma_args_for_no_key(base@, ArgumentType::Jvm);
            lemma_args_for_no_key(partial@, ArgumentType::Jvm);
            assert(args_for(base@, ArgumentType::Jvm) + args_for(partial@, ArgumentType::Jvm)
                =~= Seq::<Argument>::empty());
        }
    }
    r
}

/// Merges a loader's partial manifest into the base manifest it extends.
///
/// Fields the partial manifest carries win (`id`, `main_class` when set,
/// `minecraft_arguments`, times, type, `data`, `processors`); the rest falls
/// through to the base. A base library is dropped when a classpath-included
/// partial library shares its `groupId:artifactId` prefix; surviving base
/// libraries come before the partial ones. The placeholder token in the
/// merged `id` and in every library name is substituted by the base
/// manifest's id. Arguments are merged per category, base first, when both
/// sides define any. The merge is pure and total: it never fails.
pub fn merge_partial_version(partial: PartialVersionInfo, merge: VersionInfo) -> (r: VersionInfo)
    ensures
        r.id@ == replace_all(partial.id@, DUMMY_REPLACE_STRING@, merge.id@),
        r.asset_index == merge.asset_index,
        r.assets == merge.assets,
        r.downloads == merge.downloads,
        r.java_version == merge.java_version,
        r.logging == merge.logging,
        r.minimum_launcher_version == merge.minimum_launcher_version,
        partial.main_class is Some ==> r.main_class == partial.main_class.unwrap(),
        partial.main_class is None ==> r.main_class == merge.main_class,
        r.minecraft_arguments == partial.minecraft_arguments,
        r.release_time == partial.release_time,
        r.time == partial.time,
        r.type_ == partial.type_,
        r.data == partial.data,
        r.processors == partial.processors,
        ({
            let combined = kept_libraries(merge.libraries@, partial.libraries@)
                + partial.libraries@;
            &&& r.libraries@.len() == combined.len()
            &&& forall|i: int|
                0 <= i < combined.len() ==> renamed_from(
                    #[trigger] r.libraries@[i],
                    combined[i],
                    merge.id@,
                )
        }),
        partial.arguments is None ==> r.arguments == merge.arguments,
        partial.arguments is Some && merge.arguments is None ==> r.arguments
            == partial.arguments,
        partial.arguments is Some && merge.arguments is Some ==> (r.arguments matches Some(ra)
            && {
            let ba = merge.arguments.unwrap();
            let pa = partial.arguments.unwrap();
            &&& args_for(ra@, ArgumentType::Game) == args_for(ba@, ArgumentType::Game)
                + args_for(pa@, ArgumentType::Game)
            &&& args_for(ra@, ArgumentType::Jvm) == args_for(ba@, ArgumentType::Jvm) + args_for(
                pa@,
                ArgumentType::Jvm,
            )
            &&& has_key(ra@, ArgumentType::Game) == (has_key(ba@, ArgumentType::Game)
                || has_key(pa@, ArgumentType::Game))
            &&& has_key(ra@, ArgumentType::Jvm) == (has_key(ba@, ArgumentType::Jvm) || has_key(
                pa@,
                ArgumentType::Jvm,
            ))
            &&& distinct_categories(ra@)
        }),
{
    let merge_id: String = merge.id.clone();
    let id_chars = str_to_chars(merge_id.as_str());
    let dummy_chars = str_to_chars(DUMMY_REPLACE_STRING);

    // Base libraries survive unless a classpath-included partial library
    // shares their artifact prefix.
    let ghost base_libs_orig = merge.libraries@;
    let mut base_libs = merge.libraries;
    let base_count = base_libs.len();
    assert(base_libs_orig.len() == base_count);
    let mut libraries: Vec<Library> = Vec::new();
    let mut c: usize = 0;
    while base_libs.len() > 0
        invariant
            base_libs_orig.len() == base_count,
            c + base_libs@.len() == base_libs_orig.len(),
            base_libs@ =~= base_libs_orig.skip(c as int),
            libraries@ == kept_libraries(base_libs_orig.take(c as int), partial.libraries@),
        decreases base_libs@.len(),
    {
        proof {
            assert(base_libs_orig.take(c + 1).drop_last() =~= base_libs_orig.take(c as int));
            assert(base_libs_orig.take(c + 1).last() == base_libs_orig[c as int]);
            assert(base_libs@[0] == base_libs_orig[c as int]);
        }
        let lib = base_libs.remove(0);
        proof {
            assert(base_libs_orig.skip(c as int).remove(0) =~= base_libs_orig.skip(c + 1));
        }
        if !lib_superseded(&lib, &partial.libraries) {
            libraries.push(lib);
        }
        c = c + 1;
    }
    proof {
        assert(base_libs_orig.take(base_libs_orig.len() as int) =~= base_libs_orig);
    }

    // Partial libraries follow the surviving base libraries.
    let ghost kept = libraries@;
    let mut partial_libs = partial.libraries;
    libraries.append(&mut partial_libs);

    // Substitute the placeholder token in every library name.
    let ghost combined = libraries@;
    let mut renamed: Vec<Library> = Vec::new();
    let mut libs_left = libraries;
    let combined_count = libs_left.len();
    assert(combined.len() == combined_count);
    let mut d: usize = 0;
    while libs_left.len() > 0
        invariant
            combined.len() == combined_count,
            d + libs_left@.len() == combined.len(),
            libs_left@ =~= combined.skip(d as int),
            renamed@.len() == d,
            dummy_chars@ == DUMMY_REPLACE_STRING@,
            id_chars@ == merge.id@,
            forall|i: int|
                0 <= i < d ==> renamed_from(#[trigger] renamed@[i], combined[i], merge.id@),
        decreases libs_left@.len(),
    {
        proof {
            assert(libs_left@[0] == combined[d as int]);
        }
        let mut lib = libs_left.remove(0);
        proof {
            assert(combined.skip(d as int).remove(0) =~= combined.skip(d + 1));
        }
        let name_chars = str_to_chars(lib.name.as_str());
        let replaced = chars_replace_all(&name_chars, &dummy_chars, &id_chars);
        lib.name = chars_to_string(&replaced);
        renamed.push(lib);
        d = d + 1;
    }

    // Substitute the placeholder token in the merged id.
    let partial_id_chars = str_to_chars(partial.id.as_str());
    let id_replaced = chars_replace_all(&partial_id_chars, &dummy_chars, &id_chars);
    let new_id = chars_to_string(&id_replaced);

    let arguments: Option<Vec<(ArgumentType, Vec<Argument>)>> = match partial.arguments {
        None => merge.arguments,
        Some(partial_args) => {
            match merge.arguments {
                None => Some(partial_args),
                Some(merge_args) => Some(merge_argument_maps(merge_args, partial_args)),
            }
        },
    };

    let main_class: String = match partial.main_class {
        Some(mc) => mc,
        None => merge.main_class,
    };

    VersionInfo {
        arguments,
        asset_index: merge.asset_index,
        assets: merge.assets,
        downloads: merge.downloads,
        id: new_id,
        java_version: merge.java_version,
        libraries: renamed,
        logging: merge.logging,
        main_class,
        minecraft_arguments: partial.minecraft_arguments,
        minimum_launcher_version: merge.minimum_launcher_version,
        release_time: partial.release_time,
        time: partial.time,
        type_: partial.type_,
        data: partial.data,
        processors: partial.processors,
    }
}

} // verus!
