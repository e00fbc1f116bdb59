//! Where the plugin looks for its `config.toml`.
use crate::amiibo::texts;
use vstd::prelude::*;

verus! {

/// The configuration file in the plugin's own folder, taken whenever it exists.
pub const DEFAULT_CONFIG_PATH: &'static str = "sd:/ultimate/mods/Bosses/config.toml";

/// Whether a name holds `boss` somewhere.
pub open spec fn contains_boss(name: Seq<char>) -> bool {
    exists|i: int|
        0 <= i && i + 4 <= name.len() && #[trigger] name[i] == 'b' && name[i + 1] == 'o' && name[i
            + 2] == 's' && name[i + 3] == 's'
}

/// Whether a mod folder, by its lower-cased name, looks like a boss mod;
/// those folders are searched first.
pub fn is_boss_mod_dir(lowercase_name: &str) -> (r: bool)
    ensures
        r == contains_boss(lowercase_name@),
{
    let n = lowercase_name.unicode_len();
    if n < 4 {
        return false;
    }
    let mut i: usize = 0;
    while i <= n - 4
        invariant
            n == lowercase_name@.len(),
            n >= 4,
            i <= n - 3,
            forall|j: int|
                0 <= j < i && j + 4 <= n ==> !(#[trigger] lowercase_name@[j] == 'b'
                    && lowercase_name@[j + 1] == 'o' && lowercase_name@[j + 2] == 's'
                    && lowercase_name@[j + 3] == 's'),
        decreases n - i,
    {
        if lowercase_name.get_char(i) == 'b' && lowercase_name.get_char(i + 1) == 'o'
            && lowercase_name.get_char(i + 2) == 's' && lowercase_name.get_char(i + 3) == 's' {
            return true;
        }
        i = i + 1;
    }
    false
}

/// The config paths of the found folders whose boss-likeness is `boss`, in
/// the order found.
pub open spec fn paths_where(found: Seq<(Seq<char>, Seq<char>)>, boss: bool) -> Seq<Seq<char>>
    decreases found.len(),
{
    if found.len() == 0 {
        Seq::empty()
    } else {
        let rest = paths_where(found.drop_last(), boss);
        if contains_boss(found.last().0) == boss {
            rest.push(found.last().1)
        } else {
            rest
        }
    }
}

/// The paths tried, in order, when the default configuration is missing:
/// the `config.toml` of each boss-like mod folder, then of each other mod
/// folder, each group in the order found, then the fallback locations.
pub open spec fn spec_config_search_order(found: Seq<(Seq<char>, Seq<char>)>) -> Seq<Seq<char>> {
    paths_where(found, true) + paths_where(found, false) + seq![
        "sd:/ultimate/comp_boss/config.toml"@,
        "sd:/config/comp_boss/config.toml"@,
        "sd:/comp_boss/config.toml"@,
    ]
}

/// Every found folder's path is taken once, in the boss-like group or the
/// other group by its name, and each group keeps the order found.
proof fn lemma_paths_partition(found: Seq<(Seq<char>, Seq<char>)>)
    ensures
        paths_where(found, true).len() + paths_where(found, false).len() == found.len(),
        forall|b: bool, k: int|
            0 <= k < paths_where(found, b).len() ==> exists|i: int|
                0 <= i < found.len() && contains_boss(found[i].0) == b && #[trigger] paths_where(
                    found,
                    b,
                )[k] == found[i].1,
    decreases found.len(),
{
    if found.len() > 0 {
        let rest = found.drop_last();
        lemma_paths_partition(rest);
        assert forall|b: bool, k: int| 0 <= k < paths_where(found, b).len() implies exists|i: int|
            0 <= i < found.len() && contains_boss(found[i].0) == b && #[trigger] paths_where(
                found,
                b,
            )[k] == found[i].1 by {
            if k < paths_where(rest, b).len() {
                let i = choose|i: int|
                    0 <= i < rest.len() && contains_boss(rest[i].0) == b && #[trigger] paths_where(
                        rest,
                        b,
                    )[k] == rest[i].1;
                assert(found[i] == rest[i]);
            } else {
                assert(found[found.len() - 1] == found.last());
            }
        }
    }
}

/// Whether `path` is the configuration path of a found folder whose
/// boss-likeness is `boss`.
pub open spec fn is_folder_path(found: Seq<(Seq<char>, Seq<char>)>, path: Seq<char>, boss: bool) -> bool {
    exists|i: int| 0 <= i < found.len() && contains_boss(found[i].0) == boss && path == #[trigger] found[i].1
}

/// The search order tries each found folder's configuration once, the
/// boss-like folders' before all others, and ends with the three fallback
/// locations.
pub proof fn lemma_config_search_order_tries_each_folder_once(found: Seq<(Seq<char>, Seq<char>)>)
    ensures
        spec_config_search_order(found).len() == found.len() + 3,
        spec_config_search_order(found)[found.len() as int] == "sd:/ultimate/comp_boss/config.toml"@,
        spec_config_search_order(found)[found.len() + 1int] == "sd:/config/comp_boss/config.toml"@,
        spec_config_search_order(found)[found.len() + 2int] == "sd:/comp_boss/config.toml"@,
        forall|k: int|
            0 <= k < paths_where(found, true).len() ==> is_folder_path(
                found,
                #[trigger] spec_config_search_order(found)[k],
                true,
            ),
        forall|k: int|
            paths_where(found, true).len() <= k < found.len() ==> is_folder_path(
                found,
                #[trigger] spec_config_search_order(found)[k],
                false,
            ),
{
    lemma_paths_partition(found);
    let order = spec_config_search_order(found);
    let t = paths_where(found, true);
    let f = paths_where(found, false);
    let tail = seq![
        "sd:/ultimate/comp_boss/config.toml"@,
        "sd:/config/comp_boss/config.toml"@,
        "sd:/comp_boss/config.toml"@,
    ];
    assert(order == t + f + tail);
    assert(order[found.len() as int] == tail[0]);
    assert(order[found.len() + 1int] == tail[1]);
    assert(order[found.len() + 2int] == tail[2]);
    assert forall|k: int| 0 <= k < t.len() implies is_folder_path(found, #[trigger] order[k], true) by {
        assert(order[k] == t[k]);
        assert(t[k] == paths_where(found, true)[k]);
    }
    assert forall|k: int| t.len() <= k < found.len() implies is_folder_path(
        found,
        #[trigger] order[k],
        false,
    ) by {
        assert(order[k] == f[k - t.len()]);
        assert(f[k - t.len()] == paths_where(found, false)[k - t.len()]);
    }
}

pub open spec fn found_views(found: Seq<(String, String)>) -> Seq<(Seq<char>, Seq<char>)> {
    found.map_values(|d: (String, String)| (d.0@, d.1@))
}

/// Orders the candidate configuration files. Each found folder is given by
/// its lower-cased name and the path of the `config.toml` in it.
pub fn config_search_order(found: &Vec<(String, String)>) -> (r: Vec<String>)
    ensures
        texts(r@) == spec_config_search_order(found_views(found@)),
{
    let ghost v = found_views(found@);
    let mut preferred: Vec<String> = Vec::new();
    let mut others: Vec<String> = Vec::new();
    let n = found.len();
    let mut i: usize = 0;
    while i < n
        invariant
            n == found@.len(),
            i <= n,
            v == found_views(found@),
            texts(preferred@) == paths_where(v.subrange(0, i as int), true),
            texts(others@) == paths_where(v.subrange(0, i as int), false),
        decreases n - i,
    {
        let boss = is_boss_mod_dir(found[i].0.as_str());
        let path = found[i].1.clone();
        proof {
            assert(v.subrange(0, i + 1).drop_last() =~= v.subrange(0, i as int));
            assert(v[i as int] == (found@[i as int].0@, found@[i as int].1@));
        }
        let ghost p0 = preferred@;
        let ghost o0 = others@;
        if boss {
            preferred.push(path);
            proof {
                assert(texts(preferred@) =~= texts(p0).push(path@));
            }
        } else {
            others.push(path);
            proof {
                assert(texts(others@) =~= texts(o0).push(path@));
            }
        }
        i = i + 1;
    }
    proof {
        assert(v.subrange(0, n as int) =~= v);
    }
    let ghost p = preferred@;
    let ghost o = others@;
    let mut r = preferred;
    let mut j: usize = 0;
    let m = others.len();
    while j < m
        invariant
            m == o.len(),
            others@ == o,
            j <= m,
            texts(r@) == texts(p) + texts(o.subrange(0, j as int)),
        decreases m - j,
    {
        let ghost r0 = r@;
        let s = others[j].clone();
        r.push(s);
        proof {
            assert(texts(r@) =~= texts(r0).push(s@));
            assert(texts(o.subrange(0, j + 1)) =~= texts(o.subrange(0, j as int)).push(s@));
        }
        j = j + 1;
    }
    proof {
        assert(o.subrange(0, m as int) =~= o);
    }
    let ghost r1 = r@;
    let a = "sd:/ultimate/comp_boss/config.toml".to_owned();
    let b = "sd:/config/comp_boss/config.toml".to_owned();
    let c = "sd:/comp_boss/config.toml".to_owned();
    r.push(a);
    r.push(b);
    r.push(c);
    proof {
        assert(texts(r@) =~= texts(r1).push(a@).push(b@).push(c@));
        assert(texts(r@) =~= spec_config_search_order(v));
    }
    r
}

} // verus!
