//! The order in which the selected modules are laid out on the payload disk:
//! by name, then version, then time of last update. The image path takes no
//! part in it, since it changes when a staged module becomes active.

use crate::apex::{ApexConfig, ApexInfo, ApexInfoList, ApexView};
use crate::config::DebugConfig;
use crate::error::{ErrorKind, PayloadError};
use crate::select::{
    apex_views, collect_apex_infos, collected, in_allowed_partition, requested_names,
};
use crate::text::{
    bytes_le, bytes_le_exec, lemma_bytes_le_antisymmetric, lemma_bytes_le_reflexive,
    lemma_bytes_le_total, lemma_bytes_le_transitive,
};
use vstd::prelude::*;
use vstd::relations::*;
use vstd::seq_lib::*;
use vstd::string::*;
use vstd::utf8::*;

verus! {

/// What a module is ordered by.
pub struct SortKey {
    /// The name, as the bytes of its UTF-8 encoding.
    pub name: Seq<u8>,
    pub version: u64,
    pub last_update_seconds: u64,
}

/// The key of a module.
pub open spec fn sort_key(apex: ApexView) -> SortKey {
    SortKey {
        name: encode_utf8(apex.name),
        version: apex.version,
        last_update_seconds: apex.last_update_seconds,
    }
}

/// The order of keys: by name, byte by byte; among equal names by version;
/// among equal versions by time of last update.
pub open spec fn key_le(a: SortKey, b: SortKey) -> bool {
    if a.name != b.name {
        bytes_le(a.name, b.name)
    } else if a.version != b.version {
        a.version < b.version
    } else {
        a.last_update_seconds <= b.last_update_seconds
    }
}

/// The keys of a sequence of modules.
pub open spec fn sort_keys(apexes: Seq<ApexView>) -> Seq<SortKey> {
    apexes.map_values(|e: ApexView| sort_key(e))
}

/// Whether the keys never decrease along the sequence.
pub open spec fn in_key_order(keys: Seq<SortKey>) -> bool {
    forall|i: int, j: int| 0 <= i < j < keys.len() ==> key_le(#[trigger] keys[i], #[trigger] keys[j])
}

/// Whether `output` is `input` sorted by key with equal keys left in their
/// order: `from[i]` is the index in `input` of the module at `i` in `output`.
pub open spec fn is_stable_sort(input: Seq<ApexView>, output: Seq<ApexView>, from: Seq<int>) -> bool {
    &&& output.len() == input.len()
    &&& from.len() == input.len()
    &&& forall|i: int| 0 <= i < from.len() ==> 0 <= #[trigger] from[i] < input.len()
    &&& forall|i: int, j: int| 0 <= i < j < from.len() ==> #[trigger] from[i] != #[trigger] from[j]
    &&& forall|i: int| 0 <= i < output.len() ==> #[trigger] output[i] == input[from[i]]
    &&& in_key_order(sort_keys(output))
    &&& forall|i: int, j: int|
        0 <= i < j < output.len() && sort_key(#[trigger] output[i]) == sort_key(
            #[trigger] output[j],
        ) ==> from[i] < from[j]
}

/// Of two keys one is at most the other.
pub proof fn lemma_key_le_total(a: SortKey, b: SortKey)
    ensures
        key_le(a, b) || key_le(b, a),
{
    lemma_bytes_le_total(a.name, b.name);
}

/// Two keys of which each is at most the other are the same key.
pub proof fn lemma_key_le_antisymmetric(a: SortKey, b: SortKey)
    requires
        key_le(a, b),
        key_le(b, a),
    ensures
        a == b,
{
    if a.name != b.name {
        lemma_bytes_le_antisymmetric(a.name, b.name);
    }
}

/// The order of keys is transitive.
pub proof fn lemma_key_le_transitive(a: SortKey, b: SortKey, c: SortKey)
    requires
        key_le(a, b),
        key_le(b, c),
    ensures
        key_le(a, c),
{
    lemma_bytes_le_reflexive(a.name);
    lemma_bytes_le_reflexive(b.name);
    if a.name != b.name && b.name != c.name {
        lemma_bytes_le_transitive(a.name, b.name, c.name);
        if a.name == c.name {
            lemma_bytes_le_antisymmetric(a.name, b.name);
        }
    }
}

/// The order of keys is a total order.
pub proof fn lemma_key_le_is_total_order()
    ensures
        total_ordering(|a: SortKey, b: SortKey| key_le(a, b)),
{
    let leq = |a: SortKey, b: SortKey| key_le(a, b);
    assert forall|a: SortKey, b: SortKey| #[trigger] leq(a, b) && #[trigger] leq(b, a) implies a
        == b by {
        lemma_key_le_antisymmetric(a, b);
    }
    assert forall|a: SortKey, b: SortKey, c: SortKey| #[trigger]
        leq(a, b) && #[trigger] leq(b, c) implies leq(a, c) by {
        lemma_key_le_transitive(a, b, c);
    }
    assert forall|a: SortKey, b: SortKey| #[trigger] leq(a, b) || #[trigger] leq(b, a) by {
        lemma_key_le_total(a, b);
    }
    assert(reflexive(leq));
    assert(antisymmetric(leq));
    assert(transitive(leq));
    assert(strongly_connected(leq));
}

/// The order of the output depends on the keys alone: two sequences in key
/// order that hold the same keys, each as often as the other, list them in the
/// same order, however the inputs were ordered and whatever the image paths.
pub proof fn lemma_key_order_unique(a: Seq<SortKey>, b: Seq<SortKey>)
    requires
        in_key_order(a),
        in_key_order(b),
        a.to_multiset() == b.to_multiset(),
    ensures
        a == b,
{
    let leq = |x: SortKey, y: SortKey| key_le(x, y);
    lemma_key_le_is_total_order();
    assert(sorted_by(a, leq)) by {
        assert forall|i: int, j: int| 0 <= i < j < a.len() implies #[trigger] leq(a[i], a[j]) by {
            assert(key_le(a[i], a[j]));
        }
    }
    assert(sorted_by(b, leq)) by {
        assert forall|i: int, j: int| 0 <= i < j < b.len() implies #[trigger] leq(b[i], b[j]) by {
            assert(key_le(b[i], b[j]));
        }
    }
    lemma_sorted_unique(a, b, leq);
}

/// Whether the key of `a` is at most the key of `b`.
pub fn key_le_exec(a: &ApexInfo, b: &ApexInfo) -> (r: bool)
    ensures
        r == key_le(sort_key(a@), sort_key(b@)),
{
    if a.name != b.name {
        proof {
            encode_utf8_decode_utf8(a.name@);
            encode_utf8_decode_utf8(b.name@);
        }
        bytes_le_exec(a.name.as_str().as_bytes(), b.name.as_str().as_bytes())
    } else if a.version != b.version {
        a.version < b.version
    } else {
        a.last_update_seconds <= b.last_update_seconds
    }
}

/// Sorts the modules by name, version and time of last update. Modules with
/// equal keys stay in the order they came in.
pub fn sort_apex_infos<'a>(apex_infos: Vec<&'a ApexInfo>) -> (sorted: Vec<&'a ApexInfo>)
    ensures
        exists|from: Seq<int>| is_stable_sort(apex_views(apex_infos@), apex_views(sorted@), from),
        sort_keys(apex_views(sorted@)).to_multiset() == sort_keys(
            apex_views(apex_infos@),
        ).to_multiset(),
{
    broadcast use group_to_multiset_ensures;

    let ghost input = apex_views(apex_infos@);
    let mut out: Vec<&'a ApexInfo> = Vec::new();
    let ghost mut from: Seq<int> = Seq::empty();
    let mut i: usize = 0;
    assert(sort_keys(apex_views(out@)) =~= sort_keys(input.take(0)));
    while i < apex_infos.len()
        invariant
            i <= apex_infos.len(),
            input == apex_views(apex_infos@),
            is_stable_sort(input.take(i as int), apex_views(out@), from),
            sort_keys(apex_views(out@)).to_multiset() == sort_keys(input.take(i as int)).to_multiset(),
        decreases apex_infos.len() - i,
    {
        let x = apex_infos[i];
        let ghost before = apex_views(out@);
        let ghost before_from = from;
        let mut j: usize = out.len();
        while j > 0 && !key_le_exec(out[j - 1], x)
            invariant
                j <= out.len(),
                before == apex_views(out@),
                forall|k: int|
                    j <= k < out.len() ==> !key_le(
                        sort_key(#[trigger] before[k]),
                        sort_key(x@),
                    ),
            decreases j,
        {
            j -= 1;
        }
        out.insert(j, x);
        proof {
            from = before_from.insert(j as int, i as int);
            let after = apex_views(out@);
            assert(after =~= before.insert(j as int, x@));
            assert(input.take(i + 1) =~= input.take(i as int).push(x@));
            assert(sort_keys(after) =~= sort_keys(before).insert(j as int, sort_key(x@)));
            assert(sort_keys(input.take(i + 1)) =~= sort_keys(input.take(i as int)).push(
                sort_key(x@),
            ));
            to_multiset_insert(sort_keys(before), j as int, sort_key(x@));
            to_multiset_build(sort_keys(input.take(i as int)), sort_key(x@));
            assert forall|a: int| 0 <= a < after.len() implies #[trigger] after[a] == input.take(
                i + 1,
            )[from[a]] by {
                if a < j {
                    assert(after[a] == before[a]);
                } else if a > j {
                    assert(after[a] == before[a - 1]);
                }
            }
            assert forall|a: int, b: int| 0 <= a < b < from.len() implies #[trigger] from[a]
                != #[trigger] from[b] by {
                let pa = if a < j { a } else { a - 1 };
                let pb = if b < j { b } else { b - 1 };
                if a != j && b != j {
                    assert(before_from[pa] != before_from[pb]);
                }
            }
            assert forall|a: int, b: int| 0 <= a < b < after.len() implies key_le(
                #[trigger] sort_keys(after)[a],
                #[trigger] sort_keys(after)[b],
            ) by {
                let keys = sort_keys(before);
                if b == j {
                    assert(key_le(keys[j - 1], sort_key(x@)));
                    if a < j - 1 {
                        assert(key_le(keys[a], keys[j - 1]));
                        lemma_key_le_transitive(keys[a], keys[j - 1], sort_key(x@));
                    }
                } else if a == j {
                    assert(!key_le(sort_key(before[b - 1]), sort_key(x@)));
                    lemma_key_le_total(sort_key(before[b - 1]), sort_key(x@));
                } else {
                    let pa = if a < j { a } else { a - 1 };
                    let pb = if b < j { b } else { b - 1 };
                    assert(key_le(keys[pa], keys[pb]));
                }
            }
            assert forall|a: int, b: int|
                0 <= a < b < after.len() && sort_key(#[trigger] after[a]) == sort_key(
                    #[trigger] after[b],
                ) implies from[a] < from[b] by {
                if b == j {
                } else if a == j {
                    assert(!key_le(sort_key(before[b - 1]), sort_key(x@)));
                } else {
                    let pa = if a < j { a } else { a - 1 };
                    let pb = if b < j { b } else { b - 1 };
                    assert(after[a] == before[pa] && after[b] == before[pb]);
                    assert(before_from[pa] < before_from[pb]);
                }
            }
        }
        i += 1;
    }
    assert(input.take(i as int) =~= input);
    out
}

/// Selects from the catalog the modules that a virtual machine receives, in
/// the order in which they are laid out: by name, version and time of last
/// update, whatever their order in the catalog and their image paths. Fails,
/// and hands out no module at all, where one of the selected modules is
/// preinstalled outside the allowed partitions.
pub fn select_apex_infos<'a>(
    apex_list: &'a ApexInfoList,
    apex_configs: &[ApexConfig],
    debug_config: &DebugConfig,
) -> (r: Result<Vec<&'a ApexInfo>, PayloadError>)
    ensures
        match collected(
            apex_list@,
            requested_names(apex_configs@),
            debug_config.should_include_debug_apexes(),
        ) {
            Err(failure) => r matches Err(e) && e@ == failure && e.kind()
                == ErrorKind::PolicyViolation,
            Ok(chosen) => {
                &&& r matches Ok(apexes)
                &&& exists|from: Seq<int>| is_stable_sort(chosen, apex_views(apexes@), from)
                &&& sort_keys(apex_views(apexes@)).to_multiset() == sort_keys(chosen).to_multiset()
                &&& forall|i: int|
                    0 <= i < apexes@.len() ==> in_allowed_partition(
                        (#[trigger] apexes@[i])@.preinstalled_path,
                    )
            },
        },
{
    let apex_infos = match collect_apex_infos(apex_list, apex_configs, debug_config) {
        Ok(apex_infos) => apex_infos,
        Err(e) => {
            return Err(e);
        },
    };
    let ghost chosen = apex_views(apex_infos@);
    let ghost unsorted = apex_infos@;
    let sorted = sort_apex_infos(apex_infos);
    proof {
        let from = choose|from: Seq<int>| is_stable_sort(chosen, apex_views(sorted@), from);
        assert forall|i: int| 0 <= i < sorted@.len() implies in_allowed_partition(
            (#[trigger] sorted@[i])@.preinstalled_path,
        ) by {
            assert(apex_views(sorted@)[i] == chosen[from[i]]);
            assert(chosen[from[i]] == unsorted[from[i]]@);
        }
    }
    Ok(sorted)
}

} // verus!
