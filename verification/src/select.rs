//! Which modules of the catalog a virtual machine receives, and in what
//! order they are laid out.

use crate::apex::{matches_name, ApexConfig, ApexInfo, ApexInfoList, ApexView};
use crate::config::DebugConfig;
use crate::error::{ErrorKind, PayloadError, PayloadErrorView};
use crate::path::{path_starts_with, starts_with};
use vstd::prelude::*;
use vstd::string::*;

verus! {

/// Whether a module preinstalled at this path comes from a partition whose
/// modules a guest may receive: `/system` or `/system_ext`.
pub open spec fn in_allowed_partition(preinstalled_path: Seq<char>) -> bool {
    path_starts_with(preinstalled_path, "/system"@) || path_starts_with(
        preinstalled_path,
        "/system_ext"@,
    )
}

/// The modules of `apexes` as plain values.
pub open spec fn apex_views(apexes: Seq<&ApexInfo>) -> Seq<ApexView> {
    apexes.map_values(|e: &ApexInfo| e@)
}

/// The index of the first `false` among `flags`.
pub open spec fn first_false(flags: Seq<bool>) -> Option<int>
    decreases flags.len(),
{
    if flags.len() == 0 {
        None
    } else {
        match first_false(flags.drop_last()) {
            Some(k) => Some(k),
            None => if flags.last() {
                None
            } else {
                Some(flags.len() - 1)
            },
        }
    }
}

/// `first_false` gives the first `false`, and none where there is none.
pub proof fn lemma_first_false(flags: Seq<bool>)
    ensures
        match first_false(flags) {
            Some(k) => 0 <= k < flags.len() && !flags[k] && forall|i: int| 0 <= i < k ==> flags[i],
            None => forall|i: int| 0 <= i < flags.len() ==> flags[i],
        },
    decreases flags.len(),
{
    if flags.len() > 0 {
        lemma_first_false(flags.drop_last());
        assert forall|i: int| 0 <= i < flags.len() - 1 implies flags[i] == flags.drop_last()[i] by {}
    }
}

/// For each module, whether it comes from an allowed partition.
pub open spec fn partition_flags(apexes: Seq<ApexView>) -> Seq<bool> {
    apexes.map_values(|e: ApexView| in_allowed_partition(e.preinstalled_path))
}

/// Whether a module preinstalled at this path comes from an allowed
/// partition.
pub fn is_in_allowed_partition(preinstalled_path: &str) -> (r: bool)
    ensures
        r == in_allowed_partition(preinstalled_path@),
{
    starts_with(preinstalled_path, "/system") || starts_with(preinstalled_path, "/system_ext")
}

/// The first `n` of `flags`; where there are fewer, `false` for the rest.
pub open spec fn flags_for(flags: Seq<bool>, n: nat) -> Seq<bool> {
    Seq::new(n, |i: int| i < flags.len() && flags[i])
}

/// Given for each requested module whether it comes from an allowed
/// partition, accepts the request or names the first module that does not.
/// A module without a flag counts as one that does not.
pub fn reject_first_untrusted(requested_apexes: &Vec<&ApexInfo>, allowed: &[bool]) -> (r: Result<
    (),
    PayloadError,
>)
    ensures
        match r {
            Ok(_) => first_false(flags_for(allowed@, requested_apexes@.len())) is None,
            Err(e) => {
                &&& first_false(flags_for(allowed@, requested_apexes@.len())) matches Some(k)
                &&& e@ == PayloadErrorView::UntrustedModule(requested_apexes@[k]@.name)
                &&& e.kind() == ErrorKind::PolicyViolation
            },
        },
{
    let ghost flags = flags_for(allowed@, requested_apexes@.len());
    let mut i: usize = 0;
    while i < requested_apexes.len()
        invariant
            i <= requested_apexes.len(),
            flags == flags_for(allowed@, requested_apexes@.len()),
            forall|j: int| 0 <= j < i ==> flags[j],
        decreases requested_apexes.len() - i,
    {
        if i >= allowed.len() || !allowed[i] {
            proof {
                lemma_first_false(flags);
                assert(!flags[i as int]);
            }
            return Err(PayloadError::UntrustedModule(requested_apexes[i].name.clone()));
        }
        assert(flags[i as int]);
        i += 1;
    }
    proof {
        lemma_first_false(flags);
    }
    Ok(())
}

/// Accepts the requested modules where each of them is preinstalled on an
/// allowed partition; else fails with the name of the first that is not.
pub fn check_apexes_are_from_allowed_partitions(requested_apexes: &Vec<&ApexInfo>) -> (r: Result<
    (),
    PayloadError,
>)
    ensures
        match r {
            Ok(_) => forall|i: int|
                0 <= i < requested_apexes@.len() ==> in_allowed_partition(
                    (#[trigger] requested_apexes@[i])@.preinstalled_path,
                ),
            Err(e) => {
                &&& first_false(partition_flags(apex_views(requested_apexes@))) matches Some(k)
                &&& e@ == PayloadErrorView::UntrustedModule(requested_apexes@[k]@.name)
                &&& e.kind() == ErrorKind::PolicyViolation
            },
        },
{
    let ghost flags = partition_flags(apex_views(requested_apexes@));
    let mut allowed: Vec<bool> = Vec::new();
    let mut i: usize = 0;
    while i < requested_apexes.len()
        invariant
            i <= requested_apexes.len(),
            flags == partition_flags(apex_views(requested_apexes@)),
            allowed@ == flags.take(i as int),
        decreases requested_apexes.len() - i,
    {
        allowed.push(is_in_allowed_partition(requested_apexes[i].preinstalled_path.as_str()));
        assert(allowed@ =~= flags.take(i + 1));
        i += 1;
    }
    assert(allowed@ =~= flags);
    assert(flags_for(allowed@, requested_apexes@.len()) =~= flags);
    let r = reject_first_untrusted(requested_apexes, allowed.as_slice());
    proof {
        lemma_first_false(flags);
        if r is Ok {
            assert forall|i: int| 0 <= i < requested_apexes@.len() implies in_allowed_partition(
                (#[trigger] requested_apexes@[i])@.preinstalled_path,
            ) by {
                assert(flags[i]);
            }
        }
    }
    r
}

/// The names that a list of requests asks for.
pub open spec fn requested_names(apex_configs: Seq<ApexConfig>) -> Seq<Seq<char>> {
    apex_configs.map_values(|c: ApexConfig| c.name@)
}

/// Whether one of the requested names asks for `apex`.
pub open spec fn is_requested(apex: ApexView, requested: Seq<Seq<char>>) -> bool {
    exists|i: int| 0 <= i < requested.len() && matches_name(apex, #[trigger] requested[i])
}

/// Whether a virtual machine receives `apex`: an active module that is
/// requested, or that debugging needs where the debug modules are included,
/// and every module that provides shared libraries, active or not.
pub open spec fn is_selected(apex: ApexView, requested: Seq<Seq<char>>, debug_apexes: bool) -> bool {
    ||| is_requested(apex, requested) && apex.is_active
    ||| debug_apexes && apex.name == "com.android.adbd"@ && apex.is_active
    ||| apex.provide_shared_apex_libs
}

/// Whether one of `apex_configs` asks for `apex`.
pub fn requested_by_any(apex: &ApexInfo, apex_configs: &[ApexConfig]) -> (r: bool)
    ensures
        r == is_requested(apex@, requested_names(apex_configs@)),
{
    let mut i: usize = 0;
    while i < apex_configs.len()
        invariant
            i <= apex_configs.len(),
            forall|j: int|
                0 <= j < i ==> !matches_name(
                    apex@,
                    #[trigger] requested_names(apex_configs@)[j],
                ),
        decreases apex_configs.len() - i,
    {
        if apex.matches(&apex_configs[i]) {
            assert(matches_name(apex@, requested_names(apex_configs@)[i as int]));
            return true;
        }
        i += 1;
    }
    false
}

/// Whether a virtual machine with these requests receives `apex`.
pub fn selects(apex: &ApexInfo, apex_configs: &[ApexConfig], debug_apexes: bool) -> (r: bool)
    ensures
        r == is_selected(apex@, requested_names(apex_configs@), debug_apexes),
{
    if apex.provide_shared_apex_libs {
        return true;
    }
    if !apex.is_active {
        return false;
    }
    if debug_apexes && apex.name == String::from_str("com.android.adbd") {
        return true;
    }
    requested_by_any(apex, apex_configs)
}

/// The entries of the catalog that a virtual machine with these requests
/// receives, in the order of the catalog.
pub open spec fn selection(list: Seq<ApexView>, requested: Seq<Seq<char>>, debug_apexes: bool) -> Seq<
    ApexView,
> {
    list.filter(|e: ApexView| is_selected(e, requested, debug_apexes))
}

/// Nothing is selected from nothing.
pub proof fn lemma_selection_empty(list: Seq<ApexView>, requested: Seq<Seq<char>>, debug_apexes: bool)
    requires
        list.len() == 0,
    ensures
        selection(list, requested, debug_apexes) == Seq::<ApexView>::empty(),
{
    reveal(Seq::filter);
    assert(selection(list, requested, debug_apexes) =~= Seq::<ApexView>::empty());
}

/// The selection from the first `i + 1` entries is the selection from the
/// first `i`, followed by entry `i` where that one is selected.
pub proof fn lemma_selection_step(
    list: Seq<ApexView>,
    i: int,
    requested: Seq<Seq<char>>,
    debug_apexes: bool,
)
    requires
        0 <= i < list.len(),
    ensures
        selection(list.take(i + 1), requested, debug_apexes) == if is_selected(
            list[i],
            requested,
            debug_apexes,
        ) {
            selection(list.take(i), requested, debug_apexes).push(list[i])
        } else {
            selection(list.take(i), requested, debug_apexes)
        },
{
    reveal(Seq::filter);
    assert(list.take(i + 1).drop_last() =~= list.take(i));
    assert(list.take(i + 1).last() == list[i]);
}

/// What the selection of modules comes to: the selected modules where each of
/// them is preinstalled on an allowed partition, else the failure that names
/// the first that is not.
pub open spec fn collected(list: Seq<ApexView>, requested: Seq<Seq<char>>, debug_apexes: bool) -> Result<
    Seq<ApexView>,
    PayloadErrorView,
> {
    let chosen = selection(list, requested, debug_apexes);
    match first_false(partition_flags(chosen)) {
        Some(k) => Err(PayloadErrorView::UntrustedModule(chosen[k].name)),
        None => Ok(chosen),
    }
}

/// Collects from the catalog the modules that a virtual machine receives, in
/// the order of the catalog. Fails, and hands out no module at all, where one
/// of them is preinstalled outside the allowed partitions.
pub fn collect_apex_infos<'a>(
    apex_list: &'a ApexInfoList,
    apex_configs: &[ApexConfig],
    debug_config: &DebugConfig,
) -> (r: Result<Vec<&'a ApexInfo>, PayloadError>)
    ensures
        match r {
            Ok(apexes) => {
                &&& collected(
                    apex_list@,
                    requested_names(apex_configs@),
                    debug_config.should_include_debug_apexes(),
                ) == Ok::<Seq<ApexView>, PayloadErrorView>(apex_views(apexes@))
                &&& forall|i: int|
                    0 <= i < apexes@.len() ==> in_allowed_partition(
                        (#[trigger] apexes@[i])@.preinstalled_path,
                    )
            },
            Err(e) => {
                &&& collected(
                    apex_list@,
                    requested_names(apex_configs@),
                    debug_config.should_include_debug_apexes(),
                ) == Err::<Seq<ApexView>, PayloadErrorView>(e@)
                &&& e.kind() == ErrorKind::PolicyViolation
            },
        },
{
    let debug_apexes = debug_config.should_include_debug_apexes();
    let ghost requested = requested_names(apex_configs@);
    let ghost catalog = apex_list@;
    let mut apex_infos: Vec<&'a ApexInfo> = Vec::new();
    let mut i: usize = 0;
    proof {
        lemma_selection_empty(catalog.take(0), requested, debug_apexes);
        assert(apex_views(apex_infos@) =~= Seq::<ApexView>::empty());
    }
    while i < apex_list.list.len()
        invariant
            i <= apex_list.list.len(),
            catalog == apex_list@,
            requested == requested_names(apex_configs@),
            apex_views(apex_infos@) == selection(catalog.take(i as int), requested, debug_apexes),
        decreases apex_list.list.len() - i,
    {
        let ai = &apex_list.list[i];
        proof {
            lemma_selection_step(catalog, i as int, requested, debug_apexes);
            assert(catalog[i as int] == ai@);
        }
        if selects(ai, apex_configs, debug_apexes) {
            apex_infos.push(ai);
            assert(apex_views(apex_infos@) =~= selection(
                catalog.take(i + 1),
                requested,
                debug_apexes,
            ));
        }
        i += 1;
    }
    assert(catalog.take(i as int) =~= catalog);
    let checked = check_apexes_are_from_allowed_partitions(&apex_infos);
    proof {
        lemma_first_false(partition_flags(apex_views(apex_infos@)));
        if checked is Ok {
            assert forall|j: int| 0 <= j < apex_infos@.len() implies partition_flags(
                apex_views(apex_infos@),
            )[j] by {
                assert(in_allowed_partition(apex_infos@[j]@.preinstalled_path));
            }
        }
    }
    match checked {
        Ok(_) => Ok(apex_infos),
        Err(e) => Err(e),
    }
}

} // verus!
