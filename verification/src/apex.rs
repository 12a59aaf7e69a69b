//! The catalog of installed APEX modules, and how a module staged for the next
//! boot overrides its entry.

use crate::classpath::{classpath_apex_names, find_apex_names_in_classpath};
use crate::error::{PayloadError, PayloadErrorView};
use crate::text::{contains_name, name_views};
use vstd::prelude::*;
use vstd::string::*;

verus! {

/// One installed APEX module.
#[derive(Clone, Debug, Default, PartialEq, Eq)]
pub struct ApexInfo {
    pub name: String,
    pub version: u64,
    pub path: String,
    pub has_classpath_jar: bool,
    /// Seconds since the epoch.
    pub last_update_seconds: u64,
    pub is_factory: bool,
    pub is_active: bool,
    pub provide_shared_apex_libs: bool,
    pub preinstalled_path: String,
}

/// What an [`ApexInfo`] holds, as plain values.
pub struct ApexView {
    pub name: Seq<char>,
    pub version: u64,
    pub path: Seq<char>,
    pub has_classpath_jar: bool,
    pub last_update_seconds: u64,
    pub is_factory: bool,
    pub is_active: bool,
    pub provide_shared_apex_libs: bool,
    pub preinstalled_path: Seq<char>,
}

impl View for ApexInfo {
    type V = ApexView;

    open spec fn view(&self) -> ApexView {
        ApexView {
            name: self.name@,
            version: self.version,
            path: self.path@,
            has_classpath_jar: self.has_classpath_jar,
            last_update_seconds: self.last_update_seconds,
            is_factory: self.is_factory,
            is_active: self.is_active,
            provide_shared_apex_libs: self.provide_shared_apex_libs,
            preinstalled_path: self.preinstalled_path@,
        }
    }
}

/// A module that a virtual machine asks for, by name.
#[derive(Clone, Debug, Default, PartialEq, Eq)]
pub struct ApexConfig {
    pub name: String,
}

/// A module that is staged and becomes active with the next boot.
#[derive(Clone, Debug, Default, PartialEq, Eq)]
pub struct StagedApexInfo {
    pub module_name: String,
    pub disk_image_path: String,
    pub version_code: i64,
    pub has_class_path_jars: bool,
}

/// What a [`StagedApexInfo`] holds, as plain values.
pub struct StagedView {
    pub module_name: Seq<char>,
    pub disk_image_path: Seq<char>,
    pub version_code: i64,
    pub has_class_path_jars: bool,
}

impl View for StagedApexInfo {
    type V = StagedView;

    open spec fn view(&self) -> StagedView {
        StagedView {
            module_name: self.module_name@,
            disk_image_path: self.disk_image_path@,
            version_code: self.version_code,
            has_class_path_jars: self.has_class_path_jars,
        }
    }
}

/// The catalog: the installed modules in the order of their listing.
#[derive(Clone, Debug, Default, PartialEq, Eq)]
pub struct ApexInfoList {
    pub list: Vec<ApexInfo>,
}

impl View for ApexInfoList {
    type V = Seq<ApexView>;

    open spec fn view(&self) -> Seq<ApexView> {
        info_views(self.list@)
    }
}

/// Whether a request for `requested` asks for `apex`: by its name, or by the
/// name `{CLASSPATH}`, which stands for every module with a classpath jar.
pub open spec fn matches_name(apex: ApexView, requested: Seq<char>) -> bool {
    (requested == "{CLASSPATH}"@ && apex.has_classpath_jar) || requested == apex.name
}

/// Whether a module staged under `name` replaces `apex`.
pub open spec fn overrides(apex: ApexView, name: Seq<char>) -> bool {
    apex.name == name && apex.is_active
}

/// An active entry after the staged module has replaced it.
pub open spec fn overridden(apex: ApexView, staged: StagedView, last_updated: u64) -> ApexView {
    ApexView {
        version: staged.version_code as u64,
        path: staged.disk_image_path,
        has_classpath_jar: staged.has_class_path_jars,
        last_update_seconds: last_updated,
        is_factory: false,
        ..apex
    }
}

/// An active entry as it is left when the staged image's modification time
/// cannot be read: replaced but for its time stamp.
pub open spec fn half_overridden(apex: ApexView, staged: StagedView) -> ApexView {
    overridden(apex, staged, apex.last_update_seconds)
}

/// The inactive copy that keeps a factory module available.
pub open spec fn fallback(apex: ApexView) -> ApexView {
    ApexView { is_active: false, ..apex }
}

/// The index of the last entry that is named `name`, active and a factory
/// build: the one whose copy is kept as fallback.
pub open spec fn fallback_source(list: Seq<ApexView>, name: Seq<char>) -> Option<int>
    decreases list.len(),
{
    if list.len() == 0 {
        None
    } else if overrides(list.last(), name) && list.last().is_factory {
        Some(list.len() - 1)
    } else {
        fallback_source(list.drop_last(), name)
    }
}

/// The index of the first entry that a module staged under `name` replaces.
pub open spec fn first_overridden(list: Seq<ApexView>, name: Seq<char>) -> Option<int>
    decreases list.len(),
{
    if list.len() == 0 {
        None
    } else {
        match first_overridden(list.drop_last(), name) {
            Some(k) => Some(k),
            None => if overrides(list.last(), name) {
                Some(list.len() - 1)
            } else {
                None
            },
        }
    }
}

/// The catalog after `staged`, whose image was last modified at
/// `last_updated`, has overridden it: every active entry of that name is
/// replaced, and where one of them was a factory build, an inactive copy of the
/// last such entry is appended.
pub open spec fn staged_override(list: Seq<ApexView>, staged: StagedView, last_updated: u64) -> Seq<
    ApexView,
> {
    let replaced = list.map_values(
        |e: ApexView|
            if overrides(e, staged.module_name) {
                overridden(e, staged, last_updated)
            } else {
                e
            },
    );
    match fallback_source(list, staged.module_name) {
        Some(k) => replaced.push(fallback(list[k])),
        None => replaced,
    }
}

/// Among the modules that do not provide shared libraries, no two entries of
/// one name are active.
pub open spec fn one_active_per_name(list: Seq<ApexView>) -> bool {
    forall|i: int, j: int|
        0 <= i < j < list.len() && (#[trigger] list[i]).name == (#[trigger] list[j]).name
            && list[i].is_active && list[j].is_active ==> list[i].provide_shared_apex_libs
            || list[j].provide_shared_apex_libs
}

/// `fallback_source` gives the last entry that is overridden and a factory
/// build, and none where there is none.
pub proof fn lemma_fallback_source(list: Seq<ApexView>, name: Seq<char>)
    ensures
        match fallback_source(list, name) {
            Some(k) => {
                &&& 0 <= k < list.len()
                &&& overrides(list[k], name)
                &&& list[k].is_factory
                &&& forall|i: int|
                    k < i < list.len() ==> !(overrides(#[trigger] list[i], name)
                        && list[i].is_factory)
            },
            None => forall|i: int|
                0 <= i < list.len() ==> !(overrides(#[trigger] list[i], name) && list[i].is_factory),
        },
    decreases list.len(),
{
    if list.len() > 0 {
        lemma_fallback_source(list.drop_last(), name);
        if !(overrides(list.last(), name) && list.last().is_factory) {
            assert forall|i: int| 0 <= i < list.len() - 1 implies list[i] == list.drop_last()[i] by {}
        }
    }
}

/// `first_overridden` gives the first entry that is overridden, and none
/// where there is none.
pub proof fn lemma_first_overridden(list: Seq<ApexView>, name: Seq<char>)
    ensures
        match first_overridden(list, name) {
            Some(k) => 0 <= k < list.len() && overrides(list[k], name) && forall|i: int|
                0 <= i < k ==> !overrides(#[trigger] list[i], name),
            None => forall|i: int| 0 <= i < list.len() ==> !overrides(#[trigger] list[i], name),
        },
    decreases list.len(),
{
    if list.len() > 0 {
        lemma_first_overridden(list.drop_last(), name);
        assert forall|i: int| 0 <= i < list.len() - 1 implies list[i] == list.drop_last()[i] by {}
    }
}

/// Overriding keeps the rule that at most one entry of a name is active.
pub proof fn lemma_override_keeps_one_active(
    list: Seq<ApexView>,
    staged: StagedView,
    last_updated: u64,
)
    requires
        one_active_per_name(list),
    ensures
        one_active_per_name(staged_override(list, staged, last_updated)),
{
    let after = staged_override(list, staged, last_updated);
    lemma_fallback_source(list, staged.module_name);
    assert forall|i: int, j: int|
        0 <= i < j < after.len() && (#[trigger] after[i]).name == (#[trigger] after[j]).name
            && after[i].is_active && after[j].is_active implies after[i].provide_shared_apex_libs
        || after[j].provide_shared_apex_libs by {
        assert(j < list.len());
        assert(list[i].name == list[j].name);
        assert(list[i].is_active && list[j].is_active);
    }
}

/// Overriding a second time with the same staged module changes nothing: no
/// second fallback copy is appended.
pub proof fn lemma_override_idempotent(list: Seq<ApexView>, staged: StagedView, last_updated: u64)
    ensures
        staged_override(staged_override(list, staged, last_updated), staged, last_updated)
            == staged_override(list, staged, last_updated),
{
    let once = staged_override(list, staged, last_updated);
    let twice = staged_override(once, staged, last_updated);
    lemma_fallback_source(list, staged.module_name);
    lemma_fallback_source(once, staged.module_name);
    assert forall|i: int| 0 <= i < once.len() implies !(overrides(
        #[trigger] once[i],
        staged.module_name,
    ) && once[i].is_factory) by {}
    assert(twice =~= once);
}

impl ApexInfo {
    /// Whether a request for `apex_config` asks for this module.
    pub fn matches(&self, apex_config: &ApexConfig) -> (r: bool)
        ensures
            r == matches_name(self@, apex_config.name@),
    {
        let any_classpath = String::from_str("{CLASSPATH}");
        if apex_config.name == any_classpath && self.has_classpath_jar {
            return true;
        }
        if apex_config.name == self.name {
            return true;
        }
        false
    }

    /// A copy of this entry.
    pub fn duplicate(&self) -> (r: ApexInfo)
        ensures
            r == *self,
    {
        ApexInfo {
            name: self.name.clone(),
            version: self.version,
            path: self.path.clone(),
            has_classpath_jar: self.has_classpath_jar,
            last_update_seconds: self.last_update_seconds,
            is_factory: self.is_factory,
            is_active: self.is_active,
            provide_shared_apex_libs: self.provide_shared_apex_libs,
            preinstalled_path: self.preinstalled_path.clone(),
        }
    }
}

/// The catalog after each entry has been marked as having a classpath jar or
/// not, by whether its name is among `names`.
pub open spec fn with_classpath_jars(list: Seq<ApexView>, names: Set<Seq<char>>) -> Seq<ApexView> {
    list.map_values(|e: ApexView| ApexView { has_classpath_jar: names.contains(e.name), ..e })
}

/// The modules as plain values.
pub open spec fn info_views(list: Seq<ApexInfo>) -> Seq<ApexView> {
    list.map_values(|e: ApexInfo| e@)
}

impl ApexInfoList {
    /// Makes the catalog from the modules that the listing of the host holds
    /// and from the output of the classpath derivation. A module has a
    /// classpath jar where that output names it; in early boot the derivation
    /// is not run, there is no output, and no module has one.
    pub fn load(list: Vec<ApexInfo>, classpath_vars: Option<&str>) -> (r: ApexInfoList)
        ensures
            r@ == with_classpath_jars(
                info_views(list@),
                match classpath_vars {
                    Some(vars) => classpath_apex_names(vars@),
                    None => Set::empty(),
                },
            ),
    {
        let mut apex_info_list = ApexInfoList { list };
        let classpath_apexes = match classpath_vars {
            Some(vars) => find_apex_names_in_classpath(vars),
            None => Vec::new(),
        };
        proof {
            if classpath_vars is None {
                assert(name_views(classpath_apexes@).to_set() =~= Set::<Seq<char>>::empty());
            }
        }
        apex_info_list.set_classpath_jars(&classpath_apexes);
        apex_info_list
    }

    /// A copy of the catalog.
    pub fn duplicate(&self) -> (r: ApexInfoList)
        ensures
            r.list@ == self.list@,
    {
        let mut list: Vec<ApexInfo> = Vec::new();
        let mut i: usize = 0;
        while i < self.list.len()
            invariant
                i <= self.list.len(),
                list@ == self.list@.take(i as int),
            decreases self.list.len() - i,
        {
            list.push(self.list[i].duplicate());
            assert(list@ =~= self.list@.take(i + 1));
            i += 1;
        }
        assert(list@ =~= self.list@);
        ApexInfoList { list }
    }

    /// Marks each module as having a classpath jar or not, by whether its name
    /// is among `classpath_apexes`.
    pub fn set_classpath_jars(&mut self, classpath_apexes: &Vec<String>)
        ensures
            final(self)@ == with_classpath_jars(
                old(self)@,
                name_views(classpath_apexes@).to_set(),
            ),
    {
        let ghost before = self@;
        let n = self.list.len();
        let mut i: usize = 0;
        while i < n
            invariant
                i <= n,
                n == self.list.len(),
                before.len() == n,
                forall|j: int|
                    0 <= j < i ==> (#[trigger] self.list@[j])@ == with_classpath_jars(
                        before,
                        name_views(classpath_apexes@).to_set(),
                    )[j],
                forall|j: int| i <= j < n ==> (#[trigger] self.list@[j])@ == before[j],
            decreases n - i,
        {
            let found = contains_name(classpath_apexes, &self.list[i].name);
            let mut entry = self.list[i].duplicate();
            entry.has_classpath_jar = found;
            self.list.set(i, entry);
            i += 1;
        }
        assert(self@ =~= with_classpath_jars(before, name_views(classpath_apexes@).to_set()));
    }

    /// Overrides the catalog with a module that is staged for the next boot.
    /// `staged_last_updated` is the modification time of the staged image, in
    /// seconds since the epoch, or `None` where it cannot be read.
    ///
    /// Every active entry of the staged module's name takes the staged
    /// version, image path and classpath flag and that modification time, and
    /// is no factory build any more. Where such an entry was a factory build,
    /// an inactive copy of it as it was is appended, so that the factory
    /// version stays available; of several such entries the last is copied.
    /// Without the modification time the override fails at the first entry
    /// that it would replace, which is then left replaced but for its time
    /// stamp.
    ///
    /// A catalog in which at most one entry of a name is active stays so.
    pub fn override_staged_apex(
        &mut self,
        staged_apex_info: &StagedApexInfo,
        staged_last_updated: Option<u64>,
    ) -> (r: Result<(), PayloadError>)
        ensures
            r is Ok <==> staged_last_updated is Some || first_overridden(
                old(self)@,
                staged_apex_info@.module_name,
            ) is None,
            match r {
                Ok(_) => match staged_last_updated {
                    Some(t) => final(self)@ == staged_override(old(self)@, staged_apex_info@, t),
                    None => final(self)@ == old(self)@,
                },
                Err(e) => {
                    &&& e@ == PayloadErrorView::FilesystemError(staged_apex_info@.disk_image_path)
                    &&& first_overridden(old(self)@, staged_apex_info@.module_name) matches Some(k)
                    &&& final(self)@ == old(self)@.update(
                        k,
                        half_overridden(old(self)@[k], staged_apex_info@),
                    )
                },
            },
            one_active_per_name(old(self)@) ==> one_active_per_name(final(self)@),
    {
        let ghost before = self@;
        let ghost staged = staged_apex_info@;
        let n = self.list.len();
        let mut need_to_add: Option<ApexInfo> = None;
        let mut i: usize = 0;
        while i < n
            invariant
                i <= n,
                n == self.list.len(),
                before.len() == n,
                before == old(self)@,
                staged == staged_apex_info@,
                staged_last_updated is None ==> first_overridden(
                    before.take(i as int),
                    staged.module_name,
                ) is None,
                forall|j: int|
                    0 <= j < i ==> (#[trigger] self.list@[j])@ == (if overrides(
                        before[j],
                        staged.module_name,
                    ) {
                        overridden(before[j], staged, staged_last_updated.unwrap())
                    } else {
                        before[j]
                    }),
                forall|j: int| i <= j < n ==> (#[trigger] self.list@[j])@ == before[j],
                match fallback_source(before.take(i as int), staged.module_name) {
                    Some(k) => need_to_add is Some && need_to_add.unwrap()@ == fallback(before[k]),
                    None => need_to_add is None,
                },
            decreases n - i,
        {
            proof {
                assert(before.take(i + 1).drop_last() =~= before.take(i as int));
                assert(before.take(i + 1).last() == before[i as int]);
                lemma_fallback_source(before.take(i as int), staged.module_name);
            }
            if staged_apex_info.module_name == self.list[i].name && self.list[i].is_active {
                let mut entry = self.list[i].duplicate();
                if entry.is_factory {
                    let mut copy = entry.duplicate();
                    copy.is_active = false;
                    need_to_add = Some(copy);
                    entry.is_factory = false;
                }
                entry.version = staged_apex_info.version_code as u64;
                entry.path = staged_apex_info.disk_image_path.clone();
                entry.has_classpath_jar = staged_apex_info.has_class_path_jars;
                match staged_last_updated {
                    Some(t) => {
                        entry.last_update_seconds = t;
                        self.list.set(i, entry);
                    },
                    None => {
                        self.list.set(i, entry);
                        proof {
                            lemma_first_overridden(before, staged.module_name);
                            lemma_first_overridden(before.take(i as int), staged.module_name);
                            let k = first_overridden(before, staged.module_name).unwrap();
                            if k < i {
                                assert(before.take(i as int)[k] == before[k]);
                            }
                            assert(k == i);
                            assert(self@ =~= before.update(
                                k,
                                half_overridden(before[k], staged),
                            ));
                            lemma_update_keeps_one_active(
                                before,
                                k,
                                half_overridden(before[k], staged),
                            );
                        }
                        return Err(
                            PayloadError::FilesystemError(
                                staged_apex_info.disk_image_path.clone(),
                            ),
                        );
                    },
                }
            }
            i += 1;
        }
        proof {
            assert(before.take(n as int) =~= before);
            lemma_first_overridden(before, staged.module_name);
            lemma_fallback_source(before, staged.module_name);
        }
        if let Some(info) = need_to_add {
            self.list.push(info);
        }
        proof {
            match staged_last_updated {
                Some(t) => {
                    assert(self@ =~= staged_override(before, staged, t));
                    if one_active_per_name(before) {
                        lemma_override_keeps_one_active(before, staged, t);
                    }
                },
                None => {
                    assert(self@ =~= before);
                },
            }
        }
        Ok(())
    }
}

/// Replacing an entry by one of the same name, activity and shared-library
/// flag keeps the rule that at most one entry of a name is active.
pub proof fn lemma_update_keeps_one_active(list: Seq<ApexView>, k: int, entry: ApexView)
    requires
        0 <= k < list.len(),
        entry.name == list[k].name,
        entry.is_active == list[k].is_active,
        entry.provide_shared_apex_libs == list[k].provide_shared_apex_libs,
    ensures
        one_active_per_name(list) ==> one_active_per_name(list.update(k, entry)),
{
    let after = list.update(k, entry);
    if one_active_per_name(list) {
        assert forall|i: int, j: int|
            0 <= i < j < after.len() && (#[trigger] after[i]).name == (#[trigger] after[j]).name
                && after[i].is_active && after[j].is_active implies after[i].provide_shared_apex_libs
            || after[j].provide_shared_apex_libs by {
            assert(list[i].name == list[j].name);
            assert(list[i].is_active && list[j].is_active);
        }
    }
}

} // verus!
