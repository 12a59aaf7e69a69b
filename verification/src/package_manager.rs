//! The catalog as one request for a virtual machine sees it: the installed
//! modules, overridden, where the request prefers it, by the modules that are
//! staged for the next boot.

use crate::apex::{
    first_overridden, lemma_override_keeps_one_active, one_active_per_name, staged_override,
    ApexInfoList, ApexView, StagedApexInfo, StagedView,
};
use crate::error::{PayloadError, PayloadErrorView};
use vstd::prelude::*;

verus! {

/// A staged module together with what the file system says of its image.
#[derive(Clone, Debug, Default, PartialEq, Eq)]
pub struct StagedApex {
    pub info: StagedApexInfo,
    /// When the staged image was last modified, in seconds since the epoch;
    /// `None` where that cannot be read.
    pub last_updated: Option<u64>,
}

/// What a [`StagedApex`] holds, as plain values.
pub struct StagedApexView {
    pub info: StagedView,
    pub last_updated: Option<u64>,
}

impl View for StagedApex {
    type V = StagedApexView;

    open spec fn view(&self) -> StagedApexView {
        StagedApexView { info: self.info@, last_updated: self.last_updated }
    }
}

/// The staged modules as plain values.
pub open spec fn staged_views(staged: Seq<StagedApex>) -> Seq<StagedApexView> {
    staged.map_values(|s: StagedApex| s@)
}

/// The catalog after one staged module has overridden it, or the failure to
/// read the modification time of the staged image, which only matters where an
/// entry is overridden at all.
pub open spec fn override_one(list: Seq<ApexView>, staged: StagedApexView) -> Result<
    Seq<ApexView>,
    PayloadErrorView,
> {
    match staged.last_updated {
        Some(t) => Ok(staged_override(list, staged.info, t)),
        None => if first_overridden(list, staged.info.module_name) is None {
            Ok(list)
        } else {
            Err(PayloadErrorView::FilesystemError(staged.info.disk_image_path))
        },
    }
}

/// The catalog after the staged modules have overridden it one after the
/// other, or the first failure on the way.
pub open spec fn override_all(list: Seq<ApexView>, staged: Seq<StagedApexView>) -> Result<
    Seq<ApexView>,
    PayloadErrorView,
>
    decreases staged.len(),
{
    if staged.len() == 0 {
        Ok(list)
    } else {
        match override_all(list, staged.drop_last()) {
            Ok(so_far) => override_one(so_far, staged.last()),
            Err(e) => Err(e),
        }
    }
}

/// The catalog that a request sees. Staged modules are not to be had in early
/// boot.
pub open spec fn apex_list_for(
    list: Seq<ApexView>,
    prefer_staged: bool,
    early_boot: bool,
    staged: Seq<StagedApexView>,
) -> Result<Seq<ApexView>, PayloadErrorView> {
    if !prefer_staged {
        Ok(list)
    } else if early_boot {
        Err(PayloadErrorView::StagedNotAllowed)
    } else {
        override_all(list, staged)
    }
}

/// Gives out the catalog of installed modules to the requests for virtual
/// machines. The catalog itself is never changed: each request works on a copy
/// of its own.
pub struct PackageManager<'a> {
    apex_info_list: &'a ApexInfoList,
}

impl<'a> View for PackageManager<'a> {
    type V = Seq<ApexView>;

    closed spec fn view(&self) -> Seq<ApexView> {
        self.apex_info_list@
    }
}

impl<'a> PackageManager<'a> {
    /// A package manager on the catalog of installed modules.
    pub fn new(apex_info_list: &'a ApexInfoList) -> (pm: Self)
        ensures
            pm@ == apex_info_list@,
    {
        PackageManager { apex_info_list }
    }

    /// The catalog for one request. Where the request prefers staged modules,
    /// `staged` holds those that the package service reports, in its order,
    /// and each overrides the catalog in turn; a request that does not prefer
    /// them gets the catalog as it is, and none can prefer them in early boot.
    pub fn get_apex_list(&self, prefer_staged: bool, early_boot: bool, staged: &[StagedApex]) -> (r:
        Result<ApexInfoList, PayloadError>)
        ensures
            match r {
                Ok(list) => apex_list_for(self@, prefer_staged, early_boot, staged_views(staged@))
                    == Ok::<Seq<ApexView>, PayloadErrorView>(list@),
                Err(e) => apex_list_for(self@, prefer_staged, early_boot, staged_views(staged@))
                    == Err::<Seq<ApexView>, PayloadErrorView>(e@),
            },
    {
        let mut list = self.apex_info_list.duplicate();
        assert(list@ =~= self@);
        if prefer_staged {
            if early_boot {
                return Err(PayloadError::StagedNotAllowed);
            }
            let ghost all = staged_views(staged@);
            let mut i: usize = 0;
            assert(all.take(0) =~= Seq::<StagedApexView>::empty());
            while i < staged.len()
                invariant
                    i <= staged.len(),
                    prefer_staged && !early_boot,
                    all == staged_views(staged@),
                    override_all(self@, all.take(i as int)) == Ok::<
                        Seq<ApexView>,
                        PayloadErrorView,
                    >(list@),
                decreases staged.len() - i,
            {
                let ghost so_far = list@;
                proof {
                    assert(all.take(i + 1).drop_last() =~= all.take(i as int));
                    assert(all.take(i + 1).last() == staged@[i as int]@);
                    assert(override_all(self@, all.take(i + 1)) == override_one(
                        so_far,
                        staged@[i as int]@,
                    ));
                }
                match list.override_staged_apex(&staged[i].info, staged[i].last_updated) {
                    Ok(_) => {},
                    Err(e) => {
                        proof {
                            lemma_override_all_fails(self@, all, i as int);
                        }
                        return Err(e);
                    },
                }
                i += 1;
            }
            assert(all.take(i as int) =~= all);
        }
        Ok(list)
    }
}

/// A catalog in which at most one entry of a name is active stays so when
/// staged modules override it.
pub proof fn lemma_override_all_keeps_one_active(list: Seq<ApexView>, staged: Seq<StagedApexView>)
    requires
        one_active_per_name(list),
    ensures
        override_all(list, staged) matches Ok(overridden) ==> one_active_per_name(overridden),
    decreases staged.len(),
{
    if staged.len() > 0 {
        lemma_override_all_keeps_one_active(list, staged.drop_last());
        match (override_all(list, staged.drop_last()), staged.last().last_updated) {
            (Ok(so_far), Some(t)) => {
                lemma_override_keeps_one_active(so_far, staged.last().info, t);
            },
            _ => {},
        }
    }
}

/// Once the override of a staged module has failed, the later ones are not
/// tried: the failure is the outcome.
pub proof fn lemma_override_all_fails(list: Seq<ApexView>, staged: Seq<StagedApexView>, i: int)
    requires
        0 <= i < staged.len(),
        override_all(list, staged.take(i + 1)) is Err,
    ensures
        override_all(list, staged) == override_all(list, staged.take(i + 1)),
    decreases staged.len(),
{
    if i + 1 == staged.len() {
        assert(staged.take(i + 1) =~= staged);
    } else {
        assert(staged.drop_last().take(i + 1) =~= staged.take(i + 1));
        lemma_override_all_fails(list, staged.drop_last(), i);
    }
}

} // verus!
