//! The disks that a virtual machine running an application's payload is given,
//! with the payload disk first among them: the metadata record, the modules,
//! the application package with its signature, and the extra packages with
//! theirs. The guest finds its partitions by their labels and their order.

use crate::apex::{ApexInfo, ApexView};
use crate::config::{DebugConfig, DebugLevel, VirtualMachineAppConfig, VmPayloadConfig};
use crate::error::{ErrorKind, PayloadError, PayloadErrorView};
use crate::metadata::{
    apex_label, extra_apk_count_overflows, is_metadata_for, make_metadata, Metadata,
};
use crate::order::{is_stable_sort, select_apex_infos};
use crate::package_manager::{
    apex_list_for, staged_views, PackageManager, StagedApex, StagedApexView,
};
use crate::path::{extension, path_extension};
use crate::select::{apex_views, collected, first_false, lemma_first_false, requested_names};
use crate::text::{
    decimal_digits, lemma_decimal_digits_injective, lemma_decimal_digits_len, lemma_same_prefix,
    numbered,
};
use vstd::prelude::*;
use vstd::string::*;

verus! {

/// What backs a partition. The caller holds the files and opens the images.
#[derive(Clone, Debug, PartialEq, Eq)]
pub enum PartitionImage {
    /// A file that holds this metadata record.
    Metadata(Metadata),
    /// The module image at this path.
    Apex(String),
    /// The application package.
    Apk,
    /// The signature of the application package.
    Idsig,
    /// The extra application package of this number.
    ExtraApk(usize),
    /// The signature of the extra application package of this number.
    ExtraIdsig(usize),
    /// The vendor image.
    Vendor,
    /// The instance image, which holds the state that the guest keeps.
    Instance,
    /// The image of the guest's encrypted storage.
    EncryptedStore,
}

/// A partition of a disk of the guest.
#[derive(Clone, Debug, PartialEq, Eq)]
pub struct Partition {
    /// The name by which the guest finds the partition.
    pub label: String,
    pub image: PartitionImage,
    pub writable: bool,
}

/// A disk of the guest, put together from partitions.
#[derive(Clone, Debug, PartialEq, Eq)]
pub struct DiskImage {
    pub partitions: Vec<Partition>,
    pub writable: bool,
}

/// What the virtual machine is started with, as far as this library fills it
/// in.
#[derive(Clone, Debug, Default, PartialEq, Eq)]
pub struct VirtualMachineRawConfig {
    pub disks: Vec<DiskImage>,
    /// The path of the initial ramdisk.
    pub initrd: Option<String>,
}

/// The label of the extra application package of number `i`.
pub open spec fn extra_apk_label(i: int) -> Seq<char> {
    "extra-apk-"@ + decimal_digits(i as nat)
}

/// The label of the signature of the extra application package of number `i`.
pub open spec fn extra_idsig_label(i: int) -> Seq<char> {
    "extra-idsig-"@ + decimal_digits(i as nat)
}

/// The path of the image that stands for `apex` on the disk: in early boot
/// the preinstalled one, else the active one.
pub open spec fn apex_image_path(apex: ApexView, early_boot: bool) -> Seq<char> {
    if early_boot {
        apex.preinstalled_path
    } else {
        apex.path
    }
}

/// Whether the image at `path` is a plain module image, by its extension.
pub open spec fn is_plain_apex(path: Seq<char>) -> bool {
    path_extension(path) == Some("apex"@)
}

/// Whether this extension, if it is one, is that of a plain module image.
pub fn is_apex_extension(extension: &Option<String>) -> (r: bool)
    ensures
        r == (extension matches Some(e) && e@ == "apex"@),
{
    match extension {
        Some(e) => *e == String::from_str("apex"),
        None => false,
    }
}

/// For each module, whether its image can be put on the disk: in early boot
/// only plain images can.
pub open spec fn image_flags(apexes: Seq<ApexView>, early_boot: bool) -> Seq<bool> {
    apexes.map_values(|e: ApexView| !early_boot || is_plain_apex(e.preinstalled_path))
}

/// Whether `partition` is read-only, labelled `label` and backed by the
/// module image at `path`.
pub open spec fn is_apex_partition(partition: Partition, label: Seq<char>, path: Seq<char>) -> bool {
    &&& partition.label@ == label
    &&& partition.image matches PartitionImage::Apex(p)
    &&& p@ == path
    &&& !partition.writable
}

/// Whether `partition` is read-only, labelled `label` and backed by `image`.
pub open spec fn is_fixed_partition(
    partition: Partition,
    label: Seq<char>,
    image: PartitionImage,
) -> bool {
    &&& partition.label@ == label
    &&& partition.image == image
    &&& !partition.writable
}

/// Whether `disk` is the payload disk for this payload, these modules in this
/// order, and `extra` extra packages: a read-only disk of read-only
/// partitions, which are the metadata record, one partition for each module,
/// the application package, its signature, and for each extra package the
/// package and its signature.
pub open spec fn is_payload_disk(
    disk: DiskImage,
    app_config: VirtualMachineAppConfig,
    apexes: Seq<ApexView>,
    extra: int,
    early_boot: bool,
) -> bool {
    let p = disk.partitions@;
    let n = apexes.len() as int;
    &&& !disk.writable
    &&& p.len() == 3 + n + 2 * extra
    &&& p[0].label@ == "payload-metadata"@
    &&& !p[0].writable
    &&& p[0].image matches PartitionImage::Metadata(metadata)
    &&& is_metadata_for(metadata, app_config.payload, apexes)
    &&& forall|i: int|
        0 <= i < n ==> is_apex_partition(
            #[trigger] p[1 + i],
            apex_label(i),
            apex_image_path(apexes[i], early_boot),
        )
    &&& is_fixed_partition(p[1 + n], "microdroid-apk"@, PartitionImage::Apk)
    &&& is_fixed_partition(p[2 + n], "microdroid-apk-idsig"@, PartitionImage::Idsig)
    &&& forall|i: int|
        0 <= i < extra ==> is_fixed_partition(
            #[trigger] p[3 + n + 2 * i],
            extra_apk_label(i),
            PartitionImage::ExtraApk(i as usize),
        )
    &&& forall|i: int|
        0 <= i < extra ==> is_fixed_partition(
            #[trigger] p[4 + n + 2 * i],
            extra_idsig_label(i),
            PartitionImage::ExtraIdsig(i as usize),
        )
}

/// The label of the partition at position `k` of a payload disk with this
/// many modules.
pub open spec fn label_at(modules: int, k: int) -> Seq<char> {
    if k == 0 {
        "payload-metadata"@
    } else if k <= modules {
        apex_label(k - 1)
    } else if k == modules + 1 {
        "microdroid-apk"@
    } else if k == modules + 2 {
        "microdroid-apk-idsig"@
    } else if (k - modules - 3) % 2 == 0 {
        extra_apk_label((k - modules - 3) / 2)
    } else {
        extra_idsig_label((k - modules - 3) / 2)
    }
}

/// No two positions of a payload disk have the same label.
pub proof fn lemma_labels_differ(modules: int, j: int, k: int)
    requires
        0 <= modules,
        0 <= j < k,
    ensures
        label_at(modules, j) != label_at(modules, k),
{
    reveal_strlit("payload-metadata");
    reveal_strlit("module-");
    reveal_strlit("microdroid-apk");
    reveal_strlit("microdroid-apk-idsig");
    reveal_strlit("extra-apk-");
    reveal_strlit("extra-idsig-");
    let a = label_at(modules, j);
    let b = label_at(modules, k);
    let x = (j - modules - 3) / 2;
    let y = (k - modules - 3) / 2;
    lemma_decimal_digits_len((j - 1) as nat);
    lemma_decimal_digits_len((k - 1) as nat);
    lemma_decimal_digits_len(x as nat);
    lemma_decimal_digits_len(y as nat);
    if a == b {
        if j == 0 {
            assert(a[0] == 'p');
            assert(b[0] != 'p');
        } else if j <= modules {
            assert(a[1] == 'o');
            if k <= modules {
                lemma_same_prefix(
                    "module-"@,
                    decimal_digits((j - 1) as nat),
                    decimal_digits((k - 1) as nat),
                );
                lemma_decimal_digits_injective((j - 1) as nat, (k - 1) as nat);
            } else {
                assert(b[1] != 'o');
            }
        } else if j == modules + 1 {
            assert(a.len() == 14);
            assert(a[0] == 'm');
            if k > modules + 2 {
                assert(b[0] == 'e');
            }
        } else if j == modules + 2 {
            assert(a[0] == 'm');
            assert(b[0] == 'e');
        } else if (j - modules - 3) % 2 == 0 {
            assert(a[6] == 'a');
            if (k - modules - 3) % 2 == 0 {
                lemma_same_prefix(
                    "extra-apk-"@,
                    decimal_digits(x as nat),
                    decimal_digits(y as nat),
                );
                lemma_decimal_digits_injective(x as nat, y as nat);
            } else {
                assert(b[6] == 'i');
            }
        } else {
            assert(a[6] == 'i');
            if (k - modules - 3) % 2 == 0 {
                assert(b[6] == 'a');
            } else {
                lemma_same_prefix(
                    "extra-idsig-"@,
                    decimal_digits(x as nat),
                    decimal_digits(y as nat),
                );
                lemma_decimal_digits_injective(x as nat, y as nat);
            }
        }
    }
}

/// The partitions of a payload disk carry the labels of their positions, so
/// that no two of them carry the same.
pub proof fn lemma_payload_disk_labels(
    disk: DiskImage,
    app_config: VirtualMachineAppConfig,
    apexes: Seq<ApexView>,
    extra: int,
    early_boot: bool,
)
    requires
        0 <= extra,
        is_payload_disk(disk, app_config, apexes, extra, early_boot),
    ensures
        forall|k: int|
            0 <= k < disk.partitions@.len() ==> (#[trigger] disk.partitions@[k]).label@
                == label_at(apexes.len() as int, k),
        forall|j: int, k: int|
            0 <= j < k < disk.partitions@.len() ==> (#[trigger] disk.partitions@[j]).label@ != (
            #[trigger] disk.partitions@[k]).label@,
{
    let p = disk.partitions@;
    let n = apexes.len() as int;
    assert forall|k: int| 0 <= k < p.len() implies (#[trigger] p[k]).label@ == label_at(n, k) by {
        if 1 <= k <= n {
            assert(is_apex_partition(
                p[1 + (k - 1)],
                apex_label(k - 1),
                apex_image_path(apexes[k - 1], early_boot),
            ));
        } else if k >= n + 3 {
            let i = (k - n - 3) / 2;
            if (k - n - 3) % 2 == 0 {
                assert(k == 3 + n + 2 * i);
                assert(is_fixed_partition(
                    p[3 + n + 2 * i],
                    extra_apk_label(i),
                    PartitionImage::ExtraApk(i as usize),
                ));
            } else {
                assert(k == 4 + n + 2 * i);
                assert(is_fixed_partition(
                    p[4 + n + 2 * i],
                    extra_idsig_label(i),
                    PartitionImage::ExtraIdsig(i as usize),
                ));
            }
        }
    }
    assert forall|j: int, k: int| 0 <= j < k < p.len() implies (#[trigger] p[j]).label@ != (
    #[trigger] p[k]).label@ by {
        lemma_labels_differ(n, j, k);
    }
}

/// What laying out the payload disk comes to, for modules that are selected
/// and ordered already: the disk, or a failure where the metadata record
/// cannot count the extra packages, or where, in early boot, the preinstalled
/// image of a module is not a plain one; then with the path of the first such
/// image.
pub open spec fn is_layout_outcome(
    r: Result<DiskImage, PayloadError>,
    app_config: VirtualMachineAppConfig,
    apexes: Seq<ApexView>,
    extra: int,
    early_boot: bool,
) -> bool {
    if extra_apk_count_overflows(app_config.payload) {
        r matches Err(e) && e@ == PayloadErrorView::CountOverflow
    } else {
        match first_false(image_flags(apexes, early_boot)) {
            Some(k) => r matches Err(e) && e@ == PayloadErrorView::CompressedApex(
                apexes[k].preinstalled_path,
            ),
            None => r matches Ok(disk) && is_payload_disk(disk, app_config, apexes, extra, early_boot),
        }
    }
}

/// Lays out the payload disk for modules that are selected and ordered
/// already.
pub fn lay_out_payload_disk(
    app_config: &VirtualMachineAppConfig,
    apex_infos: &[&ApexInfo],
    extra_apk_files: usize,
    early_boot: bool,
) -> (r: Result<DiskImage, PayloadError>)
    ensures
        is_layout_outcome(
            r,
            *app_config,
            apex_views(apex_infos@),
            extra_apk_files as int,
            early_boot,
        ),
{
    let ghost apexes = apex_views(apex_infos@);
    let ghost flags = image_flags(apexes, early_boot);
    let metadata = match make_metadata(app_config, apex_infos) {
        Ok(metadata) => metadata,
        Err(e) => {
            return Err(e);
        },
    };
    let mut partitions: Vec<Partition> = Vec::new();
    partitions.push(
        Partition {
            label: String::from_str("payload-metadata"),
            image: PartitionImage::Metadata(metadata),
            writable: false,
        },
    );
    let n = apex_infos.len();
    let mut i: usize = 0;
    while i < n
        invariant
            i <= n,
            n == apex_infos.len(),
            apexes == apex_views(apex_infos@),
            flags == image_flags(apexes, early_boot),
            partitions@.len() == 1 + i,
            partitions@[0].label@ == "payload-metadata"@,
            !partitions@[0].writable,
            partitions@[0].image matches PartitionImage::Metadata(metadata) && is_metadata_for(
                metadata,
                app_config.payload,
                apexes,
            ),
            forall|j: int| 0 <= j < i ==> flags[j],
            forall|j: int|
                0 <= j < i ==> is_apex_partition(
                    #[trigger] partitions@[1 + j],
                    apex_label(j),
                    apex_image_path(apexes[j], early_boot),
                ),
        decreases n - i,
    {
        let apex_info = apex_infos[i];
        assert(apexes[i as int] == apex_info@);
        assert(flags[i as int] == (!early_boot || is_plain_apex(apex_info@.preinstalled_path)));
        let path = if early_boot {
            if !is_apex_extension(&extension(apex_info.preinstalled_path.as_str())) {
                proof {
                    lemma_first_false(flags);
                }
                return Err(PayloadError::CompressedApex(apex_info.preinstalled_path.clone()));
            }
            apex_info.preinstalled_path.clone()
        } else {
            apex_info.path.clone()
        };
        partitions.push(
            Partition {
                label: numbered("module-", i),
                image: PartitionImage::Apex(path),
                writable: false,
            },
        );
        i += 1;
    }
    proof {
        lemma_first_false(flags);
    }
    partitions.push(
        Partition {
            label: String::from_str("microdroid-apk"),
            image: PartitionImage::Apk,
            writable: false,
        },
    );
    partitions.push(
        Partition {
            label: String::from_str("microdroid-apk-idsig"),
            image: PartitionImage::Idsig,
            writable: false,
        },
    );
    let mut k: usize = 0;
    while k < extra_apk_files
        invariant
            k <= extra_apk_files,
            n == apexes.len(),
            partitions@.len() == 3 + n + 2 * k,
            partitions@[0].label@ == "payload-metadata"@,
            !partitions@[0].writable,
            partitions@[0].image matches PartitionImage::Metadata(metadata) && is_metadata_for(
                metadata,
                app_config.payload,
                apexes,
            ),
            forall|j: int|
                0 <= j < n ==> is_apex_partition(
                    #[trigger] partitions@[1 + j],
                    apex_label(j),
                    apex_image_path(apexes[j], early_boot),
                ),
            is_fixed_partition(partitions@[1 + n], "microdroid-apk"@, PartitionImage::Apk),
            is_fixed_partition(partitions@[2 + n], "microdroid-apk-idsig"@, PartitionImage::Idsig),
            forall|j: int|
                0 <= j < k ==> is_fixed_partition(
                    #[trigger] partitions@[3 + n + 2 * j],
                    extra_apk_label(j),
                    PartitionImage::ExtraApk(j as usize),
                ),
            forall|j: int|
                0 <= j < k ==> is_fixed_partition(
                    #[trigger] partitions@[4 + n + 2 * j],
                    extra_idsig_label(j),
                    PartitionImage::ExtraIdsig(j as usize),
                ),
        decreases extra_apk_files - k,
    {
        partitions.push(
            Partition {
                label: numbered("extra-apk-", k),
                image: PartitionImage::ExtraApk(k),
                writable: false,
            },
        );
        partitions.push(
            Partition {
                label: numbered("extra-idsig-", k),
                image: PartitionImage::ExtraIdsig(k),
                writable: false,
            },
        );
        k += 1;
    }
    Ok(DiskImage { partitions, writable: false })
}

/// What the check of the extra packages comes to: a failure where their
/// number differs from the number of their signatures.
pub open spec fn extra_apks_checked(
    extra_apk_files: usize,
    app_config: VirtualMachineAppConfig,
    vm_payload_config: VmPayloadConfig,
) -> Result<(), PayloadErrorView> {
    if extra_apk_files != app_config.extra_idsigs {
        Err(
            PayloadErrorView::ManifestMismatch {
                apks: vm_payload_config.extra_apks@.len() as usize,
                idsigs: app_config.extra_idsigs,
            },
        )
    } else {
        Ok(())
    }
}

/// Checks that the request comes with as many extra packages as it has
/// signatures for them. The failure tells how many extra packages the payload
/// configuration lists, and how many signatures there are.
pub fn check_extra_apks(
    extra_apk_files: usize,
    app_config: &VirtualMachineAppConfig,
    vm_payload_config: &VmPayloadConfig,
) -> (r: Result<(), PayloadError>)
    ensures
        r is Err <==> extra_apk_files != app_config.extra_idsigs,
        match r {
            Ok(_) => extra_apks_checked(extra_apk_files, *app_config, *vm_payload_config) is Ok,
            Err(e) => extra_apks_checked(extra_apk_files, *app_config, *vm_payload_config)
                == Err::<(), PayloadErrorView>(e@) && e.kind() == ErrorKind::ResourceStateError,
        },
{
    if extra_apk_files != app_config.extra_idsigs {
        return Err(
            PayloadError::ManifestMismatch {
                apks: vm_payload_config.extra_apks.len(),
                idsigs: app_config.extra_idsigs,
            },
        );
    }
    Ok(())
}

/// What making the payload disk comes to once the modules are collected: the
/// failure to collect them, or what laying out the disk comes to for the
/// collected modules sorted by name, version and time of last update, equal
/// ones left in their order.
pub open spec fn is_selection_outcome(
    r: Result<DiskImage, PayloadError>,
    app_config: VirtualMachineAppConfig,
    chosen: Result<Seq<ApexView>, PayloadErrorView>,
    extra: int,
    early_boot: bool,
) -> bool {
    match chosen {
        Err(failure) => r matches Err(e) && e@ == failure,
        Ok(unsorted) => exists|sorted: Seq<ApexView>, from: Seq<int>|
            (#[trigger] is_stable_sort(unsorted, sorted, from)) && is_layout_outcome(
                r,
                app_config,
                sorted,
                extra,
                early_boot,
            ),
    }
}

/// The outcome for collected modules, shown by their sorted order.
proof fn lemma_selection_outcome(
    r: Result<DiskImage, PayloadError>,
    app_config: VirtualMachineAppConfig,
    chosen: Seq<ApexView>,
    sorted: Seq<ApexView>,
    from: Seq<int>,
    extra: int,
    early_boot: bool,
)
    requires
        is_stable_sort(chosen, sorted, from),
        is_layout_outcome(r, app_config, sorted, extra, early_boot),
    ensures
        is_selection_outcome(r, app_config, Ok(chosen), extra, early_boot),
{
    assert(exists|s: Seq<ApexView>, f: Seq<int>|
        (#[trigger] is_stable_sort(chosen, s, f)) && is_layout_outcome(
            r,
            app_config,
            s,
            extra,
            early_boot,
        ));
    let collected = Ok::<Seq<ApexView>, PayloadErrorView>(chosen);
    assert(collected matches Ok(unsorted) && unsorted == chosen);
}

/// What making the payload disk comes to. A request whose extra packages and
/// extra signatures differ in number fails before anything else is looked at.
/// Then the catalog is taken as the request sees it, the modules are selected
/// from it and sorted, and the disk is laid out; the first failure on the way
/// is the outcome.
pub open spec fn is_payload_disk_outcome(
    r: Result<DiskImage, PayloadError>,
    app_config: VirtualMachineAppConfig,
    debug_apexes: bool,
    extra_apk_files: usize,
    vm_payload_config: VmPayloadConfig,
    catalog: Seq<ApexView>,
    staged: Seq<StagedApexView>,
    early_boot: bool,
) -> bool {
    match extra_apks_checked(extra_apk_files, app_config, vm_payload_config) {
        Err(failure) => r matches Err(e) && e@ == failure,
        Ok(_) => match apex_list_for(catalog, vm_payload_config.prefer_staged, early_boot, staged) {
            Err(failure) => r matches Err(e) && e@ == failure,
            Ok(list) => is_selection_outcome(
                r,
                app_config,
                collected(list, requested_names(vm_payload_config.apexes@), debug_apexes),
                extra_apk_files as int,
                early_boot,
            ),
        },
    }
}

/// Makes the payload disk of a virtual machine:
///
/// ```text
/// payload-metadata      the metadata record
/// module-0              the first module
/// module-1              the second module
/// ..
/// microdroid-apk        the application package
/// microdroid-apk-idsig  its signature
/// extra-apk-0           the first extra package
/// extra-idsig-0         its signature
/// ..
/// ```
///
/// `extra_apk_files` is the number of extra packages that the caller holds,
/// `pm` gives out the catalog, and `staged` holds the staged modules where
/// the payload prefers them.
pub fn make_payload_disk(
    app_config: &VirtualMachineAppConfig,
    debug_config: &DebugConfig,
    extra_apk_files: usize,
    vm_payload_config: &VmPayloadConfig,
    pm: &PackageManager,
    staged: &[StagedApex],
    early_boot: bool,
) -> (r: Result<DiskImage, PayloadError>)
    ensures
        is_payload_disk_outcome(
            r,
            *app_config,
            debug_config.should_include_debug_apexes(),
            extra_apk_files,
            *vm_payload_config,
            pm@,
            staged_views(staged@),
            early_boot,
        ),
        extra_apk_files != app_config.extra_idsigs ==> (r matches Err(e) && e@
            is ManifestMismatch && e.kind() == ErrorKind::ResourceStateError),
{
    match check_extra_apks(extra_apk_files, app_config, vm_payload_config) {
        Ok(_) => {},
        Err(e) => {
            return Err(e);
        },
    }
    let apex_list = match pm.get_apex_list(vm_payload_config.prefer_staged, early_boot, staged) {
        Ok(list) => list,
        Err(e) => {
            return Err(e);
        },
    };
    let sorted = match select_apex_infos(
        &apex_list,
        vm_payload_config.apexes.as_slice(),
        debug_config,
    ) {
        Ok(sorted) => sorted,
        Err(e) => {
            return Err(e);
        },
    };
    let r = lay_out_payload_disk(app_config, sorted.as_slice(), extra_apk_files, early_boot);
    proof {
        let chosen = collected(
            apex_list@,
            requested_names(vm_payload_config.apexes@),
            debug_config.should_include_debug_apexes(),
        )->Ok_0;
        let from = choose|from: Seq<int>| is_stable_sort(chosen, apex_views(sorted@), from);
        lemma_selection_outcome(
            r,
            *app_config,
            chosen,
            apex_views(sorted@),
            from,
            extra_apk_files as int,
            early_boot,
        );
    }
    r
}

/// Whether `disk` is the disk that holds the vendor image: read-only, with
/// the one partition `microdroid-vendor`.
pub open spec fn is_vendor_disk(disk: DiskImage) -> bool {
    &&& !disk.writable
    &&& disk.partitions@.len() == 1
    &&& is_fixed_partition(disk.partitions@[0], "microdroid-vendor"@, PartitionImage::Vendor)
}

/// Gives the virtual machine a disk that holds the vendor image.
pub fn add_microdroid_vendor_image(vm_config: &mut VirtualMachineRawConfig)
    ensures
        final(vm_config).initrd == old(vm_config).initrd,
        final(vm_config).disks@.len() == old(vm_config).disks@.len() + 1,
        final(vm_config).disks@.drop_last() == old(vm_config).disks@,
        is_vendor_disk(final(vm_config).disks@.last()),
{
    let mut partitions: Vec<Partition> = Vec::new();
    partitions.push(
        Partition {
            label: String::from_str("microdroid-vendor"),
            image: PartitionImage::Vendor,
            writable: false,
        },
    );
    vm_config.disks.push(DiskImage { partitions, writable: false });
    assert(vm_config.disks@.drop_last() =~= old(vm_config).disks@);
}

/// The path of the initial ramdisk of the operating system `os_name`, in its
/// normal or its debuggable build.
pub open spec fn initrd_path(os_name: Seq<char>, debuggable: bool) -> Seq<char> {
    "/apex/com.android.virt/etc/"@ + os_name + "_initrd_"@ + (if debuggable {
        "debuggable"@
    } else {
        "normal"@
    }) + ".img"@
}

/// Whether `partition` is writable, labelled `label` and backed by `image`.
pub open spec fn is_writable_partition(
    partition: Partition,
    label: Seq<char>,
    image: PartitionImage,
) -> bool {
    &&& partition.label@ == label
    &&& partition.image == image
    &&& partition.writable
}

/// Whether `disk` is the disk of what the guest keeps: writable, with the
/// writable partition `vm-instance` and, where the guest has encrypted
/// storage, the writable partition `encryptedstore` behind it.
pub open spec fn is_instance_disk(disk: DiskImage, has_storage_image: bool) -> bool {
    let p = disk.partitions@;
    &&& disk.writable
    &&& p.len() == if has_storage_image {
        2int
    } else {
        1int
    }
    &&& is_writable_partition(p[0], "vm-instance"@, PartitionImage::Instance)
    &&& has_storage_image ==> is_writable_partition(
        p[1],
        "encryptedstore"@,
        PartitionImage::EncryptedStore,
    )
}

/// Gives the virtual machine the initial ramdisk that goes with the debug
/// level of the request, and the disk of what the guest keeps. A debug level
/// other than "none" and "full" is refused, and nothing is changed.
pub fn add_microdroid_system_images(
    config: &VirtualMachineAppConfig,
    has_storage_image: bool,
    os_name: &str,
    vm_config: &mut VirtualMachineRawConfig,
) -> (r: Result<(), PayloadError>)
    ensures
        r is Err <==> config.debug_level is UNKNOWN,
        match r {
            Ok(_) => {
                &&& final(vm_config).initrd matches Some(path)
                &&& path@ == initrd_path(os_name@, config.debug_level == DebugLevel::FULL)
                &&& final(vm_config).disks@.len() == old(vm_config).disks@.len() + 1
                &&& final(vm_config).disks@.drop_last() == old(vm_config).disks@
                &&& is_instance_disk(final(vm_config).disks@.last(), has_storage_image)
            },
            Err(e) => {
                &&& config.debug_level matches DebugLevel::UNKNOWN(level)
                &&& e@ == PayloadErrorView::UnsupportedDebugLevel(level)
                &&& *final(vm_config) == *old(vm_config)
            },
        },
{
    let debug_suffix = match config.debug_level {
        DebugLevel::NONE => "normal",
        DebugLevel::FULL => "debuggable",
        DebugLevel::UNKNOWN(level) => {
            return Err(PayloadError::UnsupportedDebugLevel(level));
        },
    };
    let initrd = String::from_str("/apex/com.android.virt/etc/").concat(os_name).concat(
        "_initrd_",
    ).concat(debug_suffix).concat(".img");
    vm_config.initrd = Some(initrd);

    let mut writable_partitions: Vec<Partition> = Vec::new();
    writable_partitions.push(
        Partition {
            label: String::from_str("vm-instance"),
            image: PartitionImage::Instance,
            writable: true,
        },
    );
    if has_storage_image {
        writable_partitions.push(
            Partition {
                label: String::from_str("encryptedstore"),
                image: PartitionImage::EncryptedStore,
                writable: true,
            },
        );
    }
    vm_config.disks.push(DiskImage { partitions: writable_partitions, writable: true });
    assert(vm_config.disks@.drop_last() =~= old(vm_config).disks@);
    Ok(())
}

/// Gives the virtual machine its payload disk. Where the disk cannot be made,
/// nothing is changed.
pub fn add_microdroid_payload_images(
    config: &VirtualMachineAppConfig,
    debug_config: &DebugConfig,
    extra_apk_files: usize,
    vm_payload_config: &VmPayloadConfig,
    pm: &PackageManager,
    staged: &[StagedApex],
    early_boot: bool,
    vm_config: &mut VirtualMachineRawConfig,
) -> (r: Result<(), PayloadError>)
    ensures
        final(vm_config).initrd == old(vm_config).initrd,
        match r {
            Ok(_) => {
                &&& final(vm_config).disks@.len() == old(vm_config).disks@.len() + 1
                &&& final(vm_config).disks@.drop_last() == old(vm_config).disks@
                &&& is_payload_disk_outcome(
                    Ok(final(vm_config).disks@.last()),
                    *config,
                    debug_config.should_include_debug_apexes(),
                    extra_apk_files,
                    *vm_payload_config,
                    pm@,
                    staged_views(staged@),
                    early_boot,
                )
            },
            Err(e) => {
                &&& *final(vm_config) == *old(vm_config)
                &&& is_payload_disk_outcome(
                    Err(e),
                    *config,
                    debug_config.should_include_debug_apexes(),
                    extra_apk_files,
                    *vm_payload_config,
                    pm@,
                    staged_views(staged@),
                    early_boot,
                )
            },
        },
{
    match make_payload_disk(
        config,
        debug_config,
        extra_apk_files,
        vm_payload_config,
        pm,
        staged,
        early_boot,
    ) {
        Ok(disk) => {
            vm_config.disks.push(disk);
            assert(vm_config.disks@.drop_last() =~= old(vm_config).disks@);
            Ok(())
        },
        Err(e) => Err(e),
    }
}

} // verus!
