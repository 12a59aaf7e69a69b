//! The metadata record that heads the payload disk and tells the guest what
//! the other partitions hold.

use crate::apex::{ApexInfo, ApexView};
use crate::config::{Payload, VirtualMachineAppConfig};
use crate::error::PayloadError;
use crate::select::apex_views;
use crate::text::{decimal_digits, numbered};
use vstd::prelude::*;
use vstd::string::*;

verus! {

/// The record of one module on the disk.
#[derive(Clone, Debug, Default, PartialEq, Eq)]
pub struct ApexPayload {
    pub name: String,
    /// The label of the partition that holds the module's image.
    pub partition_name: String,
    pub last_update_seconds: u64,
    pub is_factory: bool,
}

/// The record of the application package.
#[derive(Clone, Debug, Default, PartialEq, Eq)]
pub struct ApkPayload {
    pub name: String,
    pub payload_partition_name: String,
    pub idsig_partition_name: String,
}

/// A payload given by the name of its binary.
#[derive(Clone, Debug, Default, PartialEq, Eq)]
pub struct PayloadConfig {
    pub payload_binary_name: String,
    pub extra_apk_count: u32,
}

/// How the guest finds its payload.
#[derive(Clone, Debug, PartialEq, Eq)]
pub enum PayloadMetadata {
    /// By the path of a configuration file, as the guest sees it.
    ConfigPath(String),
    /// By the name of the payload binary.
    Config(PayloadConfig),
}

/// The metadata record.
#[derive(Clone, Debug, PartialEq, Eq)]
pub struct Metadata {
    pub version: u32,
    pub apexes: Vec<ApexPayload>,
    pub apk: ApkPayload,
    pub payload: PayloadMetadata,
}

/// The version of the metadata record that this library writes.
pub const METADATA_VERSION: u32 = 1;

/// The label of the partition that holds the module at position `i`.
pub open spec fn apex_label(i: int) -> Seq<char> {
    "module-"@ + decimal_digits(i as nat)
}

/// Whether `record` is the record of `apex` at position `i`.
pub open spec fn is_apex_record(record: ApexPayload, apex: ApexView, i: int) -> bool {
    &&& record.name@ == apex.name
    &&& record.partition_name@ == apex_label(i)
    &&& record.last_update_seconds == apex.last_update_seconds
    &&& record.is_factory == apex.is_factory
}

/// Whether `record` is the record of the application package.
pub open spec fn is_apk_record(record: ApkPayload) -> bool {
    &&& record.name@ == "apk"@
    &&& record.payload_partition_name@ == "microdroid-apk"@
    &&& record.idsig_partition_name@ == "microdroid-apk-idsig"@
}

/// Whether `record` tells how to find the payload that the request names:
/// a configuration file by its path below `/mnt/apk/`, a binary by its name
/// together with the number of extra packages.
pub open spec fn is_payload_record(record: PayloadMetadata, payload: Payload) -> bool {
    match payload {
        Payload::ConfigPath(config_path) => {
            &&& record matches PayloadMetadata::ConfigPath(path)
            &&& path@ == "/mnt/apk/"@ + config_path@
        },
        Payload::PayloadConfig(config) => {
            &&& record matches PayloadMetadata::Config(c)
            &&& c.payload_binary_name@ == config.payload_binary_name@
            &&& c.extra_apk_count == config.extra_apks@.len()
        },
    }
}

/// Whether the number of extra packages that the request names is more than
/// the record can hold.
pub open spec fn extra_apk_count_overflows(payload: Payload) -> bool {
    payload matches Payload::PayloadConfig(config) && config.extra_apks@.len() > u32::MAX
}

/// Whether `metadata` is the record for this payload and these modules, in
/// this order.
pub open spec fn is_metadata_for(metadata: Metadata, payload: Payload, apexes: Seq<ApexView>) -> bool {
    &&& metadata.version == METADATA_VERSION
    &&& metadata.apexes@.len() == apexes.len()
    &&& forall|i: int|
        0 <= i < apexes.len() ==> is_apex_record(#[trigger] metadata.apexes@[i], apexes[i], i)
    &&& is_apk_record(metadata.apk)
    &&& is_payload_record(metadata.payload, payload)
}

/// The record of how the guest finds its payload.
pub fn make_payload_metadata(payload: &Payload) -> (r: Result<PayloadMetadata, PayloadError>)
    ensures
        r is Err <==> extra_apk_count_overflows(*payload),
        match r {
            Ok(record) => is_payload_record(record, *payload),
            Err(e) => e == PayloadError::CountOverflow,
        },
{
    match payload {
        Payload::PayloadConfig(payload_config) => {
            let count = payload_config.extra_apks.len();
            if count > u32::MAX as usize {
                return Err(PayloadError::CountOverflow);
            }
            Ok(
                PayloadMetadata::Config(
                    PayloadConfig {
                        payload_binary_name: payload_config.payload_binary_name.clone(),
                        extra_apk_count: count as u32,
                    },
                ),
            )
        },
        Payload::ConfigPath(config_path) => {
            Ok(
                PayloadMetadata::ConfigPath(
                    String::from_str("/mnt/apk/").concat(config_path.as_str()),
                ),
            )
        },
    }
}

/// Makes the metadata record for a request and the modules that its guest
/// receives, in the order in which they are laid out.
pub fn make_metadata(app_config: &VirtualMachineAppConfig, apex_infos: &[&ApexInfo]) -> (r: Result<
    Metadata,
    PayloadError,
>)
    ensures
        r is Err <==> extra_apk_count_overflows(app_config.payload),
        match r {
            Ok(metadata) => is_metadata_for(metadata, app_config.payload, apex_views(apex_infos@)),
            Err(e) => e == PayloadError::CountOverflow,
        },
{
    let payload_metadata = match make_payload_metadata(&app_config.payload) {
        Ok(record) => record,
        Err(e) => {
            return Err(e);
        },
    };
    let mut apexes: Vec<ApexPayload> = Vec::new();
    let mut i: usize = 0;
    while i < apex_infos.len()
        invariant
            i <= apex_infos.len(),
            apexes@.len() == i,
            forall|j: int|
                0 <= j < i ==> is_apex_record(
                    #[trigger] apexes@[j],
                    apex_views(apex_infos@)[j],
                    j,
                ),
        decreases apex_infos.len() - i,
    {
        let apex_info = apex_infos[i];
        apexes.push(
            ApexPayload {
                name: apex_info.name.clone(),
                partition_name: numbered("module-", i),
                last_update_seconds: apex_info.last_update_seconds,
                is_factory: apex_info.is_factory,
            },
        );
        i += 1;
    }
    Ok(
        Metadata {
            version: METADATA_VERSION,
            apexes,
            apk: ApkPayload {
                name: String::from_str("apk"),
                payload_partition_name: String::from_str("microdroid-apk"),
                idsig_partition_name: String::from_str("microdroid-apk-idsig"),
            },
            payload: payload_metadata,
        },
    )
}

} // verus!
