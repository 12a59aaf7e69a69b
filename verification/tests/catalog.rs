use std::collections::{HashMap, HashSet};

use vmprep::apex::{ApexConfig, ApexInfo, ApexInfoList, StagedApexInfo};
use vmprep::classpath::find_apex_names_in_classpath;
use vmprep::config::{DebugConfig, DebugLevel};
use vmprep::error::{ErrorKind, PayloadError};
use vmprep::select::collect_apex_infos;

#[test]
fn test_find_apex_names_in_classpath() {
    let vars = r#"
export FOO /apex/unterminated
export BAR /apex/valid.apex/something
wrong
export EMPTY
export OTHER /foo/bar:/baz:/apex/second.valid.apex/:gibberish:"#;
    let expected = vec!["valid.apex", "second.valid.apex"];
    let expected: HashSet<_> = expected.into_iter().map(ToString::to_string).collect();

    let found: HashSet<String> = find_apex_names_in_classpath(vars).into_iter().collect();
    assert_eq!(found, expected);
}

#[test]
fn test_collect_apexes() {
    let apex_infos_for_test = [
        (
            "adbd",
            ApexInfo {
                name: "com.android.adbd".to_string(),
                path: "adbd".to_string(),
                preinstalled_path: "/system/adbd".to_string(),
                has_classpath_jar: false,
                last_update_seconds: 12345678,
                is_factory: true,
                is_active: false,
                ..Default::default()
            },
        ),
        (
            "adbd_updated",
            ApexInfo {
                name: "com.android.adbd".to_string(),
                path: "adbd".to_string(),
                preinstalled_path: "/system/adbd".to_string(),
                has_classpath_jar: false,
                last_update_seconds: 12345678 + 1,
                is_factory: false,
                is_active: true,
                ..Default::default()
            },
        ),
        (
            "no_classpath",
            ApexInfo {
                name: "no_classpath".to_string(),
                path: "no_classpath".to_string(),
                has_classpath_jar: false,
                last_update_seconds: 12345678,
                is_factory: true,
                is_active: true,
                ..Default::default()
            },
        ),
        (
            "has_classpath",
            ApexInfo {
                name: "has_classpath".to_string(),
                path: "has_classpath".to_string(),
                has_classpath_jar: true,
                last_update_seconds: 87654321,
                is_factory: true,
                is_active: false,
                ..Default::default()
            },
        ),
        (
            "has_classpath_updated",
            ApexInfo {
                name: "has_classpath".to_string(),
                path: "has_classpath/updated".to_string(),
                preinstalled_path: "/system/has_classpath".to_string(),
                has_classpath_jar: true,
                last_update_seconds: 87654321 + 1,
                is_factory: false,
                is_active: true,
                ..Default::default()
            },
        ),
        (
            "apex-foo",
            ApexInfo {
                name: "apex-foo".to_string(),
                path: "apex-foo".to_string(),
                preinstalled_path: "/system/apex-foo".to_string(),
                has_classpath_jar: false,
                last_update_seconds: 87654321,
                is_factory: true,
                is_active: false,
                ..Default::default()
            },
        ),
        (
            "apex-foo-updated",
            ApexInfo {
                name: "apex-foo".to_string(),
                path: "apex-foo/updated".to_string(),
                preinstalled_path: "/system/apex-foo".to_string(),
                has_classpath_jar: false,
                last_update_seconds: 87654321 + 1,
                is_factory: false,
                is_active: true,
                ..Default::default()
            },
        ),
        (
            "sharedlibs",
            ApexInfo {
                name: "sharedlibs".to_string(),
                path: "apex-foo".to_string(),
                preinstalled_path: "/system/apex-foo".to_string(),
                last_update_seconds: 87654321,
                is_factory: true,
                provide_shared_apex_libs: true,
                ..Default::default()
            },
        ),
        (
            "sharedlibs-updated",
            ApexInfo {
                name: "sharedlibs".to_string(),
                path: "apex-foo/updated".to_string(),
                preinstalled_path: "/system/apex-foo".to_string(),
                last_update_seconds: 87654321 + 1,
                is_active: true,
                provide_shared_apex_libs: true,
                ..Default::default()
            },
        ),
    ];
    let apex_info_list = ApexInfoList {
        list: apex_infos_for_test.iter().map(|(_, info)| info).cloned().collect(),
    };
    let apex_info_map = HashMap::from(apex_infos_for_test);
    let apex_configs = vec![
        ApexConfig { name: "apex-foo".to_string() },
        ApexConfig { name: "{CLASSPATH}".to_string() },
    ];
    assert_eq!(
        collect_apex_infos(
            &apex_info_list,
            &apex_configs,
            &DebugConfig::new_with_debug_level(DebugLevel::FULL)
        )
        .unwrap(),
        vec![
            // Pass active/required APEXes
            &apex_info_map["adbd_updated"],
            // Pass active APEXes specified in the config
            &apex_info_map["has_classpath_updated"],
            &apex_info_map["apex-foo-updated"],
            // Pass both preinstalled(inactive) and updated(active) for "sharedlibs" APEXes
            &apex_info_map["sharedlibs"],
            &apex_info_map["sharedlibs-updated"],
        ]
    );
}

#[test]
fn test_check_allowed_partitions_vendor_not_allowed() {
    let apex_info_list = ApexInfoList {
        list: vec![ApexInfo {
            name: "apex-vendor".to_string(),
            path: "apex-vendor".to_string(),
            preinstalled_path: "/vendor/apex-vendor".to_string(),
            is_active: true,
            ..Default::default()
        }],
    };
    let apex_configs = vec![ApexConfig { name: "apex-vendor".to_string() }];

    let ret = collect_apex_infos(
        &apex_info_list,
        &apex_configs,
        &DebugConfig::new_with_debug_level(DebugLevel::NONE),
    );
    assert!(ret.is_err_and(
        |ret| ret.message() == "Non-system APEX apex-vendor is not supported in Microdroid"
    ));
}

#[test]
fn test_check_allowed_partitions_system_ext_allowed() {
    let apex_info_list = ApexInfoList {
        list: vec![ApexInfo {
            name: "apex-system_ext".to_string(),
            path: "apex-system_ext".to_string(),
            preinstalled_path: "/system_ext/apex-system_ext".to_string(),
            is_active: true,
            ..Default::default()
        }],
    };

    let apex_configs = vec![ApexConfig { name: "apex-system_ext".to_string() }];

    assert_eq!(
        collect_apex_infos(
            &apex_info_list,
            &apex_configs,
            &DebugConfig::new_with_debug_level(DebugLevel::NONE)
        )
        .unwrap(),
        vec![&apex_info_list.list[0]]
    );
}

const STAGED_PATH: &str = "/data/app-staging/session_1/foo.apex";
const STAGED_MODIFIED: u64 = 1_700_000_123;

#[test]
fn test_prefer_staged_apex_with_factory_active_apex() {
    let single_apex = ApexInfo {
        name: "foo".to_string(),
        version: 1,
        path: "foo.apex".to_string(),
        is_factory: true,
        is_active: true,
        ..Default::default()
    };
    let mut apex_info_list = ApexInfoList { list: vec![single_apex.clone()] };

    apex_info_list
        .override_staged_apex(
            &StagedApexInfo {
                module_name: "foo".to_string(),
                version_code: 2,
                disk_image_path: STAGED_PATH.to_string(),
                ..Default::default()
            },
            Some(STAGED_MODIFIED),
        )
        .expect("should be ok");

    assert_eq!(
        apex_info_list,
        ApexInfoList {
            list: vec![
                ApexInfo {
                    version: 2,
                    is_factory: false,
                    path: STAGED_PATH.to_owned(),
                    last_update_seconds: STAGED_MODIFIED,
                    ..single_apex.clone()
                },
                ApexInfo { is_active: false, ..single_apex },
            ],
        }
    );
}

#[test]
fn test_prefer_staged_apex_with_factory_and_inactive_apex() {
    let factory_apex = ApexInfo {
        name: "foo".to_string(),
        version: 1,
        path: "foo.apex".to_string(),
        is_factory: true,
        ..Default::default()
    };
    let active_apex = ApexInfo {
        name: "foo".to_string(),
        version: 2,
        path: "foo.downloaded.apex".to_string(),
        is_active: true,
        ..Default::default()
    };
    let mut apex_info_list = ApexInfoList { list: vec![factory_apex.clone(), active_apex.clone()] };

    apex_info_list
        .override_staged_apex(
            &StagedApexInfo {
                module_name: "foo".to_string(),
                version_code: 3,
                disk_image_path: STAGED_PATH.to_string(),
                ..Default::default()
            },
            Some(STAGED_MODIFIED),
        )
        .expect("should be ok");

    assert_eq!(
        apex_info_list,
        ApexInfoList {
            list: vec![
                // factory apex isn't touched
                factory_apex,
                // update active one
                ApexInfo {
                    version: 3,
                    path: STAGED_PATH.to_owned(),
                    last_update_seconds: STAGED_MODIFIED,
                    ..active_apex
                },
            ],
        }
    );
}

fn foo(version: u64, is_factory: bool, is_active: bool) -> ApexInfo {
    ApexInfo {
        name: "foo".to_string(),
        version,
        path: format!("foo.{version}.apex"),
        last_update_seconds: 10 + version,
        is_factory,
        is_active,
        preinstalled_path: "/system/apex/foo.apex".to_string(),
        ..Default::default()
    }
}

fn staged_foo(version_code: i64) -> StagedApexInfo {
    StagedApexInfo {
        module_name: "foo".to_string(),
        version_code,
        disk_image_path: STAGED_PATH.to_string(),
        has_class_path_jars: true,
    }
}

fn active_count(list: &ApexInfoList, name: &str) -> usize {
    list.list.iter().filter(|e| e.name == name && e.is_active && !e.provide_shared_apex_libs).count()
}

#[test]
fn override_keeps_one_active_entry_per_name() {
    let mut list = ApexInfoList {
        list: vec![
            foo(1, true, true),
            ApexInfo { name: "bar".to_string(), is_active: true, ..Default::default() },
        ],
    };
    list.override_staged_apex(&staged_foo(2), Some(STAGED_MODIFIED)).unwrap();
    assert_eq!(list.list.len(), 3);
    assert_eq!(active_count(&list, "foo"), 1);
    assert_eq!(active_count(&list, "bar"), 1);
    assert!(list.list[0].has_classpath_jar);
    assert!(!list.list[2].has_classpath_jar);
}

#[test]
fn override_twice_adds_no_second_fallback() {
    let mut list = ApexInfoList { list: vec![foo(1, true, true)] };
    list.override_staged_apex(&staged_foo(2), Some(STAGED_MODIFIED)).unwrap();
    let once = list.clone();
    list.override_staged_apex(&staged_foo(2), Some(STAGED_MODIFIED)).unwrap();
    assert_eq!(list, once);
    assert_eq!(list.list.len(), 2);
}

#[test]
fn override_of_another_name_changes_nothing() {
    let mut list = ApexInfoList { list: vec![foo(1, true, true)] };
    let before = list.clone();
    let staged = StagedApexInfo { module_name: "bar".to_string(), ..staged_foo(2) };
    list.override_staged_apex(&staged, Some(STAGED_MODIFIED)).unwrap();
    assert_eq!(list, before);
    // Without an entry to replace, the modification time is not needed.
    list.override_staged_apex(&staged, None).unwrap();
    assert_eq!(list, before);
}

#[test]
fn override_fails_without_modification_time() {
    let mut list = ApexInfoList { list: vec![foo(1, false, false), foo(2, true, true)] };
    let err = list.override_staged_apex(&staged_foo(3), None).unwrap_err();
    assert_eq!(err, PayloadError::FilesystemError(STAGED_PATH.to_string()));
    assert_eq!(err.kind(), ErrorKind::IoFailure);
    // No fallback is appended, and the inactive entry is untouched.
    assert_eq!(list.list.len(), 2);
    assert_eq!(list.list[0], foo(1, false, false));
    // The entry at which the override stopped keeps its time stamp.
    assert_eq!(
        list.list[1],
        ApexInfo {
            version: 3,
            path: STAGED_PATH.to_string(),
            has_classpath_jar: true,
            is_factory: false,
            ..foo(2, true, true)
        }
    );
}

#[test]
fn override_takes_negative_version_code_as_unsigned() {
    let mut list = ApexInfoList { list: vec![foo(1, false, true)] };
    list.override_staged_apex(&staged_foo(-1), Some(0)).unwrap();
    assert_eq!(list.list[0].version, u64::MAX);
    assert_eq!(list.list[0].last_update_seconds, 0);
}

#[test]
fn set_classpath_jars_marks_by_name() {
    let mut list = ApexInfoList {
        list: vec![
            ApexInfo { name: "a".to_string(), has_classpath_jar: true, ..Default::default() },
            ApexInfo { name: "b".to_string(), ..Default::default() },
            ApexInfo { name: "c".to_string(), ..Default::default() },
        ],
    };
    list.set_classpath_jars(&vec!["b".to_string(), "z".to_string()]);
    let marked: Vec<bool> = list.list.iter().map(|e| e.has_classpath_jar).collect();
    assert_eq!(marked, vec![false, true, false]);
}

#[test]
fn matches_by_name_or_by_classpath() {
    let plain = ApexInfo { name: "a".to_string(), ..Default::default() };
    let jar = ApexInfo { name: "b".to_string(), has_classpath_jar: true, ..Default::default() };
    let by_name = ApexConfig { name: "a".to_string() };
    let by_classpath = ApexConfig { name: "{CLASSPATH}".to_string() };
    assert!(plain.matches(&by_name));
    assert!(!jar.matches(&by_name));
    assert!(!plain.matches(&by_classpath));
    assert!(jar.matches(&by_classpath));
    let named_like_sentinel = ApexInfo { name: "{CLASSPATH}".to_string(), ..Default::default() };
    assert!(named_like_sentinel.matches(&by_classpath));
}

#[test]
fn load_marks_the_modules_that_the_classpath_names() {
    let entries = vec![
        ApexInfo { name: "a".to_string(), has_classpath_jar: true, ..Default::default() },
        ApexInfo { name: "b".to_string(), ..Default::default() },
        ApexInfo { name: "c".to_string(), version: 4, ..Default::default() },
    ];
    let vars = "export BOOTCLASSPATH /apex/b/javalib/b.jar:/system/framework/x.jar\n\
                export SYSTEMSERVERCLASSPATH /apex/c/javalib/c.jar\n";
    let list = ApexInfoList::load(entries.clone(), Some(vars));
    let marked: Vec<bool> = list.list.iter().map(|e| e.has_classpath_jar).collect();
    assert_eq!(marked, vec![false, true, true]);
    assert_eq!(list.list[2], ApexInfo { has_classpath_jar: true, ..entries[2].clone() });

    // In early boot there is no classpath, and no module has a jar on it.
    let list = ApexInfoList::load(entries.clone(), None);
    assert!(list.list.iter().all(|e| !e.has_classpath_jar));
    assert_eq!(list.list.len(), 3);
    assert_eq!(ApexInfoList::load(vec![], Some(vars)), ApexInfoList::default());
}

#[test]
fn duplicate_is_equal() {
    let list = ApexInfoList { list: vec![foo(1, true, true), foo(2, false, false)] };
    assert_eq!(list.duplicate(), list);
    assert_eq!(list.list[0].duplicate(), list.list[0]);
}
