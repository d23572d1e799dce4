use fsgroup_policy::engine::{do_validate, PolicyResponse};
use fsgroup_policy::settings::{Range, Ranges, Rule, Settings};
use fsgroup_policy::workload::{Pod, PodSecurityContext, PodSpec};

fn pod_without_security_context() -> Pod {
    Pod {
        spec: Some(PodSpec::default()),
    }
}

fn pod_without_fs_group() -> Pod {
    Pod {
        spec: Some(PodSpec {
            security_context: Some(PodSecurityContext::default()),
        }),
    }
}

fn pod_with_fs_group(fs_group: i64) -> Pod {
    Pod {
        spec: Some(PodSpec {
            security_context: Some(PodSecurityContext {
                fs_group: Some(fs_group),
            }),
        }),
    }
}

#[test]
fn run_as_any_always_accepts() {
    assert_eq!(
        do_validate(
            pod_without_security_context(),
            Settings {
                rule: Rule::RunAsAny
            }
        ),
        Ok(PolicyResponse::Accept)
    );
}

#[test]
fn may_run_as_accepts_with_empty_security_context() {
    assert_eq!(
        do_validate(
            pod_without_security_context(),
            Settings {
                rule: Rule::MayRunAs(Ranges {
                    ranges: vec![Range {
                        min: 1000,
                        max: 2000,
                    }]
                })
            }
        ),
        Ok(PolicyResponse::Accept)
    );
}

#[test]
fn may_run_as_accepts_with_empty_fsgroup() {
    assert_eq!(
        do_validate(
            pod_without_fs_group(),
            Settings {
                rule: Rule::MayRunAs(Ranges {
                    ranges: vec![Range {
                        min: 1000,
                        max: 2000,
                    }]
                })
            }
        ),
        Ok(PolicyResponse::Accept)
    );
}

#[test]
fn may_run_as_accepts_with_fsgroup_in_range() {
    assert_eq!(
        do_validate(
            pod_with_fs_group(1000),
            Settings {
                rule: Rule::MayRunAs(Ranges {
                    ranges: vec![Range {
                        min: 1000,
                        max: 2000,
                    }]
                })
            }
        ),
        Ok(PolicyResponse::Accept)
    );
}

#[test]
fn may_run_as_accepts_with_fsgroup_in_some_range() {
    assert_eq!(
        do_validate(
            pod_with_fs_group(1000),
            Settings {
                rule: Rule::MayRunAs(Ranges {
                    ranges: vec![
                        Range { min: 100, max: 200 },
                        Range {
                            min: 1000,
                            max: 2000,
                        }
                    ]
                })
            }
        ),
        Ok(PolicyResponse::Accept)
    );
}

#[test]
fn may_run_as_rejects_with_fsgroup_in_no_range() {
    assert_eq!(
        do_validate(
            pod_with_fs_group(100),
            Settings {
                rule: Rule::MayRunAs(Ranges {
                    ranges: vec![Range {
                        min: 1000,
                        max: 2000,
                    }]
                })
            }
        ),
        Ok(PolicyResponse::Reject(
            "fsGroup 100 is not included in any range".to_string()
        ))
    );
}

#[test]
fn must_run_as_mutates_with_empty_security_context() {
    assert_eq!(
        do_validate(
            pod_without_security_context(),
            Settings {
                rule: Rule::MustRunAs(Ranges {
                    ranges: vec![Range {
                        min: 1000,
                        max: 2000,
                    }]
                })
            }
        ),
        Ok(PolicyResponse::Mutate(pod_with_fs_group(1000)))
    );
}

#[test]
fn must_run_as_mutates_with_empty_security_context_and_unordered_ranges() {
    assert_eq!(
        do_validate(
            pod_without_security_context(),
            Settings {
                rule: Rule::MustRunAs(Ranges {
                    ranges: vec![
                        Range {
                            min: 3000,
                            max: 4000,
                        },
                        Range {
                            min: 1000,
                            max: 2000,
                        }
                    ]
                })
            }
        ),
        Ok(PolicyResponse::Mutate(pod_with_fs_group(3000)))
    );
}

#[test]
fn must_run_as_mutates_with_empty_fsgroup() {
    assert_eq!(
        do_validate(
            pod_without_fs_group(),
            Settings {
                rule: Rule::MustRunAs(Ranges {
                    ranges: vec![Range {
                        min: 1000,
                        max: 2000,
                    }]
                })
            }
        ),
        Ok(PolicyResponse::Mutate(pod_with_fs_group(1000)))
    );
}

#[test]
fn must_run_as_mutates_with_empty_fsgroup_and_unordered_ranges() {
    assert_eq!(
        do_validate(
            pod_without_fs_group(),
            Settings {
                rule: Rule::MustRunAs(Ranges {
                    ranges: vec![
                        Range {
                            min: 3000,
                            max: 4000,
                        },
                        Range {
                            min: 1000,
                            max: 2000,
                        }
                    ]
                })
            }
        ),
        Ok(PolicyResponse::Mutate(pod_with_fs_group(3000)))
    );
}

#[test]
fn must_run_as_accepts_with_fsgroup_in_range() {
    assert_eq!(
        do_validate(
            pod_with_fs_group(1000),
            Settings {
                rule: Rule::MustRunAs(Ranges {
                    ranges: vec![Range {
                        min: 1000,
                        max: 2000,
                    }]
                })
            }
        ),
        Ok(PolicyResponse::Accept)
    );
}

#[test]
fn must_run_as_accepts_with_fsgroup_in_some_range() {
    assert_eq!(
        do_validate(
            pod_with_fs_group(1000),
            Settings {
                rule: Rule::MustRunAs(Ranges {
                    ranges: vec![
                        Range { min: 100, max: 200 },
                        Range {
                            min: 1000,
                            max: 2000,
                        }
                    ]
                })
            }
        ),
        Ok(PolicyResponse::Accept)
    );
}

#[test]
fn must_run_as_rejects_with_fsgroup_in_no_range() {
    assert_eq!(
        do_validate(
            pod_with_fs_group(100),
            Settings {
                rule: Rule::MustRunAs(Ranges {
                    ranges: vec![Range {
                        min: 1000,
                        max: 2000,
                    }]
                })
            }
        ),
        Ok(PolicyResponse::Reject(
            "fsGroup 100 is not included in any range".to_string()
        ))
    );
}

#[test]
fn missing_pod_spec_is_an_error() {
    assert_eq!(
        do_validate(
            Pod { spec: None },
            Settings {
                rule: Rule::RunAsAny
            }
        ),
        Err("invalid pod spec".to_string())
    );
}

#[test]
fn accepts_at_upper_boundary() {
    assert_eq!(
        do_validate(
            pod_with_fs_group(2000),
            Settings {
                rule: Rule::MayRunAs(Ranges {
                    ranges: vec![Range {
                        min: 1000,
                        max: 2000,
                    }]
                })
            }
        ),
        Ok(PolicyResponse::Accept)
    );
}

#[test]
fn rejection_message_renders_negative_values() {
    assert_eq!(
        do_validate(
            pod_with_fs_group(-42),
            Settings {
                rule: Rule::MayRunAs(Ranges {
                    ranges: vec![Range {
                        min: 1000,
                        max: 2000,
                    }]
                })
            }
        ),
        Ok(PolicyResponse::Reject(
            "fsGroup -42 is not included in any range".to_string()
        ))
    );
}

#[test]
fn rejection_message_renders_zero() {
    assert_eq!(
        do_validate(
            pod_with_fs_group(0),
            Settings {
                rule: Rule::MustRunAs(Ranges {
                    ranges: vec![Range { min: 1, max: 2 }]
                })
            }
        ),
        Ok(PolicyResponse::Reject(
            "fsGroup 0 is not included in any range".to_string()
        ))
    );
}

#[test]
fn rejection_message_renders_large_values() {
    assert_eq!(
        do_validate(
            pod_with_fs_group(123456789),
            Settings {
                rule: Rule::MayRunAs(Ranges {
                    ranges: vec![Range { min: 1, max: 2 }]
                })
            }
        ),
        Ok(PolicyResponse::Reject(
            "fsGroup 123456789 is not included in any range".to_string()
        ))
    );
}

#[test]
fn range_membership_is_inclusive_at_both_boundaries() {
    let range = Range {
        min: 1000,
        max: 2000,
    };
    assert!(range.contains(1000));
    assert!(range.contains(2000));
    assert!(range.contains(1500));
    assert!(!range.contains(999));
    assert!(!range.contains(2001));
}
