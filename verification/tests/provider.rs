use system_info::provider::{ConfigError, SystemInfoProvider};

fn provider(platform: &str, version: &str, arch: &str) -> SystemInfoProvider {
    SystemInfoProvider::new(platform, version, arch).unwrap()
}

#[test]
fn answer_on_a_64_bit_arm_mac() {
    let info = provider("macos", "1.2.3", "aarch64").get_system_info().unwrap();
    assert_eq!(info.platform(), "macos");
    assert_eq!(info.version(), "1.2.3");
    assert_eq!(info.arch(), "aarch64");
}

#[test]
fn answer_on_a_linux_pc() {
    let info = provider("linux", "0.1.0", "x86_64").get_system_info().unwrap();
    assert_eq!(info.platform(), "linux");
    assert_eq!(info.version(), "0.1.0");
    assert_eq!(info.arch(), "x86_64");
}

#[test]
fn every_field_of_an_answer_is_non_empty() {
    let info = provider("windows", "10.0.0-beta.1", "x86").get_system_info().unwrap();
    assert!(!info.platform().is_empty());
    assert!(!info.version().is_empty());
    assert!(!info.arch().is_empty());
}

#[test]
fn request_never_fails() {
    let p = provider("freebsd", "2.0.0", "riscv64");
    for _ in 0..100 {
        assert!(p.get_system_info().is_ok());
    }
}

#[test]
fn version_is_kept_byte_for_byte() {
    let version = "1.2.3-rc.1+build.5 \u{e9}\u{4e16}\u{1f600}";
    let info = provider("macos", version, "aarch64").get_system_info().unwrap();
    assert_eq!(info.version().as_bytes(), version.as_bytes());
    assert_eq!(info.version().len(), version.len());
}

#[test]
fn fields_are_not_swapped() {
    let info = provider("p", "v", "a").get_system_info().unwrap();
    assert_eq!(info.platform(), "p");
    assert_eq!(info.version(), "v");
    assert_eq!(info.arch(), "a");
}

#[test]
fn whitespace_is_kept_as_given() {
    let info = provider(" linux ", "\t1.0\n", " ").get_system_info().unwrap();
    assert_eq!(info.platform(), " linux ");
    assert_eq!(info.version(), "\t1.0\n");
    assert_eq!(info.arch(), " ");
}

#[test]
fn repeated_requests_agree() {
    let p = provider("macos", "1.2.3", "aarch64");
    let first = p.get_system_info().unwrap();
    for _ in 0..50 {
        let next = p.get_system_info().unwrap();
        assert_eq!(next, first);
        assert_eq!(next.platform(), first.platform());
        assert_eq!(next.version(), first.version());
        assert_eq!(next.arch(), first.arch());
    }
}

#[test]
fn each_request_gives_a_record_of_its_own() {
    let p = provider("macos", "1.2.3", "aarch64");
    let first = p.get_system_info().unwrap();
    let second = p.get_system_info().unwrap();
    assert_ne!(first.version().as_ptr(), second.version().as_ptr());
    drop(first);
    assert_eq!(second.version(), "1.2.3");
}

#[test]
fn answer_outlives_its_provider() {
    let p = provider("linux", "3.4.5", "arm");
    let info = p.get_system_info().unwrap();
    drop(p);
    assert_eq!(info.platform(), "linux");
    assert_eq!(info.version(), "3.4.5");
    assert_eq!(info.arch(), "arm");
}

#[test]
fn providers_with_other_versions_differ() {
    let a = provider("macos", "1.2.3", "aarch64").get_system_info().unwrap();
    let b = provider("macos", "1.2.4", "aarch64").get_system_info().unwrap();
    assert_ne!(a, b);
}

#[test]
fn a_thousand_requests_agree() {
    let p = provider("macos", "1.2.3", "aarch64");
    let expected = p.get_system_info().unwrap();
    let answers: Vec<_> = (0..1000).map(|_| p.get_system_info().unwrap()).collect();
    assert_eq!(answers.len(), 1000);
    for answer in &answers {
        assert_eq!(answer, &expected);
        assert_eq!(answer.platform(), "macos");
        assert_eq!(answer.version(), "1.2.3");
        assert_eq!(answer.arch(), "aarch64");
    }
}

fn shareable_between_callers<T: Send + Sync>(_: &T) {}

#[test]
fn provider_and_record_can_be_shared_between_callers() {
    let p = provider("macos", "1.2.3", "aarch64");
    shareable_between_callers(&p);
    shareable_between_callers(&p.get_system_info().unwrap());
}

#[test]
fn empty_platform_is_refused() {
    assert_eq!(
        SystemInfoProvider::new("", "1.2.3", "aarch64").unwrap_err(),
        ConfigError::EmptyPlatform
    );
}

#[test]
fn empty_version_is_refused() {
    assert_eq!(
        SystemInfoProvider::new("macos", "", "aarch64").unwrap_err(),
        ConfigError::EmptyVersion
    );
}

#[test]
fn empty_arch_is_refused() {
    assert_eq!(
        SystemInfoProvider::new("macos", "1.2.3", "").unwrap_err(),
        ConfigError::EmptyArch
    );
}

#[test]
fn first_empty_value_is_the_one_reported() {
    assert_eq!(SystemInfoProvider::new("", "", "").unwrap_err(), ConfigError::EmptyPlatform);
    assert_eq!(SystemInfoProvider::new("", "", "a").unwrap_err(), ConfigError::EmptyPlatform);
    assert_eq!(SystemInfoProvider::new("", "v", "").unwrap_err(), ConfigError::EmptyPlatform);
    assert_eq!(SystemInfoProvider::new("p", "", "").unwrap_err(), ConfigError::EmptyVersion);
}

#[test]
fn single_characters_are_enough() {
    assert!(SystemInfoProvider::new("p", "v", "a").is_ok());
}

#[test]
fn config_error_messages() {
    assert_eq!(ConfigError::EmptyPlatform.message(), "platform name is empty");
    assert_eq!(ConfigError::EmptyVersion.message(), "version string is empty");
    assert_eq!(ConfigError::EmptyArch.message(), "architecture name is empty");
}
