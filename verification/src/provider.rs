//! The provider that answers "what is this host?".

use vstd::prelude::*;
use crate::record::{SystemInfo, SystemInfoView};

verus! {

/// Why a provider could not be configured: the value named was empty.
#[derive(Clone, Copy, Debug, PartialEq, Eq, Structural)]
pub enum ConfigError {
    EmptyPlatform,
    EmptyVersion,
    EmptyArch,
}

/// The error that configuring with these three values gives, if any. The
/// values are looked at in the order platform, version, architecture, and the
/// first empty one is reported.
pub open spec fn config_error(platform: Seq<char>, version: Seq<char>, arch: Seq<char>) -> Option<
    ConfigError,
> {
    if platform.len() == 0 {
        Some(ConfigError::EmptyPlatform)
    } else if version.len() == 0 {
        Some(ConfigError::EmptyVersion)
    } else if arch.len() == 0 {
        Some(ConfigError::EmptyArch)
    } else {
        None
    }
}

impl ConfigError {
    /// The description of this error, as a sequence of characters.
    pub open spec fn spec_message(self) -> Seq<char> {
        match self {
            ConfigError::EmptyPlatform => "platform name is empty"@,
            ConfigError::EmptyVersion => "version string is empty"@,
            ConfigError::EmptyArch => "architecture name is empty"@,
        }
    }

    /// A description of this error for the front-end or the log.
    pub fn message(&self) -> (text: String)
        ensures
            text@ == self.spec_message(),
    {
        match self {
            ConfigError::EmptyPlatform => "platform name is empty".to_owned(),
            ConfigError::EmptyVersion => "version string is empty".to_owned(),
            ConfigError::EmptyArch => "architecture name is empty".to_owned(),
        }
    }
}

/// Answers requests for the host's metadata. It is configured once, with the
/// operating system family, the application's version and the CPU
/// architecture, and hands out a fresh [`SystemInfo`] on every request.
#[derive(Debug)]
pub struct SystemInfoProvider {
    platform: String,
    version: String,
    arch: String,
}

impl View for SystemInfoProvider {
    type V = SystemInfoView;

    /// The record that this provider answers with.
    closed spec fn view(&self) -> SystemInfoView {
        SystemInfoView { platform: self.platform@, version: self.version@, arch: self.arch@ }
    }
}

impl SystemInfoProvider {
    #[verifier::type_invariant]
    spec fn configured(&self) -> bool {
        self@.populated()
    }

    /// Configures a provider. All three values must be non-empty: an empty
    /// one is refused, and the error says which.
    pub fn new(platform: &str, version: &str, arch: &str) -> (made: Result<
        SystemInfoProvider,
        ConfigError,
    >)
        ensures
            match config_error(platform@, version@, arch@) {
                Some(error) => made == Err::<SystemInfoProvider, ConfigError>(error),
                None => made is Ok && made.unwrap()@ == (SystemInfoView {
                    platform: platform@,
                    version: version@,
                    arch: arch@,
                }),
            },
    {
        if platform.is_empty() {
            Err(ConfigError::EmptyPlatform)
        } else if version.is_empty() {
            Err(ConfigError::EmptyVersion)
        } else if arch.is_empty() {
            Err(ConfigError::EmptyArch)
        } else {
            Ok(
                SystemInfoProvider {
                    platform: platform.to_owned(),
                    version: version.to_owned(),
                    arch: arch.to_owned(),
                },
            )
        }
    }

    /// Answers a request. The answer is always `Ok`: it holds the three
    /// values that the provider was configured with, none of them empty. The
    /// error branch is kept for the front-end's interface and is never taken.
    pub fn get_system_info(&self) -> (answer: Result<SystemInfo, String>)
        ensures
            answer is Ok,
            answer.unwrap()@ == self@,
            answer.unwrap()@.populated(),
    {
        proof {
            use_type_invariant(self);
        }
        Ok(SystemInfo::assemble(self.platform.clone(), self.version.clone(), self.arch.clone()))
    }
}

/// Repeated requests agree. Whatever two requests to one provider return,
/// both are records and they hold the same platform, the same version and
/// the same architecture: nothing drifts between requests.
pub proof fn lemma_answers_agree(
    provider: SystemInfoProvider,
    first: Result<SystemInfo, String>,
    second: Result<SystemInfo, String>,
)
    requires
        first is Ok,
        first.unwrap()@ == provider@,
        second is Ok,
        second.unwrap()@ == provider@,
    ensures
        first.unwrap()@ == second.unwrap()@,
        first.unwrap()@.platform == second.unwrap()@.platform,
        first.unwrap()@.version == second.unwrap()@.version,
        first.unwrap()@.arch == second.unwrap()@.arch,
{
}

/// An answer repeats the configuration exactly. A provider configured with
/// three non-empty values answers every request with those values, character
/// for character; in particular the version in the answer is the version
/// that the build declared.
pub proof fn lemma_answer_repeats_configuration(
    platform: Seq<char>,
    version: Seq<char>,
    arch: Seq<char>,
    made: Result<SystemInfoProvider, ConfigError>,
    answer: Result<SystemInfo, String>,
)
    requires
        config_error(platform, version, arch) is None,
        made is Ok,
        made.unwrap()@ == (SystemInfoView { platform, version, arch }),
        answer is Ok,
        answer.unwrap()@ == made.unwrap()@,
    ensures
        answer.unwrap()@.platform == platform,
        answer.unwrap()@.version == version,
        answer.unwrap()@.arch == arch,
        answer.unwrap()@.populated(),
{
}

} // verus!
