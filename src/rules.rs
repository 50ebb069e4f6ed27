//! The rule resolution engine: which libraries and arguments are active for a
//! host platform and the launch's feature flags.
use vstd::prelude::*;
use crate::profile::{Library, Rule, RuleAction, RuleItem, RuleItemFeatures, RuleItemOs};

verus! {

/// The operating system family of the host, as rules name it.
#[derive(Clone, Copy, Debug, PartialEq, Eq, Structural)]
pub enum HostOs {
    Osx,
    Windows,
    Linux,
}

/// The processor architecture of the host, as far as rules tell them apart.
#[derive(Clone, Copy, Debug, PartialEq, Eq, Structural)]
pub enum Arch {
    X86,
    X64,
    Arm,
    /// An architecture that no rule names.
    Unknown,
}

/// The platform a launch runs on, resolved once and handed to the engine.
#[derive(Clone, Copy, Debug, PartialEq, Eq, Structural)]
pub struct Host {
    pub os: HostOs,
    pub arch: Arch,
}

/// The name under which rules refer to a system.
pub open spec fn os_label(os: HostOs) -> Seq<char> {
    match os {
        HostOs::Osx => "osx"@,
        HostOs::Windows => "windows"@,
        HostOs::Linux => "linux"@,
    }
}

/// The name under which rules refer to an architecture: 64-bit x86 goes by
/// `x86` as 32-bit x86 does; an unknown one has no name.
pub open spec fn arch_label(arch: Arch) -> Option<Seq<char>> {
    match arch {
        Arch::X86 => Some("x86"@),
        Arch::X64 => Some("x86"@),
        Arch::Arm => Some("arm"@),
        Arch::Unknown => None,
    }
}

/// The architecture a machine name (as `uname -m` gives it) stands for.
pub open spec fn arch_named(name: Seq<char>) -> Arch {
    if name == "x86_64"@ || name == "amd64"@ {
        Arch::X64
    } else if name == "x86"@ || name == "i386"@ || name == "i586"@ || name == "i686"@ {
        Arch::X86
    } else if name == "arm"@ || name == "arm64"@ || name == "aarch64"@ || name == "armv7l"@ {
        Arch::Arm
    } else {
        Arch::Unknown
    }
}

/// Whether a string is one of some names.
fn is_one_of(s: &String, names: &[&str]) -> (r: bool)
    ensures
        r == exists|k: int| 0 <= k < names@.len() && s@ == (#[trigger] names@[k])@,
{
    let mut i: usize = 0;
    while i < names.len()
        invariant
            i <= names@.len(),
            forall|k: int| 0 <= k < i ==> s@ != (#[trigger] names@[k])@,
        decreases names@.len() - i,
    {
        let n = names[i].to_owned();
        if s.eq(&n) {
            return true;
        }
        i = i + 1;
    }
    false
}

/// The architecture a machine name stands for.
pub fn arch_from_name(name: &String) -> (r: Arch)
    ensures
        r == arch_named(name@),
{
    let x64: [&str; 2] = ["x86_64", "amd64"];
    let x86: [&str; 4] = ["x86", "i386", "i586", "i686"];
    let arm: [&str; 4] = ["arm", "arm64", "aarch64", "armv7l"];
    let ghost n = name@;
    if is_one_of(name, &x64) {
        assert(n == "x86_64"@ || n == "amd64"@);
        Arch::X64
    } else if is_one_of(name, &x86) {
        assert(!(n == "x86_64"@ || n == "amd64"@)) by {
            assert(x64@[0] == "x86_64");
            assert(x64@[1] == "amd64");
        }
        Arch::X86
    } else if is_one_of(name, &arm) {
        assert(!(n == "x86_64"@ || n == "amd64"@)) by {
            assert(x64@[0] == "x86_64");
            assert(x64@[1] == "amd64");
        }
        assert(!(n == "x86"@ || n == "i386"@ || n == "i586"@ || n == "i686"@)) by {
            assert(x86@[0] == "x86");
            assert(x86@[1] == "i386");
            assert(x86@[2] == "i586");
            assert(x86@[3] == "i686");
        }
        Arch::Arm
    } else {
        assert(!(n == "x86_64"@ || n == "amd64"@)) by {
            assert(x64@[0] == "x86_64");
            assert(x64@[1] == "amd64");
        }
        assert(!(n == "x86"@ || n == "i386"@ || n == "i586"@ || n == "i686"@)) by {
            assert(x86@[0] == "x86");
            assert(x86@[1] == "i386");
            assert(x86@[2] == "i586");
            assert(x86@[3] == "i686");
        }
        assert(!(n == "arm"@ || n == "arm64"@ || n == "aarch64"@ || n == "armv7l"@)) by {
            assert(arm@[0] == "arm");
            assert(arm@[1] == "arm64");
            assert(arm@[2] == "aarch64");
            assert(arm@[3] == "armv7l");
        }
        Arch::Unknown
    }
}

/// The name under which rules refer to a system.
pub fn os_label_string(os: HostOs) -> (r: String)
    ensures
        r@ == os_label(os),
{
    match os {
        HostOs::Osx => "osx".to_owned(),
        HostOs::Windows => "windows".to_owned(),
        HostOs::Linux => "linux".to_owned(),
    }
}

/// Relies on os_info::get and Info::os_type: the running system's type. macOS
/// and Windows keep their names; every other system counts as linux.
#[verifier::external_body]
fn running_os() -> (r: HostOs) {
    match os_info::get().os_type() {
        os_info::Type::Macos => HostOs::Osx,
        os_info::Type::Windows => HostOs::Windows,
        _ => HostOs::Linux,
    }
}

/// Relies on os_info::get and Info::architecture: the running machine's name
/// for its processor architecture, where it could be found.
#[verifier::external_body]
fn running_architecture() -> (r: Option<String>) {
    match os_info::get().architecture() {
        Some(a) => Some(a.to_owned()),
        None => None,
    }
}

impl Host {
    /// The platform this process runs on.
    pub fn current() -> (r: Host) {
        let os = running_os();
        let arch = match running_architecture() {
            Some(name) => arch_from_name(&name),
            None => Arch::Unknown,
        };
        Host { os, arch }
    }
}

impl RuleItemFeatures {
    /// Each present flag equals the launch's flag; an absent one does not matter.
    pub open spec fn holds(self, demo: bool, custom_resolution: bool) -> bool {
        (match self.is_demo_user {
            Some(d) => d == demo,
            None => true,
        }) && (match self.has_custom_resolution {
            Some(c) => c == custom_resolution,
            None => true,
        })
    }

    pub fn is_true(&self, demo: bool, custom_resolution: bool) -> (r: bool)
        ensures
            r == self.holds(demo, custom_resolution),
    {
        let demo_ok = match self.is_demo_user {
            Some(is_demo_user) => demo == is_demo_user,
            None => true,
        };
        let resolution_ok = match self.has_custom_resolution {
            Some(has_custom_resolution) => custom_resolution == has_custom_resolution,
            None => true,
        };
        demo_ok && resolution_ok
    }
}

impl RuleItemOs {
    /// The architecture and the name match the host where they are given; the
    /// version is not evaluated.
    pub open spec fn holds(self, host: Host) -> bool {
        (match self.arch {
            Some(a) => arch_label(host.arch) == Some(a@),
            None => true,
        }) && (match self.name {
            Some(n) => n@ == os_label(host.os),
            None => true,
        })
    }

    pub fn is_true(&self, host: &Host) -> (r: bool)
        ensures
            r == self.holds(*host),
    {
        let arch = match &self.arch {
            Some(arch) => match host.arch {
                Arch::X86 | Arch::X64 => {
                    let x86 = "x86".to_owned();
                    arch.eq(&x86)
                },
                Arch::Arm => {
                    let arm = "arm".to_owned();
                    arch.eq(&arm)
                },
                Arch::Unknown => false,
            },
            None => true,
        };
        let name = match &self.name {
            Some(name) => {
                let label = os_label_string(host.os);
                name.eq(&label)
            },
            None => true,
        };
        arch && name
    }
}

impl RuleItem {
    /// The conjunction of the present predicates, inverted by `Disallow`.
    pub open spec fn holds(self, host: Host, demo: bool, custom_resolution: bool) -> bool {
        let features = match self.features {
            Some(f) => f.holds(demo, custom_resolution),
            None => true,
        };
        let os = match self.os {
            Some(o) => o.holds(host),
            None => true,
        };
        match self.action {
            RuleAction::Allow => features && os,
            RuleAction::Disallow => !(features && os),
        }
    }

    pub fn is_true(&self, host: &Host, demo: bool, custom_resolution: bool) -> (r: bool)
        ensures
            r == self.holds(*host, demo, custom_resolution),
    {
        let features = match &self.features {
            Some(features) => features.is_true(demo, custom_resolution),
            None => true,
        };
        let os = match &self.os {
            Some(os) => os.is_true(host),
            None => true,
        };
        match self.action {
            RuleAction::Allow => features && os,
            RuleAction::Disallow => !(features && os),
        }
    }
}

/// Every item of a list of rules holds.
pub open spec fn all_hold(items: Seq<RuleItem>, host: Host, demo: bool, custom_resolution: bool) -> bool {
    forall|k: int| 0 <= k < items.len() ==> #[trigger] items[k].holds(host, demo, custom_resolution)
}

/// Evaluates a list of rules: true when every item holds.
pub fn all_true(items: &Vec<RuleItem>, host: &Host, demo: bool, custom_resolution: bool) -> (r: bool)
    ensures
        r == all_hold(items@, *host, demo, custom_resolution),
{
    let mut i: usize = 0;
    while i < items.len()
        invariant
            i <= items@.len(),
            all_hold(items@.subrange(0, i as int), *host, demo, custom_resolution),
        decreases items@.len() - i,
    {
        if !items[i].is_true(host, demo, custom_resolution) {
            assert(!items@[i as int].holds(*host, demo, custom_resolution));
            return false;
        }
        assert(items@.subrange(0, i + 1) =~= items@.subrange(0, i as int).push(items@[i as int]));
        i = i + 1;
    }
    assert(items@.subrange(0, i as int) =~= items@);
    true
}

impl Rule {
    /// All items of the rule hold.
    pub open spec fn holds(self, host: Host, demo: bool, custom_resolution: bool) -> bool {
        all_hold(self.rules@, host, demo, custom_resolution)
    }

    pub fn is_true(&self, host: &Host, demo: bool, custom_resolution: bool) -> (r: bool)
        ensures
            r == self.holds(*host, demo, custom_resolution),
    {
        all_true(&self.rules, host, demo, custom_resolution)
    }
}

impl Library {
    /// A library without rules is always active; one with rules is active when
    /// they all hold with both feature flags off.
    pub open spec fn active(self, host: Host) -> bool {
        match self.rules {
            Some(items) => all_hold(items@, host, false, false),
            None => true,
        }
    }

    pub fn is_active(&self, host: &Host) -> (r: bool)
        ensures
            r == self.active(*host),
    {
        match &self.rules {
            Some(items) => all_true(items, host, false, false),
            None => true,
        }
    }
}

/// A rule tree without items holds; an item that disallows and has no
/// predicates fails; an item with predicates holds exactly when the conjunction
/// of its present predicates does (inverted by `Disallow`).
pub proof fn lemma_rule_evaluation(
    host: Host,
    demo: bool,
    custom_resolution: bool,
    item: RuleItem,
)
    ensures
        all_hold(Seq::<RuleItem>::empty(), host, demo, custom_resolution),
        item.features is None && item.os is None && item.action == RuleAction::Disallow ==> (
            !all_hold(seq![item], host, demo, custom_resolution)),
        all_hold(seq![item], host, demo, custom_resolution) == (
            ((match item.features {
                Some(f) => f.holds(demo, custom_resolution),
                None => true,
            }) && (match item.os {
                Some(o) => o.holds(host),
                None => true,
            })) == (item.action == RuleAction::Allow)),
{
    let s = seq![item];
    assert(s.len() == 1 && s[0] == item);
    if item.holds(host, demo, custom_resolution) {
        assert forall|k: int| 0 <= k < s.len() implies #[trigger] s[k].holds(
            host,
            demo,
            custom_resolution,
        ) by {
            assert(k == 0);
        }
    }
}

} // verus!
