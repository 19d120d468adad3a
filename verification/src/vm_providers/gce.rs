//! Google Compute Engine: the decisions between the calls into the cloud.

use super::{Poll, POLL_INTERVAL};
use crate::arch::Arch;
use crate::text::{
    ascii_lower, decimal, is_alphanumeric, push_decimal, random_alphanumeric, same_text,
    to_ascii_lowercase,
};
use vstd::prelude::*;
use vstd::string::*;

verus! {

/// The options of the provider.
pub struct Gce {
    /// Project in which to create instances.
    pub project: String,
    /// The zone of the instances.
    pub zone: String,
    /// The machine type of the instances.
    pub machine_type: String,
    /// Disk size, in GiBs.
    pub disk: Option<usize>,
}

/// The machine type matched more than one architecture, or one of them
/// more than once.
#[derive(Clone, Copy, Debug, PartialEq, Eq, Structural)]
pub struct UnsupportedArchitectures;

/// A status of an instance, as the cloud reports it.
#[derive(Clone, Copy, Debug, PartialEq, Eq, Structural)]
pub enum Status {
    Provisioning,
    Staging,
    Running,
    /// Any other status: stopping, suspended, terminated and the like.
    Other,
}

/// What the search for the firewall rule gave.
pub enum FirewallLookup {
    /// A rule came back, with this name.
    Found(String),
    /// The cloud answered that there is no such rule.
    NotFound,
    /// The call failed otherwise.
    Failed,
}

/// What to do about the firewall rule.
#[derive(Clone, Copy, Debug, PartialEq, Eq, Structural)]
pub enum FirewallDecision {
    /// The rule exists.
    Keep,
    /// Create the rule.
    Create,
    /// Give up.
    Fail,
}

/// The architecture of a machine type, from the number of times the type
/// matched each architecture's filter. A type that matches neither is taken
/// for x86-64, of which the cloud does not always tell.
pub open spec fn matched_arch(arm64: usize, x86_64: usize) -> Option<Arch> {
    if arm64 == 0 && x86_64 == 0 {
        Some(Arch::Amd64)
    } else if arm64 == 1 && x86_64 == 0 {
        Some(Arch::Arm64)
    } else if arm64 == 0 && x86_64 == 1 {
        Some(Arch::Amd64)
    } else {
        None
    }
}

/// The image family of Ubuntu 24.04 for an architecture.
pub open spec fn image_family(arch: Arch) -> Seq<char> {
    "projects/ubuntu-os-cloud/global/images/family/ubuntu-2404-lts-"@ + arch.dpkg_text()
}

/// The name of an instance: the process id and a suffix that tells apart
/// the hosts that launch machines.
pub open spec fn instance_name_text(pid: u32, suffix: Seq<char>) -> Seq<char> {
    "fleeting-"@ + decimal(pid as nat) + "-"@ + ascii_lower(suffix)
}

impl Gce {
    /// The tag of the instances, which the firewall rule aims at.
    pub fn instance_tag() -> (tag: &'static str)
        ensures
            tag@ == "fleeting"@,
    {
        "fleeting"
    }

    /// The name of the firewall rule that lets traffic in.
    pub fn firewall_rule_name() -> (name: &'static str)
        ensures
            name@ == "fleeting-allow-inbound"@,
    {
        "fleeting-allow-inbound"
    }

    /// The filter that finds the terminated machines of earlier runs.
    pub fn terminated_filter() -> (filter: &'static str)
        ensures
            filter@ == "(name = \"fleeting-*\") AND (status = TERMINATED)"@,
    {
        "(name = \"fleeting-*\") AND (status = TERMINATED)"
    }

    /// The filter that matches the machine type if it has the architecture
    /// that the cloud calls `google_arch`.
    pub fn architecture_filter(&self, google_arch: &str) -> (filter: String)
        ensures
            filter@ == "(name = "@ + self.machine_type@ + ") AND (architecture = "@
                + google_arch@ + ")"@,
    {
        let mut filter = String::from_str("(name = ");
        filter.append(self.machine_type.as_str());
        filter.append(") AND (architecture = ");
        filter.append(google_arch);
        filter.append(")");
        filter
    }

    /// The machine type as a path below the zone.
    pub fn machine_type_path(&self) -> (path: String)
        ensures
            path@ == "zones/"@ + self.zone@ + "/machineTypes/"@ + self.machine_type@,
    {
        let mut path = String::from_str("zones/");
        path.append(self.zone.as_str());
        path.append("/machineTypes/");
        path.append(self.machine_type.as_str());
        path
    }

    /// The type of the boot disk as a path below the zone.
    pub fn disk_type_path(&self) -> (path: String)
        ensures
            path@ == "zones/"@ + self.zone@ + "/diskTypes/pd-balanced"@,
    {
        let mut path = String::from_str("zones/");
        path.append(self.zone.as_str());
        path.append("/diskTypes/pd-balanced");
        path
    }

    /// The size of the boot disk as the cloud takes it, where one was chosen.
    pub fn disk_size_gb(&self) -> (size: Option<String>)
        ensures
            match self.disk {
                Some(gib) => size is Some && size->0@ == decimal(gib as nat),
                None => size is None,
            },
    {
        match self.disk {
            Some(gib) => {
                let mut size = String::new();
                push_decimal(&mut size, gib as u64);
                assert(Seq::<char>::empty() + decimal(gib as nat) =~= decimal(gib as nat));
                Some(size)
            },
            None => None,
        }
    }

    /// Decides the architecture of the machine type from the number of
    /// matches of the ARM filter and of the x86-64 filter.
    pub fn resolve_arch(arm64: usize, x86_64: usize) -> (arch: Result<
        Arch,
        UnsupportedArchitectures,
    >)
        ensures
            match matched_arch(arm64, x86_64) {
                Some(found) => arch == Ok::<Arch, UnsupportedArchitectures>(found),
                None => arch is Err,
            },
    {
        if arm64 == 0 && x86_64 == 0 {
            Ok(Arch::Amd64)
        } else if arm64 == 1 && x86_64 == 0 {
            Ok(Arch::Arm64)
        } else if arm64 == 0 && x86_64 == 1 {
            Ok(Arch::Amd64)
        } else {
            Err(UnsupportedArchitectures)
        }
    }

    /// The image to launch an architecture with: every architecture has one.
    pub fn source_image(arch: Arch) -> (image: String)
        ensures
            image@ == image_family(arch),
    {
        let mut image = String::from_str(
            "projects/ubuntu-os-cloud/global/images/family/ubuntu-2404-lts-",
        );
        image.append(arch.as_dpkg());
        image
    }

    /// Decides what to do about the firewall rule: keep the one that is
    /// there, create it where the cloud knows none, give up otherwise. A
    /// rule of another name than the one asked for is not the rule.
    pub fn firewall(lookup: &FirewallLookup) -> (decision: FirewallDecision)
        ensures
            decision == match *lookup {
                FirewallLookup::Found(name) => if name@ == "fleeting-allow-inbound"@ {
                    FirewallDecision::Keep
                } else {
                    FirewallDecision::Fail
                },
                FirewallLookup::NotFound => FirewallDecision::Create,
                FirewallLookup::Failed => FirewallDecision::Fail,
            },
    {
        match lookup {
            FirewallLookup::Found(name) => {
                if same_text(name.as_str(), Gce::firewall_rule_name()) {
                    FirewallDecision::Keep
                } else {
                    FirewallDecision::Fail
                }
            },
            FirewallLookup::NotFound => FirewallDecision::Create,
            FirewallLookup::Failed => FirewallDecision::Fail,
        }
    }

    /// A fresh suffix for the name of an instance: eight letters and digits.
    pub fn random_suffix() -> (suffix: String)
        ensures
            suffix@.len() == 8,
            forall|i: int| 0 <= i < suffix@.len() ==> is_alphanumeric(#[trigger] suffix@[i]),
    {
        random_alphanumeric(8)
    }

    /// Names the instance of the process `pid`; the suffix is put in lower
    /// case, as the cloud wants names.
    pub fn instance_name(pid: u32, suffix: &str) -> (name: String)
        ensures
            name@ == instance_name_text(pid, suffix@),
    {
        let mut name = String::from_str("fleeting-");
        push_decimal(&mut name, pid as u64);
        name.append("-");
        name.append(to_ascii_lowercase(suffix).as_str());
        name
    }

    /// Decides what to do after a look at the launched instance: wait while
    /// it is being set up, go on once it runs, give up otherwise.
    pub fn poll_instance(status: Status) -> (poll: Poll)
        ensures
            poll == match status {
                Status::Provisioning | Status::Staging => Poll::Wait(POLL_INTERVAL),
                Status::Running => Poll::Ready,
                Status::Other => Poll::Failed,
            },
    {
        match status {
            Status::Provisioning | Status::Staging => Poll::Wait(POLL_INTERVAL),
            Status::Running => Poll::Ready,
            Status::Other => Poll::Failed,
        }
    }
}

impl UnsupportedArchitectures {
    /// The message of the error.
    pub fn message(&self, arm64: usize, x86_64: usize) -> (message: String)
        ensures
            message@ == "unsupported instance type architectures: arm64 matched "@ + decimal(
                arm64 as nat,
            ) + ", x86_64 matched "@ + decimal(x86_64 as nat),
    {
        let mut message = String::from_str(
            "unsupported instance type architectures: arm64 matched ",
        );
        push_decimal(&mut message, arm64 as u64);
        message.append(", x86_64 matched ");
        push_decimal(&mut message, x86_64 as u64);
        message
    }
}

/// The choice of an image covers every architecture: each has an image
/// family, and every pair of match counts either names an architecture or
/// is refused.
pub proof fn lemma_image_choice_is_total(arm64: usize, x86_64: usize, arch: Arch)
    ensures
        image_family(arch).len() > 0,
        matched_arch(arm64, x86_64) is None <==> arm64 + x86_64 > 1,
{
    reveal_strlit("projects/ubuntu-os-cloud/global/images/family/ubuntu-2404-lts-");
}

} // verus!
